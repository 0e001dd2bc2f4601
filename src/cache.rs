use vstd::prelude::*;
use dashmap::DashMap;
use crate::presence::{PresenceData, is_presence_stale, stale_at};

verus! {

/// What a presence table holds: user id to record.
pub uninterp spec fn presence_entries(m: DashMap<String, PresenceData>) -> Map<Seq<char>, PresenceData>;

/// Relies on DashMap::new: a new map holds no entry.
#[verifier::external_body]
fn presence_map_new() -> (r: DashMap<String, PresenceData>)
    ensures
        presence_entries(r).dom() == Set::<Seq<char>>::empty(),
{
    DashMap::new()
}

/// Relies on DashMap::get: the value stored under the key, cloned, or `None`.
#[verifier::external_body]
fn presence_map_get(m: &DashMap<String, PresenceData>, key: &str) -> (r: Option<PresenceData>)
    ensures
        r == (if presence_entries(*m).contains_key(key@) {
            Some(presence_entries(*m)[key@])
        } else {
            None::<PresenceData>
        }),
{
    m.get(key).map(|e| e.value().clone())
}

/// Relies on DashMap::insert: the key maps to the value afterwards, other keys keep theirs.
#[verifier::external_body]
fn presence_map_insert(m: &mut DashMap<String, PresenceData>, key: String, value: PresenceData)
    ensures
        presence_entries(*final(m)) == presence_entries(*old(m)).insert(key@, value),
{
    m.insert(key, value);
}

/// Relies on DashMap::remove: the key is absent afterwards, other keys keep theirs.
#[verifier::external_body]
fn presence_map_remove(m: &mut DashMap<String, PresenceData>, key: &str)
    ensures
        presence_entries(*final(m)) == presence_entries(*old(m)).remove(key@),
{
    m.remove(key);
}

/// What `get` returns on a table `m` at time `now_ms`: the record if present and fresh.
pub open spec fn lookup_fresh(m: Map<Seq<char>, PresenceData>, user_id: Seq<char>, now_ms: i64) -> Option<
    PresenceData,
> {
    if m.contains_key(user_id) && !stale_at(m[user_id].timestamp_ms, now_ms) {
        Some(m[user_id])
    } else {
        None
    }
}

/// The table after `get`: a stale record is evicted, nothing else changes.
pub open spec fn after_lookup(m: Map<Seq<char>, PresenceData>, user_id: Seq<char>, now_ms: i64) -> Map<
    Seq<char>,
    PresenceData,
> {
    if m.contains_key(user_id) && stale_at(m[user_id].timestamp_ms, now_ms) {
        m.remove(user_id)
    } else {
        m
    }
}

/// The presence store: user id to latest record, with TTL-based staleness.
pub struct Cache {
    memory: DashMap<String, PresenceData>,
}

impl View for Cache {
    type V = Map<Seq<char>, PresenceData>;

    closed spec fn view(&self) -> Map<Seq<char>, PresenceData> {
        presence_entries(self.memory)
    }
}

impl Cache {
    /// An empty store.
    pub fn new() -> (r: Cache)
        ensures
            r@ == Map::<Seq<char>, PresenceData>::empty(),
    {
        let memory = presence_map_new();
        assert(presence_entries(memory) =~= Map::<Seq<char>, PresenceData>::empty());
        Cache { memory }
    }

    /// The record of `user_id` if present and fresh at `now_ms`; a stale record
    /// is evicted and reported absent.
    pub fn get(&mut self, user_id: &str, now_ms: i64) -> (r: Option<PresenceData>)
        ensures
            r == lookup_fresh(old(self)@, user_id@, now_ms),
            final(self)@ == after_lookup(old(self)@, user_id@, now_ms),
    {
        match presence_map_get(&self.memory, user_id) {
            Some(p) => {
                if is_presence_stale(&p, now_ms) {
                    presence_map_remove(&mut self.memory, user_id);
                    None
                } else {
                    Some(p)
                }
            },
            None => None,
        }
    }

    /// Stores `data` as the record of `user_id`, replacing any earlier one.
    pub fn set(&mut self, user_id: &str, data: &PresenceData)
        ensures
            final(self)@ == old(self)@.insert(user_id@, *data),
    {
        let key = String::from_str(user_id);
        presence_map_insert(&mut self.memory, key, data.duplicate());
    }

    /// Drops the record of `user_id`, if any.
    pub fn remove(&mut self, user_id: &str)
        ensures
            final(self)@ == old(self)@.remove(user_id@),
    {
        presence_map_remove(&mut self.memory, user_id);
    }

    /// The underlying table.
    pub fn get_memory(&self) -> (r: &DashMap<String, PresenceData>)
        ensures
            presence_entries(*r) == self@,
    {
        &self.memory
    }
}

/// State of the optional remote cache tier, settled once at startup.
#[derive(Debug, Clone, Copy, PartialEq, Eq)]
pub enum RemoteTier {
    /// Startup has not decided yet.
    Pending,
    /// No remote tier: the store runs on memory alone.
    Unavailable,
    /// A remote tier is connected.
    Connected,
}

/// Whether the remote tier is in use.
pub fn is_redis_available(tier: RemoteTier) -> (r: bool)
    ensures
        r == (tier is Connected),
{
    match tier {
        RemoteTier::Connected => true,
        _ => false,
    }
}

/// Settles the remote tier once: while it is pending, `connected` decides
/// it; once settled, later calls change nothing. Returns whether it is in use.
pub fn init_redis(tier: &mut RemoteTier, connected: bool) -> (r: bool)
    ensures
        *old(tier) is Pending ==> *final(tier) == (if connected {
            RemoteTier::Connected
        } else {
            RemoteTier::Unavailable
        }),
        !(*old(tier) is Pending) ==> *final(tier) == *old(tier),
        r == (*final(tier) is Connected),
{
    if let RemoteTier::Pending = *tier {
        *tier = if connected {
            RemoteTier::Connected
        } else {
            RemoteTier::Unavailable
        };
    }
    is_redis_available(*tier)
}

} // verus!
