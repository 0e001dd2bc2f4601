use vstd::prelude::*;
use dashmap::DashMap;
use crate::cache::Cache;
use crate::presence::PresenceData;

verus! {

/// The notification cell of one watched user: the latest published record, a
/// version that changes on every publish, and the number of live observers.
#[derive(Clone, Debug, PartialEq, Eq)]
pub struct WatchCell {
    pub latest: Option<PresenceData>,
    pub version: u64,
    pub observers: u64,
}

/// What a cell table holds: user id to cell.
pub uninterp spec fn cell_entries(m: DashMap<String, WatchCell>) -> Map<Seq<char>, WatchCell>;

/// Relies on DashMap::new: a new map holds no entry.
#[verifier::external_body]
fn cell_map_new() -> (r: DashMap<String, WatchCell>)
    ensures
        cell_entries(r).dom() == Set::<Seq<char>>::empty(),
{
    DashMap::new()
}

/// Relies on DashMap::get: the value stored under the key, cloned, or `None`.
#[verifier::external_body]
fn cell_map_get(m: &DashMap<String, WatchCell>, key: &str) -> (r: Option<WatchCell>)
    ensures
        r == (if cell_entries(*m).contains_key(key@) {
            Some(cell_entries(*m)[key@])
        } else {
            None::<WatchCell>
        }),
{
    m.get(key).map(|e| e.value().clone())
}

/// Relies on DashMap::insert: the key maps to the value afterwards, other keys keep theirs.
#[verifier::external_body]
fn cell_map_insert(m: &mut DashMap<String, WatchCell>, key: String, value: WatchCell)
    ensures
        cell_entries(*final(m)) == cell_entries(*old(m)).insert(key@, value),
{
    m.insert(key, value);
}

/// Relies on DashMap::remove: the key is absent afterwards, other keys keep theirs.
#[verifier::external_body]
fn cell_map_remove(m: &mut DashMap<String, WatchCell>, key: &str)
    ensures
        cell_entries(*final(m)) == cell_entries(*old(m)).remove(key@),
{
    m.remove(key);
}

/// The version that follows `v`; it wraps around after the largest one.
pub open spec fn next_version(v: u64) -> u64 {
    if v == u64::MAX {
        0
    } else {
        (v + 1) as u64
    }
}

/// Whether a cell table can take one more observer of `user_id`.
pub open spec fn can_subscribe(m: Map<Seq<char>, WatchCell>, user_id: Seq<char>) -> bool {
    !(m.contains_key(user_id) && m[user_id].observers == u64::MAX)
}

/// The cell a new observer of `user_id` is attached to.
pub open spec fn subscribed_cell(m: Map<Seq<char>, WatchCell>, user_id: Seq<char>) -> WatchCell {
    if m.contains_key(user_id) {
        WatchCell { observers: (m[user_id].observers + 1) as u64, ..m[user_id] }
    } else {
        WatchCell { latest: None, version: 0, observers: 1 }
    }
}

/// The cell table after one more observer of `user_id`.
pub open spec fn subscribe_spec(m: Map<Seq<char>, WatchCell>, user_id: Seq<char>) -> Map<
    Seq<char>,
    WatchCell,
> {
    m.insert(user_id, subscribed_cell(m, user_id))
}

/// Whether releasing an observer of `user_id` ends its cell.
pub open spec fn release_ends_cell(m: Map<Seq<char>, WatchCell>, user_id: Seq<char>) -> bool {
    m.contains_key(user_id) && m[user_id].observers <= 1
}

/// The cell table after one observer of `user_id` is released.
pub open spec fn release_spec(m: Map<Seq<char>, WatchCell>, user_id: Seq<char>) -> Map<
    Seq<char>,
    WatchCell,
> {
    if release_ends_cell(m, user_id) {
        m.remove(user_id)
    } else if m.contains_key(user_id) {
        m.insert(user_id, WatchCell { observers: (m[user_id].observers - 1) as u64, ..m[user_id] })
    } else {
        m
    }
}

/// The cell table after `record` is published to `user_id`.
pub open spec fn notify_spec(m: Map<Seq<char>, WatchCell>, user_id: Seq<char>, record: PresenceData) -> Map<
    Seq<char>,
    WatchCell,
> {
    if m.contains_key(user_id) {
        m.insert(
            user_id,
            WatchCell {
                latest: Some(record),
                version: next_version(m[user_id].version),
                observers: m[user_id].observers,
            },
        )
    } else {
        m
    }
}

/// What an observer of `user_id` that last saw version `seen` finds when it looks.
#[derive(Debug, PartialEq, Eq)]
pub enum CellPoll {
    /// Nothing was published since the observer last looked.
    Unchanged,
    /// Something was published: the latest value, whatever came before it.
    Changed(Option<PresenceData>),
    /// The cell no longer exists.
    Gone,
}

pub open spec fn poll_spec(m: Map<Seq<char>, WatchCell>, user_id: Seq<char>, seen: u64) -> CellPoll {
    if !m.contains_key(user_id) {
        CellPoll::Gone
    } else if m[user_id].version == seen {
        CellPoll::Unchanged
    } else {
        CellPoll::Changed(m[user_id].latest)
    }
}

/// The version an observer has seen after looking at the cell.
pub open spec fn seen_after_poll(m: Map<Seq<char>, WatchCell>, user_id: Seq<char>, seen: u64) -> u64 {
    if m.contains_key(user_id) {
        m[user_id].version
    } else {
        seen
    }
}

/// One observer's attachment to a user's cell.
pub struct ObserverHandle {
    user_id: String,
    seen: u64,
}

impl View for ObserverHandle {
    /// The watched user id and the last version seen.
    type V = (Seq<char>, u64);

    closed spec fn view(&self) -> (Seq<char>, u64) {
        (self.user_id@, self.seen)
    }
}

impl ObserverHandle {
    /// The watched user id.
    pub fn user_id(&self) -> (r: &str)
        ensures
            r@ == self@.0,
    {
        self.user_id.as_str()
    }
}

/// Per-user subscription cells with latest-value-wins delivery.
pub struct WatchRegistry {
    cells: DashMap<String, WatchCell>,
}

impl View for WatchRegistry {
    type V = Map<Seq<char>, WatchCell>;

    closed spec fn view(&self) -> Map<Seq<char>, WatchCell> {
        cell_entries(self.cells)
    }
}

impl WatchRegistry {
    /// Every cell that exists has at least one observer.
    pub open spec fn wf(&self) -> bool {
        forall|k: Seq<char>| #[trigger] self@.contains_key(k) ==> self@[k].observers > 0
    }

    /// A registry without cells.
    pub fn new() -> (r: WatchRegistry)
        ensures
            r@ == Map::<Seq<char>, WatchCell>::empty(),
            r.wf(),
    {
        let cells = cell_map_new();
        assert(cell_entries(cells) =~= Map::<Seq<char>, WatchCell>::empty());
        WatchRegistry { cells }
    }

    /// Attaches a new observer to the cell of `user_id`, creating the cell if
    /// needed. The handle starts at the cell's current version, so it reports
    /// only what is published afterwards. `None`, with nothing changed, when
    /// the cell's observer count is at its limit.
    pub fn subscribe(&mut self, user_id: &str) -> (r: Option<ObserverHandle>)
        requires
            old(self).wf(),
        ensures
            final(self).wf(),
            can_subscribe(old(self)@, user_id@) ==> {
                &&& r is Some
                &&& final(self)@ == subscribe_spec(old(self)@, user_id@)
                &&& r->0@ == (user_id@, subscribed_cell(old(self)@, user_id@).version)
            },
            !can_subscribe(old(self)@, user_id@) ==> r is None && final(self)@ == old(self)@,
    {
        let cell = match cell_map_get(&self.cells, user_id) {
            Some(c) => {
                if c.observers == u64::MAX {
                    return None;
                }
                WatchCell { latest: c.latest, version: c.version, observers: c.observers + 1 }
            },
            None => WatchCell { latest: None, version: 0, observers: 1 },
        };
        let seen = cell.version;
        cell_map_insert(&mut self.cells, String::from_str(user_id), cell);
        Some(ObserverHandle { user_id: String::from_str(user_id), seen })
    }

    /// Publishes `record` to the observers of `user_id`: the cell's value is
    /// replaced and its version moves on. Without a cell nothing happens.
    pub fn notify(&mut self, user_id: &str, record: &PresenceData)
        requires
            old(self).wf(),
        ensures
            final(self).wf(),
            final(self)@ == notify_spec(old(self)@, user_id@, *record),
    {
        match cell_map_get(&self.cells, user_id) {
            Some(c) => {
                let version = if c.version == u64::MAX {
                    0
                } else {
                    c.version + 1
                };
                let cell = WatchCell {
                    latest: Some(record.duplicate()),
                    version,
                    observers: c.observers,
                };
                cell_map_insert(&mut self.cells, String::from_str(user_id), cell);
            },
            None => {},
        }
    }

    /// Looks at the observer's cell: the latest value if anything was published
    /// since the observer last looked, and marks it seen.
    pub fn poll(&self, handle: &mut ObserverHandle) -> (r: CellPoll)
        ensures
            r == poll_spec(self@, old(handle)@.0, old(handle)@.1),
            final(handle)@ == (old(handle)@.0, seen_after_poll(self@, old(handle)@.0, old(handle)@.1)),
    {
        match cell_map_get(&self.cells, handle.user_id.as_str()) {
            Some(c) => {
                if c.version == handle.seen {
                    CellPoll::Unchanged
                } else {
                    handle.seen = c.version;
                    CellPoll::Changed(c.latest)
                }
            },
            None => CellPoll::Gone,
        }
    }

    /// Detaches an observer. When it was the cell's last one, the cell is
    /// removed and so is the user's record in `cache`.
    pub fn release(&mut self, handle: ObserverHandle, cache: &mut Cache)
        requires
            old(self).wf(),
        ensures
            final(self).wf(),
            final(self)@ == release_spec(old(self)@, handle@.0),
            release_ends_cell(old(self)@, handle@.0) ==> final(cache)@ == old(cache)@.remove(
                handle@.0,
            ),
            !release_ends_cell(old(self)@, handle@.0) ==> final(cache)@ == old(cache)@,
    {
        let key = handle.user_id.as_str();
        match cell_map_get(&self.cells, key) {
            Some(c) => {
                if c.observers <= 1 {
                    cell_map_remove(&mut self.cells, key);
                    cache.remove(key);
                } else {
                    let cell = WatchCell {
                        latest: c.latest,
                        version: c.version,
                        observers: c.observers - 1,
                    };
                    cell_map_insert(&mut self.cells, String::from_str(key), cell);
                }
            },
            None => {},
        }
    }

    /// The number of live observers of `user_id`.
    pub fn observer_count(&self, user_id: &str) -> (r: u64)
        ensures
            r == (if self@.contains_key(user_id@) {
                self@[user_id@].observers
            } else {
                0
            }),
    {
        match cell_map_get(&self.cells, user_id) {
            Some(c) => c.observers,
            None => 0,
        }
    }
}

} // verus!
