use vstd::prelude::*;
use dashmap::DashMap;

verus! {

/// Most sessions one source address may hold at once.
pub const MAX_CONNECTIONS_PER_IP: usize = 10;

/// What a counter table holds: source address to live sessions.
pub uninterp spec fn count_entries(m: DashMap<String, usize>) -> Map<Seq<char>, usize>;

/// Relies on DashMap::new: a new map holds no entry.
#[verifier::external_body]
fn count_map_new() -> (r: DashMap<String, usize>)
    ensures
        count_entries(r).dom() == Set::<Seq<char>>::empty(),
{
    DashMap::new()
}

/// Relies on DashMap::get: the value stored under the key, or `None`.
#[verifier::external_body]
fn count_map_get(m: &DashMap<String, usize>, key: &str) -> (r: Option<usize>)
    ensures
        r == (if count_entries(*m).contains_key(key@) {
            Some(count_entries(*m)[key@])
        } else {
            None::<usize>
        }),
{
    m.get(key).map(|e| *e.value())
}

/// Relies on DashMap::insert: the key maps to the value afterwards, other keys keep theirs.
#[verifier::external_body]
fn count_map_insert(m: &mut DashMap<String, usize>, key: String, value: usize)
    ensures
        count_entries(*final(m)) == count_entries(*old(m)).insert(key@, value),
{
    m.insert(key, value);
}

/// Relies on DashMap::remove: the key is absent afterwards, other keys keep theirs.
#[verifier::external_body]
fn count_map_remove(m: &mut DashMap<String, usize>, key: &str)
    ensures
        count_entries(*final(m)) == count_entries(*old(m)).remove(key@),
{
    m.remove(key);
}

/// Live sessions of `ip` in a counter table.
pub open spec fn count_of(m: Map<Seq<char>, usize>, ip: Seq<char>) -> nat {
    if m.contains_key(ip) {
        m[ip] as nat
    } else {
        0
    }
}

/// Whether one more session of `ip` is admitted.
pub open spec fn admits(m: Map<Seq<char>, usize>, ip: Seq<char>) -> bool {
    count_of(m, ip) < MAX_CONNECTIONS_PER_IP
}

/// The counter table after a session of `ip` is admitted.
pub open spec fn acquire_spec(m: Map<Seq<char>, usize>, ip: Seq<char>) -> Map<Seq<char>, usize> {
    m.insert(ip, (count_of(m, ip) + 1) as usize)
}

/// The counter table after a session of `ip` ends: the count drops by one and
/// the entry goes when it reaches zero.
pub open spec fn release_count_spec(m: Map<Seq<char>, usize>, ip: Seq<char>) -> Map<Seq<char>, usize> {
    if !m.contains_key(ip) {
        m
    } else if m[ip] <= 1 {
        m.remove(ip)
    } else {
        m.insert(ip, (m[ip] - 1) as usize)
    }
}

/// Every present counter lies between one and the limit.
pub open spec fn counts_wf(m: Map<Seq<char>, usize>) -> bool {
    forall|k: Seq<char>| #[trigger] m.contains_key(k) ==> 1 <= m[k] <= MAX_CONNECTIONS_PER_IP
}

/// Proof that a session of one source address was admitted.
pub struct AdmissionGuard {
    ip: String,
}

impl View for AdmissionGuard {
    /// The admitted source address.
    type V = Seq<char>;

    closed spec fn view(&self) -> Seq<char> {
        self.ip@
    }
}

impl AdmissionGuard {
    /// The admitted source address.
    pub fn ip(&self) -> (r: &str)
        ensures
            r@ == self@,
    {
        self.ip.as_str()
    }
}

/// Per-source-address session limiter.
pub struct AdmissionController {
    connections: DashMap<String, usize>,
}

impl View for AdmissionController {
    type V = Map<Seq<char>, usize>;

    closed spec fn view(&self) -> Map<Seq<char>, usize> {
        count_entries(self.connections)
    }
}

impl AdmissionController {
    pub open spec fn wf(&self) -> bool {
        counts_wf(self@)
    }

    /// A controller with no live session.
    pub fn new() -> (r: AdmissionController)
        ensures
            r@ == Map::<Seq<char>, usize>::empty(),
            r.wf(),
    {
        let connections = count_map_new();
        assert(count_entries(connections) =~= Map::<Seq<char>, usize>::empty());
        AdmissionController { connections }
    }

    /// Admits one more session of `ip` if it holds fewer than the limit;
    /// otherwise refuses and changes nothing.
    pub fn try_acquire(&mut self, ip: &str) -> (r: Option<AdmissionGuard>)
        requires
            old(self).wf(),
        ensures
            final(self).wf(),
            admits(old(self)@, ip@) ==> r is Some && r->0@ == ip@ && final(self)@ == acquire_spec(
                old(self)@,
                ip@,
            ),
            !admits(old(self)@, ip@) ==> r is None && final(self)@ == old(self)@,
    {
        let current: usize = match count_map_get(&self.connections, ip) {
            Some(c) => c,
            None => 0,
        };
        if current >= MAX_CONNECTIONS_PER_IP {
            return None;
        }
        count_map_insert(&mut self.connections, String::from_str(ip), current + 1);
        Some(AdmissionGuard { ip: String::from_str(ip) })
    }

    /// Ends an admitted session: its address's count drops by one, and the
    /// entry is removed when it reaches zero.
    pub fn release(&mut self, guard: AdmissionGuard)
        requires
            old(self).wf(),
        ensures
            final(self).wf(),
            final(self)@ == release_count_spec(old(self)@, guard@),
    {
        let key = guard.ip.as_str();
        match count_map_get(&self.connections, key) {
            Some(c) => {
                if c <= 1 {
                    count_map_remove(&mut self.connections, key);
                } else {
                    count_map_insert(&mut self.connections, String::from_str(key), c - 1);
                }
            },
            None => {},
        }
    }

    /// Live sessions of `ip`.
    pub fn active_count(&self, ip: &str) -> (r: usize)
        ensures
            r == count_of(self@, ip@),
    {
        match count_map_get(&self.connections, ip) {
            Some(c) => c,
            None => 0,
        }
    }
}

} // verus!
