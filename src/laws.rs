use vstd::prelude::*;
use crate::admission::{
    MAX_CONNECTIONS_PER_IP, acquire_spec, admits, count_of, counts_wf, release_count_spec,
};
use crate::cache::{after_lookup, lookup_fresh};
use crate::presence::{PresenceData, stale_at};
use crate::registry::{
    CellPoll, WatchCell, notify_spec, poll_spec, release_ends_cell, release_spec, subscribe_spec,
};

verus! {

/// A stale record is reported absent, whatever was cached, and the lookup
/// evicts it, so any later lookup finds nothing either.
pub proof fn lemma_stale_is_absent(
    m: Map<Seq<char>, PresenceData>,
    user_id: Seq<char>,
    now_ms: i64,
    later_ms: i64,
)
    requires
        m.contains_key(user_id),
        stale_at(m[user_id].timestamp_ms, now_ms),
    ensures
        lookup_fresh(m, user_id, now_ms) is None,
        !after_lookup(m, user_id, now_ms).contains_key(user_id),
        lookup_fresh(after_lookup(m, user_id, now_ms), user_id, later_ms) is None,
{
}

/// After storing `r1` and then `r2` for one user, a lookup answers `r2`
/// exactly while it is fresh, and nothing once it is stale.
pub proof fn lemma_last_write_wins(
    m: Map<Seq<char>, PresenceData>,
    user_id: Seq<char>,
    r1: PresenceData,
    r2: PresenceData,
    now_ms: i64,
)
    ensures
        !stale_at(r2.timestamp_ms, now_ms) ==> lookup_fresh(
            m.insert(user_id, r1).insert(user_id, r2),
            user_id,
            now_ms,
        ) == Some(r2),
        stale_at(r2.timestamp_ms, now_ms) ==> lookup_fresh(
            m.insert(user_id, r1).insert(user_id, r2),
            user_id,
            now_ms,
        ) is None,
{
}

/// Two publishes to a user before an observer looks again: the observer
/// finds the second value.
pub proof fn lemma_collapsing_delivery(
    m: Map<Seq<char>, WatchCell>,
    user_id: Seq<char>,
    seen: u64,
    r1: PresenceData,
    r2: PresenceData,
)
    requires
        m.contains_key(user_id),
        m[user_id].version == seen,
    ensures
        poll_spec(notify_spec(notify_spec(m, user_id, r1), user_id, r2), user_id, seen)
            == CellPoll::Changed(Some(r2)),
{
}

/// One call on the subscription cell of a single user.
pub enum WatchOp {
    Subscribe,
    Release,
}

/// Cell table and store after `ops`, applied in order to the cells of `user_id`.
pub open spec fn run_watch(
    cells: Map<Seq<char>, WatchCell>,
    store: Map<Seq<char>, PresenceData>,
    user_id: Seq<char>,
    ops: Seq<WatchOp>,
) -> (Map<Seq<char>, WatchCell>, Map<Seq<char>, PresenceData>)
    decreases ops.len(),
{
    if ops.len() == 0 {
        (cells, store)
    } else {
        let (c, s) = run_watch(cells, store, user_id, ops.drop_last());
        match ops.last() {
            WatchOp::Subscribe => (subscribe_spec(c, user_id), s),
            WatchOp::Release => if release_ends_cell(c, user_id) {
                (release_spec(c, user_id), s.remove(user_id))
            } else {
                (release_spec(c, user_id), s)
            },
        }
    }
}

/// Subscribes minus releases in `ops`.
pub open spec fn net_observers(ops: Seq<WatchOp>) -> int
    decreases ops.len(),
{
    if ops.len() == 0 {
        0
    } else {
        net_observers(ops.drop_last()) + match ops.last() {
            WatchOp::Subscribe => 1int,
            WatchOp::Release => -1int,
        }
    }
}

/// Observers of `user_id` in a cell table.
pub open spec fn observers_of(cells: Map<Seq<char>, WatchCell>, user_id: Seq<char>) -> int {
    if cells.contains_key(user_id) {
        cells[user_id].observers as int
    } else {
        0
    }
}

/// For any order of subscribes and releases on one user, where each release
/// gives back a subscription that is held: the cell exists exactly when the
/// net observer count is positive, and holds that count; when a release brings
/// the count to zero, the user's record is gone from the store.
pub proof fn lemma_subscription_lifecycle(
    cells: Map<Seq<char>, WatchCell>,
    store: Map<Seq<char>, PresenceData>,
    user_id: Seq<char>,
    ops: Seq<WatchOp>,
)
    requires
        cells.contains_key(user_id) ==> cells[user_id].observers > 0,
        forall|i: int|
            0 <= i <= ops.len() ==> 0 <= #[trigger] net_observers(ops.subrange(0, i))
                + observers_of(cells, user_id) < u64::MAX,
    ensures
        run_watch(cells, store, user_id, ops).0.contains_key(user_id) <==> observers_of(
            cells,
            user_id,
        ) + net_observers(ops) > 0,
        observers_of(run_watch(cells, store, user_id, ops).0, user_id) == observers_of(
            cells,
            user_id,
        ) + net_observers(ops),
        ops.len() > 0 && ops.last() is Release && observers_of(cells, user_id) + net_observers(ops)
            == 0 ==> !run_watch(cells, store, user_id, ops).1.contains_key(user_id),
    decreases ops.len(),
{
    if ops.len() > 0 {
        let prev = ops.drop_last();
        assert forall|i: int| 0 <= i <= prev.len() implies 0 <= #[trigger] net_observers(
            prev.subrange(0, i),
        ) + observers_of(cells, user_id) < u64::MAX by {
            assert(prev.subrange(0, i) =~= ops.subrange(0, i));
        }
        lemma_subscription_lifecycle(cells, store, user_id, prev);
        assert(ops.subrange(0, ops.len() as int) =~= ops);
        assert(ops.subrange(0, prev.len() as int) =~= prev);
    }
}

/// One call on the admission counter of a single address.
pub enum AdmissionOp {
    TryAcquire,
    Release,
}

/// Counter table after `ops`, applied in order to `ip`; a refused acquire
/// changes nothing.
pub open spec fn run_admission(m: Map<Seq<char>, usize>, ip: Seq<char>, ops: Seq<AdmissionOp>) -> Map<
    Seq<char>,
    usize,
>
    decreases ops.len(),
{
    if ops.len() == 0 {
        m
    } else {
        let c = run_admission(m, ip, ops.drop_last());
        match ops.last() {
            AdmissionOp::TryAcquire => if admits(c, ip) {
                acquire_spec(c, ip)
            } else {
                c
            },
            AdmissionOp::Release => release_count_spec(c, ip),
        }
    }
}

/// For any order of acquires and releases on one address, the number of
/// admitted, unreleased sessions never exceeds the limit.
pub proof fn lemma_admission_bound(m: Map<Seq<char>, usize>, ip: Seq<char>, ops: Seq<AdmissionOp>)
    requires
        counts_wf(m),
    ensures
        counts_wf(run_admission(m, ip, ops)),
        count_of(run_admission(m, ip, ops), ip) <= MAX_CONNECTIONS_PER_IP,
    decreases ops.len(),
{
    if ops.len() > 0 {
        lemma_admission_bound(m, ip, ops.drop_last());
    }
}

} // verus!
