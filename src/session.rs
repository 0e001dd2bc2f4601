use vstd::prelude::*;
use crate::admission::{
    AdmissionController, AdmissionGuard, acquire_spec, admits, count_of, release_count_spec,
};
use crate::cache::{Cache, after_lookup, lookup_fresh};
use crate::presence::{PresenceData, is_presence_stale, stale_at, valid_user_id, validate_user_id};
use crate::registry::{
    CellPoll, ObserverHandle, WatchRegistry, can_subscribe, poll_spec, release_ends_cell,
    release_spec, seen_after_poll, subscribe_spec, subscribed_cell,
};

verus! {

/// Keep-alive period of a streaming session, in seconds.
pub const KEEP_ALIVE_SECS: u64 = 25;

/// Bound on every outbound send, in seconds.
pub const SEND_TIMEOUT_SECS: u64 = 5;

/// Why a connection was not turned into a session.
#[derive(Debug, PartialEq, Eq)]
pub enum OpenRefusal {
    /// The user id fails the identifier grammar.
    InvalidUserId,
    /// The source address already holds the most sessions allowed.
    AtCapacity,
    /// The user's cell cannot count one more observer.
    ObserverLimit,
}

/// What the connection loop reports to the session, one at a time.
#[derive(Debug, PartialEq, Eq)]
pub enum SessionEvent {
    /// The keep-alive timer fired.
    KeepAliveTick,
    /// The client sent a close frame.
    ClientClose,
    /// The client sent a ping frame with this payload.
    ClientPing(Vec<u8>),
    /// The client sent anything else.
    ClientOther,
    /// The inbound stream failed or ended.
    ClientGone,
    /// The subscription signalled a change.
    Changed,
    /// An outbound send failed or timed out.
    SendFailed,
}

/// What the connection loop must do next.
#[derive(Debug, PartialEq, Eq)]
pub enum SessionAction {
    SendPing,
    SendPong(Vec<u8>),
    /// Send this record as a text frame.
    Push(PresenceData),
    /// Nothing to do; wait for the next event.
    Idle,
    /// End the session and release its resources.
    Close,
}

/// The abstract state of a session.
pub struct SessionState {
    pub user_id: Seq<char>,
    pub seen: u64,
    pub ip: Seq<char>,
    pub closed: bool,
}

/// The action for `event` in a streaming session, where `poll` is what the
/// subscription shows.
pub open spec fn step_spec(event: SessionEvent, poll: CellPoll, now_ms: i64) -> SessionAction {
    match event {
        SessionEvent::KeepAliveTick => SessionAction::SendPing,
        SessionEvent::ClientPing(p) => SessionAction::SendPong(p),
        SessionEvent::ClientOther => SessionAction::Idle,
        SessionEvent::ClientClose => SessionAction::Close,
        SessionEvent::ClientGone => SessionAction::Close,
        SessionEvent::SendFailed => SessionAction::Close,
        SessionEvent::Changed => match poll {
            CellPoll::Gone => SessionAction::Close,
            CellPoll::Unchanged => SessionAction::Idle,
            CellPoll::Changed(v) => match v {
                Some(p) => if stale_at(p.timestamp_ms, now_ms) {
                    SessionAction::Idle
                } else {
                    SessionAction::Push(p)
                },
                None => SessionAction::Idle,
            },
        },
    }
}

/// A live connection of one observer of one user.
pub struct DeliverySession {
    observer: ObserverHandle,
    guard: AdmissionGuard,
    closed: bool,
}

impl View for DeliverySession {
    type V = SessionState;

    closed spec fn view(&self) -> SessionState {
        SessionState {
            user_id: self.observer@.0,
            seen: self.observer@.1,
            ip: self.guard@,
            closed: self.closed,
        }
    }
}

proof fn lemma_acquire_release(m: Map<Seq<char>, usize>, ip: Seq<char>)
    requires
        crate::admission::counts_wf(m),
        admits(m, ip),
    ensures
        release_count_spec(acquire_spec(m, ip), ip) == m,
{
    let a = acquire_spec(m, ip);
    if m.contains_key(ip) {
        assert(release_count_spec(a, ip) =~= m);
    } else {
        assert(release_count_spec(a, ip) =~= m);
    }
}

/// Opens a session of `user_id` for a client at `ip`. The id is checked
/// before anything else; then an admission slot is taken and the user's cell
/// subscribed. On success, also returns the user's fresh record, if any, to be
/// sent as the first frame. A refusal leaves every table as it was.
pub fn open_session(
    user_id: &str,
    ip: &str,
    now_ms: i64,
    admission: &mut AdmissionController,
    registry: &mut WatchRegistry,
    cache: &mut Cache,
) -> (r: Result<(DeliverySession, Option<PresenceData>), OpenRefusal>)
    requires
        old(admission).wf(),
        old(registry).wf(),
    ensures
        final(admission).wf(),
        final(registry).wf(),
        !valid_user_id(user_id@) ==> r == Err::<(DeliverySession, Option<PresenceData>), OpenRefusal>(
            OpenRefusal::InvalidUserId,
        ),
        valid_user_id(user_id@) && !admits(old(admission)@, ip@) ==> r == Err::<
            (DeliverySession, Option<PresenceData>),
            OpenRefusal,
        >(OpenRefusal::AtCapacity),
        valid_user_id(user_id@) && admits(old(admission)@, ip@) && !can_subscribe(
            old(registry)@,
            user_id@,
        ) ==> r == Err::<(DeliverySession, Option<PresenceData>), OpenRefusal>(
            OpenRefusal::ObserverLimit,
        ),
        r is Err ==> final(admission)@ == old(admission)@ && final(registry)@ == old(registry)@
            && final(cache)@ == old(cache)@,
        valid_user_id(user_id@) && admits(old(admission)@, ip@) && can_subscribe(
            old(registry)@,
            user_id@,
        ) ==> {
            &&& r is Ok
            &&& r->Ok_0.0@ == (SessionState {
                user_id: user_id@,
                seen: subscribed_cell(old(registry)@, user_id@).version,
                ip: ip@,
                closed: false,
            })
            &&& r->Ok_0.1 == lookup_fresh(old(cache)@, user_id@, now_ms)
            &&& final(admission)@ == acquire_spec(old(admission)@, ip@)
            &&& final(registry)@ == subscribe_spec(old(registry)@, user_id@)
            &&& final(cache)@ == after_lookup(old(cache)@, user_id@, now_ms)
        },
{
    if !validate_user_id(user_id) {
        return Err(OpenRefusal::InvalidUserId);
    }
    let guard = match admission.try_acquire(ip) {
        Some(g) => g,
        None => {
            return Err(OpenRefusal::AtCapacity);
        },
    };
    let ghost before = old(admission)@;
    let observer = match registry.subscribe(user_id) {
        Some(h) => h,
        None => {
            admission.release(guard);
            proof {
                lemma_acquire_release(before, ip@);
            }
            return Err(OpenRefusal::ObserverLimit);
        },
    };
    let initial = cache.get(user_id, now_ms);
    Ok((DeliverySession { observer, guard, closed: false }, initial))
}

impl DeliverySession {
    /// Handles one event of a streaming session and says what to do next.
    /// A change is read from `registry`: only the latest value is pushed, and
    /// only if it is fresh at `now_ms`. Once closed, a session only answers
    /// `Close`.
    pub fn step(&mut self, event: SessionEvent, registry: &WatchRegistry, now_ms: i64) -> (r:
        SessionAction)
        ensures
            old(self)@.closed ==> r == SessionAction::Close && final(self)@ == old(self)@,
            !old(self)@.closed ==> {
                &&& r == step_spec(event, poll_spec(registry@, old(self)@.user_id, old(self)@.seen), now_ms)
                &&& final(self)@ == (SessionState {
                    seen: if event is Changed {
                        seen_after_poll(registry@, old(self)@.user_id, old(self)@.seen)
                    } else {
                        old(self)@.seen
                    },
                    closed: r is Close,
                    ..old(self)@
                })
            },
    {
        if self.closed {
            return SessionAction::Close;
        }
        let action = match event {
            SessionEvent::KeepAliveTick => SessionAction::SendPing,
            SessionEvent::ClientPing(p) => SessionAction::SendPong(p),
            SessionEvent::ClientOther => SessionAction::Idle,
            SessionEvent::ClientClose => SessionAction::Close,
            SessionEvent::ClientGone => SessionAction::Close,
            SessionEvent::SendFailed => SessionAction::Close,
            SessionEvent::Changed => match registry.poll(&mut self.observer) {
                CellPoll::Gone => SessionAction::Close,
                CellPoll::Unchanged => SessionAction::Idle,
                CellPoll::Changed(v) => match v {
                    Some(p) => {
                        if is_presence_stale(&p, now_ms) {
                            SessionAction::Idle
                        } else {
                            SessionAction::Push(p)
                        }
                    },
                    None => SessionAction::Idle,
                },
            },
        };
        if let SessionAction::Close = action {
            self.closed = true;
        }
        action
    }

    /// Whether the session has ended.
    pub fn is_closed(&self) -> (r: bool)
        ensures
            r == self@.closed,
    {
        self.closed
    }

    /// Ends the session: first its subscription is released (which, for the
    /// last observer, removes the cell and the cached record), then its
    /// admission slot.
    pub fn close(self, admission: &mut AdmissionController, registry: &mut WatchRegistry, cache: &mut Cache)
        requires
            old(admission).wf(),
            old(registry).wf(),
        ensures
            final(admission).wf(),
            final(registry).wf(),
            final(registry)@ == release_spec(old(registry)@, self@.user_id),
            release_ends_cell(old(registry)@, self@.user_id) ==> final(cache)@ == old(cache)@.remove(
                self@.user_id,
            ),
            !release_ends_cell(old(registry)@, self@.user_id) ==> final(cache)@ == old(cache)@,
            final(admission)@ == release_count_spec(old(admission)@, self@.ip),
    {
        let DeliverySession { observer, guard, closed: _ } = self;
        registry.release(observer, cache);
        admission.release(guard);
    }
}

} // verus!
