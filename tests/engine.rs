use presence_relay::admission::{AdmissionController, MAX_CONNECTIONS_PER_IP};
use presence_relay::cache::Cache;
use presence_relay::gateway::publish;
use presence_relay::lookup::{get_presence, LookupReply};
use presence_relay::presence::{PresenceData, SpotifyActivity};
use presence_relay::registry::{CellPoll, WatchRegistry};
use presence_relay::session::{open_session, OpenRefusal, SessionAction, SessionEvent};

fn listening(user: &str, track: &str, at: i64) -> PresenceData {
    PresenceData {
        user_id: user.to_string(),
        spotify: Some(SpotifyActivity {
            track: Some(track.to_string()),
            artist: None,
            album: None,
            album_art_url: None,
            started_at_ms: None,
            ends_at_ms: None,
        }),
        timestamp_ms: at,
    }
}

#[test]
fn subscribe_creates_and_release_removes_cell() {
    let mut reg = WatchRegistry::new();
    let mut cache = Cache::new();
    cache.set("9", &listening("9", "X", 0));
    let h1 = reg.subscribe("9").unwrap();
    let h2 = reg.subscribe("9").unwrap();
    assert_eq!(h1.user_id(), "9");
    assert_eq!(reg.observer_count("9"), 2);
    reg.release(h1, &mut cache);
    assert_eq!(reg.observer_count("9"), 1);
    assert_eq!(cache.get("9", 0), Some(listening("9", "X", 0)));
    reg.release(h2, &mut cache);
    assert_eq!(reg.observer_count("9"), 0);
    assert_eq!(cache.get("9", 0), None);
    let h3 = reg.subscribe("9").unwrap();
    assert_eq!(reg.observer_count("9"), 1);
    reg.release(h3, &mut cache);
    assert_eq!(reg.observer_count("9"), 0);
}

#[test]
fn notify_without_cell_is_noop() {
    let mut reg = WatchRegistry::new();
    reg.notify("3", &listening("3", "X", 0));
    assert_eq!(reg.observer_count("3"), 0);
    let mut h = reg.subscribe("3").unwrap();
    assert_eq!(reg.poll(&mut h), CellPoll::Unchanged);
}

#[test]
fn collapsing_delivery() {
    let mut reg = WatchRegistry::new();
    let mut h = reg.subscribe("4").unwrap();
    assert_eq!(reg.poll(&mut h), CellPoll::Unchanged);
    reg.notify("4", &listening("4", "one", 1));
    reg.notify("4", &listening("4", "two", 2));
    assert_eq!(reg.poll(&mut h), CellPoll::Changed(Some(listening("4", "two", 2))));
    assert_eq!(reg.poll(&mut h), CellPoll::Unchanged);
}

#[test]
fn observers_each_see_latest() {
    let mut reg = WatchRegistry::new();
    let mut a = reg.subscribe("4").unwrap();
    reg.notify("4", &listening("4", "one", 1));
    let mut b = reg.subscribe("4").unwrap();
    assert_eq!(reg.poll(&mut b), CellPoll::Unchanged);
    assert_eq!(reg.poll(&mut a), CellPoll::Changed(Some(listening("4", "one", 1))));
}

#[test]
fn admission_bound_per_ip() {
    let mut adm = AdmissionController::new();
    let mut guards = Vec::new();
    for _ in 0..MAX_CONNECTIONS_PER_IP {
        guards.push(adm.try_acquire("10.0.0.1").unwrap());
    }
    assert_eq!(adm.active_count("10.0.0.1"), 10);
    assert!(adm.try_acquire("10.0.0.1").is_none());
    assert_eq!(adm.active_count("10.0.0.1"), 10);
    assert!(adm.try_acquire("10.0.0.2").is_some());
    let g = guards.pop().unwrap();
    assert_eq!(g.ip(), "10.0.0.1");
    adm.release(g);
    assert_eq!(adm.active_count("10.0.0.1"), 9);
    assert!(adm.try_acquire("10.0.0.1").is_some());
    assert!(adm.try_acquire("10.0.0.1").is_none());
}

#[test]
fn admission_entry_removed_at_zero() {
    let mut adm = AdmissionController::new();
    let g = adm.try_acquire("::1").unwrap();
    assert_eq!(adm.active_count("::1"), 1);
    adm.release(g);
    assert_eq!(adm.active_count("::1"), 0);
}

#[test]
fn invalid_id_refused_before_side_effects() {
    let mut adm = AdmissionController::new();
    let mut reg = WatchRegistry::new();
    let mut cache = Cache::new();
    for id in ["abc", "-1", "123456789012345678901", ""] {
        let r = open_session(id, "1.2.3.4", 0, &mut adm, &mut reg, &mut cache);
        assert_eq!(r.err(), Some(OpenRefusal::InvalidUserId));
    }
    assert_eq!(adm.active_count("1.2.3.4"), 0);
    assert_eq!(reg.observer_count("abc"), 0);
}

#[test]
fn session_refused_at_capacity() {
    let mut adm = AdmissionController::new();
    let mut reg = WatchRegistry::new();
    let mut cache = Cache::new();
    let mut open = Vec::new();
    for _ in 0..10 {
        let (s, _) = open_session("42", "ip", 0, &mut adm, &mut reg, &mut cache).ok().unwrap();
        open.push(s);
    }
    let r = open_session("42", "ip", 0, &mut adm, &mut reg, &mut cache);
    assert_eq!(r.err(), Some(OpenRefusal::AtCapacity));
    assert_eq!(reg.observer_count("42"), 10);
    for s in open {
        s.close(&mut adm, &mut reg, &mut cache);
    }
    assert_eq!(adm.active_count("ip"), 0);
    assert_eq!(reg.observer_count("42"), 0);
}

#[test]
fn session_protocol_steps() {
    let mut adm = AdmissionController::new();
    let mut reg = WatchRegistry::new();
    let mut cache = Cache::new();
    let (mut s, initial) = open_session("42", "ip", 0, &mut adm, &mut reg, &mut cache).ok().unwrap();
    assert_eq!(initial, None);
    assert_eq!(s.step(SessionEvent::KeepAliveTick, &reg, 0), SessionAction::SendPing);
    assert_eq!(s.step(SessionEvent::ClientPing(vec![1, 2]), &reg, 0), SessionAction::SendPong(vec![1, 2]));
    assert_eq!(s.step(SessionEvent::ClientOther, &reg, 0), SessionAction::Idle);
    assert_eq!(s.step(SessionEvent::Changed, &reg, 0), SessionAction::Idle);
    publish(&mut cache, &mut reg, "42", &listening("42", "old", 0));
    assert_eq!(s.step(SessionEvent::Changed, &reg, 300_001), SessionAction::Idle);
    assert!(!s.is_closed());
    assert_eq!(s.step(SessionEvent::SendFailed, &reg, 0), SessionAction::Close);
    assert!(s.is_closed());
    assert_eq!(s.step(SessionEvent::KeepAliveTick, &reg, 0), SessionAction::Close);
    s.close(&mut adm, &mut reg, &mut cache);
}

#[test]
fn session_closes_on_client_close_or_gone() {
    let mut adm = AdmissionController::new();
    let mut reg = WatchRegistry::new();
    let mut cache = Cache::new();
    let (mut a, _) = open_session("1", "ip", 0, &mut adm, &mut reg, &mut cache).ok().unwrap();
    let (mut b, _) = open_session("1", "ip", 0, &mut adm, &mut reg, &mut cache).ok().unwrap();
    assert_eq!(a.step(SessionEvent::ClientClose, &reg, 0), SessionAction::Close);
    assert_eq!(b.step(SessionEvent::ClientGone, &reg, 0), SessionAction::Close);
    a.close(&mut adm, &mut reg, &mut cache);
    b.close(&mut adm, &mut reg, &mut cache);
    assert_eq!(adm.active_count("ip"), 0);
}

#[test]
fn initial_frame_when_fresh() {
    let mut adm = AdmissionController::new();
    let mut reg = WatchRegistry::new();
    let mut cache = Cache::new();
    cache.set("8", &listening("8", "X", 100));
    let (s, initial) = open_session("8", "ip", 200, &mut adm, &mut reg, &mut cache).ok().unwrap();
    assert_eq!(initial, Some(listening("8", "X", 100)));
    s.close(&mut adm, &mut reg, &mut cache);
}

#[test]
fn scenario_lookup_then_update_then_push() {
    let mut adm = AdmissionController::new();
    let mut reg = WatchRegistry::new();
    let mut cache = Cache::new();
    let now = 1_000_000;
    assert_eq!(get_presence(&mut cache, "42", now).status(), 404);
    let (mut s, initial) = open_session("42", "ip", now, &mut adm, &mut reg, &mut cache).ok().unwrap();
    assert_eq!(initial, None);
    let rec = listening("42", "X", now);
    publish(&mut cache, &mut reg, "42", &rec);
    let reply = get_presence(&mut cache, "42", now);
    assert_eq!(reply.status(), 200);
    assert_eq!(reply, LookupReply::Found(rec.clone()));
    assert_eq!(s.step(SessionEvent::Changed, &reg, now), SessionAction::Push(rec));
    assert_eq!(s.step(SessionEvent::Changed, &reg, now), SessionAction::Idle);
    s.close(&mut adm, &mut reg, &mut cache);
}

#[test]
fn scenario_last_subscriber_leaves_evicts() {
    let mut adm = AdmissionController::new();
    let mut reg = WatchRegistry::new();
    let mut cache = Cache::new();
    let now = 5_000;
    let (s, _) = open_session("42", "ip", now, &mut adm, &mut reg, &mut cache).ok().unwrap();
    publish(&mut cache, &mut reg, "42", &listening("42", "X", now));
    assert_eq!(get_presence(&mut cache, "42", now).status(), 200);
    s.close(&mut adm, &mut reg, &mut cache);
    assert_eq!(get_presence(&mut cache, "42", now).status(), 404);
    assert_eq!(reg.observer_count("42"), 0);
}
