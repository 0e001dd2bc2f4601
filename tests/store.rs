use presence_relay::cache::Cache;
use presence_relay::lookup::{get_presence, LookupReply};
use presence_relay::presence::{
    is_presence_stale, parse_user_id, validate_user_id, PresenceData, SpotifyActivity,
    PRESENCE_TTL_MS,
};

fn record(user: &str, track: &str, at: i64) -> PresenceData {
    PresenceData {
        user_id: user.to_string(),
        spotify: Some(SpotifyActivity {
            track: Some(track.to_string()),
            artist: None,
            album: None,
            album_art_url: None,
            started_at_ms: None,
            ends_at_ms: None,
        }),
        timestamp_ms: at,
    }
}

#[test]
fn identifier_grammar_accepts_digits() {
    assert!(validate_user_id("123"));
    assert!(validate_user_id("00009"));
    assert!(validate_user_id("12345678901234567890"));
}

#[test]
fn identifier_grammar_rejects_others() {
    assert!(!validate_user_id("abc"));
    assert!(!validate_user_id("-1"));
    assert!(!validate_user_id("123456789012345678901"));
    assert!(!validate_user_id("１２"));
    assert!(!validate_user_id("12a"));
}

#[test]
fn empty_id_fails_lookup_grammar() {
    let mut cache = Cache::new();
    assert!(!validate_user_id(""));
    assert_eq!(get_presence(&mut cache, "", 0), LookupReply::InvalidUserId);
    assert_eq!(parse_user_id(""), None);
}

#[test]
fn parse_user_id_values() {
    assert_eq!(parse_user_id("42"), Some(42));
    assert_eq!(parse_user_id("00009"), Some(9));
    assert_eq!(parse_user_id("18446744073709551615"), Some(u64::MAX));
    assert_eq!(parse_user_id("18446744073709551616"), None);
    assert_eq!(parse_user_id("99999999999999999999"), None);
    assert_eq!(parse_user_id("+5"), None);
    assert_eq!(parse_user_id("abc"), None);
}

#[test]
fn staleness_boundary() {
    let p = record("1", "X", 1_000);
    assert!(!is_presence_stale(&p, 1_000 + PRESENCE_TTL_MS));
    assert!(is_presence_stale(&p, 1_000 + PRESENCE_TTL_MS + 1));
    assert!(!is_presence_stale(&p, 0));
    let old = record("1", "X", i64::MIN);
    assert!(is_presence_stale(&old, i64::MAX));
}

#[test]
fn stale_record_is_absent_and_evicted() {
    let mut cache = Cache::new();
    cache.set("7", &record("7", "X", 0));
    assert_eq!(cache.get("7", 300_001), None);
    assert!(cache.get_memory().get("7").is_none());
    assert_eq!(cache.get("7", 0), None);
}

#[test]
fn fresh_record_is_kept() {
    let mut cache = Cache::new();
    cache.set("7", &record("7", "X", 0));
    assert_eq!(cache.get("7", 300_000), Some(record("7", "X", 0)));
    assert_eq!(cache.get_memory().len(), 1);
}

#[test]
fn last_write_wins() {
    let mut cache = Cache::new();
    let r1 = PresenceData {
        user_id: "5".to_string(),
        spotify: Some(SpotifyActivity {
            track: Some("A".to_string()),
            artist: Some("B".to_string()),
            album: None,
            album_art_url: None,
            started_at_ms: Some(1),
            ends_at_ms: None,
        }),
        timestamp_ms: 10,
    };
    let r2 = PresenceData { user_id: "5".to_string(), spotify: None, timestamp_ms: 20 };
    cache.set("5", &r1);
    cache.set("5", &r2);
    assert_eq!(cache.get("5", 30), Some(r2));
}

#[test]
fn remove_drops_record() {
    let mut cache = Cache::new();
    cache.set("1", &record("1", "X", 0));
    cache.set("2", &record("2", "Y", 0));
    cache.remove("1");
    assert_eq!(cache.get("1", 0), None);
    assert_eq!(cache.get("2", 0), Some(record("2", "Y", 0)));
}

#[test]
fn lookup_replies_and_status() {
    let mut cache = Cache::new();
    let r = get_presence(&mut cache, "abc", 0);
    assert_eq!(r, LookupReply::InvalidUserId);
    assert_eq!(r.status(), 400);
    let r = get_presence(&mut cache, "42", 0);
    assert_eq!(r, LookupReply::NotFound);
    assert_eq!(r.status(), 404);
    cache.set("42", &record("42", "X", 100));
    let r = get_presence(&mut cache, "42", 200);
    assert_eq!(r, LookupReply::Found(record("42", "X", 100)));
    assert_eq!(r.status(), 200);
    assert_eq!(get_presence(&mut cache, "42", 100 + 300_001), LookupReply::NotFound);
}
