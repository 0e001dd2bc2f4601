use vstd::prelude::*;
use crate::cache::Cache;
use crate::presence::{PresenceData, SpotifyActivity, copy_text};
use crate::registry::{WatchRegistry, notify_spec};

verus! {

/// Longest wait between two reconnection attempts, in seconds.
pub const MAX_BACKOFF_SECS: u64 = 60;

/// The facts of one upstream activity that a presence record is built from.
#[derive(Clone, Debug, PartialEq, Eq)]
pub struct ActivityFacts {
    /// Whether the activity is of the "listening" kind.
    pub listening: bool,
    pub details: Option<String>,
    pub state: Option<String>,
    pub large_image: Option<String>,
    pub large_text: Option<String>,
    pub start_ms: Option<u64>,
    pub end_ms: Option<u64>,
}

/// `s` without the leading `p`, or `s` itself when it does not start with `p`.
pub open spec fn strip_prefix_spec(s: Seq<char>, p: Seq<char>) -> Seq<char> {
    if p.len() <= s.len() && s.subrange(0, p.len() as int) == p {
        s.subrange(p.len() as int, s.len() as int)
    } else {
        s
    }
}

/// The album art address for a large-image key.
pub open spec fn art_url_spec(image: Seq<char>) -> Seq<char> {
    "https://i.scdn.co/image/"@ + strip_prefix_spec(image, "spotify:"@)
}

/// Index of the first listening activity.
pub open spec fn first_listening(acts: Seq<ActivityFacts>) -> Option<int>
    decreases acts.len(),
{
    if acts.len() == 0 {
        None
    } else {
        match first_listening(acts.drop_last()) {
            Some(i) => Some(i),
            None => if acts.last().listening {
                Some(acts.len() - 1)
            } else {
                None
            },
        }
    }
}

pub open spec fn opt_text_view(o: Option<String>) -> Option<Seq<char>> {
    match o {
        Some(s) => Some(s@),
        None => None,
    }
}

pub open spec fn opt_millis(o: Option<u64>) -> Option<i64> {
    match o {
        Some(v) => Some(v as i64),
        None => None,
    }
}

/// The listening snapshot built from one activity.
pub open spec fn activity_matches(r: SpotifyActivity, a: ActivityFacts) -> bool {
    &&& r.track == a.details
    &&& r.artist == a.state
    &&& r.album == a.large_text
    &&& opt_text_view(r.album_art_url) == match a.large_image {
        Some(li) => Some(art_url_spec(li@)),
        None => None::<Seq<char>>,
    }
    &&& r.started_at_ms == opt_millis(a.start_ms)
    &&& r.ends_at_ms == opt_millis(a.end_ms)
}

fn starts_with_text(s: &str, p: &str) -> (r: bool)
    ensures
        r == (p@.len() <= s@.len() && s@.subrange(0, p@.len() as int) == p@),
{
    let n = s.unicode_len();
    let m = p.unicode_len();
    if m > n {
        return false;
    }
    let mut i: usize = 0;
    while i < m
        invariant
            n == s@.len(),
            m == p@.len(),
            m <= n,
            i <= m,
            forall|j: int| 0 <= j < i ==> s@[j] == p@[j],
        decreases m - i,
    {
        if s.get_char(i) != p.get_char(i) {
            assert(s@.subrange(0, m as int)[i as int] != p@[i as int]);
            return false;
        }
        i = i + 1;
    }
    assert(s@.subrange(0, m as int) =~= p@);
    true
}

/// The album art address for a large-image key: the key without its
/// `spotify:` marker, under the image host.
pub fn album_art_url(image: &str) -> (r: String)
    ensures
        r@ == art_url_spec(image@),
{
    let marker = "spotify:";
    let base = String::from_str("https://i.scdn.co/image/");
    if starts_with_text(image, marker) {
        let n = image.unicode_len();
        let m = marker.unicode_len();
        base.concat(image.substring_char(m, n))
    } else {
        base.concat(image)
    }
}

fn millis(v: Option<u64>) -> (r: Option<i64>)
    ensures
        r == opt_millis(v),
{
    match v {
        Some(x) => Some(x as i64),
        None => None,
    }
}

/// The listening snapshot of one activity.
pub fn spotify_activity(a: &ActivityFacts) -> (r: SpotifyActivity)
    ensures
        activity_matches(r, *a),
{
    let album_art_url = match &a.large_image {
        Some(li) => Some(album_art_url(li.as_str())),
        None => None,
    };
    SpotifyActivity {
        track: copy_text(&a.details),
        artist: copy_text(&a.state),
        album: copy_text(&a.large_text),
        album_art_url,
        started_at_ms: millis(a.start_ms),
        ends_at_ms: millis(a.end_ms),
    }
}

/// The record of `user_id` at `now_ms`: its first listening activity, if any,
/// as the snapshot.
pub fn build_presence(user_id: String, activities: &Vec<ActivityFacts>, now_ms: i64) -> (r:
    PresenceData)
    ensures
        r.user_id == user_id,
        r.timestamp_ms == now_ms,
        first_listening(activities@) is None ==> r.spotify is None,
        first_listening(activities@) is Some ==> r.spotify is Some && activity_matches(
            r.spotify->0,
            activities@[first_listening(activities@)->0],
        ),
{
    let n = activities.len();
    let mut i: usize = 0;
    let mut found: Option<usize> = None;
    while i < n
        invariant_except_break
            found is None,
            first_listening(activities@.subrange(0, i as int)) is None,
        invariant
            n == activities@.len(),
            i <= n,
        ensures
            found is None ==> first_listening(activities@.subrange(0, n as int)) is None,
            found is Some ==> first_listening(activities@) == Some(found->0 as int) && found->0 < n,
        decreases n - i,
    {
        assert(activities@.subrange(0, i + 1).drop_last() =~= activities@.subrange(0, i as int));
        if activities[i].listening {
            proof {
                let t = activities@.subrange(0, i + 1);
                assert(t.last() == activities@[i as int]);
                assert(first_listening(t) == Some(i as int));
                lemma_first_listening_extends(activities@, i as int + 1);
            }
            found = Some(i);
            break;
        }
        i = i + 1;
    }
    proof {
        if found is None {
            assert(activities@.subrange(0, n as int) =~= activities@);
        }
    }
    let spotify = match found {
        Some(k) => Some(spotify_activity(&activities[k])),
        None => None,
    };
    PresenceData { user_id, spotify, timestamp_ms: now_ms }
}

proof fn lemma_first_listening_extends(acts: Seq<ActivityFacts>, k: int)
    requires
        0 < k <= acts.len(),
        first_listening(acts.subrange(0, k)) is Some,
    ensures
        first_listening(acts) == first_listening(acts.subrange(0, k)),
    decreases acts.len() - k,
{
    if k < acts.len() {
        let t = acts.subrange(0, k + 1);
        assert(t.drop_last() =~= acts.subrange(0, k));
        assert(first_listening(t) == first_listening(acts.subrange(0, k)));
        assert(acts.subrange(0, k + 1) =~= t);
        lemma_first_listening_extends(acts, k + 1);
    } else {
        assert(acts.subrange(0, k) =~= acts);
    }
}

/// Applies one upstream update: the record is stored first, then published
/// to the user's observers.
pub fn publish(cache: &mut Cache, registry: &mut WatchRegistry, user_id: &str, record: &PresenceData)
    requires
        old(registry).wf(),
    ensures
        final(registry).wf(),
        final(cache)@ == old(cache)@.insert(user_id@, *record),
        final(registry)@ == notify_spec(old(registry)@, user_id@, *record),
{
    cache.set(user_id, record);
    registry.notify(user_id, record);
}

pub open spec fn pow2(n: nat) -> nat
    decreases n,
{
    if n == 0 {
        1
    } else {
        2 * pow2((n - 1) as nat)
    }
}

/// Wait before reconnection attempt number `attempt`: two to that power,
/// capped at the largest backoff.
pub open spec fn backoff_spec(attempt: u32) -> u64 {
    if attempt >= 6 {
        MAX_BACKOFF_SECS
    } else {
        pow2(attempt as nat) as u64
    }
}

/// Seconds to wait before reconnection attempt number `attempt`.
pub fn backoff_secs(attempt: u32) -> (r: u64)
    ensures
        r == backoff_spec(attempt),
        r <= MAX_BACKOFF_SECS,
{
    proof {
        reveal_with_fuel(pow2, 7);
    }
    match attempt {
        0 => 1,
        1 => 2,
        2 => 4,
        3 => 8,
        4 => 16,
        5 => 32,
        _ => MAX_BACKOFF_SECS,
    }
}

/// The attempt number after a connection run ended: counting restarts after
/// a run that connected, and the counter never wraps.
pub fn next_attempt(attempt: u32, connected: bool) -> (r: u32)
    ensures
        connected ==> r == 1,
        !connected ==> r == (if attempt == u32::MAX {
            u32::MAX
        } else {
            (attempt + 1) as u32
        }),
{
    if connected {
        1
    } else if attempt == u32::MAX {
        attempt
    } else {
        attempt + 1
    }
}

} // verus!
