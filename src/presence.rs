use vstd::prelude::*;

verus! {

/// How long a presence record stays authoritative after it was observed.
pub const PRESENCE_TTL_MS: i64 = 300000;

/// Longest accepted user id, in characters.
pub const MAX_USER_ID_LEN: usize = 20;

/// What a user is listening to; every field may be missing.
#[derive(Clone, Debug, PartialEq, Eq)]
pub struct SpotifyActivity {
    pub track: Option<String>,
    pub artist: Option<String>,
    pub album: Option<String>,
    pub album_art_url: Option<String>,
    pub started_at_ms: Option<i64>,
    pub ends_at_ms: Option<i64>,
}

/// The latest known presence of one user.
#[derive(Clone, Debug, PartialEq, Eq)]
pub struct PresenceData {
    pub user_id: String,
    pub spotify: Option<SpotifyActivity>,
    pub timestamp_ms: i64,
}

pub open spec fn is_digit(c: char) -> bool {
    '0' <= c && c <= '9'
}

/// The identifier grammar: one to twenty ASCII digits.
pub open spec fn valid_user_id(s: Seq<char>) -> bool {
    &&& 0 < s.len() <= MAX_USER_ID_LEN
    &&& forall|i: int| 0 <= i < s.len() ==> is_digit(#[trigger] s[i])
}

/// A record observed at `observed_ms` is stale at `now_ms` when more than the
/// TTL has passed.
pub open spec fn stale_at(observed_ms: i64, now_ms: i64) -> bool {
    now_ms - observed_ms > PRESENCE_TTL_MS
}

/// Decimal value of a string of digits.
pub open spec fn digits_value(s: Seq<char>) -> nat
    decreases s.len(),
{
    if s.len() == 0 {
        0
    } else {
        digits_value(s.drop_last()) * 10 + (s.last() as nat - '0' as nat) as nat
    }
}

/// An identical copy of an optional text.
pub(crate) fn copy_text(s: &Option<String>) -> (r: Option<String>)
    ensures
        r == *s,
{
    match s {
        Some(t) => Some(t.clone()),
        None => None,
    }
}

impl SpotifyActivity {
    /// An identical copy of this activity.
    pub fn duplicate(&self) -> (r: SpotifyActivity)
        ensures
            r == *self,
    {
        SpotifyActivity {
            track: copy_text(&self.track),
            artist: copy_text(&self.artist),
            album: copy_text(&self.album),
            album_art_url: copy_text(&self.album_art_url),
            started_at_ms: self.started_at_ms,
            ends_at_ms: self.ends_at_ms,
        }
    }
}

impl PresenceData {
    /// An identical copy of this record.
    pub fn duplicate(&self) -> (r: PresenceData)
        ensures
            r == *self,
    {
        let spotify = match &self.spotify {
            Some(a) => Some(a.duplicate()),
            None => None,
        };
        PresenceData { user_id: self.user_id.clone(), spotify, timestamp_ms: self.timestamp_ms }
    }
}

/// Whether `presence` is past its TTL at time `now_ms`.
pub fn is_presence_stale(presence: &PresenceData, now_ms: i64) -> (r: bool)
    ensures
        r == stale_at(presence.timestamp_ms, now_ms),
{
    (now_ms as i128) - (presence.timestamp_ms as i128) > (PRESENCE_TTL_MS as i128)
}

/// Whether `user_id` matches the identifier grammar.
pub fn validate_user_id(user_id: &str) -> (r: bool)
    ensures
        r == valid_user_id(user_id@),
{
    let n = user_id.unicode_len();
    if n == 0 || n > MAX_USER_ID_LEN {
        return false;
    }
    let mut i: usize = 0;
    while i < n
        invariant
            n == user_id@.len(),
            0 < n <= MAX_USER_ID_LEN,
            i <= n,
            forall|j: int| 0 <= j < i ==> is_digit(#[trigger] user_id@[j]),
        decreases n - i,
    {
        let c = user_id.get_char(i);
        if !('0' <= c && c <= '9') {
            return false;
        }
        i = i + 1;
    }
    true
}

proof fn lemma_prefix_value_bounded(s: Seq<char>, i: int)
    requires
        0 <= i <= s.len(),
        forall|j: int| 0 <= j < s.len() ==> is_digit(#[trigger] s[j]),
    ensures
        digits_value(s.subrange(0, i)) <= digits_value(s),
    decreases s.len(),
{
    if i < s.len() {
        let t = s.drop_last();
        assert(t.subrange(0, i) =~= s.subrange(0, i));
        assert forall|j: int| 0 <= j < t.len() implies is_digit(#[trigger] t[j]) by {
            assert(t[j] == s[j]);
        }
        lemma_prefix_value_bounded(t, i);
    } else {
        assert(s.subrange(0, i) =~= s);
    }
}

/// Reads a user id as a number: `Some` exactly when the id matches the
/// identifier grammar and its value fits in a `u64`.
pub fn parse_user_id(user_id: &str) -> (r: Option<u64>)
    ensures
        r == (if valid_user_id(user_id@) && digits_value(user_id@) <= u64::MAX {
            Some(digits_value(user_id@) as u64)
        } else {
            None::<u64>
        }),
{
    if !validate_user_id(user_id) {
        return None;
    }
    let n = user_id.unicode_len();
    let mut v: u128 = 0;
    let mut i: usize = 0;
    while i < n
        invariant
            n == user_id@.len(),
            0 < n <= MAX_USER_ID_LEN,
            i <= n,
            valid_user_id(user_id@),
            v == digits_value(user_id@.subrange(0, i as int)),
            v <= u64::MAX,
        decreases n - i,
    {
        let c = user_id.get_char(i);
        assert(is_digit(user_id@[i as int]));
        let d = (c as u32 - '0' as u32) as u128;
        let ghost pre = user_id@.subrange(0, i as int);
        let ghost next = user_id@.subrange(0, i + 1);
        assert(next.drop_last() =~= pre);
        v = v * 10 + d;
        i = i + 1;
        if v > u64::MAX as u128 {
            proof {
                lemma_prefix_value_bounded(user_id@, i as int);
            }
            return None;
        }
    }
    assert(user_id@.subrange(0, n as int) =~= user_id@);
    Some(v as u64)
}

} // verus!
