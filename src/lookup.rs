use vstd::prelude::*;
use crate::cache::{Cache, after_lookup, lookup_fresh};
use crate::presence::{PresenceData, valid_user_id, validate_user_id};

verus! {

/// The answer to a point-in-time presence query.
#[derive(Debug, PartialEq, Eq)]
pub enum LookupReply {
    /// The fresh record of the user.
    Found(PresenceData),
    /// No fresh record exists.
    NotFound,
    /// The user id fails the identifier grammar.
    InvalidUserId,
}

impl LookupReply {
    /// The HTTP status of the reply.
    pub fn status(&self) -> (r: u16)
        ensures
            self is Found ==> r == 200,
            self is NotFound ==> r == 404,
            self is InvalidUserId ==> r == 400,
    {
        match self {
            LookupReply::Found(_) => 200,
            LookupReply::NotFound => 404,
            LookupReply::InvalidUserId => 400,
        }
    }
}

/// Answers a presence query at time `now_ms`. An invalid id is refused
/// before the store is touched; a stale record is evicted and reported absent.
pub fn get_presence(cache: &mut Cache, user_id: &str, now_ms: i64) -> (r: LookupReply)
    ensures
        !valid_user_id(user_id@) ==> r == LookupReply::InvalidUserId && final(cache)@ == old(cache)@,
        valid_user_id(user_id@) ==> final(cache)@ == after_lookup(old(cache)@, user_id@, now_ms)
            && r == match lookup_fresh(old(cache)@, user_id@, now_ms) {
            Some(p) => LookupReply::Found(p),
            None => LookupReply::NotFound,
        },
{
    if !validate_user_id(user_id) {
        return LookupReply::InvalidUserId;
    }
    match cache.get(user_id, now_ms) {
        Some(p) => LookupReply::Found(p),
        None => LookupReply::NotFound,
    }
}

/// What the membership collaborator answered.
#[derive(Debug, PartialEq, Eq)]
pub enum MemberLookup {
    /// The member record was found.
    Member,
    /// The call failed, with the HTTP status if there was one, and a message.
    Failed { status: Option<u16>, message: String },
}

/// The answer to a membership query.
#[derive(Debug, PartialEq, Eq)]
pub enum MembershipReply {
    InServer(bool),
    InvalidUserId,
    /// The collaborator failed; its message is surfaced.
    UpstreamError(String),
}

impl MembershipReply {
    /// The HTTP status of the reply.
    pub fn status(&self) -> (r: u16)
        ensures
            self is InServer ==> r == 200,
            self is InvalidUserId ==> r == 400,
            self is UpstreamError ==> r == 500,
    {
        match self {
            MembershipReply::InServer(_) => 200,
            MembershipReply::InvalidUserId => 400,
            MembershipReply::UpstreamError(_) => 500,
        }
    }
}

/// Membership from the collaborator's answer: a found member is in, a "not
/// found" status means not in, any other failure is an error with its message.
pub fn is_member_outcome(lookup: MemberLookup) -> (r: Result<bool, String>)
    ensures
        lookup is Member ==> r == Ok::<bool, String>(true),
        lookup is Failed && lookup->status == Some(404u16) ==> r == Ok::<bool, String>(false),
        lookup is Failed && lookup->status != Some(404u16) ==> r == Err::<bool, String>(
            lookup->message,
        ),
{
    match lookup {
        MemberLookup::Member => Ok(true),
        MemberLookup::Failed { status, message } => match status {
            Some(code) => {
                if code == 404 {
                    Ok(false)
                } else {
                    Err(message)
                }
            },
            None => Err(message),
        },
    }
}

/// The reply to a membership query whose id was well formed.
pub fn membership_reply(lookup: MemberLookup) -> (r: MembershipReply)
    ensures
        lookup is Member ==> r == MembershipReply::InServer(true),
        lookup is Failed && lookup->status == Some(404u16) ==> r == MembershipReply::InServer(false),
        lookup is Failed && lookup->status != Some(404u16) ==> r == MembershipReply::UpstreamError(
            lookup->message,
        ),
{
    match is_member_outcome(lookup) {
        Ok(b) => MembershipReply::InServer(b),
        Err(m) => MembershipReply::UpstreamError(m),
    }
}

} // verus!
