//! Identifiers: video, alert, digest and quick-action rows are keyed by
//! UUIDs, carried through queues and payloads as text.

use vstd::prelude::*;

verus! {

/// What `uuid::Uuid::parse_str` accepts: the 128-bit value named by UUID
/// text (hyphenated, simple, URN or braced form), or `None` where the text
/// is not a UUID.
pub uninterp spec fn spec_uuid_of_text(s: Seq<char>) -> Option<u128>;

/// Relies on `uuid::Uuid::parse_str`: validates UUID text and returns its
/// 128-bit value; the result depends on the characters alone.
#[verifier::external_body]
pub fn parse_uuid(s: &str) -> (r: Option<u128>)
    ensures
        r == spec_uuid_of_text(s@),
{
    match uuid::Uuid::parse_str(s) {
        Ok(u) => Some(u.as_u128()),
        Err(_) => None,
    }
}

/// Accepts a queue message's video id only where it is valid UUID text:
/// a malformed id is dropped immediately, never retried.
pub fn accept_video_id(id: String) -> (r: Option<String>)
    ensures
        r is Some <==> spec_uuid_of_text(id@) is Some,
        r is Some ==> r->0 == id,
{
    match parse_uuid(id.as_str()) {
        Some(_) => Some(id),
        None => None,
    }
}

/// Relies on `uuid::Uuid::new_v4` and its hyphenated rendering: a freshly
/// drawn random identifier. Nothing relates two draws; the rendering is
/// always 36 characters.
#[verifier::external_body]
pub fn fresh_uuid() -> (r: String)
    ensures
        r@.len() == 36,
{
    uuid::Uuid::new_v4().to_string()
}

} // verus!
