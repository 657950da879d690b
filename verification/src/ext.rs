//! Calls into the outside crates that the core leans on: identifier
//! generation and parsing (`uuid`) and the wall clock (`chrono`).

use vstd::prelude::*;

verus! {

/// The 128-bit value that a string denotes as a unique identifier, if any.
///
/// This names the result of `uuid::Uuid::parse_str`: which strings are valid
/// identifiers and which value each denotes depend on the characters alone.
pub uninterp spec fn uuid_of(s: Seq<char>) -> Option<u128>;

/// Relies on `uuid::Uuid::parse_str` and `Uuid::as_u128`: parses a string in
/// any of the formats the crate accepts (simple, hyphenated, braced, URN) to
/// its 128-bit value. The result is a function of the characters alone.
#[verifier::external_body]
pub(crate) fn parse_uuid(s: &String) -> (r: Option<u128>)
    ensures
        r == uuid_of(s@),
{
    match uuid::Uuid::parse_str(s.as_str()) {
        Ok(u) => Some(u.as_u128()),
        Err(_) => None,
    }
}

/// Relies on `uuid::Uuid::new_v4` and `Uuid::as_u128`: a freshly generated
/// random identifier. Nothing is promised of the value: it is random, and in
/// particular it may collide with an identifier already in use.
#[verifier::external_body]
pub(crate) fn fresh_id() -> (r: u128) {
    uuid::Uuid::new_v4().as_u128()
}

/// Relies on `chrono::Utc::now` and `DateTime::timestamp_micros`: the current
/// UTC instant as microseconds since the Unix epoch. Nothing is promised of
/// the value: it is the wall clock.
#[verifier::external_body]
pub(crate) fn now_micros() -> (r: i64) {
    chrono::Utc::now().timestamp_micros()
}

} // verus!
