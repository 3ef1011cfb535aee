//! Identifiers and timestamps as plain values, and the outside calls that
//! parse, draw and read them.

use vstd::prelude::*;

verus! {

/// A 128-bit unique identifier; the key of events, users and teams.
#[derive(Clone, Copy, Debug, PartialEq, Eq, Structural, Hash)]
pub struct EntityId {
    pub value: u128,
}

/// A naive point in time: microseconds since the Unix epoch, no time zone.
#[derive(Clone, Copy, Debug, PartialEq, Eq, Structural)]
pub struct Timestamp {
    pub micros: i64,
}

#[verifier::external_type_specification]
#[verifier::external_body]
pub struct ExUuidError(uuid::Error);

/// The 128-bit value that `uuid::Uuid::parse_str` reads from a text, or
/// `None` where the text is in none of the forms that the crate accepts
/// (simple, hyphenated, braced, URN).
pub uninterp spec fn parsed_uuid(s: Seq<char>) -> Option<u128>;

/// Relies on uuid::Uuid::parse_str and Uuid::as_u128: the identifier that a
/// text spells, as a big-endian 128-bit value. Only texts of 32 (simple), 36
/// (hyphenated), 38 (braced) or 45 (URN) characters are read.
#[verifier::external_body]
pub(crate) fn parse_uuid(s: &str) -> (r: Result<u128, uuid::Error>)
    ensures
        match r {
            Ok(v) => parsed_uuid(s@) == Some(v),
            Err(_) => parsed_uuid(s@) is None,
        },
        !(s@.len() == 32 || s@.len() == 36 || s@.len() == 38 || s@.len() == 45) ==> r is Err,
{
    match uuid::Uuid::parse_str(s) {
        Ok(u) => Ok(u.as_u128()),
        Err(e) => Err(e),
    }
}

/// Relies on uuid::Uuid::new_v4 and Uuid::as_u128: a freshly drawn random
/// identifier. Nothing is known of its value.
#[verifier::external_body]
pub(crate) fn new_id() -> (r: EntityId) {
    EntityId { value: uuid::Uuid::new_v4().as_u128() }
}

/// Relies on chrono::Utc::now and DateTime::timestamp_micros: the current
/// time. Nothing is known of its value.
#[verifier::external_body]
pub(crate) fn now() -> (r: Timestamp) {
    Timestamp { micros: chrono::Utc::now().timestamp_micros() }
}

} // verus!
