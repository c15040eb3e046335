//! Freshly generated identifiers.
//!
//! Both functions call the `uuid` crate; their contracts are assumed, not proved.
//! An identifier depends on the clock and on the system's random source, so the
//! contracts state only what holds of every identifier.

use vstd::prelude::*;

verus! {

/// The number of characters in the hyphenated form of a UUID.
pub const UUID_TEXT_LEN: usize = 36;

/// Calls `uuid::Uuid::now_v7` and formats the result with `to_string`: the
/// hyphenated lower-case form, which always has 36 characters.
///
/// `uuid` stops the program if the system clock reads a time before 1970.
#[verifier::external_body]
pub(crate) fn anonymous_id() -> (id: String)
    ensures
        id@.len() == UUID_TEXT_LEN,
{
    uuid::Uuid::now_v7().to_string()
}

/// Calls `uuid::Uuid::new_v4` and formats the result with `to_string`: the
/// hyphenated lower-case form, which always has 36 characters.
///
/// `uuid` stops the program if the system's random source fails.
#[verifier::external_body]
pub(crate) fn random_id() -> (id: String)
    ensures
        id@.len() == UUID_TEXT_LEN,
{
    uuid::Uuid::new_v4().to_string()
}

} // verus!
