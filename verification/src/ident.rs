//! Ids of todos: 128-bit values drawn at random, laid out as version 4 UUIDs.

use vstd::prelude::*;

verus! {

/// Whether `id` has the layout of a random UUID: read as sixteen big-endian
/// bytes, the high four bits of byte 6 hold the version number 4 and the high
/// two bits of byte 8 hold the variant `10`.
pub open spec fn is_random_uuid(id: u128) -> bool {
    (id >> 76u128) & 0xfu128 == 4u128 && (id >> 62u128) & 0x3u128 == 2u128
}

/// Draws a new id from `uuid::Uuid::new_v4` and hands it out as the integer
/// that `Uuid::as_u128` gives.
///
/// Trusted: `new_v4` masks sixteen random bytes so that the version nibble is
/// 4 and the variant bits are `10`; nothing else is claimed of the value, and
/// two calls may give any two values. The call panics if the operating system
/// cannot supply random bytes.
#[verifier::external_body]
pub(crate) fn fresh_id() -> (id: u128)
    ensures
        is_random_uuid(id),
{
    uuid::Uuid::new_v4().as_u128()
}

} // verus!
