//! The few calls this library makes into other crates.
//!
//! Nothing here is proved: each contract restates what the called crate
//! documents, and the rest of the library is verified against it.

use vstd::prelude::*;

verus! {

/// The bits of a random (version 4) identifier that are not random: the
/// version nibble and the two variant bits.
pub const V4_FIXED_MASK: u128 = 0x0000_0000_0000_f000_c000_0000_0000_0000u128;

/// The value those bits have in every version 4 identifier.
pub const V4_FIXED_BITS: u128 = 0x0000_0000_0000_4000_8000_0000_0000_0000u128;

/// Whether `id` is the value of a version 4 identifier.
pub open spec fn version_four(id: u128) -> bool {
    id & V4_FIXED_MASK == V4_FIXED_BITS
}

/// Calls `uuid::Uuid::new_v4` and hands the identifier back as its 128-bit
/// value. The identifier is random, so the contract only claims what every
/// version 4 identifier has: version nibble 4 and the RFC variant bits.
#[verifier::external_body]
pub(crate) fn new_v4_value() -> (id: u128)
    ensures
        version_four(id),
{
    uuid::Uuid::new_v4().as_u128()
}

/// Calls `chrono::Utc::now` and hands the instant back as microseconds since
/// the Unix epoch. Nothing is claimed of the value: it is whatever the clock
/// says.
#[verifier::external_body]
pub(crate) fn now_micros() -> i64 {
    chrono::Utc::now().timestamp_micros()
}

/// The text `uuid::Uuid` prints for the identifier with this 128-bit value:
/// its lower-case hexadecimal digits in the hyphenated 8-4-4-4-12 grouping.
pub uninterp spec fn hyphenated(id: u128) -> Seq<char>;

/// Calls `uuid::Uuid::from_u128` and formats the identifier with its
/// `Display` implementation. The text depends on the value alone, and the
/// contract gives it its name without spelling it out.
#[verifier::external_body]
pub(crate) fn hyphenated_text(id: u128) -> (text: String)
    ensures
        text@ == hyphenated(id),
{
    uuid::Uuid::from_u128(id).to_string()
}

/// A handle on a Redis server, as the `redis` crate gives it out. The
/// library only carries it.
#[verifier::external_type_specification]
#[verifier::external_body]
pub struct ExRedisClient(redis::Client);

} // verus!
