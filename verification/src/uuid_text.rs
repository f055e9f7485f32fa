//! Device addresses and lease tokens are the 128-bit numbers of UUIDs. This
//! module draws fresh ones and renders them.

use vstd::prelude::*;

verus! {

/// The hyphenated lower-case text of the UUID whose number is `value`, as
/// the `uuid` crate renders it.
pub uninterp spec fn uuid_text(value: u128) -> Seq<char>;

/// Renders the UUID whose number is `value` with `uuid::Uuid::from_u128`
/// and the crate's `Display` impl, which writes the hyphenated lower-case
/// form. The text depends on the number alone.
#[verifier::external_body]
pub(crate) fn uuid_string(value: u128) -> (s: String)
    ensures
        s@ == uuid_text(value),
{
    uuid::Uuid::from_u128(value).to_string()
}

/// Whether `value` is the number of a random (version 4) UUID: its version
/// field, the first hexadecimal digit of the third group, holds 4, and its
/// variant field, the top two bits of the fourth group, holds the bits 1 0.
pub open spec fn is_random_uuid(value: u128) -> bool {
    &&& value & 0x0000_0000_0000_f000_0000_0000_0000_0000u128
        == 0x0000_0000_0000_4000_0000_0000_0000_0000u128
    &&& value & 0x0000_0000_0000_0000_c000_0000_0000_0000u128
        == 0x0000_0000_0000_0000_8000_0000_0000_0000u128
}

/// Draws the number of a fresh random (version 4) UUID with
/// `uuid::Uuid::new_v4` and `Uuid::as_u128`. The number comes from the
/// system's random source; `new_v4` fixes its version and variant fields,
/// and that is all that is claimed of it.
#[verifier::external_body]
pub(crate) fn fresh_token() -> (token: u128)
    ensures
        is_random_uuid(token),
{
    uuid::Uuid::new_v4().as_u128()
}

} // verus!
