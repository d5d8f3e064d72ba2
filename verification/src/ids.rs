use vstd::prelude::*;

verus! {

/// A fresh random drone identifier: `uuid::Uuid::new_v4()` taken as its
/// 128-bit big-endian value (`Uuid::as_u128`).
///
/// The value is random. What holds of every outcome, as `new_v4` builds it, is
/// that the version nibble (bits 76 to 79) reads 4 and the two variant bits
/// (62 and 63) read `10`. Nothing else is claimed. The call panics when the
/// operating system yields no random bytes, which no argument can rule out.
#[verifier::external_body]
pub(crate) fn new_drone_id() -> (id: u128)
    ensures
        (id >> 76u128) & 0xfu128 == 4,
        (id >> 62u128) & 0x3u128 == 2,
{
    uuid::Uuid::new_v4().as_u128()
}

} // verus!
