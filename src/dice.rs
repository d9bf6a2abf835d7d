use vstd::prelude::*;

verus! {

/// The value that `ephemeral_vrf_sdk::rnd::random_u8_with_range` reduces a
/// 32-byte random value to, for the given inclusive bounds.
pub uninterp spec fn random_in_range(bytes: Seq<u8>, min_value: u8, max_value: u8) -> u8;

/// The face of the die that a 32-byte random value gives.
pub open spec fn die_face(randomness: Seq<u8>) -> u8 {
    random_in_range(randomness, 1, 6)
}

/// Relies on `ephemeral_vrf_sdk::rnd::random_u8_with_range`: its result depends
/// on the bytes and the bounds alone and lies within the inclusive bounds. It
/// panics when the lower bound exceeds the upper one.
#[verifier::external_body]
fn random_u8_with_range(bytes: &[u8; 32], min_value: u8, max_value: u8) -> (r: u8)
    requires
        min_value <= max_value,
    ensures
        r == random_in_range(bytes@, min_value, max_value),
        min_value <= r <= max_value,
{
    ephemeral_vrf_sdk::rnd::random_u8_with_range(bytes, min_value, max_value)
}

/// Reduces an oracle's random value to a face of the die, 1 to 6. The
/// reduction scans the bytes for one below the largest multiple of six under
/// 256, so a face is picked without modulo bias unless no byte qualifies.
pub fn roll_die(randomness: &[u8; 32]) -> (r: u8)
    ensures
        r == die_face(randomness@),
        1 <= r <= 6,
{
    random_u8_with_range(randomness, 1, 6)
}

} // verus!
