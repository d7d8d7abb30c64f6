use vstd::prelude::*;

verus! {

/// Whether a 128-bit value carries the version (4) and variant (RFC 4122) bits of a
/// randomly generated UUID.
pub open spec fn is_v4_uuid_bits(value: u128) -> bool {
    value & 0xF000_C000_0000_0000_0000u128 == 0x4000_8000_0000_0000_0000u128
}

/// The three colour channels that `fastrand::Rng::with_seed(seed)` yields for three
/// successive calls of `u8(..)`.
pub uninterp spec fn seeded_colour_channels(seed: u64) -> (u8, u8, u8);

/// Calls `uuid::Uuid::new_v4` and reads the result as a `u128`. `new_v4` masks a random
/// value and sets the version and variant bits; only those fixed bits are claimed here,
/// the rest of the result depends on the system's random source.
#[verifier::external_body]
pub(crate) fn random_uuid_v4() -> (r: u128)
    ensures
        is_v4_uuid_bits(r),
{
    uuid::Uuid::new_v4().as_u128()
}

/// Calls `fastrand::u128(..u128::MAX)`. The result depends on the thread-local generator;
/// the only claim is the one its range gives: it is below `u128::MAX`.
#[verifier::external_body]
pub(crate) fn random_u128_below_max() -> (r: u128)
    ensures
        r < u128::MAX,
{
    fastrand::u128(..u128::MAX)
}

/// Creates `fastrand::Rng::with_seed(seed)` and draws three `u8(..)` values from it.
/// The generator is deterministic in its seed, so the result is named as a function of
/// `seed` alone; which values it yields is not stated.
#[verifier::external_body]
pub(crate) fn seeded_colour(seed: u64) -> (r: (u8, u8, u8))
    ensures
        r == seeded_colour_channels(seed),
{
    let mut rng = fastrand::Rng::with_seed(seed);
    let r = rng.u8(..);
    let g = rng.u8(..);
    let b = rng.u8(..);
    (r, g, b)
}

} // verus!
