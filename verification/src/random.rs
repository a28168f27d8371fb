//! The seeded byte source behind the two random modes.

use rand::rngs::SmallRng;
use rand::{Rng, SeedableRng};
use vstd::prelude::*;

verus! {

/// The byte that a small generator hands out first when it was seeded with
/// `seed`.
///
/// Settings that use a random mode are only portable together with this
/// generator, so it is part of their meaning: xoshiro256++, its 32 bytes of
/// state filled four at a time by the PCG32 stream that
/// `SeedableRng::seed_from_u64` runs from the seed; the byte is the low eight
/// bits of the upper half of the generator's first 64-bit output.
pub uninterp spec fn seeded_byte(seed: u64) -> u8;

/// Seeds a `rand::rngs::SmallRng` with `SeedableRng::seed_from_u64` and draws
/// one `u8` from it with `Rng::gen`.
///
/// Not proved: that the byte drawn is the one that `seeded_byte` names, which
/// is to say that it depends on the seed alone. Seeding reads nothing but the
/// seed, and the draw nothing but the generator's state. `rand` picks the
/// generator by the target's pointer width when it is built, so the byte is
/// fixed per target; the generator described above is the one for 64-bit
/// targets.
#[verifier::external_body]
pub(crate) fn draw_seeded_byte(seed: u64) -> (byte: u8)
    ensures
        byte == seeded_byte(seed),
{
    let mut rng = SmallRng::seed_from_u64(seed);
    rng.gen()
}

} // verus!
