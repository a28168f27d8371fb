//! What holds of the modes and of runs of passes, for every input.

use crate::engine::{spec_fry_all, DeepfryAlgorithm};
use crate::mode::{
    add_mod_256, floor_sqrt, is_floor_sqrt, lemma_floor_sqrt_exists, mul_mod_256, ChangeMode,
};
use crate::random::seeded_byte;
use crate::raster::Pixel;
use vstd::arithmetic::power::lemma_pow0;
use vstd::prelude::*;

verus! {

/// Shifting right and then left by the same amount gives the byte back
/// whenever the amount is a multiple of eight. For any other amount the bits
/// shifted out are lost: no odd byte comes back.
pub proof fn law_shift_round_trip(value: u8, amount: u32)
    ensures
        amount % 8 == 0 ==> ChangeMode::ShiftLeft.spec_shift(
            ChangeMode::ShiftRight.spec_shift(value, amount),
            amount,
        ) == value,
        amount % 8 != 0 && value % 2 == 1 ==> ChangeMode::ShiftLeft.spec_shift(
            ChangeMode::ShiftRight.spec_shift(value, amount),
            amount,
        ) != value,
{
    let by: u32 = amount % 8;
    assert(by == 0 ==> (value >> by) << by == value) by (bit_vector);
    assert(0 < by < 8 && value % 2 == 1 ==> (value >> by) << by != value) by (bit_vector);
}

/// Complementing twice gives the byte back, whatever the parameters.
pub proof fn law_not_involution(value: u8, first: u32, second: u32)
    ensures
        ChangeMode::Not.spec_shift(ChangeMode::Not.spec_shift(value, first), second) == value,
{
    assert(!(!value) == value) by (bit_vector);
}

/// Xor with the same key twice gives the byte back.
pub proof fn law_xor_involution(value: u8, key: u32)
    ensures
        ChangeMode::Xor.spec_shift(ChangeMode::Xor.spec_shift(value, key), key) == value,
{
    let k: u8 = (key % 256) as u8;
    assert((value ^ k) ^ k == value) by (bit_vector);
}

/// And with zero clears the byte, and so does any key whose low byte is
/// zero.
pub proof fn law_and_zero(value: u8, key: u32)
    ensures
        ChangeMode::And.spec_shift(value, 0) == 0,
        key % 256 == 0 ==> ChangeMode::And.spec_shift(value, key) == 0,
{
    assert(value & 0u8 == 0) by (bit_vector);
}

/// Or with 255 sets every bit, and so does any key whose low byte is 255.
pub proof fn law_or_ones(value: u8, key: u32)
    ensures
        ChangeMode::Or.spec_shift(value, 255) == 255,
        key % 256 == 255 ==> ChangeMode::Or.spec_shift(value, key) == 255,
{
    assert(value | 255u8 == 255) by (bit_vector);
}

/// Anything to the power zero is one.
pub proof fn law_exponent_zero(value: u8)
    ensures
        ChangeMode::Exponent.spec_shift(value, 0) == 1,
{
    lemma_pow0(value as int);
}

/// The square root mode gives the integer part of the square root, which is
/// at most 15, and the parameter plays no part.
pub proof fn law_sqrt_floor(value: u8, other: u32)
    ensures
        is_floor_sqrt(value as nat, ChangeMode::Sqrt.spec_shift(value, other) as nat),
        ChangeMode::Sqrt.spec_shift(value, other) <= 15,
        ChangeMode::Sqrt.spec_shift(value, other) == ChangeMode::Sqrt.spec_shift(value, 0),
{
    let root = floor_sqrt(value as nat);
    lemma_floor_sqrt_exists(value as nat);
    assert(root <= 15) by (nonlinear_arith)
        requires
            root * root <= value,
            value <= 255,
    ;
}

/// The byte that a random mode adds or multiplies by is fixed by the
/// parameter: it is the same for every channel byte, in every pixel and in
/// every call.
pub proof fn law_random_fixed_by_seed(other: u32)
    ensures
        forall|value: u8| #[trigger]
            ChangeMode::RandomAdd.spec_shift(value, other) == add_mod_256(
                value as int,
                seeded_byte(other as u64) as int,
            ),
        forall|value: u8| #[trigger]
            ChangeMode::RandomMul.spec_shift(value, other) == mul_mod_256(
                value as int,
                seeded_byte(other as u64) as int,
            ),
{
}

/// One pass treats each pixel by itself: what it makes of two runs of
/// pixels laid end to end is what it makes of each, laid end to end.
pub proof fn law_fry_pixelwise(algo: DeepfryAlgorithm, left: Seq<Pixel>, right: Seq<Pixel>)
    ensures
        algo.spec_fry(left + right) == algo.spec_fry(left) + algo.spec_fry(right),
        algo.spec_fry(left).len() == left.len(),
{
    assert(algo.spec_fry(left + right) =~= algo.spec_fry(left) + algo.spec_fry(right));
}

/// A run of passes leaves as many pixels as it found; of no pixels it makes
/// no pixels.
pub proof fn law_fry_all_keeps_count(algos: Seq<DeepfryAlgorithm>, pixels: Seq<Pixel>)
    ensures
        spec_fry_all(algos, pixels).len() == pixels.len(),
        pixels.len() == 0 ==> spec_fry_all(algos, pixels) == pixels,
    decreases algos.len(),
{
    if algos.len() > 0 {
        law_fry_all_keeps_count(algos.drop_first(), algos[0].spec_fry(pixels));
        if pixels.len() == 0 {
            assert(algos[0].spec_fry(pixels) =~= pixels);
        }
    }
}

/// A run of one pass is that pass.
pub proof fn law_fry_all_single(algo: DeepfryAlgorithm, pixels: Seq<Pixel>)
    ensures
        spec_fry_all(seq![algo], pixels) == algo.spec_fry(pixels),
{
    let one = seq![algo];
    assert(one.drop_first().len() == 0);
    assert(spec_fry_all(one.drop_first(), algo.spec_fry(pixels)) == algo.spec_fry(pixels));
    assert(one[0] == algo);
}

/// Passes compose from left to right: a run of passes followed by another
/// run is the second run applied to what the first one left.
pub proof fn law_fry_all_composes(
    first: Seq<DeepfryAlgorithm>,
    second: Seq<DeepfryAlgorithm>,
    pixels: Seq<Pixel>,
)
    ensures
        spec_fry_all(first + second, pixels) == spec_fry_all(second, spec_fry_all(first, pixels)),
    decreases first.len(),
{
    if first.len() == 0 {
        assert(first + second =~= second);
    } else {
        let whole = first + second;
        assert(whole[0] == first[0]);
        assert(whole.drop_first() =~= first.drop_first() + second);
        law_fry_all_composes(first.drop_first(), second, first[0].spec_fry(pixels));
    }
}

} // verus!
