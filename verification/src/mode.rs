//! The bit operations and their evaluation rule.

use crate::random::{draw_seeded_byte, seeded_byte};
use crate::text::holds_text;
use vstd::arithmetic::power::pow;
use vstd::prelude::*;

verus! {

/// The mode for bit changing.
#[derive(Debug, Clone, Copy, PartialEq, Eq, Structural)]
pub enum ChangeMode {
    /// Shifts bits to the left.
    ShiftLeft,
    /// Shifts bits to the right.
    ShiftRight,
    /// Does a NOT operation on the bits.
    Not,
    /// Multiplies the bits.
    Multiply,
    /// Uses the square root of the bits.
    Sqrt,
    /// Does an XOR operation on the bits.
    Xor,
    /// Does an OR operation on the bits.
    Or,
    /// Does an AND operation on the bits.
    And,
    /// Raises the bits to the power of the other provided value.
    Exponent,
    /// Adds a random value to the bits, using the other value as a seed.
    RandomAdd,
    /// Multiplies the bits by a random value, using the other value as a seed.
    RandomMul,
}

/// `r` is the integer part of the square root of `v`.
pub open spec fn is_floor_sqrt(v: nat, r: nat) -> bool {
    r * r <= v < (r + 1) * (r + 1)
}

/// The integer part of the square root of `v`.
pub open spec fn floor_sqrt(v: nat) -> nat {
    choose|r: nat| is_floor_sqrt(v, r)
}

/// `a * b` reduced to eight bits.
pub open spec fn mul_mod_256(a: int, b: int) -> u8 {
    ((a * b) % 256) as u8
}

/// `a + b` reduced to eight bits.
pub open spec fn add_mod_256(a: int, b: int) -> u8 {
    ((a + b) % 256) as u8
}

/// Wrapping exponentiation as `u8::wrapping_pow` documents it: `base` to the
/// power `exp`, reduced to the eight bits of the type.
pub assume_specification[ u8::wrapping_pow ](base: u8, exp: u32) -> (r: u8)
    ensures
        r == pow(base as int, exp as nat) % 256,
;

/// The text of the error for a string that names no mode.
pub open spec fn invalid_variant_message(given: Seq<char>) -> Seq<char> {
    "Invalid ChangeMode variant: '"@ + given + "'"@
}

impl ChangeMode {
    /// The mode's name, as it is written in settings and shown to users.
    pub open spec fn spec_name(self) -> Seq<char> {
        match self {
            ChangeMode::ShiftLeft => "ShiftLeft"@,
            ChangeMode::ShiftRight => "ShiftRight"@,
            ChangeMode::Not => "Not"@,
            ChangeMode::Multiply => "Multiply"@,
            ChangeMode::Sqrt => "Sqrt"@,
            ChangeMode::Xor => "Xor"@,
            ChangeMode::Or => "Or"@,
            ChangeMode::And => "And"@,
            ChangeMode::Exponent => "Exponent"@,
            ChangeMode::RandomAdd => "RandomAdd"@,
            ChangeMode::RandomMul => "RandomMul"@,
        }
    }

    /// Every mode, in declaration order.
    pub open spec fn spec_value_variants() -> Seq<ChangeMode> {
        seq![
            ChangeMode::ShiftLeft,
            ChangeMode::ShiftRight,
            ChangeMode::Not,
            ChangeMode::Multiply,
            ChangeMode::Sqrt,
            ChangeMode::Xor,
            ChangeMode::Or,
            ChangeMode::And,
            ChangeMode::Exponent,
            ChangeMode::RandomAdd,
            ChangeMode::RandomMul,
        ]
    }

    /// The mode that a string names exactly, if it names one.
    pub open spec fn spec_from_string(given: Seq<char>) -> Option<ChangeMode> {
        if exists|m: ChangeMode| m.spec_name() == given {
            Some(choose|m: ChangeMode| m.spec_name() == given)
        } else {
            None
        }
    }

    /// The mode's name.
    pub fn name(self) -> (r: &'static str)
        ensures
            r@ == self.spec_name(),
    {
        match self {
            ChangeMode::ShiftLeft => "ShiftLeft",
            ChangeMode::ShiftRight => "ShiftRight",
            ChangeMode::Not => "Not",
            ChangeMode::Multiply => "Multiply",
            ChangeMode::Sqrt => "Sqrt",
            ChangeMode::Xor => "Xor",
            ChangeMode::Or => "Or",
            ChangeMode::And => "And",
            ChangeMode::Exponent => "Exponent",
            ChangeMode::RandomAdd => "RandomAdd",
            ChangeMode::RandomMul => "RandomMul",
        }
    }

    /// Every mode, in declaration order.
    pub fn value_variants() -> (all: Vec<ChangeMode>)
        ensures
            all@ == ChangeMode::spec_value_variants(),
    {
        let all = vec![
            ChangeMode::ShiftLeft,
            ChangeMode::ShiftRight,
            ChangeMode::Not,
            ChangeMode::Multiply,
            ChangeMode::Sqrt,
            ChangeMode::Xor,
            ChangeMode::Or,
            ChangeMode::And,
            ChangeMode::Exponent,
            ChangeMode::RandomAdd,
            ChangeMode::RandomMul,
        ];
        assert(all@ =~= ChangeMode::spec_value_variants());
        all
    }

    /// Reads a mode from its name; the match is exact and case-sensitive.
    pub fn from_string(string: &str) -> (r: Result<Self, String>)
        ensures
            match ChangeMode::spec_from_string(string@) {
                Some(mode) => r == Ok::<ChangeMode, String>(mode),
                None => r is Err && r->Err_0@ == invalid_variant_message(string@),
            },
    {
        let given = string.to_owned();
        let all = ChangeMode::value_variants();
        let mut i: usize = 0;
        while i < all.len()
            invariant
                i <= all.len(),
                given@ == string@,
                all@ == ChangeMode::spec_value_variants(),
                forall|j: int| 0 <= j < i ==> (#[trigger] all@[j]).spec_name() != string@,
            decreases all.len() - i,
        {
            let mode = all[i];
            if holds_text(&given, mode.name()) {
                proof {
                    lemma_names_distinct(mode, choose|m: ChangeMode| m.spec_name() == string@);
                }
                return Ok(mode);
            }
            i = i + 1;
        }
        proof {
            assert forall|m: ChangeMode| m.spec_name() != string@ by {
                lemma_variants_complete(m);
            }
        }
        let mut message = String::from_str("Invalid ChangeMode variant: '");
        message.append(string);
        message.append("'");
        Err(message)
    }

    /// What the mode makes of one channel byte and its parameter, where
    /// `drawn` is the byte that the two random modes add or multiply by; the
    /// other modes do not look at it.
    pub open spec fn spec_shift_with(self, value: u8, other: u32, drawn: u8) -> u8 {
        match self {
            ChangeMode::ShiftLeft => value << (other % 8),
            ChangeMode::ShiftRight => value >> (other % 8),
            ChangeMode::Not => !value,
            ChangeMode::Multiply => mul_mod_256(value as int, (other % 256) as int),
            ChangeMode::Sqrt => floor_sqrt(value as nat) as u8,
            ChangeMode::Xor => value ^ ((other % 256) as u8),
            ChangeMode::Or => value | ((other % 256) as u8),
            ChangeMode::And => value & ((other % 256) as u8),
            ChangeMode::Exponent => (pow(value as int, other as nat) % 256) as u8,
            ChangeMode::RandomAdd => add_mod_256(value as int, drawn as int),
            ChangeMode::RandomMul => mul_mod_256(value as int, drawn as int),
        }
    }

    /// What the mode makes of one channel byte and its parameter. The random
    /// modes take their byte from a generator seeded with the parameter, so
    /// the same parameter gives the same byte every time.
    pub open spec fn spec_shift(self, value: u8, other: u32) -> u8 {
        self.spec_shift_with(value, other, seeded_byte(other as u64))
    }

    /// Applies the mode to one channel byte, with the byte for the random
    /// modes given by the caller.
    pub fn shift_with(self, value: u8, other: u32, drawn: u8) -> (r: u8)
        ensures
            r == self.spec_shift_with(value, other, drawn),
    {
        match self {
            ChangeMode::ShiftLeft => value.wrapping_shl(other),
            ChangeMode::ShiftRight => value.wrapping_shr(other),
            ChangeMode::Not => !value,
            ChangeMode::Multiply => value.wrapping_mul(low_byte(other)),
            ChangeMode::Sqrt => integer_sqrt(value),
            ChangeMode::Xor => value ^ low_byte(other),
            ChangeMode::Or => value | low_byte(other),
            ChangeMode::And => value & low_byte(other),
            ChangeMode::Exponent => value.wrapping_pow(other),
            ChangeMode::RandomAdd => value.wrapping_add(drawn),
            ChangeMode::RandomMul => value.wrapping_mul(drawn),
        }
    }

    /// Applies the mode to one channel byte.
    pub fn shift(self, value: u8, other: u32) -> (r: u8)
        ensures
            r == self.spec_shift(value, other),
    {
        match self {
            ChangeMode::RandomAdd | ChangeMode::RandomMul => {
                self.shift_with(value, other, draw_seeded_byte(other as u64))
            },
            _ => self.shift_with(value, other, 0),
        }
    }
}

/// Every mode stands in the list of all modes.
pub proof fn lemma_variants_complete(mode: ChangeMode)
    ensures
        exists|j: int|
            0 <= j < ChangeMode::spec_value_variants().len()
                && #[trigger] ChangeMode::spec_value_variants()[j] == mode,
{
    let all = ChangeMode::spec_value_variants();
    let j: int = match mode {
        ChangeMode::ShiftLeft => 0,
        ChangeMode::ShiftRight => 1,
        ChangeMode::Not => 2,
        ChangeMode::Multiply => 3,
        ChangeMode::Sqrt => 4,
        ChangeMode::Xor => 5,
        ChangeMode::Or => 6,
        ChangeMode::And => 7,
        ChangeMode::Exponent => 8,
        ChangeMode::RandomAdd => 9,
        ChangeMode::RandomMul => 10,
    };
    assert(all[j] == mode);
}

/// No two modes share a name.
pub proof fn lemma_names_distinct(a: ChangeMode, b: ChangeMode)
    requires
        a.spec_name() == b.spec_name(),
    ensures
        a == b,
{
    reveal_strlit("ShiftLeft");
    reveal_strlit("ShiftRight");
    reveal_strlit("Not");
    reveal_strlit("Multiply");
    reveal_strlit("Sqrt");
    reveal_strlit("Xor");
    reveal_strlit("Or");
    reveal_strlit("And");
    reveal_strlit("Exponent");
    reveal_strlit("RandomAdd");
    reveal_strlit("RandomMul");
    assert("ShiftLeft"@.len() == 9 && "ShiftLeft"@[0] == 'S');
    assert("ShiftRight"@.len() == 10);
    assert("Not"@.len() == 3 && "Not"@[0] == 'N');
    assert("Multiply"@.len() == 8 && "Multiply"@[0] == 'M');
    assert("Sqrt"@.len() == 4);
    assert("Xor"@.len() == 3 && "Xor"@[0] == 'X');
    assert("Or"@.len() == 2);
    assert("And"@.len() == 3 && "And"@[0] == 'A');
    assert("Exponent"@.len() == 8 && "Exponent"@[0] == 'E');
    assert("RandomAdd"@.len() == 9 && "RandomAdd"@[0] == 'R' && "RandomAdd"@[6] == 'A');
    assert("RandomMul"@.len() == 9 && "RandomMul"@[0] == 'R' && "RandomMul"@[6] == 'M');
}

/// A mode's name reads back as that mode.
pub proof fn lemma_name_reads_back(mode: ChangeMode)
    ensures
        ChangeMode::spec_from_string(mode.spec_name()) == Some(mode),
{
    let found = choose|m: ChangeMode| m.spec_name() == mode.spec_name();
    lemma_names_distinct(found, mode);
}

/// Every natural number has an integer square root.
pub proof fn lemma_floor_sqrt_exists(v: nat)
    ensures
        is_floor_sqrt(v, floor_sqrt(v)),
    decreases v,
{
    if v == 0 {
        assert(is_floor_sqrt(0, 0)) by (nonlinear_arith);
    } else {
        lemma_floor_sqrt_exists((v - 1) as nat);
        let r = floor_sqrt((v - 1) as nat);
        if v < (r + 1) * (r + 1) {
            assert(is_floor_sqrt(v, r));
        } else {
            assert(is_floor_sqrt(v, r + 1)) by (nonlinear_arith)
                requires
                    r * r <= v - 1 < (r + 1) * (r + 1),
                    v >= (r + 1) * (r + 1),
            ;
        }
    }
}

/// Whatever satisfies the defining inequality is the integer square root.
pub proof fn lemma_floor_sqrt_unique(v: nat, r: nat)
    requires
        is_floor_sqrt(v, r),
    ensures
        floor_sqrt(v) == r,
{
    let s = floor_sqrt(v);
    assert(is_floor_sqrt(v, s));
    assert(s == r) by (nonlinear_arith)
        requires
            r * r <= v < (r + 1) * (r + 1),
            s * s <= v < (s + 1) * (s + 1),
    ;
}

/// The low eight bits of a parameter.
fn low_byte(other: u32) -> (b: u8)
    ensures
        b == other % 256,
{
    assert(other as u8 == other % 256) by (bit_vector);
    #[verifier::truncate]
    (other as u8)
}

/// The integer part of the square root of a byte.
fn integer_sqrt(value: u8) -> (r: u8)
    ensures
        r == floor_sqrt(value as nat),
        r <= 15,
{
    let mut r: u8 = 0;
    let mut next_square: u16 = 1;
    while next_square <= value as u16
        invariant
            r <= 15,
            r * r <= value,
            next_square == (r + 1) * (r + 1),
        decreases 16 - r,
    {
        assert(r + 1 <= 15) by (nonlinear_arith)
            requires
                (r + 1) * (r + 1) <= 255,
        ;
        r = r + 1;
        assert((r + 1) * (r + 1) == r * r + 2 * r + 1) by (nonlinear_arith);
        next_square = next_square + 2 * (r as u16) + 1;
    }
    proof {
        lemma_floor_sqrt_unique(value as nat, r as nat);
    }
    r
}

} // verus!
