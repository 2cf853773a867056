//! Floating-point numbers by their bits.
//!
//! A double is held as the sixty-four bits of its IEEE 754 form: a sign, eleven
//! bits of exponent, fifty-two bits of fraction.

use vstd::arithmetic::power2::{
    lemma2_to64, lemma2_to64_rest, lemma_pow2_adds, lemma_pow2_pos, lemma_pow2_strictly_increases,
    pow2,
};
use vstd::prelude::*;

verus! {

/// The bits of the double that is nearest to 5.65685424949238.
pub const ROOT: u64 = 0x4016_A09E_667F_3BCC;

/// The bits of the distance from one to the next larger double.
pub const EPSILON: u64 = 0x3CB0_0000_0000_0000;

/// The exponent field.
pub open spec fn exponent(bits: u64) -> nat {
    (bits as nat / 0x10_0000_0000_0000) % 0x800
}

/// The fraction field.
pub open spec fn fraction(bits: u64) -> nat {
    bits as nat % 0x10_0000_0000_0000
}

/// The sign bit is set.
pub open spec fn negative(bits: u64) -> bool {
    bits >= 0x8000_0000_0000_0000
}

/// The double is a number and not an infinity.
pub open spec fn finite(bits: u64) -> bool {
    exponent(bits) < 0x7ff
}

/// The double stands for no number.
pub open spec fn not_a_number(bits: u64) -> bool {
    exponent(bits) == 0x7ff && fraction(bits) != 0
}

/// The double is one of the two zeros.
pub open spec fn zero(bits: u64) -> bool {
    exponent(bits) == 0 && fraction(bits) == 0
}

/// The size of a finite double, counted in units of the smallest positive double.
pub open spec fn magnitude(bits: u64) -> nat {
    if exponent(bits) == 0 {
        fraction(bits)
    } else {
        ((0x10_0000_0000_0000 + fraction(bits)) * pow2((exponent(bits) - 1) as nat)) as nat
    }
}

/// The exact value of a finite double, counted in units of the smallest positive
/// double.
pub open spec fn value(bits: u64) -> int {
    if negative(bits) {
        -(magnitude(bits) as int)
    } else {
        magnitude(bits) as int
    }
}

/// Equality of doubles: no value equals what is not a number, and the two zeros
/// are equal.
pub open spec fn same(left: u64, right: u64) -> bool {
    &&& !not_a_number(left)
    &&& !not_a_number(right)
    &&& left == right || (zero(left) && zero(right))
}

/// The double is finite and its distance from [`ROOT`] is under [`EPSILON`].
pub open spec fn near_root(bits: u64) -> bool {
    finite(bits) && -value(EPSILON) < value(bits) - value(ROOT) < value(EPSILON)
}

/// Decides equality of doubles.
pub fn same_double(left: u64, right: u64) -> (result: bool)
    ensures
        result == same(left, right),
{
    let left_size: u64 = left % 0x8000_0000_0000_0000;
    let right_size: u64 = right % 0x8000_0000_0000_0000;
    if left_size > 0x7ff0_0000_0000_0000 || right_size > 0x7ff0_0000_0000_0000 {
        false
    } else {
        left == right || (left_size == 0 && right_size == 0)
    }
}

/// The doubles around [`ROOT`] are further apart than [`EPSILON`]: none but itself is
/// near it.
pub proof fn law_only_root_is_near(bits: u64)
    ensures
        near_root(bits) <==> bits == ROOT,
{
    let root_exponent = exponent(ROOT);
    assert(root_exponent == 1025 && fraction(ROOT) == 0x6_A09E_667F_3BCC && !negative(ROOT));
    assert(exponent(EPSILON) == 971 && fraction(EPSILON) == 0 && !negative(EPSILON));
    let unit = pow2(1022);
    let one: int = 0x10_0000_0000_0000;
    assert(unit > 0 && pow2(1024) == 4 * unit && pow2(970) * one == unit) by {
        lemma_pow2_adds(1022, 2);
        lemma_pow2_adds(970, 52);
        lemma2_to64();
        lemma2_to64_rest();
        lemma_pow2_pos(1022);
    }
    assert(value(EPSILON) == unit) by {
        let f = fraction(EPSILON) as int;
        let p = pow2(970) as int;
        assert((one + f) * p == p * one) by (nonlinear_arith)
            requires
                f == 0,
        ;
    }
    assert(value(ROOT) == (one + fraction(ROOT)) * pow2(1024));
    if finite(bits) && bits != ROOT {
        let e = exponent(bits);
        let f = fraction(bits) as int;
        let r = fraction(ROOT) as int;
        if negative(bits) {
            assert(value(bits) <= 0);
            assert(value(ROOT) >= unit) by (nonlinear_arith)
                requires
                    value(ROOT) == (one + r) * (4 * unit),
                    one > 0,
                    r >= 0,
                    unit > 0,
            ;
        } else if e == 1025 {
            assert(f != r);
            assert(value(bits) - value(ROOT) == (f - r) * (4 * unit)) by (nonlinear_arith)
                requires
                    value(bits) == (one + f) * (4 * unit),
                    value(ROOT) == (one + r) * (4 * unit),
            ;
            assert((f - r) * (4 * unit) >= unit || (f - r) * (4 * unit) <= -unit)
                by (nonlinear_arith)
                requires
                    f != r,
                    unit > 0,
            ;
        } else if e > 1025 {
            let p = pow2((e - 1) as nat);
            assert(p >= 8 * unit) by {
                lemma_pow2_adds(1022, 3);
                lemma2_to64();
                if e - 1 > 1025 {
                    lemma_pow2_strictly_increases(1025, (e - 1) as nat);
                }
            }
            assert(value(bits) - value(ROOT) >= unit) by (nonlinear_arith)
                requires
                    value(bits) == (one + f) * p,
                    value(ROOT) == (one + r) * (4 * unit),
                    p >= 8 * unit,
                    f >= 0,
                    0 <= r < one,
                    unit > 0,
                    one > 0,
            ;
        } else {
            let p = if e == 0 { 1 } else { pow2((e - 1) as nat) };
            assert(0 < p <= 2 * unit) by {
                lemma_pow2_adds(1022, 1);
                lemma2_to64();
                lemma_pow2_pos((e - 1) as nat);
                if e > 0 && e - 1 < 1023 {
                    lemma_pow2_strictly_increases((e - 1) as nat, 1023);
                }
            }
            assert(value(bits) <= (one + f) * p) by (nonlinear_arith)
                requires
                    value(bits) == (one + f) * p || (value(bits) == f && p == 1),
                    one > 0,
            ;
            assert(value(ROOT) - value(bits) >= unit) by (nonlinear_arith)
                requires
                    value(bits) <= (one + f) * p,
                    value(ROOT) == (one + r) * (4 * unit),
                    0 < p <= 2 * unit,
                    0 <= f < one,
                    0 <= r,
                    unit > 0,
                    one > 0,
            ;
        }
    }
}

/// Decides whether a double is nearer to [`ROOT`] than [`EPSILON`].
pub fn is_near_root(bits: u64) -> (result: bool)
    ensures
        result == near_root(bits),
{
    proof {
        law_only_root_is_near(bits);
    }
    bits == ROOT
}

/// The double that the square root is held to is the square root of thirty-two, rounded
/// down to the bits that a double has: counted in units of the fiftieth power of one half,
/// its square is not above thirty-two, and that of the next double is.
pub proof fn law_root_is_the_square_root_of_thirty_two()
    ensures
        !negative(ROOT),
        exponent(ROOT) == 1075 - 50,
        ({
            let root = 0x10_0000_0000_0000int + fraction(ROOT);
            let thirty_two = 32 * 0x10_0000_0000_0000_0000_0000_0000int;
            &&& root * root <= thirty_two
            &&& thirty_two < (root + 1) * (root + 1)
        }),
{
    let root = 0x10_0000_0000_0000int + fraction(ROOT);
    assert(root == 0x16_A09E_667F_3BCC);
    assert(root * root == 0x16_A09E_667F_3BCCint * 0x16_A09E_667F_3BCCint);
    assert((root + 1) * (root + 1) == 0x16_A09E_667F_3BCDint * 0x16_A09E_667F_3BCDint);
}

/// Two doubles are equal if they have the same bits and stand for something, and the two
/// zeros are equal; nothing else is. The zeros are nothing but a sign, and what is no
/// number lies behind the infinities.
pub proof fn law_equal_doubles(left: u64, right: u64)
    ensures
        same(left, right) <==> {
            ||| left == right && (left <= 0x7ff0_0000_0000_0000 || 0x8000_0000_0000_0000 <= left
                <= 0xfff0_0000_0000_0000)
            ||| left == 0 && right == 0x8000_0000_0000_0000
            ||| left == 0x8000_0000_0000_0000 && right == 0
        },
        same(left, right) == same(right, left),
{
}

} // verus!
