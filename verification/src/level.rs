//! Audio levels as IEEE 754 single-precision bit patterns.
//!
//! A level arrives as the bit pattern of a 32-bit float. This module gives such a pattern its
//! numeric meaning and decides, on the pattern alone, whether the level is worth showing.
use vstd::arithmetic::power2::*;
use vstd::prelude::*;

verus! {

/// The bit pattern of the single-precision number nearest to 0.001, above which a level counts
/// as audible.
pub const AUDIBLE_FLOOR: u32 = 0x3A83_126F;

/// The bit pattern of positive infinity. Larger patterns without a sign bit are not numbers.
pub const POSITIVE_INFINITY: u32 = 0x7F80_0000;

/// The sign bit.
pub open spec fn is_negative(bits: u32) -> bool {
    bits >= 0x8000_0000
}

/// The pattern without its sign bit.
pub open spec fn unsigned_bits(bits: u32) -> int {
    bits as int % 0x8000_0000
}

/// The biased exponent.
pub open spec fn exponent(bits: u32) -> nat {
    (unsigned_bits(bits) / 0x80_0000) as nat
}

/// The trailing significand.
pub open spec fn fraction(bits: u32) -> nat {
    (unsigned_bits(bits) % 0x80_0000) as nat
}

/// The pattern stands for no number.
pub open spec fn is_nan(bits: u32) -> bool {
    exponent(bits) == 255 && fraction(bits) != 0
}

/// The pattern stands for a finite number.
pub open spec fn is_finite(bits: u32) -> bool {
    exponent(bits) < 255
}

/// The absolute value that a finite pattern stands for, in units of `2^-149`, the smallest
/// positive single. For an infinity it is larger than for every finite pattern.
pub open spec fn magnitude(bits: u32) -> nat {
    if exponent(bits) == 0 {
        fraction(bits)
    } else {
        (0x80_0000 + fraction(bits)) * pow2((exponent(bits) - 1) as nat)
    }
}

/// The value that a pattern stands for, in units of `2^-149`.
pub open spec fn value(bits: u32) -> int {
    if is_negative(bits) {
        -(magnitude(bits) as int)
    } else {
        magnitude(bits) as int
    }
}

/// The level is a number, and it is greater than the number of [`AUDIBLE_FLOOR`].
pub open spec fn is_audible(bits: u32) -> bool {
    !is_nan(bits) && value(bits) > value(AUDIBLE_FLOOR)
}

/// How far a pattern's number lies from 0.001, in units of `2^-149 / 1000`.
pub open spec fn distance_from_a_thousandth(bits: u32) -> int {
    let d = 1000 * value(bits) - pow2(149);
    if d < 0 {
        -d
    } else {
        d
    }
}

/// Patterns of the same exponent differ by their fractions, in steps of one unit of that
/// exponent.
proof fn lemma_same_exponent(a: u32, b: u32)
    requires
        exponent(a) == exponent(b),
        exponent(a) >= 1,
    ensures
        magnitude(b) - magnitude(a) == (fraction(b) - fraction(a)) * pow2((exponent(a) - 1) as nat),
{
    let p = pow2((exponent(a) - 1) as nat) as int;
    let fa = fraction(a) as int;
    let fb = fraction(b) as int;
    assert((0x80_0000 + fb) * p - (0x80_0000 + fa) * p == (fb - fa) * p) by (nonlinear_arith);
}

/// Patterns without a sign bit are ordered as the numbers that they stand for.
pub proof fn lemma_magnitude_increases(a: u32, b: u32)
    requires
        unsigned_bits(a) < unsigned_bits(b),
    ensures
        magnitude(a) < magnitude(b),
{
    let ea = exponent(a);
    let eb = exponent(b);
    let fa = fraction(a) as int;
    let fb = fraction(b) as int;
    assert(unsigned_bits(a) == 0x80_0000 * ea + fa);
    assert(unsigned_bits(b) == 0x80_0000 * eb + fb);
    if eb > 0 {
        lemma_pow2_pos((eb - 1) as nat);
        let pb = pow2((eb - 1) as nat) as int;
        if ea == eb {
            lemma_same_exponent(a, b);
            assert((fb - fa) * pb > 0) by (nonlinear_arith)
                requires
                    fb > fa,
                    pb > 0,
            ;
        } else {
            assert((0x80_0000 + fb) * pb >= 0x80_0000 * pb) by (nonlinear_arith)
                requires
                    fb >= 0,
                    pb > 0,
            ;
            if ea > 0 {
                let pa = pow2((ea - 1) as nat) as int;
                lemma_pow2_pos((ea - 1) as nat);
                lemma_pow2_unfold(ea);
                if ea < eb - 1 {
                    lemma_pow2_strictly_increases(ea, (eb - 1) as nat);
                }
                assert(2 * pa <= pb);
                assert((0x80_0000 + fa) * pa < 0x80_0000 * pb) by (nonlinear_arith)
                    requires
                        fa < 0x80_0000,
                        pa > 0,
                        2 * pa <= pb,
                ;
            } else {
                assert(0x80_0000 * pb >= 0x80_0000) by (nonlinear_arith)
                    requires
                        pb > 0,
                ;
            }
        }
    }
}

/// The fields of [`AUDIBLE_FLOOR`].
proof fn lemma_floor_fields()
    ensures
        unsigned_bits(AUDIBLE_FLOOR) == AUDIBLE_FLOOR,
        exponent(AUDIBLE_FLOOR) == 117,
        fraction(AUDIBLE_FLOOR) == 201327,
        !is_negative(AUDIBLE_FLOOR),
        unsigned_bits(0) == 0,
        magnitude(0) == 0,
{
}

/// The audible patterns are those above [`AUDIBLE_FLOOR`] up to infinity.
pub proof fn audible_patterns(bits: u32)
    ensures
        is_audible(bits) <==> AUDIBLE_FLOOR < bits <= POSITIVE_INFINITY,
        is_audible(bits) <==> 0x3A83_126F < bits <= 0x7F80_0000,
{
    lemma_floor_fields();
    if is_negative(bits) {
        lemma_magnitude_increases(0, AUDIBLE_FLOOR);
    } else if bits < AUDIBLE_FLOOR {
        lemma_magnitude_increases(bits, AUDIBLE_FLOOR);
    } else if bits > AUDIBLE_FLOOR {
        lemma_magnitude_increases(AUDIBLE_FLOOR, bits);
    }
}

/// Whether a level is audible. Not-a-number is not.
pub fn audible(bits: u32) -> (r: bool)
    ensures
        r == is_audible(bits),
        r <==> 0x3A83_126F < bits <= 0x7F80_0000,
{
    proof {
        audible_patterns(bits);
    }
    AUDIBLE_FLOOR < bits && bits <= POSITIVE_INFINITY
}

/// [`AUDIBLE_FLOOR`] is the single-precision number nearest to 0.001: no finite number lies
/// closer.
pub proof fn floor_is_nearest_to_a_thousandth(bits: u32)
    requires
        is_finite(bits),
    ensures
        distance_from_a_thousandth(AUDIBLE_FLOOR) <= distance_from_a_thousandth(bits),
{
    lemma_floor_fields();
    let unit = pow2(116) as int;
    lemma_pow2_pos(116);
    lemma_pow2_adds(116, 33);
    lemma2_to64();
    lemma2_to64_rest();
    assert(pow2(33) == 0x2_0000_0000);
    assert(pow2(149) == 0x2_0000_0000 * unit) by (nonlinear_arith)
        requires
            pow2(149) == unit * pow2(33),
            pow2(33) == 0x2_0000_0000,
    ;
    assert(value(AUDIBLE_FLOOR) == 8589935 * unit);
    let below: u32 = (AUDIBLE_FLOOR - 1) as u32;
    let above: u32 = (AUDIBLE_FLOOR + 1) as u32;
    assert(value(below) == 8589934 * unit);
    assert(value(above) == 8589936 * unit);
    if is_negative(bits) {
    } else if bits > above {
        lemma_magnitude_increases(above, bits);
    } else if bits < below {
        lemma_magnitude_increases(bits, below);
    }
}

} // verus!
