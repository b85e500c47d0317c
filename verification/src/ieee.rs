//! IEEE-754 single-precision values as bit patterns.
//!
//! A pattern has one sign bit, eight bits of biased exponent and 23 bits of
//! fraction. A normal pattern with exponent field `e` and fraction `f` stands
//! for `(2^23 + f) * 2^(e - 150)`.

use vstd::prelude::*;
use vstd::arithmetic::div_mod::lemma_div_denominator;
use vstd::arithmetic::power2::{lemma2_to64, lemma_pow2_unfold, pow2};

verus! {

/// The pattern of 0.
pub const ZERO: u32 = 0;

/// The pattern of 1.
pub const ONE: u32 = 0x3f80_0000;

/// The pattern of -1.
pub const MINUS_ONE: u32 = 0xbf80_0000;

/// The smallest significand of a normal pattern: the hidden bit alone.
pub const HIDDEN_BIT: u32 = 0x80_0000;

/// The pattern with significand `significand` scaled by `2^(exponent - 150)`,
/// once the significand has been doubled, and the exponent lowered to match,
/// until the hidden bit is set.
pub open spec fn spec_normalize(significand: int, exponent: int) -> int
    decreases 2 * HIDDEN_BIT - significand,
{
    if 0 < significand < HIDDEN_BIT {
        spec_normalize(2 * significand, exponent - 1)
    } else {
        exponent * HIDDEN_BIT + (significand - HIDDEN_BIT)
    }
}

/// The pattern of the whole number `value`, for `0 <= value < 2^24`; every
/// such number has a pattern that stands for it exactly.
pub open spec fn spec_single_of(value: int) -> int {
    if value == 0 {
        0
    } else {
        spec_normalize(value, 150)
    }
}

/// The pattern of a whole number below `2^24`. Nothing is rounded: every such
/// number has an exact pattern.
fn single_of_exact(value: u32) -> (bits: u32)
    requires
        value < 0x100_0000,
    ensures
        bits == spec_single_of(value as int),
        spec_is_ordinary(bits),
        value == 0 <==> bits == 0,
        value > 0 ==> 127 <= spec_exponent(bits) <= 150,
{
    if value == 0 {
        return 0;
    }
    let mut significand: u32 = value;
    let mut exponent: u32 = 150;
    let ghost mut doublings: nat = 0;
    proof {
        lemma2_to64();
    }
    while significand < HIDDEN_BIT
        invariant
            0 < significand < 0x100_0000,
            doublings <= 23,
            exponent == 150 - doublings,
            significand >= pow2(doublings),
            spec_normalize(significand as int, exponent as int) == spec_normalize(
                value as int,
                150,
            ),
        decreases 2 * HIDDEN_BIT - significand,
    {
        proof {
            lemma2_to64();
            lemma_pow2_unfold(doublings + 1);
        }
        significand = significand * 2;
        exponent = exponent - 1;
        proof {
            doublings = doublings + 1;
        }
    }
    exponent * HIDDEN_BIT + (significand - HIDDEN_BIT)
}

/// Widens a 16-bit sample to single precision. Nothing is rounded: every
/// 16-bit number has an exact pattern.
pub fn single_of_u16(value: u16) -> (bits: u32)
    ensures
        bits == spec_single_of(value as int),
{
    single_of_exact(value as u32)
}

/// How many times `value` must be halved to come below `2^24`.
pub open spec fn spec_shift_of(value: int) -> nat
    decreases value,
{
    if value < 0x100_0000 {
        0
    } else {
        1 + spec_shift_of(value / 2)
    }
}

/// The whole number nearest to `value / unit`; of two equally near, the even one.
pub open spec fn spec_nearest_even(value: int, unit: int) -> int {
    let quotient = value / unit;
    let rest = value % unit;
    if 2 * rest > unit || (2 * rest == unit && quotient % 2 == 1) {
        quotient + 1
    } else {
        quotient
    }
}

/// The pattern nearest to the whole number `value`, for `0 <= value < 2^32`:
/// exact below `2^24`; above, the significand is `value` in units of the
/// least power of two that brings it below `2^24`, rounded to nearest, ties
/// to even.
pub open spec fn spec_single_of_u32(value: int) -> int {
    if value < 0x100_0000 {
        spec_single_of(value)
    } else {
        let shift = spec_shift_of(value);
        (150 + shift) * HIDDEN_BIT + (spec_nearest_even(value, pow2(shift) as int) - HIDDEN_BIT)
    }
}

/// Converts a 32-bit whole number to single precision, rounding to nearest
/// with ties to even, as a cast does.
pub fn single_of_u32(value: u32) -> (bits: u32)
    ensures
        bits == spec_single_of_u32(value as int),
        spec_is_ordinary(bits),
        value == 0 <==> bits == 0,
        value > 0 ==> 127 <= spec_exponent(bits) <= 159,
{
    if value < 0x100_0000 {
        return single_of_exact(value);
    }
    let mut quotient: u32 = value;
    let mut unit: u32 = 1;
    let mut shift: u32 = 0;
    proof {
        lemma2_to64();
    }
    while quotient >= 0x100_0000
        invariant
            unit == pow2(shift as nat),
            0 < unit <= 256,
            shift <= 8,
            quotient == value / unit,
            quotient * unit <= value,
            quotient >= HIDDEN_BIT,
            spec_shift_of(value as int) == shift + spec_shift_of(quotient as int),
        decreases quotient,
    {
        proof {
            lemma2_to64();
            lemma_pow2_unfold((shift + 1) as nat);
            lemma_div_denominator(value as int, unit as int, 2);
            assert((quotient / 2) * (2 * unit) <= quotient * unit) by (nonlinear_arith)
                requires
                    (quotient / 2) * 2 <= quotient,
                    unit >= 0,
            ;
            assert(unit < 256) by (nonlinear_arith)
                requires
                    quotient * unit <= value,
                    quotient >= 0x100_0000,
                    value < 0x1_0000_0000,
                    unit > 0,
            ;
            assert(unit == 1 || unit == 2 || unit == 4 || unit == 8 || unit == 16 || unit == 32
                || unit == 64 || unit == 128) by {
                assert(shift < 8) by {
                    if shift == 8 {
                        assert(unit == 256);
                    }
                }
            }
        }
        quotient = quotient / 2;
        unit = unit * 2;
        shift = shift + 1;
    }
    let rest: u32 = value % unit;
    let up = 2 * rest > unit || (2 * rest == unit && quotient % 2 == 1);
    let significand: u32 = if up {
        quotient + 1
    } else {
        quotient
    };
    (150 + shift) * HIDDEN_BIT + (significand - HIDDEN_BIT)
}

/// The whole number a pattern rounds to: the nearest one, the one farther
/// from zero of two equally near, held within the range of 32 unsigned bits.
/// Negative values and patterns that are not numbers give 0.
pub open spec fn spec_round_of(bits: u32) -> int {
    let negative = bits >= 0x8000_0000;
    let exponent = bits / HIDDEN_BIT % 0x100;
    let fraction = bits % HIDDEN_BIT;
    let significand = HIDDEN_BIT + fraction;
    if negative {
        0
    } else if exponent == 255 {
        if fraction == 0 {
            u32::MAX as int
        } else {
            0
        }
    } else if exponent >= 159 {
        u32::MAX as int
    } else if exponent >= 150 {
        significand * pow2((exponent - 150) as nat)
    } else if exponent >= 126 {
        (significand + pow2((149 - exponent) as nat)) / (pow2((150 - exponent) as nat) as int)
    } else {
        0
    }
}

/// Two to the power `exponent`.
fn power_of_two(exponent: u32) -> (power: u32)
    requires
        exponent <= 24,
    ensures
        power == pow2(exponent as nat),
        0 < power <= 0x100_0000,
{
    let mut power: u32 = 1;
    let mut done: u32 = 0;
    proof {
        lemma2_to64();
    }
    while done < exponent
        invariant
            done <= exponent <= 24,
            power == pow2(done as nat),
            0 < power,
            done < 24 ==> power <= HIDDEN_BIT,
            power <= 0x100_0000,
        decreases exponent - done,
    {
        proof {
            lemma2_to64();
            lemma_pow2_unfold((done + 1) as nat);
            lemma_pow2_unfold((done + 2) as nat);
            if done + 1 < 24 {
                vstd::arithmetic::power2::lemma_pow2_strictly_increases(
                    (done + 1) as nat,
                    24,
                );
            }
        }
        power = power * 2;
        done = done + 1;
    }
    power
}

/// Rounds a single-precision value to the nearest whole number, halves away
/// from zero, and holds the result within 32 unsigned bits, as rounding
/// followed by a cast does.
pub fn u32_of_single(bits: u32) -> (value: u32)
    ensures
        value == spec_round_of(bits),
{
    let exponent: u32 = bits / HIDDEN_BIT % 0x100;
    let fraction: u32 = bits % HIDDEN_BIT;
    let significand: u32 = HIDDEN_BIT + fraction;
    if bits >= 0x8000_0000 {
        0
    } else if exponent == 255 {
        if fraction == 0 {
            u32::MAX
        } else {
            0
        }
    } else if exponent >= 159 {
        u32::MAX
    } else if exponent >= 150 {
        let scale = power_of_two(exponent - 150);
        proof {
            lemma2_to64();
            assert(scale <= 256) by {
                vstd::arithmetic::power2::lemma_pow2_strictly_increases(
                    (exponent - 150) as nat,
                    9,
                );
            }
            assert(significand * scale <= 0xffff_ff00) by (nonlinear_arith)
                requires
                    significand <= 0xff_ffff,
                    0 < scale <= 256,
            ;
        }
        significand * scale
    } else if exponent >= 126 {
        let unit = power_of_two(150 - exponent);
        let half = power_of_two(149 - exponent);
        (significand + half) / unit
    } else {
        0
    }
}

/// True for the patterns arithmetic is done on here: zero, and the positive
/// normal numbers.
pub open spec fn spec_is_ordinary(bits: u32) -> bool {
    bits == 0 || HIDDEN_BIT <= bits < 0x7f80_0000
}

/// The exponent field of a pattern.
pub open spec fn spec_exponent(bits: u32) -> int {
    bits as int / 0x80_0000 % 0x100
}

/// The significand of a normal pattern: its fraction with the hidden bit set.
pub open spec fn spec_significand(bits: u32) -> int {
    HIDDEN_BIT + bits as int % 0x80_0000
}

/// True when the product of `a` and `b` is zero or a normal number: both are
/// ordinary and, unless one is zero, their exponents do not add up beyond
/// the range of normal numbers.
pub open spec fn spec_product_is_ordinary(a: u32, b: u32) -> bool {
    &&& spec_is_ordinary(a)
    &&& spec_is_ordinary(b)
    &&& a != 0 && b != 0 ==> 128 <= spec_exponent(a) + spec_exponent(b) <= 379
}

/// The pattern of the product of two ordinary values, rounded to nearest,
/// ties to even. The exact product of the significands has 47 or 48 bits;
/// it is rounded in units that leave 24.
pub open spec fn spec_product(a: u32, b: u32) -> int {
    if a == 0 || b == 0 {
        0
    } else {
        let exact = spec_significand(a) * spec_significand(b);
        let exponent = spec_exponent(a) + spec_exponent(b);
        if exact < 0x8000_0000_0000 {
            (exponent - 127) * HIDDEN_BIT + (spec_nearest_even(exact, 0x80_0000) - HIDDEN_BIT)
        } else {
            (exponent - 126) * HIDDEN_BIT + (spec_nearest_even(exact, 0x100_0000) - HIDDEN_BIT)
        }
    }
}

/// True when the quotient of `a` by `b` is zero or a normal number: both are
/// ordinary, `b` is not zero and, unless `a` is zero, their exponents do not
/// lie farther apart than the range of normal numbers.
pub open spec fn spec_quotient_is_ordinary(a: u32, b: u32) -> bool {
    &&& spec_is_ordinary(a)
    &&& spec_is_ordinary(b)
    &&& b != 0
    &&& a != 0 ==> -125 <= spec_exponent(a) - spec_exponent(b) <= 126
}

/// The pattern of the quotient of two ordinary values, rounded to nearest,
/// ties to even. The dividend's significand is scaled so that the quotient
/// of the significands has 24 bits before it is rounded.
pub open spec fn spec_quotient(a: u32, b: u32) -> int {
    if a == 0 {
        0
    } else {
        let exponent = spec_exponent(a) - spec_exponent(b);
        if spec_significand(a) >= spec_significand(b) {
            (exponent + 127) * HIDDEN_BIT + (spec_nearest_even(
                spec_significand(a) * 0x80_0000,
                spec_significand(b),
            ) - HIDDEN_BIT)
        } else {
            (exponent + 126) * HIDDEN_BIT + (spec_nearest_even(
                spec_significand(a) * 0x100_0000,
                spec_significand(b),
            ) - HIDDEN_BIT)
        }
    }
}

/// Rounds `value / unit` to the nearest whole number, ties to even.
fn nearest_even(value: u64, unit: u64) -> (nearest: u64)
    requires
        0 < unit < 0x8000_0000_0000_0000,
        value / unit < u64::MAX,
    ensures
        nearest == spec_nearest_even(value as int, unit as int),
        value / unit <= nearest <= value / unit + 1,
{
    let quotient = value / unit;
    let rest = value % unit;
    if 2 * rest > unit || (2 * rest == unit && quotient % 2 == 1) {
        quotient + 1
    } else {
        quotient
    }
}

/// Multiplies two ordinary values, rounding to nearest with ties to even,
/// as the hardware does.
pub fn single_mul(a: u32, b: u32) -> (product: u32)
    requires
        spec_product_is_ordinary(a, b),
    ensures
        product == spec_product(a, b),
        spec_is_ordinary(product),
        a != 0 && b != 0 ==> product != 0 && spec_exponent(a) + spec_exponent(b) - 127
            <= spec_exponent(product) <= spec_exponent(a) + spec_exponent(b) - 125,
{
    if a == 0 || b == 0 {
        return 0;
    }
    let significand_a: u64 = (HIDDEN_BIT + a % HIDDEN_BIT) as u64;
    let significand_b: u64 = (HIDDEN_BIT + b % HIDDEN_BIT) as u64;
    let exponent: u32 = a / HIDDEN_BIT % 0x100 + b / HIDDEN_BIT % 0x100;
    assert(0x4000_0000_0000 <= significand_a * significand_b < 0x1_0000_0000_0000)
        by (nonlinear_arith)
        requires
            0x80_0000 <= significand_a < 0x100_0000,
            0x80_0000 <= significand_b < 0x100_0000,
    ;
    let exact: u64 = significand_a * significand_b;
    if exact < 0x8000_0000_0000 {
        let rounded: u32 = nearest_even(exact, 0x80_0000) as u32;
        (exponent - 127) * HIDDEN_BIT + (rounded - HIDDEN_BIT)
    } else {
        let rounded: u32 = nearest_even(exact, 0x100_0000) as u32;
        (exponent - 126) * HIDDEN_BIT + (rounded - HIDDEN_BIT)
    }
}

/// Divides one ordinary value by another, rounding to nearest with ties to
/// even, as the hardware does.
pub fn single_div(a: u32, b: u32) -> (quotient: u32)
    requires
        spec_quotient_is_ordinary(a, b),
    ensures
        quotient == spec_quotient(a, b),
        spec_is_ordinary(quotient),
        a != 0 ==> quotient != 0 && spec_exponent(a) - spec_exponent(b) + 126 <= spec_exponent(
            quotient,
        ) <= spec_exponent(a) - spec_exponent(b) + 128,
{
    if a == 0 {
        return 0;
    }
    let significand_a: u64 = (HIDDEN_BIT + a % HIDDEN_BIT) as u64;
    let significand_b: u64 = (HIDDEN_BIT + b % HIDDEN_BIT) as u64;
    let exponent_a: u32 = a / HIDDEN_BIT % 0x100;
    let exponent_b: u32 = b / HIDDEN_BIT % 0x100;
    if significand_a >= significand_b {
        let scaled: u64 = significand_a * 0x80_0000;
        assert(0x80_0000 <= scaled / significand_b < 0x100_0000) by (nonlinear_arith)
            requires
                scaled == significand_a * 0x80_0000,
                0x80_0000 <= significand_b <= significand_a < 0x100_0000,
        ;
        let rounded: u32 = nearest_even(scaled, significand_b) as u32;
        (exponent_a + 127 - exponent_b) * HIDDEN_BIT + (rounded - HIDDEN_BIT)
    } else {
        let scaled: u64 = significand_a * 0x100_0000;
        assert(0x80_0000 <= scaled / significand_b < 0x100_0000) by (nonlinear_arith)
            requires
                scaled == significand_a * 0x100_0000,
                0x80_0000 <= significand_a < significand_b < 0x100_0000,
        ;
        let rounded: u32 = nearest_even(scaled, significand_b) as u32;
        (exponent_a + 126 - exponent_b) * HIDDEN_BIT + (rounded - HIDDEN_BIT)
    }
}

/// The whole number a pattern is cut down to: its whole part, held within
/// the range of 32 unsigned bits. Negative values and patterns that are not
/// numbers give 0.
pub open spec fn spec_truncation_of(bits: u32) -> int {
    let negative = bits >= 0x8000_0000;
    let exponent = bits / HIDDEN_BIT % 0x100;
    let fraction = bits % HIDDEN_BIT;
    let significand = HIDDEN_BIT + fraction;
    if negative {
        0
    } else if exponent == 255 {
        if fraction == 0 {
            u32::MAX as int
        } else {
            0
        }
    } else if exponent >= 159 {
        u32::MAX as int
    } else if exponent >= 150 {
        significand * pow2((exponent - 150) as nat)
    } else if exponent >= 127 {
        significand / (pow2((150 - exponent) as nat) as int)
    } else {
        0
    }
}

/// Cuts a single-precision value down to its whole part and holds the
/// result within 32 unsigned bits, as a cast does.
pub fn truncated_u32_of_single(bits: u32) -> (value: u32)
    ensures
        value == spec_truncation_of(bits),
{
    let exponent: u32 = bits / HIDDEN_BIT % 0x100;
    let fraction: u32 = bits % HIDDEN_BIT;
    let significand: u32 = HIDDEN_BIT + fraction;
    if bits >= 0x8000_0000 {
        0
    } else if exponent == 255 {
        if fraction == 0 {
            u32::MAX
        } else {
            0
        }
    } else if exponent >= 159 {
        u32::MAX
    } else if exponent >= 150 {
        let scale = power_of_two(exponent - 150);
        proof {
            lemma2_to64();
            assert(scale <= 256) by {
                vstd::arithmetic::power2::lemma_pow2_strictly_increases(
                    (exponent - 150) as nat,
                    9,
                );
            }
            assert(significand * scale <= 0xffff_ff00) by (nonlinear_arith)
                requires
                    significand <= 0xff_ffff,
                    0 < scale <= 256,
            ;
        }
        significand * scale
    } else if exponent >= 127 {
        let unit = power_of_two(150 - exponent);
        significand / unit
    } else {
        0
    }
}

/// Widens four 16-bit levels to single precision.
pub fn to_float(arr: [u16; 4]) -> (levels: [u32; 4])
    ensures
        forall|i: int| 0 <= i < 4 ==> levels[i] == spec_single_of(arr[i] as int),
{
    [single_of_u16(arr[0]), single_of_u16(arr[1]), single_of_u16(arr[2]), single_of_u16(arr[3])]
}

/// Normalizing keeps the value: the pattern's significand is the one it
/// began with, doubled once for each step its exponent field lies below the
/// exponent it began with. A significand of at least `2^room` takes at most
/// `23 - room` steps.
proof fn lemma_normalize_keeps_value(significand: int, exponent: int, room: nat)
    requires
        0 < significand < 0x100_0000,
        room <= 23,
        significand >= pow2(room),
        24 - room <= exponent <= 254,
    ensures
        ({
            let pattern = spec_normalize(significand, exponent);
            let field = pattern / 0x80_0000;
            &&& 0 < pattern < 0x7f80_0000
            &&& exponent - (23 - room) <= field <= exponent
            &&& 0x80_0000 + pattern % 0x80_0000 == significand * pow2((exponent - field) as nat)
        }),
    decreases 2 * HIDDEN_BIT - significand,
{
    lemma2_to64();
    if significand < HIDDEN_BIT {
        assert(room < 23);
        lemma_pow2_unfold(room + 1);
        lemma_normalize_keeps_value(2 * significand, exponent - 1, room + 1);
        let pattern = spec_normalize(2 * significand, exponent - 1);
        assert(pattern == spec_normalize(significand, exponent));
        let field = pattern / 0x80_0000;
        let steps = (exponent - 1 - field) as nat;
        lemma_pow2_unfold(steps + 1);
        assert(pow2((exponent - field) as nat) == 2 * pow2(steps));
        assert(2 * significand * pow2(steps) == significand * (2 * pow2(steps)))
            by (nonlinear_arith);
    } else {
        let pattern = spec_normalize(significand, exponent);
        assert(pattern == exponent * 0x80_0000 + (significand - 0x80_0000));
        assert(pattern / 0x80_0000 == exponent);
        assert(pattern % 0x80_0000 == significand - 0x80_0000);
        assert(significand * pow2(0) == significand) by (nonlinear_arith)
            requires
                pow2(0) == 1,
        ;
    }
}

/// A whole number below `2^24` survives the way to single precision and
/// back, whether it is rounded or cut on the way back.
pub proof fn lemma_whole_numbers_survive(value: u32)
    requires
        value < 0x100_0000,
    ensures
        0 <= spec_single_of(value as int) < 0x7f80_0000,
        spec_round_of(spec_single_of(value as int) as u32) == value,
        spec_truncation_of(spec_single_of(value as int) as u32) == value,
{
    lemma2_to64();
    if value > 0 {
        lemma_normalize_keeps_value(value as int, 150, 0);
        let pattern = spec_normalize(value as int, 150);
        let bits = pattern as u32;
        let field = pattern / 0x80_0000;
        let significand = 0x80_0000 + pattern % 0x80_0000;
        assert(bits / HIDDEN_BIT % 0x100 == field);
        assert(HIDDEN_BIT + bits % HIDDEN_BIT == significand);
        if field < 150 {
            let unit = pow2((150 - field) as nat) as int;
            let half = pow2((149 - field) as nat) as int;
            lemma_pow2_unfold((150 - field) as nat);
            vstd::arithmetic::power2::lemma_pow2_pos((149 - field) as nat);
            assert((value * unit + half) / unit == value) by (nonlinear_arith)
                requires
                    0 <= half < unit,
                    value >= 0,
            ;
            assert((value * unit) / unit == value) by (nonlinear_arith)
                requires
                    0 < unit,
                    value >= 0,
            ;
        } else {
            assert(value * pow2(0) == value) by (nonlinear_arith)
                requires
                    pow2(0) == 1,
            ;
        }
    }
}

/// The patterns of 0 and of 1 are what the constants say.
pub proof fn lemma_zero_and_one()
    ensures
        spec_single_of(0) == ZERO,
        spec_single_of(1) == ONE,
{
    reveal_with_fuel(spec_normalize, 25);
}

/// A quotient is at least `low` when the dividend holds `low` units.
proof fn lemma_quotient_at_least(dividend: int, low: int, unit: int)
    by (nonlinear_arith)
    requires
        0 < unit,
        dividend >= low * unit,
    ensures
        dividend / unit >= low,
{
}

/// A quotient is at most `high` when the dividend holds fewer than `high + 1` units.
proof fn lemma_quotient_at_most(dividend: int, high: int, unit: int)
    by (nonlinear_arith)
    requires
        0 < unit,
        0 <= dividend < (high + 1) * unit,
    ensures
        dividend / unit <= high,
{
}

/// What a pattern with a given exponent field and significand rounds to,
/// for exponent fields from 127 to 150: the significand in units of
/// `2^(150 - field)`, halves rounded up.
proof fn lemma_round_of_parts(bits: u32, field: int, significand: int)
    requires
        127 <= field <= 150,
        0x80_0000 <= significand < 0x100_0000,
        bits == field * 0x80_0000 + (significand - 0x80_0000),
    ensures
        field < 150 ==> spec_round_of(bits) == (significand + pow2((149 - field) as nat)) / (pow2(
            (150 - field) as nat,
        ) as int),
        field == 150 ==> spec_round_of(bits) == significand,
{
    lemma2_to64();
    assert(bits / HIDDEN_BIT % 0x100 == field);
    assert(HIDDEN_BIT + bits % HIDDEN_BIT == significand);
    if field == 150 {
        assert(significand * pow2(0) == significand) by (nonlinear_arith)
            requires
                pow2(0) == 1,
        ;
    }
}

/// Enlarging a whole number below `2^23` by the factor 1.2 in single
/// precision and rounding gives a number no smaller than it and no greater
/// than twice it.
pub proof fn lemma_a_fifth_more(value: u32)
    requires
        value < 0x80_0000,
    ensures
        value <= spec_round_of(
            spec_product(spec_single_of(value as int) as u32, 0x3f99_999a) as u32,
        ) <= 2 * value,
{
    lemma2_to64();
    if value == 0 {
        assert(spec_single_of(0) == 0);
        assert(spec_product(0u32, 0x3f99_999au32) == 0);
        assert(spec_round_of(0u32) == 0);
    } else {
        lemma_normalize_keeps_value(value as int, 150, 0);
        let pattern = spec_normalize(value as int, 150);
        let a = pattern as u32;
        let field = pattern / 0x80_0000;
        let significand = 0x80_0000 + pattern % 0x80_0000;
        let steps = (150 - field) as nat;
        let unit = pow2(steps) as int;
        assert(significand == value * unit);
        assert(spec_exponent(a) == field);
        assert(spec_significand(a) == significand);
        // The number is below 2^23, so it was doubled at least once.
        assert(field <= 149) by {
            if field == 150 {
                assert(value * pow2(0) == value) by (nonlinear_arith)
                    requires
                        pow2(0) == 1,
                ;
            }
        }
        lemma_pow2_unfold(steps);
        let half = pow2((steps - 1) as nat) as int;
        assert(unit == 2 * half);
        vstd::arithmetic::power2::lemma_pow2_pos((steps - 1) as nat);
        let factor: u32 = 0x3f99_999a;
        assert(spec_exponent(factor) == 127);
        assert(spec_significand(factor) == 0x99_999a);
        let exact = significand * 0x99_999a;
        assert(exact == spec_significand(a) * spec_significand(factor));
        let product = spec_product(a, factor);
        if exact < 0x8000_0000_0000 {
            let quotient = exact / 0x80_0000;
            let nearest = spec_nearest_even(exact, 0x80_0000);
            assert(quotient <= nearest <= quotient + 1);
            assert(significand <= quotient);
            assert(quotient + 1 < 2 * significand);
            assert(product == field * 0x80_0000 + (nearest - 0x80_0000));
            if nearest < 0x100_0000 {
                lemma_round_of_parts(product as u32, field, nearest);
                let rounded = (nearest + half) / unit;
                assert(spec_round_of(product as u32) == rounded);
                assert(nearest + half >= value * unit);
                lemma_quotient_at_least(nearest + half, value as int, unit);
                assert(nearest + half < (2 * value + 1) * unit) by (nonlinear_arith)
                    requires
                        nearest < 2 * significand,
                        significand == value * unit,
                        unit == 2 * half,
                        half > 0,
                ;
                lemma_quotient_at_most(nearest + half, 2 * value, unit);
            } else {
                lemma_round_of_parts(product as u32, field + 1, 0x80_0000);
                if field + 1 < 150 {
                    lemma_pow2_unfold((steps - 1) as nat);
                    let quarter = pow2((steps - 2) as nat) as int;
                    vstd::arithmetic::power2::lemma_pow2_pos((steps - 2) as nat);
                    assert(half == 2 * quarter);
                    assert(0x80_0000 + quarter >= value * half) by (nonlinear_arith)
                        requires
                            significand == value * unit,
                            unit == 2 * half,
                            significand < 0x100_0000,
                            quarter >= 0,
                    ;
                    lemma_quotient_at_least(0x80_0000 + quarter, value as int, half);
                    assert(0x80_0000 + quarter < (2 * value + 1) * half) by (nonlinear_arith)
                        requires
                            significand == value * unit,
                            unit == 2 * half,
                            half == 2 * quarter,
                            significand >= 0x80_0000,
                            quarter > 0,
                    ;
                    lemma_quotient_at_most(0x80_0000 + quarter, 2 * value, half);
                } else {
                    assert(unit == 2);
                }
            }
        } else {
            let quotient = exact / 0x100_0000;
            let nearest = spec_nearest_even(exact, 0x100_0000);
            assert(quotient <= nearest <= quotient + 1);
            assert(0x80_0000 <= quotient);
            assert(quotient + 1 <= significand);
            assert(2 * quotient + 1 >= significand);
            assert(product == (field + 1) * 0x80_0000 + (nearest - 0x80_0000));
            lemma_round_of_parts(product as u32, field + 1, nearest);
            if field + 1 < 150 {
                lemma_pow2_unfold((steps - 1) as nat);
                let quarter = pow2((steps - 2) as nat) as int;
                vstd::arithmetic::power2::lemma_pow2_pos((steps - 2) as nat);
                assert(half == 2 * quarter);
                assert(nearest + quarter >= value * half) by (nonlinear_arith)
                    requires
                        2 * nearest + 1 >= significand,
                        significand == value * unit,
                        unit == 2 * half,
                        half == 2 * quarter,
                        quarter > 0,
                ;
                lemma_quotient_at_least(nearest + quarter, value as int, half);
                assert(nearest + quarter < (2 * value + 1) * half) by (nonlinear_arith)
                    requires
                        nearest <= significand,
                        significand == value * unit,
                        unit == 2 * half,
                        half == 2 * quarter,
                        quarter > 0,
                ;
                lemma_quotient_at_most(nearest + quarter, 2 * value, half);
            } else {
                assert(unit == 2);
                assert(significand == value * 2);
            }
        }
    }
}

} // verus!
