//! Half precision: the bit pattern nearest to a single-precision value.

use crate::command::F32;
use vstd::arithmetic::power2::{lemma_pow2_pos, lemma_pow2_unfold, pow2};
use vstd::prelude::*;

verus! {

/// The sign bit of a single.
pub open spec fn sign(f: F32) -> int {
    f.0 as int / 0x8000_0000
}

/// The biased exponent of a single.
pub open spec fn exponent(f: F32) -> int {
    f.0 as int / 0x80_0000 % 256
}

/// The fraction bits of a single.
pub open spec fn fraction(f: F32) -> int {
    f.0 as int % 0x80_0000
}

pub open spec fn is_nan(f: F32) -> bool {
    exponent(f) == 255 && fraction(f) != 0
}

pub open spec fn is_infinite(f: F32) -> bool {
    exponent(f) == 255 && fraction(f) == 0
}

/// The magnitude lies below the smallest normal half.
pub open spec fn is_small(f: F32) -> bool {
    exponent(f) < 113
}

/// The sign bit of a half.
pub open spec fn half_sign(h: u16) -> int {
    h as int / 0x8000
}

/// The bits of a half without its sign.
pub open spec fn half_magnitude(h: u16) -> int {
    h as int % 0x8000
}

/// `n / 8192`, to the nearest whole number, and to the even one of two as near.
pub open spec fn nearest_even(n: int) -> int {
    if n % 8192 > 4096 || (n % 8192 == 4096 && n / 8192 % 2 == 1) {
        n / 8192 + 1
    } else {
        n / 8192
    }
}

/// The bits of a normal single's magnitude, counted from the half's exponents.
pub open spec fn rebiased(f: F32) -> int {
    (exponent(f) - 112) * 0x80_0000 + fraction(f)
}

/// The magnitude bits of the half for a single.
pub open spec fn spec_magnitude(f: F32) -> int {
    if is_nan(f) {
        // The leading fraction bit is set, so that the rest may be zero.
        if fraction(f) / 8192 >= 512 {
            0x7c00 + fraction(f) / 8192
        } else {
            0x7e00 + fraction(f) / 8192
        }
    } else if is_infinite(f) {
        0x7c00
    } else if is_small(f) {
        0
    } else if nearest_even(rebiased(f)) < 0x7c00 {
        nearest_even(rebiased(f))
    } else {
        0x7c00
    }
}

/// The half for a single.
pub open spec fn spec_half(f: F32) -> int {
    sign(f) * 0x8000 + spec_magnitude(f)
}

/// The bit pattern of the half nearest to `f`, to even where two are as near.
/// What lies below the smallest normal half becomes a zero of the same sign;
/// infinities stay infinite, and a NaN stays a NaN.
pub fn f32_to_f16_bits(f: F32) -> (r: u16)
    ensures
        r == spec_half(f),
{
    let bits: u32 = f.0;
    let sign: u16 = if bits >= 0x8000_0000 {
        0x8000
    } else {
        0
    };
    let exp: u32 = bits / 0x80_0000 % 256;
    let mant: u32 = bits % 0x80_0000;
    if exp == 255 {
        if mant == 0 {
            return sign + 0x7c00;
        }
        let payload: u16 = (mant / 8192) as u16;
        return if payload >= 512 {
            sign + 0x7c00 + payload
        } else {
            sign + 0x7e00 + payload
        };
    }
    if exp < 113 {
        return sign;
    }
    let full: u32 = (exp - 112) * 0x80_0000 + mant;
    let low: u32 = full % 8192;
    let mut half: u32 = full / 8192;
    if low > 4096 || (low == 4096 && half % 2 == 1) {
        half = half + 1;
    }
    if half >= 0x7c00 {
        return sign + 0x7c00;
    }
    sign + half as u16
}

/// The value of a finite half, in units of two to the minus twenty-four.
pub open spec fn half_value(h: int) -> int {
    if h < 1024 {
        h
    } else {
        (1024 + h % 1024) * pow2((h / 1024 - 1) as nat)
    }
}

/// The value of a single that is not small, in units of two to the minus thirty-seven.
pub open spec fn single_value(f: F32) -> int {
    (0x80_0000 + fraction(f)) * pow2((exponent(f) - 113) as nat)
}

pub open spec fn distance(a: int, b: int) -> int {
    if a < b {
        b - a
    } else {
        a - b
    }
}

/// The fields of a pattern, put together again.
proof fn lemma_fields(f: F32)
    ensures
        0 <= sign(f) <= 1,
        0 <= exponent(f) <= 255,
        0 <= fraction(f) < 0x80_0000,
        0 <= spec_magnitude(f) < 0x8000,
        0 <= spec_half(f) <= 0xffff,
{
}

/// The half has the sign of the single.
pub proof fn law_sign_is_kept(f: F32)
    ensures
        half_sign(spec_half(f) as u16) == sign(f),
{
    lemma_fields(f);
}

/// A NaN becomes a NaN, and nothing else does.
pub proof fn law_nan_stays_nan(f: F32)
    ensures
        half_magnitude(spec_half(f) as u16) > 0x7c00 <==> is_nan(f),
{
    lemma_fields(f);
}

/// The half is infinite for an infinity, and for what lies half a step or more
/// above the largest finite half; for nothing else.
pub proof fn law_infinity(f: F32)
    ensures
        half_magnitude(spec_half(f) as u16) == 0x7c00 <==> is_infinite(f) || (exponent(f) != 255
            && !is_small(f) && rebiased(f) >= 0x7bff * 8192 + 4096),
{
    lemma_fields(f);
}

/// What lies below the smallest normal half becomes zero, and nothing else does.
pub proof fn law_zero(f: F32)
    ensures
        half_magnitude(spec_half(f) as u16) == 0 <==> is_small(f),
{
    lemma_fields(f);
}

/// A value that a normal half can hold is converted without loss.
pub proof fn law_exact(f: F32)
    requires
        113 <= exponent(f) <= 142,
        fraction(f) % 8192 == 0,
    ensures
        half_value(half_magnitude(spec_half(f) as u16)) * 8192 == single_value(f),
{
    lemma_fields(f);
    lemma_between(f);
    let q = rebiased(f) / 8192;
    assert(rebiased(f) % 8192 == 0);
    assert(spec_magnitude(f) == q);
    assert((1024 + fraction(f) / 8192) * 8192 == 0x80_0000 + fraction(f));
    let p = pow2((exponent(f) - 113) as nat);
    assert(((1024 + fraction(f) / 8192) * p) * 8192 == ((1024 + fraction(f) / 8192) * 8192) * p)
        by (nonlinear_arith);
}

/// Larger magnitudes never become smaller halves.
pub proof fn law_order_is_kept(f: F32, g: F32)
    requires
        !is_nan(f),
        !is_nan(g),
        f.0 % 0x8000_0000 <= g.0 % 0x8000_0000,
    ensures
        half_magnitude(spec_half(f) as u16) <= half_magnitude(spec_half(g) as u16),
{
    lemma_fields(f);
    lemma_fields(g);
    let a = f.0 as int % 0x8000_0000;
    let b = g.0 as int % 0x8000_0000;
    assert(a == exponent(f) * 0x80_0000 + fraction(f));
    assert(b == exponent(g) * 0x80_0000 + fraction(g));
    if exponent(f) != 255 && !is_small(f) && exponent(g) != 255 {
        assert(rebiased(f) <= rebiased(g));
        assert(rebiased(f) / 8192 <= rebiased(g) / 8192);
    }
}

/// Consecutive halves have increasing values.
proof fn lemma_half_step(h: int)
    requires
        0 <= h,
    ensures
        half_value(h) < half_value(h + 1),
{
    if h >= 1024 {
        let e = (h / 1024 - 1) as nat;
        lemma_pow2_pos(e);
        if h % 1024 == 1023 {
            lemma_pow2_unfold(e + 1);
            assert((h + 1) / 1024 == h / 1024 + 1);
            assert((h + 1) % 1024 == 0);
            assert(((h + 1) / 1024 - 1) as nat == e + 1);
            assert(2047 * pow2(e) < 1024 * (2 * pow2(e)));
        } else {
            assert((h + 1) / 1024 == h / 1024);
            assert((h + 1) % 1024 == h % 1024 + 1);
            assert((1024 + h % 1024) * pow2(e) < (1024 + h % 1024 + 1) * pow2(e))
                by (nonlinear_arith)
                requires
                    pow2(e) > 0,
            ;
        }
    } else if h == 1023 {
        vstd::arithmetic::power2::lemma2_to64();
        assert(half_value(1024) == 1024 * pow2(0));
    }
}

proof fn lemma_half_order(a: int, b: int)
    requires
        0 <= a <= b,
    ensures
        half_value(a) <= half_value(b),
    decreases b - a,
{
    if a < b {
        lemma_half_order(a, b - 1);
        lemma_half_step(b - 1);
    }
}

/// A single lies between the half below it and the next one, as far above the
/// first as its low fraction bits say.
proof fn lemma_between(f: F32)
    requires
        113 <= exponent(f) <= 142,
    ensures
        ({
            let q = rebiased(f) / 8192;
            let p = pow2((exponent(f) - 113) as nat);
            &&& 1024 <= q
            &&& p > 0
            &&& half_value(q) == (1024 + fraction(f) / 8192) * p
            &&& half_value(q + 1) == (1024 + fraction(f) / 8192 + 1) * p
            &&& single_value(f) == half_value(q) * 8192 + (rebiased(f) % 8192) * p
            &&& half_value(q + 1) * 8192 == half_value(q) * 8192 + 8192 * p
        }),
{
    lemma_fields(f);
    let e = (exponent(f) - 113) as nat;
    let p = pow2(e);
    let m = fraction(f) / 8192;
    let low = fraction(f) % 8192;
    let q = rebiased(f) / 8192;
    lemma_pow2_pos(e);
    assert(q == (exponent(f) - 112) * 1024 + m);
    assert(rebiased(f) % 8192 == low);
    assert(q / 1024 == exponent(f) - 112 && q % 1024 == m);
    if m == 1023 {
        lemma_pow2_unfold(e + 1);
        assert((q + 1) / 1024 == exponent(f) - 111 && (q + 1) % 1024 == 0);
        assert(((q + 1) / 1024 - 1) as nat == e + 1);
        assert(1024 * (2 * p) == 2048 * p);
    } else {
        assert((q + 1) / 1024 == exponent(f) - 112 && (q + 1) % 1024 == m + 1);
    }
    assert((0x80_0000 + fraction(f)) * p == (1024 + m) * p * 8192 + low * p) by (nonlinear_arith)
        requires
            fraction(f) == m * 8192 + low,
    ;
    assert((1024 + m + 1) * p * 8192 == (1024 + m) * p * 8192 + 8192 * p) by (nonlinear_arith);
}

/// No finite half is nearer to the single than the one it becomes, and where
/// another is as near, the one it becomes is even.
pub proof fn law_nearest(f: F32, other: int)
    requires
        113 <= exponent(f) <= 142,
        spec_magnitude(f) < 0x7c00,
        0 <= other < 0x7c00,
    ensures
        distance(single_value(f), half_value(spec_magnitude(f)) * 8192) <= distance(
            single_value(f),
            half_value(other) * 8192,
        ),
        other != spec_magnitude(f) && distance(
            single_value(f),
            half_value(spec_magnitude(f)) * 8192,
        ) == distance(single_value(f), half_value(other) * 8192) ==> spec_magnitude(f) % 2 == 0,
{
    lemma_fields(f);
    lemma_between(f);
    let q = rebiased(f) / 8192;
    let low = rebiased(f) % 8192;
    let p = pow2((exponent(f) - 113) as nat) as int;
    let below = low * p;
    let above = (8192 - low) * p;
    assert(below >= 0 && above > 0 && below + above == 8192 * p && (low < 4096 ==> below < above)
        && (low == 4096 ==> below == above) && (low > 4096 ==> below > above))
        by (nonlinear_arith)
        requires
            p > 0,
            0 <= low < 8192,
            below == low * p,
            above == (8192 - low) * p,
    ;
    if other < q {
        lemma_half_order(other, q - 1);
        lemma_half_step(q - 1);
    } else if other > q + 1 {
        lemma_half_order(q + 1, other - 1);
        lemma_half_step(other - 1);
    }
}

} // verus!
