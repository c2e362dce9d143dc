//! Products of dimensions, kept inside 64 bits.

use vstd::prelude::*;

verus! {

/// The largest extent of one dimension: kernels take extents as 32-bit integers.
pub const MAX_EXTENT: u64 = 0x7fff_ffff;

/// The largest number of elements of one buffer: its length in bytes, and the
/// byte strides within it, stay inside 64 bits.
pub const MAX_ELEMENTS: u64 = 0x1000_0000_0000_0000;

/// `n` is an extent that a kernel can take.
pub open spec fn extent(n: u64) -> bool {
    n <= MAX_EXTENT
}

/// `n` elements make a buffer whose length in bytes fits.
pub open spec fn elements(n: int) -> bool {
    0 <= n <= MAX_ELEMENTS
}

pub proof fn lemma_product(a: int, b: int)
    requires
        0 <= a <= MAX_EXTENT,
        0 <= b <= MAX_EXTENT,
    ensures
        0 <= a * b <= 0x3fff_ffff_0000_0001,
{
    assert(0 <= a * b <= 0x3fff_ffff_0000_0001) by (nonlinear_arith)
        requires
            0 <= a <= 0x7fff_ffff,
            0 <= b <= 0x7fff_ffff,
    ;
}

/// The product of two extents.
pub fn times(a: u64, b: u64) -> (r: u64)
    requires
        extent(a),
        extent(b),
    ensures
        r == a * b,
        r <= 0x3fff_ffff_0000_0001,
{
    proof {
        lemma_product(a as int, b as int);
    }
    a * b
}

/// The product of three extents that fits a buffer.
pub fn times3(a: u64, b: u64, c: u64) -> (r: u64)
    requires
        extent(a),
        extent(b),
        elements(a * b * c),
    ensures
        r == a * b * c,
        r <= MAX_ELEMENTS,
{
    let ab: u64 = times(a, b);
    ab * c
}

/// The product of a byte stride and an extent.
pub fn times_wide(a: u64, b: u64) -> (r: u64)
    requires
        a <= 0x2_0000_0000,
        extent(b),
    ensures
        r == a * b,
{
    assert(a * b <= 0xffff_ffff_ffff_ffff) by (nonlinear_arith)
        requires
            a <= 0x2_0000_0000,
            b <= 0x7fff_ffff,
    ;
    a * b
}

/// The product of two 32-bit numbers.
pub fn times_u32(a: u32, b: u32) -> (r: u64)
    ensures
        r == a * b,
{
    assert(a * b <= 0xffff_fffe_0000_0001) by (nonlinear_arith)
        requires
            a <= 0xffff_ffff,
            b <= 0xffff_ffff,
    ;
    (a as u64) * (b as u64)
}

/// Whether `n` is the product of three extents.
pub fn is_product3(n: u64, a: u64, b: u64, c: u64) -> (r: bool)
    requires
        extent(a),
        extent(b),
    ensures
        r == (n == a * b * c),
{
    let ab: u64 = times(a, b);
    match ab.checked_mul(c) {
        Some(p) => n == p,
        None => false,
    }
}

/// A row number times a row length, for a row below a bound.
pub fn row_offset(k: u64, bound: u64, row: u64) -> (r: u64)
    requires
        k <= bound,
        bound * row <= u64::MAX,
    ensures
        r == k * row,
{
    proof {
        lemma_row(k as int, bound as int, row as int);
    }
    k * row
}

pub proof fn lemma_row(k: int, bound: int, row: int)
    requires
        0 <= k <= bound,
        0 <= row,
    ensures
        0 <= k * row <= bound * row,
{
    assert(0 <= k * row <= bound * row) by (nonlinear_arith)
        requires
            0 <= k <= bound,
            0 <= row,
    ;
}

/// How many groups of `size` cover `n`.
pub open spec fn spec_div_up(n: u64, size: u64) -> u64 {
    ((n + size - 1) / size as int) as u64
}

/// How many groups of `size` cover `n`.
pub fn div_up(n: u64, size: u64) -> (r: u64)
    requires
        0 < size,
        n + size - 1 <= u64::MAX,
    ensures
        r == spec_div_up(n, size),
{
    (n + (size - 1)) / size
}

/// The groups cover: with `spec_div_up` groups of `size` there are `n` members
/// or more, and with one group less there are fewer.
pub proof fn law_div_up_covers(n: u64, size: u64)
    requires
        0 < size,
        n + size - 1 <= u64::MAX,
    ensures
        spec_div_up(n, size) * size >= n,
        n > 0 ==> (spec_div_up(n, size) - 1) * size < n,
{
    let q = (n + size - 1) / size as int;
    assert(q * size <= n + size - 1 && n + size - 1 < q * size + size) by (nonlinear_arith)
        requires
            q == (n + size - 1) / size as int,
            0 < size,
    ;
    assert(0 <= q <= n + size - 1) by (nonlinear_arith)
        requires
            q == (n + size - 1) / size as int,
            0 < size,
            0 <= n,
    ;
    assert((q - 1) * size == q * size - size) by (nonlinear_arith);
}

/// The smallest power of two that is `n` or more, for `n` up to 2^62.
pub open spec fn pow2_above(n: u64, p: u64) -> u64
    decreases 2 * n - p,
{
    if 0 < p < n && p <= 0x4000_0000_0000_0000 {
        pow2_above(n, (p * 2) as u64)
    } else {
        p
    }
}

/// The smallest power of two that is `n` or more.
pub fn pow2_at_least(n: u64) -> (r: u64)
    requires
        n <= 0x4000_0000_0000_0000,
    ensures
        r == pow2_above(n, 1),
        n <= r <= 0x4000_0000_0000_0000,
{
    let mut p: u64 = 1;
    proof {
        vstd::arithmetic::power2::lemma2_to64();
        assert(p == vstd::arithmetic::power2::pow2(0));
    }
    while p < n
        invariant
            n <= 0x4000_0000_0000_0000,
            0 < p <= 0x4000_0000_0000_0000,
            exists|e: nat| p == #[trigger] vstd::arithmetic::power2::pow2(e) && e <= 62,
            pow2_above(n, p) == pow2_above(n, 1),
        decreases 2 * n - p,
    {
        proof {
            let e = choose|e: nat|
                p == #[trigger] vstd::arithmetic::power2::pow2(e) && e <= 62;
            lemma_next_power(e, p as int);
        }
        p = p * 2;
    }
    p
}

proof fn lemma_next_power(e: nat, p: int)
    requires
        p == vstd::arithmetic::power2::pow2(e),
        e <= 62,
        p < 0x4000_0000_0000_0000,
    ensures
        p * 2 == vstd::arithmetic::power2::pow2(e + 1),
        e + 1 <= 62,
        p * 2 <= 0x4000_0000_0000_0000,
{
    vstd::arithmetic::power2::lemma_pow2_unfold(e + 1);
    vstd::arithmetic::power2::lemma2_to64_rest();
    vstd::arithmetic::power2::lemma2_to64();
    if e == 62 {
        assert(vstd::arithmetic::power2::pow2(62) == 0x4000_0000_0000_0000);
    }
    if e < 61 {
        vstd::arithmetic::power2::lemma_pow2_strictly_increases(e + 1, 62);
    }
}

/// The size found is a power of two, holds `n`, and no smaller power of two does.
pub proof fn law_pow2_is_least(n: u64)
    requires
        0 < n <= 0x4000_0000_0000_0000,
    ensures
        exists|e: nat| pow2_above(n, 1) == #[trigger] vstd::arithmetic::power2::pow2(e),
        n <= pow2_above(n, 1),
        pow2_above(n, 1) < 2 * n,
{
    vstd::arithmetic::power2::lemma2_to64();
    lemma_pow2_above(n, 1, 0);
}

proof fn lemma_pow2_above(n: u64, p: u64, e: nat)
    requires
        0 < n <= 0x4000_0000_0000_0000,
        p == vstd::arithmetic::power2::pow2(e),
        e <= 62,
        0 < p <= 0x4000_0000_0000_0000,
        p < 2 * n,
    ensures
        exists|f: nat| pow2_above(n, p) == #[trigger] vstd::arithmetic::power2::pow2(f),
        n <= pow2_above(n, p) < 2 * n,
    decreases 2 * n - p,
{
    if p < n {
        lemma_next_power(e, p as int);
        lemma_pow2_above(n, (p * 2) as u64, e + 1);
    }
}

} // verus!
