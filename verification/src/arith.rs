//! Integer arithmetic behind the coordinate mapping.

use vstd::prelude::*;

verus! {

/// A quotient by a positive divisor brackets its dividend.
pub proof fn lemma_quotient_bounds(n: int, d: int)
    requires
        d > 0,
    ensures
        d * (n / d) <= n < d * (n / d) + d,
{
    vstd::arithmetic::div_mod::lemma_fundamental_div_mod(n, d);
    vstd::arithmetic::div_mod::lemma_mod_bound(n, d);
}

/// The quotient is the only integer that brackets the dividend.
pub proof fn lemma_quotient_unique(n: int, d: int, q: int)
    requires
        d > 0,
        d * q <= n < d * q + d,
    ensures
        n / d == q,
{
    assert(q * d == d * q) by (nonlinear_arith);
    vstd::arithmetic::div_mod::lemma_fundamental_div_mod_converse(n, d, q, n - d * q);
}

/// A product of bounded factors is bounded by the product of the bounds.
pub proof fn lemma_product_bound(a: int, b: int, x: int, y: int)
    requires
        0 <= a <= x,
        0 <= b <= y,
    ensures
        0 <= a * b <= x * y,
{
    assert(0 <= a * b <= x * y) by (nonlinear_arith)
        requires
            0 <= a <= x,
            0 <= b <= y,
    ;
}

/// Division that rounds towards negative infinity.
pub fn floor_div(a: i128, b: i128) -> (r: i128)
    requires
        b > 0,
        a > i128::MIN + b,
    ensures
        r == a as int / b as int,
{
    if a >= 0 {
        a / b
    } else {
        let n: i128 = -a;
        let q: i128 = (n + (b - 1)) / b;
        proof {
            lemma_quotient_bounds(n + (b - 1), b as int);
            assert(b * (-q) == -(b * q)) by (nonlinear_arith);
            lemma_quotient_unique(a as int, b as int, -q);
        }
        -q
    }
}

/// The cell that an offset into a span falls in, when the span is cut
/// into `cells` equal cells: `floor(offset / span * cells)`, held below
/// `cells` so that the far edge belongs to the last cell. A span without
/// extent puts everything in cell 0.
pub open spec fn scaled_index(offset: int, span: int, cells: int) -> int {
    if span <= 0 {
        0
    } else if (offset * cells) / span < cells {
        (offset * cells) / span
    } else {
        cells - 1
    }
}

/// The offset of the centre of cell `index` from the start of the span:
/// `floor((index + 1/2) / cells * span)`.
pub open spec fn center_offset(index: int, span: int, cells: int) -> int {
    ((2 * index + 1) * span) / (2 * cells)
}

/// A scaled index is a cell.
pub proof fn lemma_scaled_index_range(offset: int, span: int, cells: int)
    requires
        cells > 0,
        0 <= offset,
    ensures
        0 <= scaled_index(offset, span, cells) < cells,
{
    if span > 0 {
        lemma_product_bound(offset, cells, offset, cells);
        lemma_quotient_bounds(offset * cells, span);
        assert((offset * cells) / span >= 0) by (nonlinear_arith)
            requires
                span > 0,
                offset * cells >= 0,
                span * ((offset * cells) / span) + span > offset * cells,
        ;
    }
}

/// The centre of a cell lies within the span, on the side of its start.
pub proof fn lemma_center_offset_range(index: int, span: int, cells: int)
    requires
        0 <= index < cells,
    ensures
        span >= 0 ==> 0 <= center_offset(index, span, cells) <= span,
        span < 0 ==> span <= center_offset(index, span, cells) < 0,
{
    let n = (2 * index + 1) * span;
    let d = 2 * cells;
    lemma_quotient_bounds(n, d);
    let q = n / d;
    if span >= 0 {
        assert(0 <= n <= d * span) by (nonlinear_arith)
            requires
                n == (2 * index + 1) * span,
                d == 2 * cells,
                0 <= index < cells,
                span >= 0,
        ;
        assert(0 <= q <= span) by (nonlinear_arith)
            requires
                d > 0,
                d * q <= n < d * q + d,
                0 <= n <= d * span,
        ;
    } else {
        assert(d * span <= n < 0) by (nonlinear_arith)
            requires
                n == (2 * index + 1) * span,
                d == 2 * cells,
                0 <= index < cells,
                span < 0,
        ;
        assert(span <= q < 0) by (nonlinear_arith)
            requires
                d > 0,
                d * q <= n < d * q + d,
                d * span <= n < 0,
        ;
    }
}

/// The low 64 bits of a number: the number itself where it fits, else what
/// is left of it after the higher bits are cut off.
pub fn low_u64(value: u128) -> (r: u64)
    ensures
        r == value % 0x1_0000_0000_0000_0000,
{
    (value % 0x1_0000_0000_0000_0000) as u64
}

/// The largest integer whose square does not exceed `n`.
pub open spec fn is_integer_sqrt(n: int, r: int) -> bool {
    0 <= r && r * r <= n < (r + 1) * (r + 1)
}

/// The integer square root of `n`, rounded down.
pub fn integer_sqrt(n: u64) -> (r: u64)
    ensures
        is_integer_sqrt(n as int, r as int),
{
    let mut lo: u64 = 0;
    let mut hi: u64 = 4294967296;
    assert(n < hi * hi) by (nonlinear_arith)
        requires
            hi == 4294967296,
            n <= u64::MAX,
    ;
    while hi - lo > 1
        invariant
            lo < hi <= 4294967296,
            lo * lo <= n < hi * hi,
        decreases hi - lo,
    {
        let mid: u64 = lo + (hi - lo) / 2;
        assert(mid * mid <= 4294967296 * 4294967296) by (nonlinear_arith)
            requires
                0 <= mid <= 4294967296,
        ;
        let square: u128 = (mid as u128) * (mid as u128);
        if square <= n as u128 {
            lo = mid;
        } else {
            hi = mid;
        }
    }
    lo
}

} // verus!
