//! Fixed-width quantization of values over a declared range.
use vstd::prelude::*;

verus! {

/// Clamps `v` to `[lo, hi]`.
pub open spec fn clamp_spec(v: int, lo: int, hi: int) -> int {
    if v < lo {
        lo
    } else if v > hi {
        hi
    } else {
        v
    }
}

/// The code of `v` over `[lo, hi]`: the clamped value mapped linearly onto
/// `0..=65535`, rounded down.
pub open spec fn quantize_spec(v: int, lo: int, hi: int) -> int {
    (clamp_spec(v, lo, hi) - lo) * 65535 / (hi - lo)
}

/// The value of a code over `[lo, hi]`, rounded up to the representation.
pub open spec fn dequantize_spec(q: int, lo: int, hi: int) -> int {
    lo + (q * (hi - lo) + 65534) / 65535
}

/// Maps `v` linearly from `[lo, hi]` to the full 16-bit range, clamping
/// values outside the range.
pub fn quantize(v: i64, lo: i64, hi: i64) -> (r: u16)
    requires
        lo < hi,
    ensures
        r as int == quantize_spec(v as int, lo as int, hi as int),
{
    let c: i64 = if v < lo {
        lo
    } else if v > hi {
        hi
    } else {
        v
    };
    let d: i128 = c as i128 - lo as i128;
    let w: i128 = hi as i128 - lo as i128;
    assert(0 <= d <= w);
    assert(d * 65535 <= w * 65535) by (nonlinear_arith)
        requires 0 <= d <= w;
    assert(w * 65535 <= 0x1_0000_0000_0000_0000 * 65535) by (nonlinear_arith)
        requires 0 < w <= 0x1_0000_0000_0000_0000;
    let q: i128 = d * 65535 / w;
    assert(q <= 65535) by (nonlinear_arith)
        requires q as int == (d as int) * 65535 / (w as int), 0 <= d <= w, 0 < w;
    assert(q >= 0) by (nonlinear_arith)
        requires q as int == (d as int) * 65535 / (w as int), 0 <= d, 0 < w;
    q as u16
}

/// The value that a code stands for over `[lo, hi]`, rounded up.
pub fn dequantize(q: u16, lo: i64, hi: i64) -> (r: i64)
    requires
        lo < hi,
    ensures
        r as int == dequantize_spec(q as int, lo as int, hi as int),
{
    let w: i128 = hi as i128 - lo as i128;
    let qq: i128 = q as i128;
    assert(qq * w <= 65535 * w) by (nonlinear_arith)
        requires 0 <= qq <= 65535, 0 < w;
    assert(65535 * w <= 65535 * 0x1_0000_0000_0000_0000) by (nonlinear_arith)
        requires 0 < w <= 0x1_0000_0000_0000_0000;
    assert(qq * w >= 0) by (nonlinear_arith)
        requires 0 <= qq, 0 < w;
    let s: i128 = (qq * w + 65534) / 65535;
    assert(s <= w + 1) by (nonlinear_arith)
        requires s as int == ((qq as int) * (w as int) + 65534) / 65535, qq * w <= 65535 * w, 0 < w;
    assert(s <= w) by (nonlinear_arith)
        requires s as int == ((qq as int) * (w as int) + 65534) / 65535, qq * w <= 65535 * w, 0 < w;
    (lo as i128 + s) as i64
}

/// Quantizing and then dequantizing a value of the range gives back a value
/// within one quantization step `(hi - lo) / 65535` below it; the ends of the
/// range get the lowest and the highest code.
pub proof fn lemma_round_trip(v: int, lo: int, hi: int)
    requires
        lo < hi,
        lo <= v <= hi,
    ensures
        dequantize_spec(quantize_spec(v, lo, hi), lo, hi) <= v,
        65535 * (v - dequantize_spec(quantize_spec(v, lo, hi), lo, hi)) < hi - lo,
        quantize_spec(lo, lo, hi) == 0,
        quantize_spec(hi, lo, hi) == 65535,
{
    let w = hi - lo;
    let d = v - lo;
    let q = d * 65535 / w;
    assert(q * w <= d * 65535) by (nonlinear_arith)
        requires q == d * 65535 / w, 0 < w, 0 <= d;
    assert(d * 65535 < (q + 1) * w) by (nonlinear_arith)
        requires q == d * 65535 / w, 0 < w, 0 <= d;
    let s = (q * w + 65534) / 65535;
    assert(s <= d) by (nonlinear_arith)
        requires s == (q * w + 65534) / 65535, q * w <= d * 65535;
    assert(65535 * s >= q * w) by (nonlinear_arith)
        requires s == (q * w + 65534) / 65535, q * w >= 0;
    assert(q * w >= 0) by (nonlinear_arith)
        requires q >= 0, w > 0;
    assert(q >= 0) by (nonlinear_arith)
        requires q == d * 65535 / w, 0 < w, 0 <= d;
    assert(65535 * (d - s) < w) by (nonlinear_arith)
        requires 65535 * s >= q * w, d * 65535 < (q + 1) * w;
    assert(w * 65535 / w == 65535) by (nonlinear_arith)
        requires w > 0;
}

} // verus!
