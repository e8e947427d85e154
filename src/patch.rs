//! Binary encoding of Coons patches: an edge flag, twelve points and four
//! corner colors, each coordinate and component a big-endian 16-bit code.
use vstd::prelude::*;
use crate::color::{Color, ColorSpace, ONE};
use crate::quantize::{quantize, quantize_spec};

verus! {

/// Half of the fixed-point unit: the center of the unit square and the
/// radius of the arc.
pub const HALF: i64 = 500_000;

/// The scale of control-point coordinates: `ONE * ONE` stands for one half.
pub const SQUARE: i64 = 1_000_000_000_000;

/// The big-endian bytes of a sequence of codes.
pub open spec fn be_bytes(s: Seq<u16>) -> Seq<u8>
    decreases s.len(),
{
    if s.len() == 0 {
        Seq::empty()
    } else {
        be_bytes(s.drop_last()) + seq![(s.last() / 256) as u8, (s.last() % 256) as u8]
    }
}

/// Appends the big-endian bytes of each code.
pub fn push_codes(target: &mut Vec<u8>, codes: &Vec<u16>)
    ensures
        final(target)@ == old(target)@ + be_bytes(codes@),
{
    let mut i: usize = 0;
    while i < codes.len()
        invariant
            i <= codes@.len(),
            target@ == old(target)@ + be_bytes(codes@.take(i as int)),
        decreases codes@.len() - i,
    {
        let v = codes[i];
        target.push((v / 256) as u8);
        target.push((v % 256) as u8);
        proof {
            let t = codes@.take(i + 1);
            assert(t.drop_last() =~= codes@.take(i as int));
        }
        i = i + 1;
    }
    assert(codes@.take(i as int) =~= codes@);
}

/// The arc of one patch, from the angle `a0` to the angle `a1`: their cosines
/// and sines, and the tangent factor of the arc's Bezier approximation, all
/// in millionths.
#[derive(Debug, Clone, Copy, PartialEq, Eq, Structural, Hash)]
pub struct PatchGeometry {
    pub cos0: i64,
    pub sin0: i64,
    pub cos1: i64,
    pub sin1: i64,
    pub factor: i64,
}

impl PatchGeometry {
    pub open spec fn wf(self) -> bool {
        &&& -ONE <= self.cos0 <= ONE
        &&& -ONE <= self.sin0 <= ONE
        &&& -ONE <= self.cos1 <= ONE
        &&& -ONE <= self.sin1 <= ONE
        &&& -4 * ONE <= self.factor <= 4 * ONE
    }
}

/// The two control points of the arc around the center `(1/2, 1/2)` with
/// radius `1/2`, each coordinate scaled so that `SQUARE` stands for one half:
/// the start offset along the tangent by the factor, and the end offset
/// against it.
pub open spec fn control_spec(g: PatchGeometry) -> (int, int, int, int) {
    (
        SQUARE + ONE * g.cos0 - g.factor * g.sin0,
        SQUARE + ONE * g.sin0 + g.factor * g.cos0,
        SQUARE + ONE * g.cos1 + g.factor * g.sin1,
        SQUARE + ONE * g.sin1 - g.factor * g.cos1,
    )
}

/// The control points of a patch's arc.
pub fn control_points(g: PatchGeometry) -> (r: (i64, i64, i64, i64))
    requires
        g.wf(),
    ensures
        (r.0 as int, r.1 as int, r.2 as int, r.3 as int) == control_spec(g),
{
    let one: i64 = ONE as i64;
    assert(-4 * ONE * ONE <= g.factor * g.sin0 <= 4 * ONE * ONE) by (nonlinear_arith)
        requires g.wf();
    assert(-4 * ONE * ONE <= g.factor * g.cos0 <= 4 * ONE * ONE) by (nonlinear_arith)
        requires g.wf();
    assert(-4 * ONE * ONE <= g.factor * g.sin1 <= 4 * ONE * ONE) by (nonlinear_arith)
        requires g.wf();
    assert(-4 * ONE * ONE <= g.factor * g.cos1 <= 4 * ONE * ONE) by (nonlinear_arith)
        requires g.wf();
    (
        SQUARE + one * g.cos0 - g.factor * g.sin0,
        SQUARE + one * g.sin0 + g.factor * g.cos0,
        SQUARE + one * g.cos1 + g.factor * g.sin1,
        SQUARE + one * g.sin1 - g.factor * g.cos1,
    )
}

/// The twelve points of a patch, as 24 codes: center, center, arc start,
/// arc start, first control point, second control point, arc end, arc end,
/// and the center four times. The center and the control points are coded
/// over `[0, 1]`, the cosines and sines of the arc ends over `[-1, 1]`.
pub open spec fn point_codes(g: PatchGeometry) -> Seq<u16> {
    let m = quantize_spec(HALF as int, 0, ONE as int) as u16;
    let (a, b, c, d) = control_spec(g);
    let c1x = quantize_spec(a, 0, 2 * SQUARE) as u16;
    let c1y = quantize_spec(b, 0, 2 * SQUARE) as u16;
    let c2x = quantize_spec(c, 0, 2 * SQUARE) as u16;
    let c2y = quantize_spec(d, 0, 2 * SQUARE) as u16;
    let s0 = quantize_spec(g.cos0 as int, -ONE as int, ONE as int) as u16;
    let s1 = quantize_spec(g.sin0 as int, -ONE as int, ONE as int) as u16;
    let e0 = quantize_spec(g.cos1 as int, -ONE as int, ONE as int) as u16;
    let e1 = quantize_spec(g.sin1 as int, -ONE as int, ONE as int) as u16;
    seq![m, m, m, m, s0, s1, s0, s1, c1x, c1y, c2x, c2y, e0, e1, e0, e1, m, m, m, m, m, m, m, m]
}

/// The codes of a patch's points.
pub fn patch_points(g: PatchGeometry) -> (r: Vec<u16>)
    requires
        g.wf(),
    ensures
        r@ == point_codes(g),
{
    let one: i64 = ONE as i64;
    let m = quantize(HALF, 0, one);
    let (a, b, c, d) = control_points(g);
    let c1x = quantize(a, 0, 2 * SQUARE);
    let c1y = quantize(b, 0, 2 * SQUARE);
    let c2x = quantize(c, 0, 2 * SQUARE);
    let c2y = quantize(d, 0, 2 * SQUARE);
    let s0 = quantize(g.cos0, -one, one);
    let s1 = quantize(g.sin0, -one, one);
    let e0 = quantize(g.cos1, -one, one);
    let e1 = quantize(g.sin1, -one, one);
    let r = vec![m, m, m, m, s0, s1, s0, s1, c1x, c1y, c2x, c2y, e0, e1, e0, e1, m, m, m, m, m, m, m, m];
    assert(r@ =~= point_codes(g));
    r
}

pub open spec fn component_spec(c: Color, i: int) -> u32 {
    if i == 0 {
        c.c0
    } else if i == 1 {
        c.c1
    } else if i == 2 {
        c.c2
    } else {
        c.c3
    }
}

/// The codes of a color's components in its space: each normalized
/// component mapped onto `0..=65535`, which a reader decodes over the
/// space's declared range.
pub open spec fn color_codes_spec(c: Color, space: ColorSpace) -> Seq<u16> {
    Seq::new(
        space.count_spec() as nat,
        |i: int| quantize_spec(component_spec(c, i) as int, 0, ONE as int) as u16,
    )
}

/// Quantizes each normalized component of a color to 16 bits.
pub fn color_codes(c: Color, space: ColorSpace) -> (r: Vec<u16>)
    ensures
        r@ == color_codes_spec(c, space),
{
    let n = space.component_count();
    let comps = [c.c0, c.c1, c.c2, c.c3];
    let mut r: Vec<u16> = Vec::new();
    let mut i: usize = 0;
    while i < n
        invariant
            n == space.count_spec(),
            n <= 4,
            comps@ == seq![c.c0, c.c1, c.c2, c.c3],
            i <= n,
            r@ =~= color_codes_spec(c, space).take(i as int),
        decreases n - i,
    {
        let q = quantize(comps[i] as i64, 0, ONE as i64);
        r.push(q);
        i = i + 1;
    }
    assert(color_codes_spec(c, space).take(i as int) =~= color_codes_spec(c, space));
    r
}

/// The bytes of one patch: the flag 0 (a new patch), the points, then the
/// colors of the four corners: start, start, end, end.
pub open spec fn patch_bytes(g: PatchGeometry, c0: Seq<u16>, c1: Seq<u16>) -> Seq<u8> {
    seq![0u8] + be_bytes(point_codes(g)) + be_bytes(c0 + c0 + c1 + c1)
}

/// Appends one patch.
pub fn write_patch(target: &mut Vec<u8>, g: PatchGeometry, c0: &Vec<u16>, c1: &Vec<u16>)
    requires
        g.wf(),
    ensures
        final(target)@ == old(target)@ + patch_bytes(g, c0@, c1@),
{
    target.push(0);
    let points = patch_points(g);
    push_codes(target, &points);
    let mut colors: Vec<u16> = Vec::new();
    let mut k: usize = 0;
    while k < 4
        invariant
            k <= 4,
            colors@ == (if k == 0 {
                Seq::<u16>::empty()
            } else if k == 1 {
                c0@
            } else if k == 2 {
                c0@ + c0@
            } else if k == 3 {
                c0@ + c0@ + c1@
            } else {
                c0@ + c0@ + c1@ + c1@
            }),
        decreases 4 - k,
    {
        let src = if k < 2 {
            c0
        } else {
            c1
        };
        let mut i: usize = 0;
        let ghost before = colors@;
        while i < src.len()
            invariant
                i <= src@.len(),
                colors@ == before + src@.take(i as int),
            decreases src@.len() - i,
        {
            colors.push(src[i]);
            assert(src@.take(i + 1) =~= src@.take(i as int).push(src@[i as int]));
            i = i + 1;
        }
        assert(src@.take(i as int) =~= src@);
        k = k + 1;
    }
    push_codes(target, &colors);
    proof {
        assert(final(target)@ =~= old(target)@ + patch_bytes(g, c0@, c1@));
    }
}

} // verus!
