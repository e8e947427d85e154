//! Function-based shadings: the interpolation functions of a linear or
//! radial gradient and the coordinates of its axis or circles.
use vstd::prelude::*;
use crate::color::{ColorSpace, ONE};
use crate::descriptor::tdiv;
use crate::gradient::{stops_wf, Gradient, GradientKind, Stop, DEGREE};

verus! {

/// The number of segments of a stop pair in a hue-bearing space: 32
/// evenly spaced sub-stops between the two stops.
pub const HUE_SEGMENTS: u32 = 33;

/// Where the color at one end of a function segment comes from.
#[derive(Debug, Clone, Copy, PartialEq, Eq, Structural, Hash)]
pub enum ColorAt {
    /// The color of a stop, by index.
    Stop(usize),
    /// The gradient sampled at a position in `[0, ONE]`.
    Sample(u32),
}

/// One exponential function, from one color to another, over `[0, 1]`.
#[derive(Debug, Clone, Copy, PartialEq, Eq, Structural, Hash)]
pub struct Segment {
    pub start: ColorAt,
    pub end: ColorAt,
}

/// The function of a shading: a single exponential function when there is
/// one segment, else a stitching function over the segments, with the
/// bounds between them and an encode pair `0, ONE` per segment.
#[derive(Debug)]
pub struct ShadingFunction {
    pub segments: Vec<Segment>,
    pub bounds: Vec<u32>,
    pub encode: Vec<u32>,
}

/// The `i`-th of the evenly spaced sub-positions of a stop pair: the first
/// stop at 0, the second at `HUE_SEGMENTS`.
pub open spec fn sub_position(t0: u32, t1: u32, i: int) -> u32 {
    (t0 + (t1 - t0) * i / HUE_SEGMENTS as int) as u32
}

/// The segments of one stop pair, each with the bound where it ends. In a
/// hue-bearing space, a pair of distinct positions is split at 32 evenly
/// spaced sub-stops into 33 segments, from the first stop through the
/// sampled sub-stops to the second stop. Otherwise, and at a hard stop in
/// any space, the pair is one segment from stop to stop.
pub open spec fn window_plan(stops: Seq<Stop>, space: ColorSpace, w: int) -> Seq<(Segment, u32)> {
    let t0 = stops[w].offset;
    let t1 = stops[w + 1].offset;
    let last = HUE_SEGMENTS as int - 1;
    if space.has_hue() && t0 != t1 {
        Seq::new(
            HUE_SEGMENTS as nat,
            |j: int|
                (
                    Segment {
                        start: if j == 0 {
                            ColorAt::Stop(w as usize)
                        } else {
                            ColorAt::Sample(sub_position(t0, t1, j))
                        },
                        end: if j == last {
                            ColorAt::Stop((w + 1) as usize)
                        } else {
                            ColorAt::Sample(sub_position(t0, t1, j + 1))
                        },
                    },
                    if j == last {
                        t1
                    } else {
                        sub_position(t0, t1, j + 1)
                    },
                ),
        )
    } else {
        seq![(Segment { start: ColorAt::Stop(w as usize), end: ColorAt::Stop((w + 1) as usize) }, t1)]
    }
}

/// The segments of the first `n` stop pairs.
pub open spec fn plan_upto(stops: Seq<Stop>, space: ColorSpace, n: int) -> Seq<(Segment, u32)>
    decreases n,
{
    if n <= 0 {
        Seq::empty()
    } else {
        plan_upto(stops, space, n - 1) + window_plan(stops, space, n - 1)
    }
}

pub open spec fn encode_spec(n: int) -> Seq<u32> {
    Seq::new((2 * n) as nat, |i: int| if i % 2 == 0 { 0u32 } else { ONE })
}

/// The segments, bounds and encode array of a gradient's function.
pub open spec fn function_spec(stops: Seq<Stop>, space: ColorSpace) -> (Seq<Segment>, Seq<u32>, Seq<u32>) {
    let plan = plan_upto(stops, space, stops.len() - 1);
    let segments = plan.map_values(|p: (Segment, u32)| p.0);
    if plan.len() == 1 {
        (segments, Seq::empty(), Seq::empty())
    } else {
        (segments, plan.map_values(|p: (Segment, u32)| p.1).drop_last(), encode_spec(plan.len() as int))
    }
}

fn sub_pos(t0: u32, t1: u32, i: u32) -> (r: u32)
    requires
        t0 <= t1 <= ONE,
        i <= HUE_SEGMENTS,
    ensures
        r == sub_position(t0, t1, i as int),
{
    let d: u64 = (t1 - t0) as u64;
    assert(d * i as u64 <= ONE as int * HUE_SEGMENTS as int) by (nonlinear_arith)
        requires d <= ONE, i <= HUE_SEGMENTS;
    let x: u64 = d * i as u64 / HUE_SEGMENTS as u64;
    assert(x <= d) by (nonlinear_arith)
        requires x == d * i as int / HUE_SEGMENTS as int, i <= HUE_SEGMENTS;
    (t0 as u64 + x) as u32
}

/// The interpolation function of a linear or radial gradient: one
/// exponential function per pair of adjacent stops, or, in a hue-bearing
/// space and between distinct positions, 33 short ones through 32 sampled
/// sub-stops; stitched together at their ends unless there is only one.
pub fn shading_function(g: &Gradient) -> (r: ShadingFunction)
    requires
        stops_wf(g.stops@),
    ensures
        (r.segments@, r.bounds@, r.encode@) == function_spec(g.stops@, g.space),
{
    let n = g.stops.len();
    let hue = g.space.hue_index().is_some();
    let mut segments: Vec<Segment> = Vec::new();
    let mut bounds: Vec<u32> = Vec::new();
    let mut w: usize = 0;
    while w + 1 < n
        invariant
            n == g.stops@.len(),
            stops_wf(g.stops@),
            hue == g.space.has_hue(),
            w + 1 <= n,
            segments@ == plan_upto(g.stops@, g.space, w as int).map_values(|p: (Segment, u32)| p.0),
            bounds@ == plan_upto(g.stops@, g.space, w as int).map_values(|p: (Segment, u32)| p.1),
        decreases n - w,
    {
        let t0 = g.stops[w].offset;
        let t1 = g.stops[w + 1].offset;
        assert(t0 <= t1 <= ONE);
        let ghost before = plan_upto(g.stops@, g.space, w as int);
        let ghost wp = window_plan(g.stops@, g.space, w as int);
        if hue && t0 != t1 {
            let mut j: u32 = 0;
            let mut last = ColorAt::Stop(w);
            while j + 1 < HUE_SEGMENTS
                invariant
                    t0 < t1 <= ONE,
                    t0 == g.stops@[w as int].offset,
                    t1 == g.stops@[w as int + 1].offset,
                    hue == g.space.has_hue(),
                    hue,
                    wp == window_plan(g.stops@, g.space, w as int),
                    wp.len() == HUE_SEGMENTS,
                    j + 1 <= HUE_SEGMENTS,
                    last == (if j == 0 {
                        ColorAt::Stop(w)
                    } else {
                        ColorAt::Sample(sub_position(t0, t1, j as int))
                    }),
                    segments@ == (before + wp.take(j as int)).map_values(|p: (Segment, u32)| p.0),
                    bounds@ == (before + wp.take(j as int)).map_values(|p: (Segment, u32)| p.1),
                decreases HUE_SEGMENTS - j,
            {
                let t = sub_pos(t0, t1, j + 1);
                segments.push(Segment { start: last, end: ColorAt::Sample(t) });
                bounds.push(t);
                proof {
                    assert(wp.take(j + 1) =~= wp.take(j as int).push(wp[j as int]));
                    assert(before + wp.take(j + 1) =~= (before + wp.take(j as int)).push(wp[j as int]));
                    assert(segments@ =~= (before + wp.take(j + 1)).map_values(|p: (Segment, u32)| p.0));
                    assert(bounds@ =~= (before + wp.take(j + 1)).map_values(|p: (Segment, u32)| p.1));
                }
                last = ColorAt::Sample(t);
                j = j + 1;
            }
            segments.push(Segment { start: last, end: ColorAt::Stop(w + 1) });
            bounds.push(t1);
            proof {
                assert(wp =~= wp.take(j as int).push(wp[j as int]));
                assert(before + wp =~= (before + wp.take(j as int)).push(wp[j as int]));
                assert(segments@ =~= (before + wp).map_values(|p: (Segment, u32)| p.0));
                assert(bounds@ =~= (before + wp).map_values(|p: (Segment, u32)| p.1));
            }
        } else {
            segments.push(Segment { start: ColorAt::Stop(w), end: ColorAt::Stop(w + 1) });
            bounds.push(t1);
            proof {
                assert(wp =~= seq![wp[0]]);
                assert(segments@ =~= (before + wp).map_values(|p: (Segment, u32)| p.0));
                assert(bounds@ =~= (before + wp).map_values(|p: (Segment, u32)| p.1));
            }
        }
        w = w + 1;
    }
    let count = segments.len();
    if count == 1 {
        return ShadingFunction { segments, bounds: Vec::new(), encode: Vec::new() };
    }
    proof {
        lemma_plan_nonempty(g.stops@, g.space, (n - 1) as int);
    }
    bounds.pop();
    let mut encode: Vec<u32> = Vec::new();
    let mut k: usize = 0;
    while k < count
        invariant
            k <= count,
            encode@ =~= encode_spec(k as int),
        decreases count - k,
    {
        encode.push(0);
        encode.push(ONE);
        k = k + 1;
    }
    ShadingFunction { segments, bounds, encode }
}

/// A hard stop, two adjacent stops at the same position, gives exactly one
/// function segment, from stop to stop, whatever the color space; so does
/// every pair of adjacent stops in a space without hue.
pub proof fn lemma_single_segment_window(stops: Seq<Stop>, space: ColorSpace, w: int)
    requires
        !space.has_hue() || stops[w].offset == stops[w + 1].offset,
    ensures
        window_plan(stops, space, w).len() == 1,
        window_plan(stops, space, w)[0] == (
            Segment { start: ColorAt::Stop(w as usize), end: ColorAt::Stop((w + 1) as usize) },
            stops[w + 1].offset,
        ),
{
}

proof fn lemma_plain_plan(stops: Seq<Stop>, space: ColorSpace, n: int)
    requires
        !space.has_hue(),
        0 <= n,
    ensures
        plan_upto(stops, space, n).len() == n,
        forall|w: int| 0 <= w < n ==> #[trigger] plan_upto(stops, space, n)[w] == (
            Segment { start: ColorAt::Stop(w as usize), end: ColorAt::Stop((w + 1) as usize) },
            stops[w + 1].offset,
        ),
    decreases n,
{
    if n > 0 {
        lemma_plain_plan(stops, space, n - 1);
        lemma_single_segment_window(stops, space, n - 1);
        let a = plan_upto(stops, space, n - 1);
        let b = window_plan(stops, space, n - 1);
        assert forall|w: int| 0 <= w < n implies #[trigger] (a + b)[w] == (
            Segment { start: ColorAt::Stop(w as usize), end: ColorAt::Stop((w + 1) as usize) },
            stops[w + 1].offset,
        ) by {
            if w == n - 1 {
                assert((a + b)[w] == b[0]);
            } else {
                assert((a + b)[w] == a[w]);
            }
        }
    }
}

/// In a space without hue, a gradient with three or more stops has one
/// segment per pair of adjacent stops, stitched at the positions of the
/// inner stops (the last position is not a bound), with an encode pair for
/// each segment.
pub proof fn lemma_plain_stitching(stops: Seq<Stop>, space: ColorSpace)
    requires
        !space.has_hue(),
        stops.len() >= 3,
    ensures
        function_spec(stops, space).0.len() == stops.len() - 1,
        function_spec(stops, space).1 == stops.subrange(1, stops.len() - 1).map_values(|s: Stop| s.offset),
        function_spec(stops, space).2.len() == 2 * (stops.len() - 1),
{
    let n = stops.len() - 1;
    lemma_plain_plan(stops, space, n);
    let plan = plan_upto(stops, space, n);
    let b = plan.map_values(|p: (Segment, u32)| p.1).drop_last();
    let e = stops.subrange(1, stops.len() - 1).map_values(|s: Stop| s.offset);
    assert forall|i: int| 0 <= i < b.len() implies b[i] == e[i] by {
        assert(plan[i].1 == stops[i + 1].offset);
    }
    assert(b =~= e);
}

proof fn lemma_plan_nonempty(stops: Seq<Stop>, space: ColorSpace, n: int)
    requires
        n >= 1,
    ensures
        plan_upto(stops, space, n).len() >= 1,
    decreases n,
{
    if n > 1 {
        lemma_plan_nonempty(stops, space, n - 1);
    }
}

/// The quadrant an angle falls in.
#[derive(Debug, Clone, Copy, PartialEq, Eq, Structural, Hash)]
pub enum Quadrant {
    First,
    Second,
    Third,
    Fourth,
}

/// The quadrant of an angle in millionths of a degree, taken modulo a turn:
/// `[0, 90)`, `[90, 180)`, `[180, 270)` or `[270, 360)`.
pub open spec fn quadrant_spec(angle: i64) -> Quadrant {
    let a = (angle as int) % (360 * DEGREE as int);
    if a < 90 * DEGREE {
        Quadrant::First
    } else if a < 180 * DEGREE {
        Quadrant::Second
    } else if a < 270 * DEGREE {
        Quadrant::Third
    } else {
        Quadrant::Fourth
    }
}

/// The quadrant an angle falls in.
pub fn quadrant(angle: i64) -> (r: Quadrant)
    ensures
        r == quadrant_spec(angle),
{
    let turn: i64 = 360 * DEGREE;
    let q: i64 = angle / turn;
    assert(q == tdiv(angle as int, turn as int));
    assert(-(angle as int) <= turn * q <= angle || angle <= turn * q <= -(angle as int)) by (nonlinear_arith)
        requires q == tdiv(angle as int, turn as int), turn > 0;
    assert(angle - turn * q < turn && angle - turn * q > -turn) by (nonlinear_arith)
        requires q == tdiv(angle as int, turn as int), turn > 0;
    let m: i64 = angle - turn * q;
    let a: i64 = if m < 0 {
        m + turn
    } else {
        m
    };
    let ghost k: int = if m < 0 { q - 1 } else { q as int };
    assert(a == angle - turn * k) by (nonlinear_arith)
        requires m == angle - turn * q, a == (if m < 0 { m + turn } else { m as int }), k == (if m < 0 { q - 1 } else { q as int });
    assert(a as int == (angle as int) % (turn as int)) by (nonlinear_arith)
        requires a == angle - turn * k, 0 <= a < turn;
    if a < 90 * DEGREE {
        Quadrant::First
    } else if a < 180 * DEGREE {
        Quadrant::Second
    } else if a < 270 * DEGREE {
        Quadrant::Third
    } else {
        Quadrant::Fourth
    }
}

pub open spec fn abs_spec(v: int) -> int {
    if v < 0 {
        -v
    } else {
        v
    }
}

/// The axis of a linear gradient in the unit square, `(x1, y1, x2, y2)` in
/// millionths: the direction `(cos, sin)` of its angle rescaled by
/// `1 / (|cos| + |sin|)`, from the corner fixed by the angle's quadrant.
pub open spec fn axial_spec(angle: i64, sin: i64, cos: i64) -> (int, int, int, int) {
    let f = abs_spec(cos as int) + abs_spec(sin as int);
    let c = (cos as int * ONE as int) / f;
    let s = (sin as int * ONE as int) / f;
    match quadrant_spec(angle) {
        Quadrant::First => (0, 0, c, s),
        Quadrant::Second => (ONE as int, 0, c + ONE, s),
        Quadrant::Third => (ONE as int, ONE as int, c + ONE, s + ONE),
        Quadrant::Fourth => (0, ONE as int, c, s + ONE),
    }
}

fn scale_component(v: i64, f: i64) -> (r: i64)
    requires
        -(ONE as int) <= v <= ONE,
        abs_spec(v as int) <= f <= 2 * ONE,
        f > 0,
    ensures
        r as int == (v as int * ONE as int) / f as int,
        -(ONE as int) <= r <= ONE,
{
    let x: i128 = v as i128 * ONE as i128;
    let fi: i128 = f as i128;
    let q: i128 = x / fi;
    assert(q == tdiv(x as int, fi as int));
    assert(x - fi < fi * q <= x || x <= fi * q < x + fi) by (nonlinear_arith)
        requires q == tdiv(x as int, fi as int), fi > 0;
    assert(x >= 0 ==> fi * q <= x) by (nonlinear_arith)
        requires q == tdiv(x as int, fi as int), fi > 0;
    assert(x < 0 ==> fi * q >= x) by (nonlinear_arith)
        requires q == tdiv(x as int, fi as int), fi > 0;
    assert(x >= 0 ==> x < fi * q + fi) by (nonlinear_arith)
        requires q == tdiv(x as int, fi as int), fi > 0;
    assert(x < 0 ==> fi * q < x + fi) by (nonlinear_arith)
        requires q == tdiv(x as int, fi as int), fi > 0;
    assert((q - 1) * fi == fi * q - fi) by (nonlinear_arith);
    let e: i128 = if fi * q > x {
        q - 1
    } else {
        q
    };
    assert(e as int == x as int / fi as int) by (nonlinear_arith)
        requires
            e * fi <= x < e * fi + fi,
            fi > 0,
    ;
    assert(-(ONE as int) <= e <= ONE) by (nonlinear_arith)
        requires
            e as int == x as int / fi as int,
            x == v * ONE,
            -(fi as int) <= v <= fi,
            fi > 0,
    ;
    e as i64
}

/// The axis of a linear gradient at `angle`, given the sine and the cosine
/// of the angle in millionths.
pub fn axial_coords(angle: i64, sin: i64, cos: i64) -> (r: (i64, i64, i64, i64))
    requires
        -(ONE as int) <= sin <= ONE,
        -(ONE as int) <= cos <= ONE,
        sin != 0 || cos != 0,
    ensures
        (r.0 as int, r.1 as int, r.2 as int, r.3 as int) == axial_spec(angle, sin, cos),
{
    let one: i64 = ONE as i64;
    let f: i64 = (if cos < 0 { -cos } else { cos }) + (if sin < 0 { -sin } else { sin });
    let c = scale_component(cos, f);
    let s = scale_component(sin, f);
    match quadrant(angle) {
        Quadrant::First => (0, 0, c, s),
        Quadrant::Second => (one, 0, c + one, s),
        Quadrant::Third => (one, one, c + one, s + one),
        Quadrant::Fourth => (0, one, c, s + one),
    }
}

/// The circles of a radial gradient, `(fx, fy, fr, cx, cy, r)`: the focal
/// circle and the outer circle, as declared.
pub fn radial_coords(g: &Gradient) -> (r: Option<(i64, i64, i64, i64, i64, i64)>)
    ensures
        match g.kind {
            GradientKind::Radial { focal_x, focal_y, focal_radius, center_x, center_y, radius } =>
                r == Some((focal_x, focal_y, focal_radius, center_x, center_y, radius)),
            _ => r is None,
        },
{
    match g.kind {
        GradientKind::Radial { focal_x, focal_y, focal_radius, center_x, center_y, radius } => Some(
            (focal_x, focal_y, focal_radius, center_x, center_y, radius),
        ),
        _ => None,
    }
}

} // verus!
