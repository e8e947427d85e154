//! Tessellation of conic gradients into patches and the binary encoding of
//! the patches.
use vstd::prelude::*;
use crate::color::{mix, mix_spec, Color, ColorSpace, ONE};
use crate::gradient::{stops_wf, Stop};
use crate::patch::{color_codes, color_codes_spec, patch_bytes, write_patch, PatchGeometry};

verus! {

/// The largest step of a patch between two stops of the same color: a
/// quarter turn.
pub const STEP_EVEN: u32 = 250_000;

/// The largest step in a hue-bearing space: two hundred patches a turn.
pub const STEP_HUE: u32 = 5_000;

/// The largest step in other spaces: twenty patches a turn.
pub const STEP_OTHER: u32 = 50_000;

pub open spec fn max_step_spec(c0: Color, c1: Color, space: ColorSpace) -> u32 {
    if c0 == c1 {
        STEP_EVEN
    } else if space.has_hue() {
        STEP_HUE
    } else {
        STEP_OTHER
    }
}

/// The largest turning fraction one patch covers between two stops.
pub fn max_step(c0: Color, c1: Color, space: ColorSpace) -> (r: u32)
    ensures
        r == max_step_spec(c0, c1, space),
{
    if c0 == c1 {
        STEP_EVEN
    } else if space.hue_index().is_some() {
        STEP_HUE
    } else {
        STEP_OTHER
    }
}

/// One patch: the stop pair `window, window + 1` it lies between, and the
/// turning fractions it spans.
#[derive(Debug, Clone, Copy, PartialEq, Eq, Structural, Hash)]
pub struct PatchSpan {
    pub window: usize,
    pub start: u32,
    pub end: u32,
}

/// The step of a stop pair: its largest step, or its width if smaller.
pub open spec fn step_spec(stops: Seq<Stop>, w: int, space: ColorSpace) -> int {
    let d = stops[w + 1].offset - stops[w].offset;
    let m = max_step_spec(stops[w].color, stops[w + 1].color, space) as int;
    if d < m {
        d
    } else {
        m
    }
}

/// The number of patches of a stop pair: one for a hard stop, else as many
/// steps as it takes to reach the second stop.
pub open spec fn window_count(stops: Seq<Stop>, w: int, space: ColorSpace) -> int {
    let d = stops[w + 1].offset - stops[w].offset;
    if d == 0 {
        1
    } else {
        let dt = step_spec(stops, w, space);
        (d + dt - 1) / dt
    }
}

/// The patches of one stop pair, walked from the first stop to the second.
pub open spec fn window_spans(stops: Seq<Stop>, w: int, space: ColorSpace) -> Seq<PatchSpan> {
    let t0 = stops[w].offset as int;
    let t1 = stops[w + 1].offset as int;
    let dt = step_spec(stops, w, space);
    Seq::new(
        window_count(stops, w, space) as nat,
        |j: int|
            PatchSpan {
                window: w as usize,
                start: (t0 + j * dt) as u32,
                end: if t0 + (j + 1) * dt < t1 {
                    (t0 + (j + 1) * dt) as u32
                } else {
                    t1 as u32
                },
            },
    )
}

/// The patches of the first `n` stop pairs.
pub open spec fn spans_upto(stops: Seq<Stop>, space: ColorSpace, n: int) -> Seq<PatchSpan>
    decreases n,
{
    if n <= 0 {
        Seq::empty()
    } else {
        spans_upto(stops, space, n - 1) + window_spans(stops, n - 1, space)
    }
}

/// The patches of a conic gradient.
pub open spec fn conic_spans_spec(stops: Seq<Stop>, space: ColorSpace) -> Seq<PatchSpan> {
    spans_upto(stops, space, stops.len() - 1)
}

proof fn lemma_steps(d: int, dt: int, j: int)
    requires
        0 < dt,
        0 < d,
        0 <= j,
    ensures
        (j * dt < d) <==> (j < (d + dt - 1) / dt),
{
    let k = (d + dt - 1) / dt;
    assert(k * dt <= d + dt - 1 && d + dt - 1 < (k + 1) * dt) by (nonlinear_arith)
        requires k == (d + dt - 1) / dt, 0 < dt, 0 < d;
    assert((k + 1) * dt == k * dt + dt) by (nonlinear_arith);
    assert((j + 1) * dt == j * dt + dt) by (nonlinear_arith);
    if j < k {
        assert((j + 1) * dt <= k * dt) by (nonlinear_arith)
            requires j + 1 <= k, 0 < dt;
    } else {
        assert(j * dt >= k * dt) by (nonlinear_arith)
            requires j >= k, 0 < dt;
    }
}

/// The patches of a conic gradient: for each pair of adjacent stops, one
/// patch for a hard stop, else steps of at most `max_step` from the first
/// stop to the second.
pub fn conic_spans(stops: &Vec<Stop>, space: ColorSpace) -> (r: Vec<PatchSpan>)
    requires
        stops_wf(stops@),
    ensures
        r@ == conic_spans_spec(stops@, space),
{
    let mut out: Vec<PatchSpan> = Vec::new();
    let n = stops.len();
    let mut w: usize = 0;
    while w + 1 < n
        invariant
            n == stops@.len(),
            stops_wf(stops@),
            w + 1 <= n,
            out@ == spans_upto(stops@, space, w as int),
        decreases n - w,
    {
        let s0 = stops[w];
        let s1 = stops[w + 1];
        let t0 = s0.offset;
        let t1 = s1.offset;
        assert(t0 <= t1 <= ONE);
        let ghost base = out@;
        let ghost spans = window_spans(stops@, w as int, space);
        if t0 == t1 {
            out.push(PatchSpan { window: w, start: t0, end: t1 });
            assert(out@ =~= base + spans);
        } else {
            let m = max_step(s0.color, s1.color, space);
            let dt: u32 = if t1 - t0 < m {
                t1 - t0
            } else {
                m
            };
            assert(dt as int == step_spec(stops@, w as int, space));
            let mut t_x: u32 = t0;
            let ghost mut j: int = 0;
            proof {
                lemma_steps((t1 - t0) as int, dt as int, 0);
            }
            while t_x < t1
                invariant
                    0 < dt <= t1 - t0,
                    t0 < t1 <= ONE,
                    t0 == stops@[w as int].offset,
                    t1 == stops@[w as int + 1].offset,
                    dt as int == step_spec(stops@, w as int, space),
                    spans == window_spans(stops@, w as int, space),
                    0 <= j <= spans.len(),
                    t_x <= t1,
                    t_x < t1 ==> t_x as int == t0 + j * dt,
                    out@ =~= base + spans.take(j),
                    (t_x < t1) <==> (j < spans.len()),
                decreases t1 - t_x,
            {
                let t_next: u32 = if t_x + dt < t1 {
                    t_x + dt
                } else {
                    t1
                };
                proof {
                    assert(t0 + (j + 1) * dt == t0 + j * dt + dt) by (nonlinear_arith);
                }
                out.push(PatchSpan { window: w, start: t_x, end: t_next });
                proof {
                    assert(spans.take(j + 1) =~= spans.take(j).push(spans[j]));
                    j = j + 1;
                    lemma_steps((t1 - t0) as int, dt as int, j);
                }
                t_x = t_next;
            }
            proof {
                lemma_steps((t1 - t0) as int, dt as int, j);
                assert(spans.take(j) =~= spans);
            }
        }
        w = w + 1;
    }
    out
}

/// A hard stop, two adjacent stops at the same position, gives exactly one
/// patch, whatever its colors and the color space.
pub proof fn lemma_hard_stop_single_patch(stops: Seq<Stop>, w: int, space: ColorSpace)
    requires
        0 <= w,
        w + 1 < stops.len(),
        stops[w].offset == stops[w + 1].offset,
    ensures
        window_spans(stops, w, space).len() == 1,
        window_spans(stops, w, space)[0].start == stops[w].offset,
        window_spans(stops, w, space)[0].end == stops[w + 1].offset,
{
}


/// A stop pair spanning a full turn gives 4 patches when its two colors are
/// equal, 200 in a hue-bearing space and 20 in any other space otherwise.
pub proof fn lemma_full_turn_patch_count(stops: Seq<Stop>, w: int, space: ColorSpace)
    requires
        0 <= w,
        w + 1 < stops.len(),
        stops[w].offset == 0,
        stops[w + 1].offset == ONE,
    ensures
        stops[w].color == stops[w + 1].color ==> window_spans(stops, w, space).len() == 4,
        stops[w].color != stops[w + 1].color && space.has_hue() ==> window_spans(stops, w, space).len() == 200,
        stops[w].color != stops[w + 1].color && !space.has_hue() ==> window_spans(stops, w, space).len() == 20,
{
    if stops[w].color != stops[w + 1].color && !space.has_hue() {
        assert(step_spec(stops, w, space) == STEP_OTHER);
        assert((1_000_000int + 50_000 - 1) / 50_000 == 20) by (nonlinear_arith);
    }
}

/// The patches of a stop pair with distinct positions tile its interval: the
/// first starts at the first stop, each ends where the next starts, the last
/// ends at the second stop, and each covers a positive turning fraction of
/// at most the pair's largest step.
pub proof fn lemma_window_spans_cover(stops: Seq<Stop>, w: int, space: ColorSpace)
    requires
        0 <= w,
        w + 1 < stops.len(),
        stops[w].offset < stops[w + 1].offset,
    ensures
        ({
            let sp = window_spans(stops, w, space);
            &&& sp.len() >= 1
            &&& sp[0].start == stops[w].offset
            &&& sp[sp.len() - 1].end == stops[w + 1].offset
            &&& forall|j: int| 0 <= j < sp.len() - 1 ==> (#[trigger] sp[j]).end == sp[j + 1].start
            &&& forall|j: int| 0 <= j < sp.len() ==> (#[trigger] sp[j]).start < sp[j].end
                && sp[j].end - sp[j].start <= max_step_spec(stops[w].color, stops[w + 1].color, space)
        }),
{
    let sp = window_spans(stops, w, space);
    let t0 = stops[w].offset as int;
    let t1 = stops[w + 1].offset as int;
    let d = t1 - t0;
    let dt = step_spec(stops, w, space);
    let k = (d + dt - 1) / dt;
    lemma_steps(d, dt, 0);
    assert(k >= 1);
    assert(sp[0].start == t0);
    lemma_steps(d, dt, k);
    lemma_steps(d, dt, k - 1);
    assert((k - 1 + 1) * dt == k * dt) by (nonlinear_arith);
    assert(sp[k - 1].end == t1);
    assert forall|j: int| 0 <= j < sp.len() - 1 implies (#[trigger] sp[j]).end == sp[j + 1].start by {
        lemma_steps(d, dt, j + 1);
        assert(0 <= (j + 1) * dt) by (nonlinear_arith)
            requires 0 <= j, 0 < dt;
    }
    assert forall|j: int| 0 <= j < sp.len() implies (#[trigger] sp[j]).start < sp[j].end
        && sp[j].end - sp[j].start <= max_step_spec(stops[w].color, stops[w + 1].color, space) by {
        lemma_steps(d, dt, j);
        assert(0 <= j * dt) by (nonlinear_arith)
            requires 0 <= j, 0 < dt;
        assert((j + 1) * dt == j * dt + dt) by (nonlinear_arith);
    }
}

/// A span lies in its stop pair: between the first stop and the second.
pub open spec fn span_in_window(stops: Seq<Stop>, s: PatchSpan) -> bool {
    &&& s.window + 1 < stops.len()
    &&& stops[s.window as int].offset <= s.start <= s.end <= stops[s.window + 1].offset
}

proof fn lemma_window_spans_valid(stops: Seq<Stop>, space: ColorSpace, w: int)
    requires
        stops_wf(stops),
        0 <= w,
        w + 1 < stops.len(),
    ensures
        forall|i: int|
            0 <= i < window_spans(stops, w, space).len() ==> #[trigger] span_in_window(
                stops,
                window_spans(stops, w, space)[i],
            ) && window_spans(stops, w, space)[i].window == w,
{
    let sp = window_spans(stops, w, space);
    let t0 = stops[w].offset as int;
    let t1 = stops[w + 1].offset as int;
    let dt = step_spec(stops, w, space);
    assert(t0 <= t1);
    assert forall|i: int| 0 <= i < sp.len() implies #[trigger] span_in_window(stops, sp[i])
        && sp[i].window == w by {
        if t0 < t1 {
            lemma_steps(t1 - t0, dt, i);
            assert(0 <= i * dt) by (nonlinear_arith)
                requires 0 <= i, 0 < dt;
            assert((i + 1) * dt == i * dt + dt) by (nonlinear_arith);
        }
    }
}

proof fn lemma_spans_valid(stops: Seq<Stop>, space: ColorSpace, n: int)
    requires
        stops_wf(stops),
        0 <= n <= stops.len() - 1,
    ensures
        forall|i: int|
            0 <= i < spans_upto(stops, space, n).len() ==> #[trigger] span_in_window(
                stops,
                spans_upto(stops, space, n)[i],
            ),
    decreases n,
{
    if n > 0 {
        lemma_spans_valid(stops, space, n - 1);
        lemma_window_spans_valid(stops, space, n - 1);
        let a = spans_upto(stops, space, n - 1);
        let b = window_spans(stops, n - 1, space);
        assert forall|i: int| 0 <= i < (a + b).len() implies #[trigger] span_in_window(
            stops,
            (a + b)[i],
        ) by {
            if i >= a.len() {
                assert((a + b)[i] == b[i - a.len()]);
            }
        }
    }
}

/// Every patch of a conic gradient lies in its stop pair.
pub proof fn lemma_conic_spans_valid(stops: Seq<Stop>, space: ColorSpace)
    requires
        stops_wf(stops),
    ensures
        forall|i: int|
            0 <= i < conic_spans_spec(stops, space).len() ==> #[trigger] span_in_window(
                stops,
                conic_spans_spec(stops, space)[i],
            ),
{
    lemma_spans_valid(stops, space, stops.len() - 1);
}

/// The weight of the second stop at `t` between stops at `t0 < t1`.
pub open spec fn weight_spec(t0: u32, t1: u32, t: u32) -> u32 {
    ((t - t0) * ONE / (t1 - t0)) as u32
}

/// The colors at the start and the end of a patch in a space without hue:
/// the stop colors mixed by the position in the stop pair, or the two stop
/// colors themselves at a hard stop.
pub open spec fn span_colors_spec(stops: Seq<Stop>, s: PatchSpan) -> (Color, Color) {
    let a = stops[s.window as int];
    let b = stops[s.window + 1];
    if a.offset == b.offset {
        (a.color, b.color)
    } else {
        (
            mix_spec(a.color, b.color, weight_spec(a.offset, b.offset, s.start)),
            mix_spec(a.color, b.color, weight_spec(a.offset, b.offset, s.end)),
        )
    }
}

fn weight(t0: u32, t1: u32, t: u32) -> (r: u32)
    requires
        t0 <= t <= t1,
        t0 < t1,
        t1 <= ONE,
    ensures
        r == weight_spec(t0, t1, t),
        r <= ONE,
{
    let n: u64 = (t - t0) as u64;
    assert(n * ONE <= ONE as int * ONE as int) by (nonlinear_arith)
        requires n <= ONE;
    let r: u64 = n * ONE as u64 / (t1 - t0) as u64;
    assert(r <= ONE) by (nonlinear_arith)
        requires r == n * ONE as int / (t1 - t0) as int, n <= (t1 - t0), t1 > t0;
    r as u32
}

/// The colors at the start and the end of a patch, in a space without hue.
pub fn span_colors(stops: &Vec<Stop>, s: PatchSpan) -> (r: (Color, Color))
    requires
        stops_wf(stops@),
        span_in_window(stops@, s),
    ensures
        r == span_colors_spec(stops@, s),
        r.0.wf() && r.1.wf(),
{
    let a = stops[s.window];
    let b = stops[s.window + 1];
    assert(stops@[s.window as int].color.wf() && stops@[s.window + 1].color.wf());
    if a.offset == b.offset {
        (a.color, b.color)
    } else {
        let w0 = weight(a.offset, b.offset, s.start);
        let w1 = weight(a.offset, b.offset, s.end);
        (mix(a.color, b.color, w0), mix(a.color, b.color, w1))
    }
}

/// The bytes of the first `n` patches.
pub open spec fn mesh_bytes(
    geoms: Seq<PatchGeometry>,
    colors: Seq<(Vec<u16>, Vec<u16>)>,
    n: int,
) -> Seq<u8>
    decreases n,
{
    if n <= 0 {
        Seq::empty()
    } else {
        mesh_bytes(geoms, colors, n - 1) + patch_bytes(geoms[n - 1], colors[n - 1].0@, colors[n - 1].1@)
    }
}

/// The vertex stream of a mesh: each patch's bytes, one after the other.
pub fn encode_mesh(geoms: &Vec<PatchGeometry>, colors: &Vec<(Vec<u16>, Vec<u16>)>) -> (r: Vec<u8>)
    requires
        geoms@.len() == colors@.len(),
        forall|i: int| 0 <= i < geoms@.len() ==> (#[trigger] geoms@[i]).wf(),
    ensures
        r@ == mesh_bytes(geoms@, colors@, geoms@.len() as int),
{
    let mut out: Vec<u8> = Vec::new();
    let mut i: usize = 0;
    while i < geoms.len()
        invariant
            i <= geoms@.len(),
            geoms@.len() == colors@.len(),
            forall|k: int| 0 <= k < geoms@.len() ==> (#[trigger] geoms@[k]).wf(),
            out@ == mesh_bytes(geoms@, colors@, i as int),
        decreases geoms@.len() - i,
    {
        let (c0, c1) = &colors[i];
        write_patch(&mut out, geoms[i], c0, c1);
        i = i + 1;
    }
    out
}

/// The codes of the corner colors of each patch, in a space without hue.
pub open spec fn linear_colors_spec(stops: Seq<Stop>, space: ColorSpace, spans: Seq<PatchSpan>, i: int) -> (Seq<u16>, Seq<u16>) {
    let (a, b) = span_colors_spec(stops, spans[i]);
    (color_codes_spec(a, space), color_codes_spec(b, space))
}

/// The vertex stream of a conic gradient in a space without hue, given the
/// arc of each of its patches: the patch colors are mixed linearly between
/// the stops and coded over the space's range.
pub fn conic_mesh(stops: &Vec<Stop>, space: ColorSpace, geoms: &Vec<PatchGeometry>) -> (r: Option<Vec<u8>>)
    requires
        stops_wf(stops@),
        !space.has_hue(),
        forall|i: int| 0 <= i < geoms@.len() ==> (#[trigger] geoms@[i]).wf(),
    ensures
        geoms@.len() != conic_spans_spec(stops@, space).len() <==> r is None,
        r matches Some(bytes) ==> exists|colors: Seq<(Vec<u16>, Vec<u16>)>|
            colors.len() == geoms@.len()
            && (forall|i: int| 0 <= i < colors.len() ==>
                (#[trigger] colors[i]).0@ == linear_colors_spec(stops@, space, conic_spans_spec(stops@, space), i).0
                && colors[i].1@ == linear_colors_spec(stops@, space, conic_spans_spec(stops@, space), i).1)
            && bytes@ == mesh_bytes(geoms@, colors, geoms@.len() as int),
{
    let spans = conic_spans(stops, space);
    if spans.len() != geoms.len() {
        return None;
    }
    proof {
        lemma_conic_spans_valid(stops@, space);
    }
    let mut colors: Vec<(Vec<u16>, Vec<u16>)> = Vec::new();
    let mut i: usize = 0;
    while i < spans.len()
        invariant
            stops_wf(stops@),
            spans@ == conic_spans_spec(stops@, space),
            forall|k: int| 0 <= k < spans@.len() ==> #[trigger] span_in_window(stops@, spans@[k]),
            i <= spans@.len(),
            colors@.len() == i,
            forall|k: int| 0 <= k < i ==>
                (#[trigger] colors@[k]).0@ == linear_colors_spec(stops@, space, spans@, k).0
                && colors@[k].1@ == linear_colors_spec(stops@, space, spans@, k).1,
        decreases spans@.len() - i,
    {
        assert(span_in_window(stops@, spans@[i as int]));
        let (a, b) = span_colors(stops, spans[i]);
        colors.push((color_codes(a, space), color_codes(b, space)));
        i = i + 1;
    }
    let bytes = encode_mesh(geoms, &colors);
    Some(bytes)
}

} // verus!
