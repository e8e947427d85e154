//! Canonical gradient descriptors and their registration at the point of use.
use vstd::prelude::*;
use crate::color::{ColorSpace, ONE};
use crate::gradient::{Gradient, GradientKind, GradientView, RelativeTo, CENTER_LIMIT};
use crate::registry::{insert_spec, Keyed, Remapper};

verus! {

/// The bound on lengths and transform entries: about 68,700 points, or a
/// scale of 68,700.
pub const LIMIT: i64 = 68_719_476_736;

/// Lengths are held in millionths of a point, so one point is `ONE`.
pub const POINT: i64 = 1_000_000;

/// Integer division rounding toward zero, as the machine divides.
pub open spec fn tdiv(a: int, b: int) -> int {
    if a >= 0 {
        a / b
    } else {
        -((-a) / b)
    }
}

/// An affine transform: the linear part in millionths, the translation in
/// millionths of a point.
#[derive(Debug, Clone, Copy, PartialEq, Eq, Structural, Hash)]
pub struct Transform {
    pub sx: i64,
    pub ky: i64,
    pub kx: i64,
    pub sy: i64,
    pub tx: i64,
    pub ty: i64,
}

impl Transform {
    pub open spec fn wf(self) -> bool {
        &&& -LIMIT <= self.sx <= LIMIT
        &&& -LIMIT <= self.ky <= LIMIT
        &&& -LIMIT <= self.kx <= LIMIT
        &&& -LIMIT <= self.sy <= LIMIT
        &&& -LIMIT <= self.tx <= LIMIT
        &&& -LIMIT <= self.ty <= LIMIT
    }

    /// Whether every entry is within `LIMIT`.
    pub fn within_limits(&self) -> (r: bool)
        ensures
            r == self.wf(),
    {
        -LIMIT <= self.sx && self.sx <= LIMIT && -LIMIT <= self.ky && self.ky <= LIMIT && -LIMIT
            <= self.kx && self.kx <= LIMIT && -LIMIT <= self.sy && self.sy <= LIMIT && -LIMIT
            <= self.tx && self.tx <= LIMIT && -LIMIT <= self.ty && self.ty <= LIMIT
    }

    /// This transform after a translation by `(ox, oy)` and a scaling by
    /// `(a, b)` (in millionths), applied in that order to the unit square:
    /// `self * translate(ox, oy) * scale(a, b)`.
    pub open spec fn place_spec(self, ox: int, oy: int, a: int, b: int) -> (int, int, int, int, int, int) {
        (
            tdiv(self.sx * a, ONE as int),
            tdiv(self.ky * a, ONE as int),
            tdiv(self.kx * b, ONE as int),
            tdiv(self.sy * b, ONE as int),
            tdiv(self.sx * ox + self.kx * oy, ONE as int) + self.tx,
            tdiv(self.ky * ox + self.sy * oy, ONE as int) + self.ty,
        )
    }

    /// Places the unit square: translates by `(ox, oy)`, then scales by
    /// `(a, b)`, then applies this transform.
    pub fn place(self, ox: i64, oy: i64, a: i64, b: i64) -> (r: Transform)
        requires
            self.wf(),
            -128 * LIMIT <= ox <= 128 * LIMIT,
            -128 * LIMIT <= oy <= 128 * LIMIT,
            -4 * LIMIT <= a <= 4 * LIMIT,
            -4 * LIMIT <= b <= 4 * LIMIT,
        ensures
            (r.sx as int, r.ky as int, r.kx as int, r.sy as int, r.tx as int, r.ty as int)
                == self.place_spec(ox as int, oy as int, a as int, b as int),
    {
        let one: i128 = ONE as i128;
        let m: i128 = 128 * LIMIT as i128 * LIMIT as i128;
        assert(-m <= self.sx as i128 * a as i128 <= m) by (nonlinear_arith)
            requires -LIMIT <= self.sx <= LIMIT, -4 * LIMIT <= a <= 4 * LIMIT, m == 128 * LIMIT * LIMIT;
        assert(-m <= self.ky as i128 * a as i128 <= m) by (nonlinear_arith)
            requires -LIMIT <= self.ky <= LIMIT, -4 * LIMIT <= a <= 4 * LIMIT, m == 128 * LIMIT * LIMIT;
        assert(-m <= self.kx as i128 * b as i128 <= m) by (nonlinear_arith)
            requires -LIMIT <= self.kx <= LIMIT, -4 * LIMIT <= b <= 4 * LIMIT, m == 128 * LIMIT * LIMIT;
        assert(-m <= self.sy as i128 * b as i128 <= m) by (nonlinear_arith)
            requires -LIMIT <= self.sy <= LIMIT, -4 * LIMIT <= b <= 4 * LIMIT, m == 128 * LIMIT * LIMIT;
        assert(-m <= self.sx as i128 * ox as i128 <= m) by (nonlinear_arith)
            requires -LIMIT <= self.sx <= LIMIT, -128 * LIMIT <= ox <= 128 * LIMIT, m == 128 * LIMIT * LIMIT;
        assert(-m <= self.kx as i128 * oy as i128 <= m) by (nonlinear_arith)
            requires -LIMIT <= self.kx <= LIMIT, -128 * LIMIT <= oy <= 128 * LIMIT, m == 128 * LIMIT * LIMIT;
        assert(-m <= self.ky as i128 * ox as i128 <= m) by (nonlinear_arith)
            requires -LIMIT <= self.ky <= LIMIT, -128 * LIMIT <= ox <= 128 * LIMIT, m == 128 * LIMIT * LIMIT;
        assert(-m <= self.sy as i128 * oy as i128 <= m) by (nonlinear_arith)
            requires -LIMIT <= self.sy <= LIMIT, -128 * LIMIT <= oy <= 128 * LIMIT, m == 128 * LIMIT * LIMIT;
        let sx = div_one(self.sx as i128 * a as i128);
        let ky = div_one(self.ky as i128 * a as i128);
        let kx = div_one(self.kx as i128 * b as i128);
        let sy = div_one(self.sy as i128 * b as i128);
        let tx = div_one(self.sx as i128 * ox as i128 + self.kx as i128 * oy as i128);
        let ty = div_one(self.ky as i128 * ox as i128 + self.sy as i128 * oy as i128);
        Transform { sx, ky, kx, sy, tx: tx + self.tx, ty: ty + self.ty }
    }
}

proof fn lemma_tdiv_bound(v: int, m: int)
    requires
        -m <= v <= m,
    ensures
        -(m / (ONE as int)) <= tdiv(v, ONE as int) <= m / (ONE as int),
{
    if v >= 0 {
        assert(v / (ONE as int) <= m / (ONE as int)) by (nonlinear_arith)
            requires 0 <= v <= m;
    } else {
        assert((-v) / (ONE as int) <= m / (ONE as int)) by (nonlinear_arith)
            requires 0 <= -v <= m;
    }
}

/// Divides by `ONE`, rounding toward zero.
fn div_one(v: i128) -> (r: i64)
    requires
        -256 * LIMIT * LIMIT <= v <= 256 * LIMIT * LIMIT,
    ensures
        r as int == tdiv(v as int, ONE as int),
        -2_305_843_009_213_693_952 <= r <= 2_305_843_009_213_693_952,
{
    let q: i128 = v / ONE as i128;
    let ghost bound: int = 256 * (LIMIT as int) * (LIMIT as int);
    assert(bound == 1_208_925_819_614_629_174_706_176);
    if v >= 0 {
        assert(q <= bound / 1_000_000) by (nonlinear_arith)
            requires q == v as int / 1_000_000, v <= bound, v >= 0;
    } else {
        assert(-q <= bound / 1_000_000) by (nonlinear_arith)
            requires -q == (-v) as int / 1_000_000, -v <= bound, v < 0;
    }
    assert(bound / 1_000_000 == 1_208_925_819_614_629_174);
    q as i64
}


/// A size in millionths of a point.
#[derive(Debug, Clone, Copy, PartialEq, Eq, Structural, Hash)]
pub struct Size {
    pub w: i64,
    pub h: i64,
}

/// The local frame at the point of use: the element's own transform and
/// size, and those of its container.
#[derive(Debug, Clone, Copy, PartialEq, Eq, Structural, Hash)]
pub struct Transforms {
    pub transform: Transform,
    pub container_transform: Transform,
    pub size: Size,
    pub container_size: Size,
}

impl Size {
    pub open spec fn wf(self) -> bool {
        0 <= self.w <= LIMIT && 0 <= self.h <= LIMIT
    }

    /// A zero width or height replaced by one point.
    pub open spec fn clamped(self) -> Size {
        Size {
            w: if self.w == 0 { POINT } else { self.w },
            h: if self.h == 0 { POINT } else { self.h },
        }
    }
}

impl Transforms {
    pub open spec fn wf(self) -> bool {
        self.transform.wf() && self.container_transform.wf() && self.size.wf() && self.container_size.wf()
    }

    /// Whether both transforms and both sizes are within `LIMIT`, the sizes
    /// not negative.
    pub fn within_limits(&self) -> (r: bool)
        ensures
            r == self.wf(),
    {
        self.transform.within_limits() && self.container_transform.within_limits() && 0
            <= self.size.w && self.size.w <= LIMIT && 0 <= self.size.h && self.size.h <= LIMIT && 0
            <= self.container_size.w && self.container_size.w <= LIMIT && 0 <= self.container_size.h
            && self.container_size.h <= LIMIT
    }
}

/// A gradient at the geometry it is painted with: the canonical key of one
/// shading resource.
#[derive(Debug)]
pub struct PdfGradient {
    /// Maps the unit square of the gradient to the page.
    pub transform: Transform,
    /// Width over height of the painted box, in millionths.
    pub aspect_ratio: i64,
    pub gradient: Gradient,
    /// The angle corrected for the aspect ratio, in millionths of a degree.
    pub angle: i64,
    /// The size of the page the gradient is on.
    pub page_size: Size,
}

pub struct PdfGradientView {
    pub transform: Transform,
    pub aspect_ratio: i64,
    pub gradient: GradientView,
    pub angle: i64,
    pub page_size: Size,
}

impl View for PdfGradient {
    type V = PdfGradientView;

    open spec fn view(&self) -> PdfGradientView {
        PdfGradientView {
            transform: self.transform,
            aspect_ratio: self.aspect_ratio,
            gradient: self.gradient@,
            angle: self.angle,
            page_size: self.page_size,
        }
    }
}

impl Keyed for PdfGradient {
    fn same(&self, o: &PdfGradient) -> (r: bool) {
        self.transform == o.transform && self.aspect_ratio == o.aspect_ratio && self.angle == o.angle
            && self.page_size == o.page_size && self.gradient.same(&o.gradient)
    }

    fn duplicate(&self) -> (r: PdfGradient) {
        self.copy()
    }
}

impl PdfGradient {
    /// A copy of this descriptor.
    pub fn copy(&self) -> (r: PdfGradient)
        ensures
            r@ == self@,
    {
        PdfGradient {
            transform: self.transform,
            aspect_ratio: self.aspect_ratio,
            gradient: self.gradient.duplicate(),
            angle: self.angle,
            page_size: self.page_size,
        }
    }
}

impl PdfGradient {
    /// The descriptor of the alpha gradient of a transparent gradient: the
    /// same geometry, with the gradient replaced by its alpha gradient.
    pub fn alpha_descriptor(&self) -> (r: PdfGradient)
        ensures
            r@ == (PdfGradientView { gradient: self@.gradient.alpha_spec(), ..self@ }),
    {
        PdfGradient {
            transform: self.transform,
            aspect_ratio: self.aspect_ratio,
            gradient: self.gradient.alpha_gradient(),
            angle: self.angle,
            page_size: self.page_size,
        }
    }
}

/// The size a gradient is laid out in: its frame's, with a zero width or
/// height replaced by one point.
pub open spec fn frame_size_spec(g: GradientView, on_text: bool, t: Transforms) -> Size {
    match g.frame_spec(on_text) {
        RelativeTo::Itself => t.size.clamped(),
        RelativeTo::Parent => t.container_size.clamped(),
    }
}

/// Width over height, in millionths.
pub open spec fn aspect_spec(s: Size) -> int {
    s.w * ONE as int / s.h as int
}

/// The scale of the unit square: four for the conic mesh, one otherwise.
pub open spec fn scale_spec(g: GradientView) -> int {
    match g.kind {
        GradientKind::Conic { .. } => 4,
        _ => 1,
    }
}

/// The offset that centers a conic gradient on its declared center, scaled
/// like the square; none for the other kinds.
pub open spec fn offset_spec(g: GradientView, s: Size) -> (int, int) {
    match g.kind {
        GradientKind::Conic { center_x, center_y, .. } => (
            -tdiv(s.w * (2 * ONE - center_x), ONE as int),
            -tdiv(s.h * (2 * ONE - center_y), ONE as int),
        ),
        _ => (0, 0),
    }
}

/// The descriptor of a gradient painted in the frame `t` on a page of size
/// `page`, with the angle already corrected for the aspect ratio.
pub open spec fn descriptor_spec(g: GradientView, on_text: bool, t: Transforms, angle: i64, page: Size) -> PdfGradientView {
    let s = frame_size_spec(g, on_text, t);
    let base = match g.frame_spec(on_text) {
        RelativeTo::Itself => t.transform,
        RelativeTo::Parent => t.container_transform,
    };
    let (ox, oy) = offset_spec(g, s);
    let k = scale_spec(g);
    let (sx, ky, kx, sy, tx, ty) = base.place_spec(ox, oy, s.w * k, s.h * k);
    PdfGradientView {
        transform: Transform { sx: sx as i64, ky: ky as i64, kx: kx as i64, sy: sy as i64, tx: tx as i64, ty: ty as i64 },
        aspect_ratio: aspect_spec(s) as i64,
        gradient: g,
        angle,
        page_size: page,
    }
}

/// The color spaces that the document must declare.
pub struct ColorUsage {
    spaces: Vec<ColorSpace>,
}

impl View for ColorUsage {
    type V = Set<ColorSpace>;

    closed spec fn view(&self) -> Set<ColorSpace> {
        self.spaces@.to_set()
    }
}

impl ColorUsage {
    /// No space used yet.
    pub fn new() -> (r: ColorUsage)
        ensures
            r@ == Set::<ColorSpace>::empty(),
    {
        let r = ColorUsage { spaces: Vec::new() };
        assert(r@ =~= Set::<ColorSpace>::empty());
        r
    }

    /// Whether a space is used.
    pub fn contains(&self, space: ColorSpace) -> (r: bool)
        ensures
            r == self@.contains(space),
    {
        let mut i: usize = 0;
        while i < self.spaces.len()
            invariant
                i <= self.spaces@.len(),
                forall|k: int| 0 <= k < i ==> self.spaces@[k] != space,
            decreases self.spaces@.len() - i,
        {
            if self.spaces[i] == space {
                assert(self.spaces@.to_set().contains(self.spaces@[i as int]));
                return true;
            }
            i = i + 1;
        }
        false
    }

    /// Marks a space as used.
    pub fn mark_as_used(&mut self, space: ColorSpace)
        ensures
            final(self)@ == old(self)@.insert(space),
    {
        if !self.contains(space) {
            self.spaces.push(space);
            let ghost a = old(self).spaces@;
            let ghost b = self.spaces@;
            assert(b == a.push(space));
            assert forall|x: ColorSpace| b.contains(x) <==> (a.contains(x) || x == space) by {
                if b.contains(x) {
                    let i = choose|i: int| 0 <= i < b.len() && b[i] == x;
                    if i < a.len() {
                        assert(a[i] == x);
                    }
                }
                if a.contains(x) {
                    let i = choose|i: int| 0 <= i < a.len() && a[i] == x;
                    assert(b[i] == x);
                }
                if x == space {
                    assert(b[a.len() as int] == x);
                }
            }
            assert(self.spaces@.to_set() =~= old(self).spaces@.to_set().insert(space));
        } else {
            assert(old(self)@.insert(space) =~= old(self)@);
        }
    }
}

/// The resources collected while one page's content is generated.
pub struct PageResources {
    pub gradients: Remapper<PdfGradient>,
    pub colors: ColorUsage,
    pub page_size: Size,
}

impl PageResources {
    /// Empty resources for a page of the given size.
    pub fn new(page_size: Size) -> (r: PageResources)
        ensures
            r.gradients@ == Seq::<PdfGradientView>::empty(),
            r.gradients.wf(),
            r.colors@ == Set::<ColorSpace>::empty(),
            r.page_size == page_size,
    {
        PageResources { gradients: Remapper::new(), colors: ColorUsage::new(), page_size }
    }
}

/// Registers a gradient painted in the frame `t` and returns the handle of
/// its descriptor: the same handle for an equal descriptor registered before.
/// `angle` is the gradient's angle corrected for the aspect ratio of the
/// frame (see `gradient_frame`). The gradient's encoding space, and gray for
/// a transparent gradient, are marked as used.
pub fn register_gradient(
    res: &mut PageResources,
    g: &Gradient,
    on_text: bool,
    t: Transforms,
    angle: i64,
) -> (r: usize)
    requires
        old(res).gradients.wf(),
        t.wf(),
        g@.center_wf(),
    ensures
        final(res).gradients.wf(),
        (final(res).gradients@, r as int) == insert_spec(
            old(res).gradients@,
            descriptor_spec(g@, on_text, t, angle, old(res).page_size),
        ),
        final(res).colors@ == (if crate::gradient::is_transparent_spec(g@.stops) {
            old(res).colors@.insert(g.space.encoding_spec()).insert(ColorSpace::D65Gray)
        } else {
            old(res).colors@.insert(g.space.encoding_spec())
        }),
        final(res).page_size == old(res).page_size,
{
    let frame = gradient_frame(g, on_text, t);
    let base = match g.unwrap_relative(on_text) {
        RelativeTo::Itself => t.transform,
        RelativeTo::Parent => t.container_transform,
    };
    let s = frame.0;
    let one: i64 = ONE as i64;
    let (ox, oy, k): (i64, i64, i64) = match g.kind {
        GradientKind::Conic { center_x, center_y, .. } => {
            let ghost c = CENTER_LIMIT as int + 2 * ONE;
            assert(-(LIMIT * c) <= s.w * (2 * ONE - center_x) <= LIMIT * c) by (nonlinear_arith)
                requires 0 <= s.w <= LIMIT, -CENTER_LIMIT <= center_x <= CENTER_LIMIT, c == CENTER_LIMIT + 2 * ONE;
            assert(-(LIMIT * c) <= s.h * (2 * ONE - center_y) <= LIMIT * c) by (nonlinear_arith)
                requires 0 <= s.h <= LIMIT, -CENTER_LIMIT <= center_y <= CENTER_LIMIT, c == CENTER_LIMIT + 2 * ONE;
            let nx: i128 = s.w as i128 * (2 * one - center_x) as i128;
            let ny: i128 = s.h as i128 * (2 * one - center_y) as i128;
            let x = nx / one as i128;
            let y = ny / one as i128;
            proof {
                lemma_tdiv_bound(nx as int, LIMIT * c);
                lemma_tdiv_bound(ny as int, LIMIT * c);
                assert((LIMIT * c) / (ONE as int) <= 128 * LIMIT) by (nonlinear_arith)
                    requires c == CENTER_LIMIT + 2 * ONE;
            }
            (-(x as i64), -(y as i64), 4)
        },
        _ => (0, 0, 1),
    };
    let transform = base.place(ox, oy, s.w * k, s.h * k);
    let pdf_gradient = PdfGradient {
        transform,
        aspect_ratio: frame.1,
        gradient: g.duplicate(),
        angle,
        page_size: res.page_size,
    };
    res.colors.mark_as_used(g.space.encoding_space());
    if g.is_transparent() {
        res.colors.mark_as_used(ColorSpace::D65Gray);
    }
    proof {
        assert(pdf_gradient@ == descriptor_spec(g@, on_text, t, angle, old(res).page_size));
    }
    res.gradients.insert(pdf_gradient)
}

/// The size a gradient is laid out in, with a zero width or height replaced
/// by one point, and its aspect ratio (width over height, in millionths).
/// The aspect ratio is what the gradient's angle is corrected for.
pub fn gradient_frame(g: &Gradient, on_text: bool, t: Transforms) -> (r: (Size, i64))
    requires
        t.wf(),
    ensures
        r.0 == frame_size_spec(g@, on_text, t),
        r.1 as int == aspect_spec(r.0),
{
    let raw = match g.unwrap_relative(on_text) {
        RelativeTo::Itself => t.size,
        RelativeTo::Parent => t.container_size,
    };
    let s = Size {
        w: if raw.w == 0 { POINT } else { raw.w },
        h: if raw.h == 0 { POINT } else { raw.h },
    };
    assert(0 <= s.w as i128 * ONE as i128 <= LIMIT * ONE) by (nonlinear_arith)
        requires 0 <= s.w <= LIMIT;
    let a: i128 = s.w as i128 * ONE as i128 / s.h as i128;
    assert(a <= s.w as i128 * ONE as i128) by (nonlinear_arith)
        requires a == s.w * ONE as int / s.h as int, s.h >= 1, s.w >= 0;
    (s, a as i64)
}

/// A frame of any size, a zero-size stroke included, gives a positive size
/// and an aspect ratio that is defined: nothing is divided by zero.
pub proof fn lemma_zero_size_guard(g: GradientView, on_text: bool, t: Transforms)
    requires
        t.wf(),
    ensures
        frame_size_spec(g, on_text, t).w > 0,
        frame_size_spec(g, on_text, t).h > 0,
        t.size == (Size { w: 0, h: 0 }) && g.frame_spec(on_text) == RelativeTo::Itself ==> frame_size_spec(g, on_text, t) == (Size { w: POINT, h: POINT }) && aspect_spec(frame_size_spec(g, on_text, t)) == ONE,
{
}

} // verus!
