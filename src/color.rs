//! Color spaces and colors, with components in fixed point.
use vstd::prelude::*;

verus! {

/// The fixed-point unit: ratios, positions, color components and alpha are
/// held in millionths.
pub const ONE: u32 = 1_000_000;

/// A color space of the document.
#[derive(Debug, Clone, Copy, PartialEq, Eq, Structural, Hash)]
pub enum ColorSpace {
    Oklab,
    Oklch,
    Srgb,
    D65Gray,
    LinearRgb,
    Hsl,
    Hsv,
    Cmyk,
}

impl ColorSpace {
    pub open spec fn hue_index_spec(self) -> Option<usize> {
        match self {
            ColorSpace::Oklch => Some(2usize),
            ColorSpace::Hsl => Some(0usize),
            ColorSpace::Hsv => Some(0usize),
            _ => None,
        }
    }

    /// The index of the hue component, for spaces that have one.
    pub fn hue_index(self) -> (r: Option<usize>)
        ensures
            r == self.hue_index_spec(),
    {
        match self {
            ColorSpace::Oklch => Some(2),
            ColorSpace::Hsl => Some(0),
            ColorSpace::Hsv => Some(0),
            _ => None,
        }
    }

    pub open spec fn has_hue(self) -> bool {
        self.hue_index_spec() is Some
    }

    pub open spec fn count_spec(self) -> usize {
        match self {
            ColorSpace::D65Gray => 1usize,
            ColorSpace::Cmyk => 4usize,
            _ => 3usize,
        }
    }

    /// The number of components of a color in this space.
    pub fn component_count(self) -> (r: usize)
        ensures
            r == self.count_spec(),
    {
        match self {
            ColorSpace::D65Gray => 1,
            ColorSpace::Cmyk => 4,
            _ => 3,
        }
    }

    pub open spec fn encoding_spec(self) -> ColorSpace {
        if self.has_hue() {
            ColorSpace::Oklab
        } else {
            self
        }
    }

    /// The space a gradient in this space is written in: hue-bearing spaces
    /// are written as Oklab, others as they are.
    pub fn encoding_space(self) -> (r: ColorSpace)
        ensures
            r == self.encoding_spec(),
    {
        if self.hue_index().is_some() {
            ColorSpace::Oklab
        } else {
            self
        }
    }

    pub open spec fn unit_range(n: usize) -> Seq<i64> {
        Seq::new((2 * n) as nat, |i: int| if i % 2 == 0 { 0i64 } else { ONE as i64 })
    }

    pub open spec fn range_spec(self) -> Seq<i64> {
        match self {
            ColorSpace::Oklab => seq![0i64, ONE as i64, OKLAB_AB_LO, OKLAB_AB, OKLAB_AB_LO, OKLAB_AB],
            _ => ColorSpace::unit_range(self.count_spec()),
        }
    }

    /// The declared range of each component, as `lo, hi` pairs in
    /// millionths: lightness in `[0, 1]` and the `a` and `b` axes in
    /// `[-0.4, 0.4]` for Oklab, `[0, 1]` for every component of the other
    /// spaces.
    pub fn range(self) -> (r: Vec<i64>)
        ensures
            r@ == self.range_spec(),
    {
        if let ColorSpace::Oklab = self {
            let r = vec![0, ONE as i64, OKLAB_AB_LO, OKLAB_AB, OKLAB_AB_LO, OKLAB_AB];
            assert(r@ =~= self.range_spec());
            return r;
        }
        let n = self.component_count();
        let mut r: Vec<i64> = Vec::new();
        let mut i: usize = 0;
        while i < n
            invariant
                n == self.count_spec(),
                i <= n,
                r@.len() == 2 * i,
                forall|k: int| 0 <= k < 2 * i ==> r@[k] == (if k % 2 == 0 { 0i64 } else { ONE as i64 }),
            decreases n - i,
        {
            r.push(0);
            r.push(ONE as i64);
            i = i + 1;
        }
        assert(r@ =~= self.range_spec());
        r
    }
}

/// The upper bound of Oklab's `a` and `b` axes, in millionths.
pub const OKLAB_AB: i64 = 400_000;

/// The lower bound of Oklab's `a` and `b` axes, in millionths.
pub const OKLAB_AB_LO: i64 = -400_000;

/// A color in the interpolation space of its gradient: up to four
/// components, each normalized to `[0, ONE]` over the space's declared range
/// (see `ColorSpace::range`; unused components are zero), and an alpha in
/// `[0, ONE]`.
#[derive(Debug, Clone, Copy, PartialEq, Eq, Structural, Hash)]
pub struct Color {
    pub c0: u32,
    pub c1: u32,
    pub c2: u32,
    pub c3: u32,
    pub alpha: u32,
}

impl Color {
    pub open spec fn wf(self) -> bool {
        self.c0 <= ONE && self.c1 <= ONE && self.c2 <= ONE && self.c3 <= ONE && self.alpha <= ONE
    }

    pub open spec fn components_spec(self) -> Seq<u32> {
        seq![self.c0, self.c1, self.c2, self.c3]
    }

    pub open spec fn gray_spec(level: u32) -> Color {
        Color { c0: level, c1: 0, c2: 0, c3: 0, alpha: ONE }
    }

    /// An opaque gray of the given level.
    pub fn gray(level: u32) -> (r: Color)
        ensures
            r == Color::gray_spec(level),
    {
        Color { c0: level, c1: 0, c2: 0, c3: 0, alpha: ONE }
    }
}

/// The mix of `a` and `b` with weight `w / ONE` on `b`, in a space without
/// hue: each component and the alpha are interpolated linearly, rounded down.
pub open spec fn mix_component(a: u32, b: u32, w: u32) -> u32 {
    ((a as int * (ONE - w) as int + b as int * w as int) / ONE as int) as u32
}

pub open spec fn mix_spec(a: Color, b: Color, w: u32) -> Color {
    Color {
        c0: mix_component(a.c0, b.c0, w),
        c1: mix_component(a.c1, b.c1, w),
        c2: mix_component(a.c2, b.c2, w),
        c3: mix_component(a.c3, b.c3, w),
        alpha: mix_component(a.alpha, b.alpha, w),
    }
}

fn mix_one(a: u32, b: u32, w: u32) -> (r: u32)
    requires
        a <= ONE,
        b <= ONE,
        w <= ONE,
    ensures
        r == mix_component(a, b, w),
        r <= ONE,
{
    let aw: u64 = (ONE - w) as u64;
    assert(a as u64 * aw <= ONE as int * ONE as int) by (nonlinear_arith)
        requires a <= ONE, aw <= ONE;
    assert(b as u64 * w as u64 <= ONE as int * ONE as int) by (nonlinear_arith)
        requires b <= ONE, w <= ONE;
    let x: u64 = a as u64 * aw;
    let y: u64 = b as u64 * w as u64;
    assert(x <= ONE as u64 * ONE as u64) by (nonlinear_arith)
        requires x == a as u64 * (ONE - w) as u64, a <= ONE, w <= ONE;
    assert(y <= ONE as u64 * ONE as u64) by (nonlinear_arith)
        requires y == b as u64 * w as u64, b <= ONE, w <= ONE;
    assert(x + y <= ONE as int * ONE as int) by (nonlinear_arith)
        requires x == a as int * (ONE - w) as int, y == b as int * w as int, a <= ONE, b <= ONE, w <= ONE;
    let r: u64 = (x + y) / ONE as u64;
    assert(r <= ONE) by (nonlinear_arith)
        requires r == (x + y) / ONE as int, x + y <= ONE as int * ONE as int;
    r as u32
}

/// Mixes two colors of a space without hue, with weight `w / ONE` on `b`.
pub fn mix(a: Color, b: Color, w: u32) -> (r: Color)
    requires
        a.wf(),
        b.wf(),
        w <= ONE,
    ensures
        r == mix_spec(a, b, w),
        r.wf(),
{
    Color {
        c0: mix_one(a.c0, b.c0, w),
        c1: mix_one(a.c1, b.c1, w),
        c2: mix_one(a.c2, b.c2, w),
        c3: mix_one(a.c3, b.c3, w),
        alpha: mix_one(a.alpha, b.alpha, w),
    }
}

} // verus!
