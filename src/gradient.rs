//! Gradients: kind, stops, interpolation space, and the alpha gradient of a
//! transparent one.
use vstd::prelude::*;
use crate::color::{Color, ColorSpace, ONE};

verus! {

/// Angles are held in millionths of a degree.
pub const DEGREE: i64 = 1_000_000;

/// The largest distance of a conic gradient's center from the origin of
/// its box, in millionths of the box: a hundred boxes.
pub const CENTER_LIMIT: i64 = 100_000_000;

/// The geometry of a gradient. Angles are in millionths of a degree, points
/// and radii in millionths of the painted box.
#[derive(Debug, Clone, Copy, PartialEq, Eq, Structural, Hash)]
pub enum GradientKind {
    Linear { angle: i64 },
    Radial {
        focal_x: i64,
        focal_y: i64,
        focal_radius: i64,
        center_x: i64,
        center_y: i64,
        radius: i64,
    },
    Conic { center_x: i64, center_y: i64, angle: i64 },
}

/// The frame a gradient is laid out in.
#[derive(Debug, Clone, Copy, PartialEq, Eq, Structural, Hash)]
pub enum RelativeTo {
    /// The element's own box.
    Itself,
    /// The box of the element's container.
    Parent,
}

/// A color and its position in `[0, ONE]`.
#[derive(Debug, Clone, Copy, PartialEq, Eq, Structural, Hash)]
pub struct Stop {
    pub color: Color,
    pub offset: u32,
}

/// A gradient definition.
#[derive(Debug)]
pub struct Gradient {
    pub kind: GradientKind,
    pub stops: Vec<Stop>,
    pub space: ColorSpace,
    pub relative: Option<RelativeTo>,
    pub anti_alias: bool,
}

pub struct GradientView {
    pub kind: GradientKind,
    pub stops: Seq<Stop>,
    pub space: ColorSpace,
    pub relative: Option<RelativeTo>,
    pub anti_alias: bool,
}

impl View for Gradient {
    type V = GradientView;

    open spec fn view(&self) -> GradientView {
        GradientView {
            kind: self.kind,
            stops: self.stops@,
            space: self.space,
            relative: self.relative,
            anti_alias: self.anti_alias,
        }
    }
}

/// At least two stops, positions in `[0, ONE]` and non-decreasing, colors
/// well formed.
pub open spec fn stops_wf(stops: Seq<Stop>) -> bool {
    &&& stops.len() >= 2
    &&& stops.len() <= usize::MAX
    &&& forall|i: int| 0 <= i < stops.len() ==> stops[i].offset <= ONE && (#[trigger] stops[i]).color.wf()
    &&& forall|i: int, j: int| 0 <= i <= j < stops.len() ==> stops[i].offset <= stops[j].offset
}

/// Whether a stop list is well formed: at least two stops, positions in
/// `[0, ONE]` and non-decreasing, colors well formed.
pub fn stops_valid(stops: &Vec<Stop>) -> (r: bool)
    ensures
        r == stops_wf(stops@),
{
    let n = stops.len();
    if n < 2 {
        return false;
    }
    let mut i: usize = 0;
    while i < n
        invariant
            n == stops@.len(),
            i <= n,
            forall|k: int| 0 <= k < i ==> stops@[k].offset <= ONE && (#[trigger] stops@[k]).color.wf(),
            forall|a: int, b: int| 0 <= a <= b < i ==> stops@[a].offset <= stops@[b].offset,
        decreases n - i,
    {
        let s = stops[i];
        if !(s.offset <= ONE && s.color.c0 <= ONE && s.color.c1 <= ONE && s.color.c2 <= ONE
            && s.color.c3 <= ONE && s.color.alpha <= ONE) {
            return false;
        }
        if i > 0 && stops[i - 1].offset > s.offset {
            return false;
        }
        proof {
            assert forall|a: int, b: int| 0 <= a <= b < i + 1 implies stops@[a].offset <= stops@[b].offset by {
                if b == i && a < i {
                    assert(stops@[a].offset <= stops@[i - 1].offset);
                }
            }
        }
        i = i + 1;
    }
    true
}

/// Whether some stop is not fully opaque.
pub open spec fn is_transparent_spec(stops: Seq<Stop>) -> bool {
    exists|i: int| 0 <= i < stops.len() && (#[trigger] stops[i]).color.alpha < ONE
}

/// Each stop's color replaced by an opaque gray equal to its alpha.
pub open spec fn alpha_stops(stops: Seq<Stop>) -> Seq<Stop> {
    stops.map_values(|s: Stop| Stop { color: Color::gray_spec(s.color.alpha), offset: s.offset })
}

impl GradientView {
    pub open spec fn wf(self) -> bool {
        stops_wf(self.stops)
    }

    /// A conic gradient's center lies within a hundred boxes of its box's
    /// origin, so that its placement fits in 64 bits.
    pub open spec fn center_wf(self) -> bool {
        match self.kind {
            GradientKind::Conic { center_x, center_y, .. } => -CENTER_LIMIT <= center_x <= CENTER_LIMIT
                && -CENTER_LIMIT <= center_y <= CENTER_LIMIT,
            _ => true,
        }
    }

    pub open spec fn alpha_spec(self) -> GradientView {
        GradientView { stops: alpha_stops(self.stops), space: ColorSpace::D65Gray, ..self }
    }

    pub open spec fn angle_spec(self) -> Option<i64> {
        match self.kind {
            GradientKind::Linear { angle } => Some(angle),
            GradientKind::Conic { angle, .. } => Some(angle),
            GradientKind::Radial { .. } => None,
        }
    }

    pub open spec fn frame_spec(self, on_text: bool) -> RelativeTo {
        match self.relative {
            Some(r) => r,
            None => if on_text {
                RelativeTo::Parent
            } else {
                RelativeTo::Itself
            },
        }
    }
}

impl Gradient {
    /// Whether some stop is not fully opaque.
    pub fn is_transparent(&self) -> (r: bool)
        ensures
            r == is_transparent_spec(self.stops@),
    {
        let mut i: usize = 0;
        while i < self.stops.len()
            invariant
                i <= self.stops@.len(),
                forall|k: int| 0 <= k < i ==> (#[trigger] self.stops@[k]).color.alpha >= ONE,
            decreases self.stops@.len() - i,
        {
            if self.stops[i].color.alpha < ONE {
                return true;
            }
            i = i + 1;
        }
        false
    }

    /// Whether a conic gradient's center is within `CENTER_LIMIT` of its
    /// box's origin; true for the other kinds.
    pub fn center_valid(&self) -> (r: bool)
        ensures
            r == self@.center_wf(),
    {
        match self.kind {
            GradientKind::Conic { center_x, center_y, .. } => -CENTER_LIMIT <= center_x
                && center_x <= CENTER_LIMIT && -CENTER_LIMIT <= center_y && center_y <= CENTER_LIMIT,
            _ => true,
        }
    }

    /// The angle of a linear or conic gradient.
    pub fn angle(&self) -> (r: Option<i64>)
        ensures
            r == self@.angle_spec(),
    {
        match self.kind {
            GradientKind::Linear { angle } => Some(angle),
            GradientKind::Conic { angle, .. } => Some(angle),
            GradientKind::Radial { .. } => None,
        }
    }

    /// The frame the gradient is laid out in: the declared one, else the
    /// container's on text and the element's own elsewhere.
    pub fn unwrap_relative(&self, on_text: bool) -> (r: RelativeTo)
        ensures
            r == self@.frame_spec(on_text),
    {
        match self.relative {
            Some(r) => r,
            None => if on_text {
                RelativeTo::Parent
            } else {
                RelativeTo::Itself
            },
        }
    }

    /// The alpha gradient: the same geometry and positions, each stop's color
    /// replaced by an opaque gray equal to its alpha, interpolated in gray.
    pub fn alpha_gradient(&self) -> (r: Gradient)
        ensures
            r@ == self@.alpha_spec(),
            self@.wf() ==> r@.wf(),
    {
        let mut stops: Vec<Stop> = Vec::new();
        let mut i: usize = 0;
        while i < self.stops.len()
            invariant
                i <= self.stops@.len(),
                stops@ =~= alpha_stops(self.stops@.take(i as int)),
            decreases self.stops@.len() - i,
        {
            let s = self.stops[i];
            stops.push(Stop { color: Color::gray(s.color.alpha), offset: s.offset });
            assert(self.stops@.take(i + 1) =~= self.stops@.take(i as int).push(s));
            i = i + 1;
        }
        assert(self.stops@.take(i as int) =~= self.stops@);
        Gradient {
            kind: self.kind,
            stops,
            space: ColorSpace::D65Gray,
            relative: self.relative,
            anti_alias: self.anti_alias,
        }
    }

    /// A copy of this gradient.
    pub fn duplicate(&self) -> (r: Gradient)
        ensures
            r@ == self@,
    {
        let mut stops: Vec<Stop> = Vec::new();
        let mut i: usize = 0;
        while i < self.stops.len()
            invariant
                i <= self.stops@.len(),
                stops@ == self.stops@.take(i as int),
            decreases self.stops@.len() - i,
        {
            stops.push(self.stops[i]);
            assert(self.stops@.take(i + 1) =~= self.stops@.take(i as int).push(self.stops@[i as int]));
            i = i + 1;
        }
        assert(self.stops@.take(i as int) =~= self.stops@);
        Gradient {
            kind: self.kind,
            stops,
            space: self.space,
            relative: self.relative,
            anti_alias: self.anti_alias,
        }
    }

    /// Whether two gradients are equal in every field.
    pub fn same(&self, o: &Gradient) -> (r: bool)
        ensures
            r == (self@ == o@),
    {
        if self.kind != o.kind || self.space != o.space || self.relative != o.relative
            || self.anti_alias != o.anti_alias || self.stops.len() != o.stops.len() {
            return false;
        }
        let mut i: usize = 0;
        while i < self.stops.len()
            invariant
                i <= self.stops@.len(),
                self.stops@.len() == o.stops@.len(),
                forall|k: int| 0 <= k < i ==> self.stops@[k] == o.stops@[k],
            decreases self.stops@.len() - i,
        {
            if self.stops[i] != o.stops[i] {
                return false;
            }
            i = i + 1;
        }
        assert(self.stops@ =~= o.stops@);
        true
    }
}

/// The alpha gradient keeps the kind, the positions and the number of stops,
/// and each of its stops is an opaque gray whose level is the alpha of the
/// stop at the same place.
pub proof fn lemma_alpha_derivation(g: GradientView, i: int)
    requires
        0 <= i < g.stops.len(),
    ensures
        g.alpha_spec().kind == g.kind,
        g.alpha_spec().space == ColorSpace::D65Gray,
        g.alpha_spec().stops.len() == g.stops.len(),
        g.alpha_spec().stops[i].offset == g.stops[i].offset,
        g.alpha_spec().stops[i].color.c0 == g.stops[i].color.alpha,
        g.alpha_spec().stops[i].color.alpha == ONE,
        !is_transparent_spec(g.alpha_spec().stops),
{
    let a = g.alpha_spec().stops;
    assert forall|k: int| 0 <= k < a.len() implies (#[trigger] a[k]).color.alpha >= ONE by {}
}

} // verus!
