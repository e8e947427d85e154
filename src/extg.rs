//! External graphics states: fill and stroke opacity and an optional
//! luminosity soft mask.
use vstd::prelude::*;
use crate::color::ONE;
use crate::descriptor::{PdfGradient, PdfGradientView, Transform, LIMIT};
use crate::registry::Keyed;

verus! {

/// A soft mask drawn from a gradient, for a stroke of some thickness.
#[derive(Debug)]
pub struct SoftMask {
    /// The thickness of the stroke, in millionths of a point.
    pub stroke_thickness: i64,
    /// The transform to apply to the gradient.
    pub transform: Transform,
    /// The gradient the mask's luminosity comes from.
    pub gradient: PdfGradient,
}

pub struct SoftMaskView {
    pub stroke_thickness: i64,
    pub transform: Transform,
    pub gradient: PdfGradientView,
}

impl View for SoftMask {
    type V = SoftMaskView;

    open spec fn view(&self) -> SoftMaskView {
        SoftMaskView {
            stroke_thickness: self.stroke_thickness,
            transform: self.transform,
            gradient: self.gradient@,
        }
    }
}

/// A graphics state of the document.
#[derive(Debug)]
pub struct ExtGState {
    /// In `0..=255`; written divided by 255.
    pub stroke_opacity: u8,
    /// In `0..=255`; written divided by 255.
    pub fill_opacity: u8,
    /// The soft mask of this state, if any.
    pub soft_mask: Option<SoftMask>,
}

pub struct ExtGStateView {
    pub stroke_opacity: u8,
    pub fill_opacity: u8,
    pub soft_mask: Option<SoftMaskView>,
}

impl View for ExtGState {
    type V = ExtGStateView;

    open spec fn view(&self) -> ExtGStateView {
        ExtGStateView {
            stroke_opacity: self.stroke_opacity,
            fill_opacity: self.fill_opacity,
            soft_mask: match self.soft_mask {
                Some(m) => Some(m@),
                None => None,
            },
        }
    }
}

impl Default for ExtGState {
    /// Fully opaque, without a soft mask.
    fn default() -> (r: ExtGState)
        ensures
            r.stroke_opacity == 255 && r.fill_opacity == 255 && r.soft_mask is None,
    {
        ExtGState { stroke_opacity: 255, fill_opacity: 255, soft_mask: None }
    }
}

impl ExtGState {
    /// Whether the state makes anything less than opaque.
    pub fn uses_opacities(&self) -> (r: bool)
        ensures
            r == (self.stroke_opacity != 255 || self.fill_opacity != 255),
    {
        self.stroke_opacity != 255 || self.fill_opacity != 255
    }
}

impl Keyed for ExtGState {
    fn same(&self, o: &ExtGState) -> (r: bool) {
        if self.stroke_opacity != o.stroke_opacity || self.fill_opacity != o.fill_opacity {
            return false;
        }
        match (&self.soft_mask, &o.soft_mask) {
            (None, None) => true,
            (Some(a), Some(b)) => a.stroke_thickness == b.stroke_thickness && a.transform
                == b.transform && a.gradient.same(&b.gradient),
            _ => false,
        }
    }

    fn duplicate(&self) -> (r: ExtGState) {
        let soft_mask = match &self.soft_mask {
            Some(m) => Some(
                SoftMask {
                    stroke_thickness: m.stroke_thickness,
                    transform: m.transform,
                    gradient: m.gradient.copy(),
                },
            ),
            None => None,
        };
        ExtGState { stroke_opacity: self.stroke_opacity, fill_opacity: self.fill_opacity, soft_mask }
    }
}

/// An opacity of `0..=255` as an alpha in millionths, rounded down.
pub open spec fn alpha_spec(o: u8) -> u32 {
    (o as int * ONE as int / 255) as u32
}

/// An opacity of `0..=255` as an alpha in millionths.
pub fn opacity_alpha(o: u8) -> (r: u32)
    ensures
        r == alpha_spec(o),
        r <= ONE,
        o == 255 ==> r == ONE,
        o == 0 ==> r == 0,
{
    let v: u64 = o as u64 * ONE as u64 / 255;
    assert(v <= ONE) by (nonlinear_arith)
        requires v == o as int * ONE as int / 255, o <= 255;
    v as u32
}

/// The thickness of a stroke relative to a scale factor, in millionths;
/// nothing where the scale is zero.
pub open spec fn stroke_ratio_spec(t: int, s: int) -> int {
    if s == 0 {
        0
    } else if s > 0 {
        t * ONE as int / s
    } else {
        -(t * ONE as int / (-s))
    }
}

fn stroke_ratio(t: i64, s: i64) -> (r: i64)
    requires
        0 <= t <= LIMIT,
        -LIMIT <= s <= LIMIT,
    ensures
        r as int == stroke_ratio_spec(t as int, s as int),
{
    assert(0 <= t as i128 * ONE as i128 <= LIMIT * ONE) by (nonlinear_arith)
        requires 0 <= t <= LIMIT;
    if s == 0 {
        0
    } else if s > 0 {
        let v: i128 = t as i128 * ONE as i128 / s as i128;
        assert(v <= t as i128 * ONE as i128) by (nonlinear_arith)
            requires v == (t as int * ONE as int) / s as int, s >= 1, t >= 0;
        v as i64
    } else {
        let v: i128 = t as i128 * ONE as i128 / (-s) as i128;
        assert(v <= t as i128 * ONE as i128) by (nonlinear_arith)
            requires v == (t as int * ONE as int) / (-s) as int, -s >= 1, t >= 0;
        -(v as i64)
    }
}

/// The bounding box of a soft mask's group, `(x1, y1, x2, y2)` in
/// millionths of the unit square: widened on each side by half the stroke
/// thickness over the transform's scale factor on that axis, so that effects
/// on the stroke are not clipped.
pub open spec fn mask_bbox_spec(m: SoftMaskView) -> (int, int, int, int) {
    let rx = stroke_ratio_spec(m.stroke_thickness as int, m.transform.sx as int);
    let ry = stroke_ratio_spec(m.stroke_thickness as int, m.transform.sy as int);
    (tdiv2(-rx), tdiv2(-ry), ONE + tdiv2(rx), ONE + tdiv2(ry))
}

/// Halving, rounding toward zero.
pub open spec fn tdiv2(v: int) -> int {
    crate::descriptor::tdiv(v, 2)
}

/// The bounding box of a soft mask's group.
pub fn mask_bbox(m: &SoftMask) -> (r: (i64, i64, i64, i64))
    requires
        0 <= m.stroke_thickness <= LIMIT,
        m.transform.wf(),
    ensures
        (r.0 as int, r.1 as int, r.2 as int, r.3 as int) == mask_bbox_spec(m@),
{
    let rx = stroke_ratio(m.stroke_thickness, m.transform.sx);
    let ry = stroke_ratio(m.stroke_thickness, m.transform.sy);
    assert(-(LIMIT as int) * ONE <= rx <= LIMIT as int * ONE) by (nonlinear_arith)
        requires
            rx as int == stroke_ratio_spec(m.stroke_thickness as int, m.transform.sx as int),
            0 <= m.stroke_thickness <= LIMIT,
    ;
    assert(-(LIMIT as int) * ONE <= ry <= LIMIT as int * ONE) by (nonlinear_arith)
        requires
            ry as int == stroke_ratio_spec(m.stroke_thickness as int, m.transform.sy as int),
            0 <= m.stroke_thickness <= LIMIT,
    ;
    let one: i64 = ONE as i64;
    ((-rx) / 2, (-ry) / 2, one + rx / 2, one + ry / 2)
}

/// What a graphics state writes: its fill and stroke alpha, and the
/// bounding box of its soft mask's group, or none for the explicit "no
/// mask" value.
#[derive(Debug, Clone, Copy)]
pub struct GraphicsStatePlan {
    pub fill_alpha: u32,
    pub stroke_alpha: u32,
    pub mask_bbox: Option<(i64, i64, i64, i64)>,
}

/// The plan of a graphics state.
pub fn graphics_state_plan(s: &ExtGState) -> (r: GraphicsStatePlan)
    requires
        s.soft_mask matches Some(m) ==> 0 <= m.stroke_thickness <= LIMIT && m.transform.wf(),
    ensures
        r.fill_alpha == alpha_spec(s.fill_opacity),
        r.stroke_alpha == alpha_spec(s.stroke_opacity),
        s.soft_mask is None <==> r.mask_bbox is None,
        s.soft_mask matches Some(m) ==> (r.mask_bbox matches Some(b)
            && (b.0 as int, b.1 as int, b.2 as int, b.3 as int) == mask_bbox_spec(m@)),
{
    let mask = match &s.soft_mask {
        Some(m) => Some(mask_bbox(m)),
        None => None,
    };
    GraphicsStatePlan {
        fill_alpha: opacity_alpha(s.fill_opacity),
        stroke_alpha: opacity_alpha(s.stroke_opacity),
        mask_bbox: mask,
    }
}

} // verus!
