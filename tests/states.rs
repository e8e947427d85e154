use pdf_gradient::color::{Color, ColorSpace, ONE};
use pdf_gradient::descriptor::{PdfGradient, Size, Transform, POINT};
use pdf_gradient::extg::{graphics_state_plan, mask_bbox, opacity_alpha, ExtGState, SoftMask};
use pdf_gradient::gradient::{Gradient, GradientKind, Stop};
use pdf_gradient::registry::Remapper;

fn mask_gradient() -> PdfGradient {
    let stops = vec![
        Stop { color: Color { c0: 0, c1: 0, c2: 0, c3: 0, alpha: ONE }, offset: 0 },
        Stop { color: Color { c0: ONE, c1: 0, c2: 0, c3: 0, alpha: ONE }, offset: ONE },
    ];
    PdfGradient {
        transform: Transform { sx: ONE as i64, ky: 0, kx: 0, sy: ONE as i64, tx: 0, ty: 0 },
        aspect_ratio: ONE as i64,
        gradient: Gradient {
            kind: GradientKind::Linear { angle: 0 },
            stops,
            space: ColorSpace::D65Gray,
            relative: None,
            anti_alias: true,
        },
        angle: 0,
        page_size: Size { w: POINT, h: POINT },
    }
}

fn masked(thickness: i64, sx: i64, sy: i64) -> ExtGState {
    ExtGState {
        stroke_opacity: 255,
        fill_opacity: 255,
        soft_mask: Some(SoftMask {
            stroke_thickness: thickness,
            transform: Transform { sx, ky: 0, kx: 0, sy, tx: 0, ty: 0 },
            gradient: mask_gradient(),
        }),
    }
}

#[test]
fn default_state_is_opaque() {
    let s = ExtGState::default();
    assert_eq!((s.stroke_opacity, s.fill_opacity), (255, 255));
    assert!(s.soft_mask.is_none());
    assert!(!s.uses_opacities());
    let t = ExtGState { fill_opacity: 128, ..ExtGState::default() };
    assert!(t.uses_opacities());
}

#[test]
fn opacity_is_divided_by_255() {
    assert_eq!(opacity_alpha(255), ONE);
    assert_eq!(opacity_alpha(0), 0);
    assert_eq!(opacity_alpha(128), 501_960);
    assert_eq!(opacity_alpha(51), 200_000);
}

#[test]
fn state_plan_without_mask_writes_none() {
    let s = ExtGState { stroke_opacity: 51, fill_opacity: 255, soft_mask: None };
    let p = graphics_state_plan(&s);
    assert_eq!(p.fill_alpha, ONE);
    assert_eq!(p.stroke_alpha, 200_000);
    assert!(p.mask_bbox.is_none());
}

#[test]
fn mask_bbox_grows_with_stroke() {
    let s = masked(2 * POINT, 4 * POINT, 8 * POINT);
    let m = s.soft_mask.as_ref().unwrap();
    assert_eq!(mask_bbox(m), (-250_000, -125_000, 1_250_000, 1_125_000));
    let p = graphics_state_plan(&s);
    assert_eq!(p.mask_bbox, Some((-250_000, -125_000, 1_250_000, 1_125_000)));
    let flat = masked(2 * POINT, 0, -4 * POINT);
    assert_eq!(mask_bbox(flat.soft_mask.as_ref().unwrap()), (0, 250_000, ONE as i64, 750_000));
}

#[test]
fn equal_states_share_a_handle() {
    let mut r: Remapper<ExtGState> = Remapper::new();
    let a = r.insert(masked(POINT, POINT, POINT));
    let b = r.insert(ExtGState::default());
    let c = r.insert(masked(POINT, POINT, POINT));
    let d = r.insert(masked(2 * POINT, POINT, POINT));
    let e = r.insert(ExtGState::default());
    assert_eq!(a, c);
    assert_eq!(b, e);
    assert_ne!(a, b);
    assert_ne!(a, d);
    assert_eq!(r.len(), 3);
    assert_eq!(r.find(&ExtGState::default()), Some(1));
}

#[test]
fn references_are_numbered_from_first() {
    let mut r: Remapper<ExtGState> = Remapper::new();
    r.insert(ExtGState::default());
    r.insert(masked(POINT, POINT, POINT));
    let refs = r.number_refs(3).unwrap();
    let numbers: Vec<i32> = refs.iter().map(|x| x.get()).collect();
    assert_eq!(numbers, vec![3, 4]);
    assert!(r.number_refs(0).is_none());
    assert!(r.number_refs(i32::MAX).is_none());
    assert!(r.number_refs(i32::MAX - 1).is_none());
    assert_eq!(r.number_refs(i32::MAX - 2).map(|v| v.len()), Some(2));
}
