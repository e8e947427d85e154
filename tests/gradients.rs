use pdf_gradient::color::{mix, Color, ColorSpace, ONE};
use pdf_gradient::descriptor::{
    gradient_frame, register_gradient, PageResources, Size, Transform, Transforms, POINT,
};
use pdf_gradient::gradient::{Gradient, GradientKind, RelativeTo, Stop, DEGREE};
use pdf_gradient::mesh::{conic_mesh, conic_spans, encode_mesh, max_step, span_colors, PatchSpan};
use pdf_gradient::patch::{color_codes, control_points, write_patch, PatchGeometry};
use pdf_gradient::quantize::{dequantize, quantize};
use pdf_gradient::shading::{axial_coords, quadrant, radial_coords, shading_function, ColorAt, Quadrant};

fn rgb(r: u32, g: u32, b: u32, alpha: u32) -> Color {
    Color { c0: r, c1: g, c2: b, c3: 0, alpha }
}

fn stop(color: Color, offset: u32) -> Stop {
    Stop { color, offset }
}

fn linear(stops: Vec<Stop>, space: ColorSpace) -> Gradient {
    Gradient {
        kind: GradientKind::Linear { angle: 0 },
        stops,
        space,
        relative: None,
        anti_alias: true,
    }
}

fn conic(stops: Vec<Stop>, space: ColorSpace) -> Gradient {
    Gradient {
        kind: GradientKind::Conic { center_x: ONE as i64 / 2, center_y: ONE as i64 / 2, angle: 0 },
        stops,
        space,
        relative: None,
        anti_alias: true,
    }
}

fn identity() -> Transform {
    Transform { sx: ONE as i64, ky: 0, kx: 0, sy: ONE as i64, tx: 0, ty: 0 }
}

fn frame(w: i64, h: i64) -> Transforms {
    Transforms {
        transform: identity(),
        container_transform: identity(),
        size: Size { w, h },
        container_size: Size { w: 100 * POINT, h: 50 * POINT },
    }
}

#[test]
fn quantize_ends_and_clamping() {
    assert_eq!(quantize(0, 0, ONE as i64), 0);
    assert_eq!(quantize(ONE as i64, 0, ONE as i64), 65535);
    assert_eq!(quantize(-5, 0, ONE as i64), 0);
    assert_eq!(quantize(2 * ONE as i64, 0, ONE as i64), 65535);
    assert_eq!(quantize(0, -(ONE as i64), ONE as i64), 32767);
    assert_eq!(quantize(500_000, 0, ONE as i64), 32767);
}

#[test]
fn quantize_round_trip_within_one_step() {
    let (lo, hi) = (-400_000i64, 400_000i64);
    for v in [-400_000i64, -123_456, 0, 1, 77_777, 399_999, 400_000] {
        let back = dequantize(quantize(v, lo, hi), lo, hi);
        assert!(back <= v);
        assert!(65535 * (v - back) < hi - lo);
    }
    assert_eq!(dequantize(0, lo, hi), lo);
    assert_eq!(dequantize(65535, lo, hi), hi);
}

#[test]
fn stitching_bounds_drop_the_last_stop() {
    let black = rgb(0, 0, 0, ONE);
    let white = rgb(ONE, ONE, ONE, ONE);
    let g = linear(
        vec![stop(black, 0), stop(white, 300_000), stop(black, 700_000), stop(white, ONE)],
        ColorSpace::Srgb,
    );
    let f = shading_function(&g);
    assert_eq!(f.segments.len(), 3);
    assert_eq!(f.bounds, vec![300_000, 700_000]);
    assert_eq!(f.encode.len(), 6);
    assert_eq!(f.encode, vec![0, ONE, 0, ONE, 0, ONE]);
    assert_eq!(f.segments[1].start, ColorAt::Stop(1));
    assert_eq!(f.segments[1].end, ColorAt::Stop(2));
}

#[test]
fn two_stops_need_no_stitching() {
    let g = linear(vec![stop(rgb(0, 0, 0, ONE), 0), stop(rgb(ONE, 0, 0, ONE), ONE)], ColorSpace::Srgb);
    let f = shading_function(&g);
    assert_eq!(f.segments.len(), 1);
    assert!(f.bounds.is_empty());
    assert!(f.encode.is_empty());
}

#[test]
fn hue_space_adds_sub_segments() {
    let g = linear(vec![stop(rgb(0, 0, 0, ONE), 0), stop(rgb(ONE, 0, 0, ONE), ONE)], ColorSpace::Oklch);
    let f = shading_function(&g);
    assert_eq!(f.segments.len(), 33);
    assert_eq!(f.bounds.len(), 32);
    assert_eq!(f.encode.len(), 66);
    assert_eq!(f.segments[0].start, ColorAt::Stop(0));
    assert_eq!(f.segments[0].end, ColorAt::Sample(30_303));
    assert_eq!(f.segments[1].start, ColorAt::Sample(30_303));
    assert_eq!(f.segments[1].end, ColorAt::Sample(60_606));
    assert_eq!(f.segments[32].end, ColorAt::Stop(1));
    assert_eq!(f.bounds[0], 30_303);
    assert_eq!(f.bounds[31], 969_696);
    assert!(f.segments.iter().all(|s| s.start != s.end));
}

#[test]
fn hard_stop_is_one_segment_in_any_space() {
    let red = rgb(ONE, 0, 0, ONE);
    let blue = rgb(0, 0, ONE, ONE);
    for space in [ColorSpace::Srgb, ColorSpace::Oklch, ColorSpace::Hsv] {
        let g = linear(vec![stop(red, 400_000), stop(blue, 400_000)], space);
        let f = shading_function(&g);
        assert_eq!(f.segments.len(), 1);
        assert_eq!(f.segments[0].start, ColorAt::Stop(0));
        assert_eq!(f.segments[0].end, ColorAt::Stop(1));
    }
    let g = linear(
        vec![stop(red, 0), stop(red, 500_000), stop(blue, 500_000), stop(blue, ONE)],
        ColorSpace::Oklch,
    );
    let f = shading_function(&g);
    assert_eq!(f.segments.len(), 33 + 1 + 33);
    assert_eq!(f.segments[33].start, ColorAt::Stop(1));
    assert_eq!(f.segments[33].end, ColorAt::Stop(2));
    assert_eq!(f.bounds[32], 500_000);
    assert_eq!(f.bounds[33], 500_000);
}

#[test]
fn quadrants_select_offsets() {
    assert_eq!(quadrant(45 * DEGREE), Quadrant::First);
    assert_eq!(quadrant(135 * DEGREE), Quadrant::Second);
    assert_eq!(quadrant(225 * DEGREE), Quadrant::Third);
    assert_eq!(quadrant(-45 * DEGREE), Quadrant::Fourth);
    assert_eq!(quadrant(405 * DEGREE), Quadrant::First);
    let a = axial_coords(45 * DEGREE, 707_107, 707_107);
    assert_eq!(a, (0, 0, 500_000, 500_000));
    let b = axial_coords(135 * DEGREE, 707_107, -707_107);
    assert_eq!(b, (ONE as i64, 0, 500_000, 500_000));
    assert_ne!(a, b);
    let c = axial_coords(0, 0, ONE as i64);
    assert_eq!(c, (0, 0, ONE as i64, 0));
}

#[test]
fn radial_coordinates_are_declared_ones() {
    let g = Gradient {
        kind: GradientKind::Radial {
            focal_x: 1,
            focal_y: 2,
            focal_radius: 3,
            center_x: 4,
            center_y: 5,
            radius: 6,
        },
        stops: vec![stop(rgb(0, 0, 0, ONE), 0), stop(rgb(ONE, 0, 0, ONE), ONE)],
        space: ColorSpace::Srgb,
        relative: None,
        anti_alias: false,
    };
    assert_eq!(radial_coords(&g), Some((1, 2, 3, 4, 5, 6)));
    assert_eq!(radial_coords(&linear(g.stops.clone(), ColorSpace::Srgb)), None);
}

#[test]
fn conic_patch_counts() {
    let red = rgb(ONE, 0, 0, ONE);
    let blue = rgb(0, 0, ONE, ONE);
    let even = conic_spans(&vec![stop(red, 0), stop(red, ONE)], ColorSpace::Srgb);
    assert_eq!(even.len(), 4);
    assert_eq!(even[1], PatchSpan { window: 0, start: 250_000, end: 500_000 });
    let hue = conic_spans(&vec![stop(red, 0), stop(blue, ONE)], ColorSpace::Oklch);
    assert_eq!(hue.len(), 200);
    let plain = conic_spans(&vec![stop(red, 0), stop(blue, ONE)], ColorSpace::Srgb);
    assert_eq!(plain.len(), 20);
    assert_eq!(plain[19].end, ONE);
    let short = conic_spans(&vec![stop(red, 0), stop(blue, 120_000)], ColorSpace::Srgb);
    assert_eq!(short.len(), 3);
    assert_eq!(short[2], PatchSpan { window: 0, start: 100_000, end: 120_000 });
    assert_eq!(max_step(red, red, ColorSpace::Hsl), 250_000);
    assert_eq!(max_step(red, blue, ColorSpace::Hsv), 5_000);
}

#[test]
fn hard_stop_gives_one_patch() {
    let red = rgb(ONE, 0, 0, ONE);
    let blue = rgb(0, 0, ONE, ONE);
    for space in [ColorSpace::Srgb, ColorSpace::Oklch] {
        let spans = conic_spans(&vec![stop(red, 500_000), stop(blue, 500_000)], space);
        assert_eq!(spans, vec![PatchSpan { window: 0, start: 500_000, end: 500_000 }]);
    }
    let spans = conic_spans(
        &vec![stop(red, 0), stop(red, 500_000), stop(blue, 500_000), stop(blue, ONE)],
        ColorSpace::Srgb,
    );
    assert_eq!(spans.len(), 2 + 1 + 2);
    assert_eq!(spans[2], PatchSpan { window: 1, start: 500_000, end: 500_000 });
    let (a, b) = span_colors(&vec![stop(red, 0), stop(red, 500_000), stop(blue, 500_000), stop(blue, ONE)], spans[2]);
    assert_eq!((a, b), (red, blue));
}

#[test]
fn alpha_gradient_takes_the_alphas() {
    let g = linear(
        vec![
            stop(rgb(ONE, 0, 0, ONE), 0),
            stop(rgb(0, ONE, 0, 500_000), 400_000),
            stop(rgb(0, 0, ONE, 0), ONE),
        ],
        ColorSpace::Srgb,
    );
    assert!(g.is_transparent());
    let a = g.alpha_gradient();
    assert_eq!(a.space, ColorSpace::D65Gray);
    assert_eq!(a.kind, g.kind);
    let levels: Vec<u32> = a.stops.iter().map(|s| s.color.c0).collect();
    let offsets: Vec<u32> = a.stops.iter().map(|s| s.offset).collect();
    assert_eq!(levels, vec![ONE, 500_000, 0]);
    assert_eq!(offsets, vec![0, 400_000, ONE]);
    assert!(a.stops.iter().all(|s| s.color.alpha == ONE));
    assert!(!a.is_transparent());
}

#[test]
fn mixing_is_linear() {
    let a = rgb(0, ONE, 200_000, ONE);
    let b = rgb(ONE, 0, 600_000, 0);
    let m = mix(a, b, 250_000);
    assert_eq!(m, rgb(250_000, 750_000, 300_000, 750_000));
}

#[test]
fn patch_bytes_layout() {
    let g = PatchGeometry { cos0: ONE as i64, sin0: 0, cos1: 0, sin1: ONE as i64, factor: 0 };
    let mut out = vec![9u8];
    write_patch(&mut out, g, &vec![0x1234], &vec![0xabcd]);
    assert_eq!(out.len(), 1 + 1 + 48 + 8);
    assert_eq!(out[0], 9);
    assert_eq!(out[1], 0);
    assert_eq!(&out[2..4], &[0x7f, 0xff]);
    assert_eq!(&out[10..14], &[0xff, 0xff, 0x7f, 0xff]);
    assert_eq!(&out[50..58], &[0x12, 0x34, 0x12, 0x34, 0xab, 0xcd, 0xab, 0xcd]);
    assert_eq!(
        control_points(PatchGeometry { cos0: ONE as i64, sin0: 0, cos1: 0, sin1: ONE as i64, factor: 552_285 }),
        (2_000_000_000_000, 1_552_285_000_000, 1_552_285_000_000, 2_000_000_000_000)
    );
}

#[test]
fn color_codes_cover_the_components() {
    assert_eq!(color_codes(rgb(ONE, 0, 500_000, ONE), ColorSpace::Srgb), vec![65535, 0, 32767]);
    assert_eq!(color_codes(Color { c0: ONE, c1: 0, c2: 0, c3: ONE, alpha: ONE }, ColorSpace::Cmyk).len(), 4);
    assert_eq!(color_codes(rgb(ONE, ONE, ONE, ONE), ColorSpace::D65Gray), vec![65535]);
    assert_eq!(ColorSpace::Oklch.encoding_space(), ColorSpace::Oklab);
    let one = ONE as i64;
    assert_eq!(ColorSpace::Cmyk.range(), vec![0, one, 0, one, 0, one, 0, one]);
    assert_eq!(ColorSpace::Oklab.range(), vec![0, one, -400_000, 400_000, -400_000, 400_000]);
    assert_eq!(ColorSpace::D65Gray.range(), vec![0, one]);
}

#[test]
fn conic_mesh_for_plain_space() {
    let red = rgb(ONE, 0, 0, ONE);
    let stops = vec![stop(red, 0), stop(red, ONE)];
    let g = PatchGeometry { cos0: 0, sin0: 0, cos1: 0, sin1: 0, factor: 0 };
    assert!(conic_mesh(&stops, ColorSpace::Srgb, &vec![g; 3]).is_none());
    let bytes = conic_mesh(&stops, ColorSpace::Srgb, &vec![g; 4]).unwrap();
    assert_eq!(bytes.len(), 4 * (1 + 48 + 4 * 6));
    let direct = encode_mesh(&vec![g; 4], &vec![(vec![65535, 0, 0], vec![65535, 0, 0]); 4]);
    assert_eq!(bytes, direct);
}

#[test]
fn zero_size_frame_is_clamped() {
    let g = linear(vec![stop(rgb(0, 0, 0, ONE), 0), stop(rgb(ONE, 0, 0, ONE), ONE)], ColorSpace::Srgb);
    let (size, aspect) = gradient_frame(&g, false, frame(0, 0));
    assert_eq!(size, Size { w: POINT, h: POINT });
    assert_eq!(aspect, ONE as i64);
    let (size, aspect) = gradient_frame(&g, true, frame(0, 0));
    assert_eq!(size, Size { w: 100 * POINT, h: 50 * POINT });
    assert_eq!(aspect, 2 * ONE as i64);
    let mut res = PageResources::new(Size { w: 595 * POINT, h: 842 * POINT });
    let h = register_gradient(&mut res, &g, false, frame(0, 0), 0);
    assert_eq!(h, 0);
    let d = res.gradients.get(0);
    assert_eq!(d.aspect_ratio, ONE as i64);
    assert_eq!(d.transform, Transform { sx: POINT, ky: 0, kx: 0, sy: POINT, tx: 0, ty: 0 });
    assert_eq!(d.page_size, Size { w: 595 * POINT, h: 842 * POINT });
}

#[test]
fn conic_descriptor_is_centered_and_scaled() {
    let g = conic(vec![stop(rgb(0, 0, 0, ONE), 0), stop(rgb(ONE, 0, 0, ONE), ONE)], ColorSpace::Srgb);
    let mut res = PageResources::new(Size { w: POINT, h: POINT });
    register_gradient(&mut res, &g, false, frame(10 * POINT, 20 * POINT), 0);
    let d = res.gradients.get(0);
    assert_eq!(d.transform.sx, 40 * POINT);
    assert_eq!(d.transform.sy, 80 * POINT);
    assert_eq!(d.transform.tx, -15 * POINT);
    assert_eq!(d.transform.ty, -30 * POINT);
    assert_eq!(d.aspect_ratio, 500_000);
}

#[test]
fn registering_deduplicates() {
    let g = linear(vec![stop(rgb(0, 0, 0, ONE), 0), stop(rgb(ONE, 0, 0, 300_000), ONE)], ColorSpace::Oklch);
    let other = linear(vec![stop(rgb(0, 0, 0, ONE), 0), stop(rgb(ONE, 0, 0, 300_000), 900_000)], ColorSpace::Oklch);
    let mut res = PageResources::new(Size { w: POINT, h: POINT });
    let a = register_gradient(&mut res, &g, false, frame(POINT, POINT), 0);
    let b = register_gradient(&mut res, &g, false, frame(POINT, POINT), 0);
    let c = register_gradient(&mut res, &other, false, frame(POINT, POINT), 0);
    let d = register_gradient(&mut res, &g, false, frame(2 * POINT, POINT), 0);
    let e = register_gradient(&mut res, &g, false, frame(POINT, POINT), 7);
    assert_eq!(a, b);
    assert_ne!(a, c);
    assert_ne!(a, d);
    assert_ne!(a, e);
    assert_eq!(res.gradients.len(), 4);
    assert!(res.colors.contains(ColorSpace::Oklab));
    assert!(res.colors.contains(ColorSpace::D65Gray));
    assert!(!res.colors.contains(ColorSpace::Oklch));
    let mut next = pdf_writer::Ref::new(5);
    let refs = res.gradients.assign_refs(&mut next);
    let numbers: Vec<i32> = refs.iter().map(|r| r.get()).collect();
    assert_eq!(numbers, vec![5, 6, 7, 8]);
    assert_eq!(next.get(), 9);
}

#[test]
fn relative_frame_defaults() {
    let mut g = linear(vec![stop(rgb(0, 0, 0, ONE), 0), stop(rgb(ONE, 0, 0, ONE), ONE)], ColorSpace::Srgb);
    assert_eq!(g.unwrap_relative(true), RelativeTo::Parent);
    assert_eq!(g.unwrap_relative(false), RelativeTo::Itself);
    g.relative = Some(RelativeTo::Parent);
    assert_eq!(g.unwrap_relative(false), RelativeTo::Parent);
    assert_eq!(g.angle(), Some(0));
    assert!(!g.is_transparent());
}
