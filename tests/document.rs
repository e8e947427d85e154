use pdf_gradient::cache::{MeshCache, MeshKey};
use pdf_gradient::color::{Color, ColorSpace, ONE};
use pdf_gradient::descriptor::{register_gradient, PageResources, Size, Transform, Transforms, POINT};
use pdf_gradient::gradient::{Gradient, GradientKind, Stop};
use pdf_gradient::names::gradient_name;
use pdf_gradient::registry::Remapper;

fn gradient(alpha: u32, angle: i64) -> Gradient {
    Gradient {
        kind: GradientKind::Linear { angle },
        stops: vec![
            Stop { color: Color { c0: 0, c1: 0, c2: 0, c3: 0, alpha: ONE }, offset: 0 },
            Stop { color: Color { c0: ONE, c1: ONE, c2: 0, c3: 0, alpha }, offset: ONE },
        ],
        space: ColorSpace::Srgb,
        relative: None,
        anti_alias: true,
    }
}

fn unit() -> Transforms {
    let id = Transform { sx: ONE as i64, ky: 0, kx: 0, sy: ONE as i64, tx: 0, ty: 0 };
    Transforms {
        transform: id,
        container_transform: id,
        size: Size { w: POINT, h: POINT },
        container_size: Size { w: POINT, h: POINT },
    }
}

#[test]
fn pages_merge_into_one_registry() {
    let page = Size { w: 10 * POINT, h: 10 * POINT };
    let mut first = PageResources::new(page);
    let mut second = PageResources::new(page);
    register_gradient(&mut first, &gradient(ONE, 0), false, unit(), 0);
    register_gradient(&mut first, &gradient(ONE, 1), false, unit(), 0);
    register_gradient(&mut second, &gradient(ONE, 1), false, unit(), 0);
    register_gradient(&mut second, &gradient(ONE, 2), false, unit(), 0);
    let mut all = Remapper::new();
    all.merge(&first.gradients);
    all.merge(&second.gradients);
    assert_eq!(all.len(), 3);
    let angles: Vec<_> = (0..3).map(|i| all.get(i).gradient.angle()).collect();
    assert_eq!(angles, vec![Some(0), Some(1), Some(2)]);
}

#[test]
fn alpha_descriptor_keeps_geometry() {
    let mut res = PageResources::new(Size { w: 10 * POINT, h: 10 * POINT });
    register_gradient(&mut res, &gradient(250_000, 0), false, unit(), 0);
    assert!(res.colors.contains(ColorSpace::D65Gray));
    assert!(res.colors.contains(ColorSpace::Srgb));
    let d = res.gradients.get(0);
    let a = d.alpha_descriptor();
    assert_eq!(a.transform, d.transform);
    assert_eq!(a.page_size, d.page_size);
    assert_eq!(a.gradient.space, ColorSpace::D65Gray);
    assert_eq!(a.gradient.stops[1].color.c0, 250_000);
    assert_eq!(a.gradient.stops[0].color.c0, ONE);
}

#[test]
fn cache_returns_the_first_stream() {
    let mut cache = MeshCache::new();
    let key = |ar: i64| MeshKey { gradient: gradient(ONE, 0), aspect_ratio: ar };
    assert!(cache.get(&key(ONE as i64)).is_none());
    cache.store(key(ONE as i64), vec![1, 2, 3]);
    cache.store(key(ONE as i64), vec![9]);
    cache.store(key(2 * ONE as i64), vec![4]);
    assert_eq!(cache.get(&key(ONE as i64)), Some(&vec![1, 2, 3]));
    assert_eq!(cache.get(&key(2 * ONE as i64)), Some(&vec![4]));
    assert!(cache.get(&key(3 * ONE as i64)).is_none());
}

#[test]
fn gradient_names_are_decimal() {
    assert_eq!(gradient_name(0), b"Gr0".to_vec());
    assert_eq!(gradient_name(7), b"Gr7".to_vec());
    assert_eq!(gradient_name(10), b"Gr10".to_vec());
    assert_eq!(gradient_name(1234), b"Gr1234".to_vec());
}
