use raytrace::intersection::Intersection;
use raytrace::sphere::sphere_crossings;

#[test]
fn crossings_negative_discriminant_is_miss() {
    let xs = sphere_crossings((-4.0f32).to_bits(), f32::NAN.to_bits(), f32::NAN.to_bits(), 0);
    assert_eq!(xs.len(), 0);
    let ys = sphere_crossings(f32::NEG_INFINITY.to_bits(), 1.0f32.to_bits(), 2.0f32.to_bits(), 0);
    assert_eq!(ys.len(), 0);
}

#[test]
fn crossings_central_hit() {
    let xs = sphere_crossings(16.0f32.to_bits(), 4.0f32.to_bits(), 6.0f32.to_bits(), 7);
    assert_eq!(
        xs,
        vec![
            Intersection::build(4.0f32.to_bits(), 7),
            Intersection::build(6.0f32.to_bits(), 7)
        ]
    );
}

#[test]
fn crossings_tangent_gives_two_equal() {
    for d in [0.0f32, -0.0f32] {
        let xs = sphere_crossings(d.to_bits(), 5.0f32.to_bits(), 5.0f32.to_bits(), 1);
        assert_eq!(xs.len(), 2);
        assert_eq!(f32::from_bits(xs[0].t()), 5.0);
        assert_eq!(f32::from_bits(xs[1].t()), 5.0);
        assert_eq!(xs[0].obj(), 1);
        assert_eq!(xs[1].obj(), 1);
    }
}

#[test]
fn crossings_nan_discriminant_keeps_roots() {
    let xs = sphere_crossings((-f32::NAN).to_bits(), f32::NAN.to_bits(), f32::NAN.to_bits(), 2);
    assert_eq!(xs.len(), 2);
    assert!(Intersection::hit(&xs).is_none());
}

#[test]
fn crossings_inside_then_hit() {
    let xs = sphere_crossings(4.0f32.to_bits(), (-1.0f32).to_bits(), 1.0f32.to_bits(), 3);
    assert_eq!(Intersection::hit(&xs), Some(Intersection::build(1.0f32.to_bits(), 3)));
}
