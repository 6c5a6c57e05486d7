use raytracer::double::Double;
use raytracer::sphere::{face_normal, has_real_roots, nearest_root, Facing, Roots};
use raytracer::vec3::Vec3;

fn d(x: f64) -> Double {
    Double::from_bits(x.to_bits())
}

fn f(x: Double) -> f64 {
    f64::from_bits(x.to_bits())
}

type V = [f64; 3];

fn sub(a: V, b: V) -> V {
    [a[0] - b[0], a[1] - b[1], a[2] - b[2]]
}

fn scale(a: V, t: f64) -> V {
    [a[0] * t, a[1] * t, a[2] * t]
}

fn add(a: V, b: V) -> V {
    [a[0] + b[0], a[1] + b[1], a[2] + b[2]]
}

fn dot(a: V, b: V) -> f64 {
    (a[0] * b[0]) + (a[1] * b[1]) + (a[2] * b[2])
}

fn length(a: V) -> f64 {
    dot(a, a).sqrt()
}

fn bits3(a: V) -> Vec3 {
    Vec3::of(d(a[0]), d(a[1]), d(a[2]))
}

fn floats3(a: Vec3) -> V {
    [f(a.x()), f(a.y()), f(a.z())]
}

struct Hit {
    t: f64,
    p: V,
    normal: V,
    front_face: bool,
}

fn hit(center: V, radius: f64, origin: V, direction: V, t_min: f64, t_max: f64) -> Option<Hit> {
    let oc = sub(origin, center);
    let a = dot(direction, direction);
    let half_b = dot(oc, direction);
    let c = dot(oc, oc) - radius * radius;
    let discriminant = half_b * half_b - a * c;
    if !has_real_roots(d(discriminant)) {
        return None;
    }
    let sqrtd = discriminant.sqrt();
    let roots = Roots { near: d((-half_b - sqrtd) / a), far: d((-half_b + sqrtd) / a) };
    let t = f(nearest_root(roots, d(t_min), d(t_max))?);
    let p = add(origin, scale(direction, t));
    let outward = scale(sub(p, center), 1.0 / radius);
    let facing = face_normal(d(dot(direction, outward)), bits3(outward));
    Some(Hit { t, p, normal: floats3(facing.normal), front_face: facing.front_face })
}

#[test]
fn discriminant_below_zero_has_no_real_roots() {
    assert!(!has_real_roots(d(-0.25)));
    assert!(!has_real_roots(d(-5e-324)));
    assert!(!has_real_roots(d(f64::NEG_INFINITY)));
}

#[test]
fn discriminant_of_zero_or_more_has_real_roots() {
    assert!(has_real_roots(d(0.0)));
    assert!(has_real_roots(d(-0.0)));
    assert!(has_real_roots(d(0.25)));
    assert!(has_real_roots(d(f64::INFINITY)));
}

#[test]
fn near_root_is_preferred() {
    let roots = Roots { near: d(0.5), far: d(1.5) };
    assert_eq!(nearest_root(roots, d(0.001), d(f64::INFINITY)), Some(d(0.5)));
}

#[test]
fn far_root_is_the_fallback() {
    let roots = Roots { near: d(-0.5), far: d(1.5) };
    assert_eq!(nearest_root(roots, d(0.001), d(f64::INFINITY)), Some(d(1.5)));
    let roots = Roots { near: d(0.5), far: d(1.5) };
    assert_eq!(nearest_root(roots, d(0.6), d(2.0)), Some(d(1.5)));
}

#[test]
fn no_hit_when_both_roots_are_outside_the_window() {
    let roots = Roots { near: d(0.5), far: d(1.5) };
    assert_eq!(nearest_root(roots, d(0.001), d(0.4)), None);
    assert_eq!(nearest_root(roots, d(2.0), d(3.0)), None);
    assert_eq!(nearest_root(roots, d(0.6), d(1.4)), None);
    let behind = Roots { near: d(-1.5), far: d(-0.5) };
    assert_eq!(nearest_root(behind, d(0.001), d(f64::INFINITY)), None);
}

#[test]
fn window_ends_are_inside_the_window() {
    let roots = Roots { near: d(0.5), far: d(1.5) };
    assert_eq!(nearest_root(roots, d(0.5), d(1.0)), Some(d(0.5)));
    assert_eq!(nearest_root(roots, d(1.0), d(1.5)), Some(d(1.5)));
}

#[test]
fn self_intersection_below_the_guard_is_skipped() {
    let roots = Roots { near: d(1.0e-12), far: d(0.8) };
    assert_eq!(nearest_root(roots, d(0.001), d(f64::INFINITY)), Some(d(0.8)));
}

#[test]
fn front_face_when_the_ray_opposes_the_outward_normal() {
    let outward = bits3([0.0, 0.0, 1.0]);
    let facing = face_normal(d(-1.0), outward);
    assert_eq!(facing, Facing { front_face: true, normal: outward });
}

#[test]
fn back_face_stores_the_negated_normal() {
    let outward = bits3([0.0, 0.0, 1.0]);
    let facing = face_normal(d(1.0), outward);
    assert!(!facing.front_face);
    assert_eq!(facing.normal, bits3([-0.0, -0.0, -1.0]));
}

#[test]
fn grazing_ray_is_a_back_face() {
    let outward = bits3([0.0, 1.0, 0.0]);
    let facing = face_normal(d(0.0), outward);
    assert!(!facing.front_face);
    assert_eq!(facing.normal, outward.neg());
}

#[test]
fn stored_normal_opposes_the_ray() {
    let direction = [0.3, -0.4, -1.0];
    for outward in [[0.0, 0.0, 1.0], [0.0, 0.0, -1.0], [0.6, 0.8, 0.0], [-0.6, 0.0, 0.8]] {
        let facing = face_normal(d(dot(direction, outward)), bits3(outward));
        assert!(dot(direction, floats3(facing.normal)) <= 0.0);
    }
}

#[test]
fn sphere_hit_from_outside_lands_on_the_surface() {
    let center = [0.0, 0.0, -1.0];
    let found = hit(center, 0.5, [0.0, 0.0, 0.0], [0.0, 0.0, -1.0], 0.001, f64::INFINITY);
    let found = match found {
        Some(found) => found,
        None => panic!("the ray is aimed at the centre"),
    };
    assert_eq!(found.t, 0.5);
    assert_eq!(found.p, [0.0, 0.0, -0.5]);
    assert!((length(sub(found.p, center)) - 0.5).abs() < 1e-9);
    assert!(found.front_face);
    assert_eq!(found.normal, [0.0, 0.0, 1.0]);
}

#[test]
fn sphere_hit_round_trip_for_several_rays() {
    let cases = [
        ([1.0, 2.0, 3.0], 2.0, [10.0, -4.0, 7.0]),
        ([0.0, -100.5, -1.0], 100.0, [0.0, 0.0, 0.0]),
        ([-1.0, 0.0, -1.0], 0.5, [3.0, 3.0, 2.0]),
        ([0.25, 0.5, -8.0], 1.25, [0.0, 0.0, 0.0]),
    ];
    for (center, radius, origin) in cases {
        let direction = sub(center, origin);
        let found = match hit(center, radius, origin, direction, 0.001, f64::INFINITY) {
            Some(found) => found,
            None => panic!("the ray is aimed at the centre"),
        };
        assert!((length(sub(found.p, center)) - radius).abs() < 1e-9 * radius.max(1.0));
        assert!(found.front_face);
        assert!(found.t > 0.0 && found.t < 1.0);
    }
}

#[test]
fn negated_radius_turns_the_surface_inside_out() {
    let center = [0.0, 0.0, -1.0];
    let origin = [0.0, 0.0, 0.0];
    let direction = [0.0, 0.0, -1.0];
    let solid = match hit(center, 0.5, origin, direction, 0.001, f64::INFINITY) {
        Some(found) => found,
        None => panic!("the ray is aimed at the centre"),
    };
    let hollow = match hit(center, -0.5, origin, direction, 0.001, f64::INFINITY) {
        Some(found) => found,
        None => panic!("the ray is aimed at the centre"),
    };
    assert_eq!(hollow.t, solid.t);
    assert_eq!(hollow.p, solid.p);
    assert!(solid.front_face);
    assert!(!hollow.front_face);
    let outward_solid = scale(sub(solid.p, center), 1.0 / 0.5);
    let outward_hollow = scale(sub(hollow.p, center), 1.0 / -0.5);
    assert_eq!(outward_hollow, scale(outward_solid, -1.0));
    assert_eq!(hollow.normal, solid.normal);
}

#[test]
fn inverted_surface_flips_the_face_and_keeps_the_normal() {
    let outward = bits3([0.6, -0.8, 0.0]);
    for dot_product in [-1.0, -1.0e-300, 0.25, 7.0] {
        let plain = face_normal(d(dot_product), outward);
        let inverted = face_normal(d(dot_product).neg(), outward.neg());
        assert_eq!(inverted.front_face, !plain.front_face);
        assert_eq!(inverted.normal, plain.normal);
    }
}

#[test]
fn ray_that_misses_the_sphere_has_no_hit() {
    let found = hit([0.0, 0.0, -1.0], 0.5, [0.0, 0.0, 0.0], [0.0, 1.0, 0.0], 0.001, f64::INFINITY);
    assert!(found.is_none());
}

#[test]
fn hit_beyond_the_window_is_not_reported() {
    let center = [0.0, 0.0, -1.0];
    let origin = [0.0, 0.0, 0.0];
    let direction = [0.0, 0.0, -1.0];
    assert!(hit(center, 0.5, origin, direction, 0.001, 0.25).is_none());
    assert!(hit(center, 0.5, origin, direction, 1.75, 100.0).is_none());
    let inside = hit(center, 0.5, origin, direction, 1.0, 100.0);
    match inside {
        Some(found) => {
            assert_eq!(found.t, 1.5);
            assert!(!found.front_face);
        },
        None => panic!("the far root lies in the window"),
    }
}

#[test]
fn nan_root_passes_every_window() {
    let roots = Roots { near: d(f64::NAN), far: d(1.5) };
    let found = nearest_root(roots, d(2.0), d(3.0));
    assert_eq!(found, Some(d(f64::NAN)));
}
