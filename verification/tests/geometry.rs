//! Rays, sphere intersection and the world's nearest-hit query, on
//! concrete values.

use raytracer::fixed::{fx_mul, FX_ONE};
use raytracer::hit::{Face, Hittable};
use raytracer::material::{Lambertian, MaterialKind};
use raytracer::ray::Ray;
use raytracer::sphere::Sphere;
use raytracer::vec3::Vec3;
use raytracer::world::World;

fn gray() -> MaterialKind {
    MaterialKind::Lambertian(Lambertian::new(Vec3::new(32768, 32768, 32768)))
}

#[test]
fn position_at_zero_is_origin() {
    let ray = Ray::new(Vec3::new(65536, 131072, -196608), Vec3::new(123, -456, 789));
    assert_eq!(ray.position_at(0), ray.origin());
}

#[test]
fn position_at_is_affine() {
    // The point at t is always the origin translated by t-scaled delta...
    let ray = Ray::new(Vec3::new(65536, 131072, 196608), Vec3::new(-65536, 32768, 1234));
    for t in [0i64, 65536, -65536, 98304, 7] {
        assert_eq!(ray.position_at(t), ray.origin().add(ray.delta().scale(t)));
    }
    // ...and for whole-number parameters the step is exactly linear.
    let t1: i64 = 2 * 65536;
    let t2: i64 = 3 * 65536;
    assert_eq!(
        ray.position_at(t1 + t2),
        ray.position_at(t1).add(ray.delta().scale(t2))
    );
}

#[test]
fn sphere_hit_reports_front_face_and_unit_normal() {
    let sphere = Sphere {
        center: Vec3::new(0, 0, -65536),
        material: gray(),
        radius: 32768,
    };
    let ray = Ray::new(Vec3::new(0, 0, 0), Vec3::new(0, 0, -65536));
    let collision = sphere.hit(&ray, (64, i64::MAX)).expect("the ray points at the sphere");
    // The near intersection is at exactly t = 0.5.
    assert_eq!(collision.t, 32768);
    // The ray approaches from outside, against the outward normal.
    assert_eq!(collision.face, Face::Front);
    assert_eq!(collision.normal, Vec3::new(0, 0, 65536));
    // The normal has unit length, within the arithmetic's tolerance.
    let normal_length_squared = collision.normal.dot(collision.normal);
    assert!((normal_length_squared - FX_ONE).abs() <= 8);
    assert_eq!(collision.position, ray.position_at(collision.t));
}

#[test]
fn sphere_hit_from_inside_reports_back_face() {
    let sphere = Sphere {
        center: Vec3::new(0, 0, 0),
        material: gray(),
        radius: 65536,
    };
    // From the centre, every direction leaves through the back face.
    let ray = Ray::new(Vec3::new(0, 0, 0), Vec3::new(0, 65536, 0));
    let collision = sphere.hit(&ray, (64, i64::MAX)).expect("the ray leaves the sphere");
    assert_eq!(collision.face, Face::Back);
    // The normal is oriented against the ray.
    assert!(collision.normal.dot(ray.delta()) < 0);
}

#[test]
fn sphere_miss_and_degenerate_direction_are_no_hit() {
    let sphere = Sphere {
        center: Vec3::new(0, 0, -655360),
        material: gray(),
        radius: 65536,
    };
    // A ray pointing the other way misses.
    let away = Ray::new(Vec3::new(0, 0, 0), Vec3::new(0, 0, 65536));
    assert!(sphere.hit(&away, (64, i64::MAX)).is_none());
    // A zero direction is treated as a miss, not an error.
    let degenerate = Ray::new(Vec3::new(0, 0, 0), Vec3::new(0, 0, 0));
    assert!(sphere.hit(&degenerate, (64, i64::MAX)).is_none());
    // An intersection outside the t range is a miss.
    let toward = Ray::new(Vec3::new(0, 0, 0), Vec3::new(0, 0, -65536));
    assert!(sphere.hit(&toward, (64, 65536)).is_none());
}

#[test]
fn world_returns_nearest_of_two_spheres() {
    let near = Sphere {
        center: Vec3::new(0, 0, -65536),
        material: gray(),
        radius: 32768,
    };
    let far = Sphere {
        center: Vec3::new(0, 0, -196608),
        material: gray(),
        radius: 32768,
    };
    let ray = Ray::new(Vec3::new(0, 0, 0), Vec3::new(0, 0, -65536));

    let world = World(vec![near, far]);
    let collision = world.hit(&ray, (64, i64::MAX)).expect("both spheres lie on the ray");
    assert_eq!(collision.t, 32768);

    // Insertion order does not matter.
    let reversed = World(vec![far, near]);
    let collision2 = reversed.hit(&ray, (64, i64::MAX)).expect("both spheres lie on the ray");
    assert_eq!(collision2.t, 32768);
}

#[test]
fn world_with_no_intersecting_sphere_returns_none() {
    let ray = Ray::new(Vec3::new(0, 0, 0), Vec3::new(0, 0, -65536));
    let empty = World(vec![]);
    assert!(empty.hit(&ray, (64, i64::MAX)).is_none());

    let aside = Sphere {
        center: Vec3::new(655360, 0, 0),
        material: gray(),
        radius: 65536,
    };
    let world = World(vec![aside]);
    assert!(world.hit(&ray, (64, i64::MAX)).is_none());
}

#[test]
fn scaling_by_unit_factor_stays_bounded() {
    // A factor below one never grows a nonnegative scalar.
    for r in [0i64, 1, 32768, 65535] {
        let scaled = fx_mul(r, 58982);
        assert!(0 <= scaled && scaled <= 58982);
    }
}
