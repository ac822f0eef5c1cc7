//! The three scattering laws on concrete hits.

use raytracer::fixed::{fx_div, fx_mul, FX_ONE};
use raytracer::hit::{Collision, Face};
use raytracer::material::{Dielectric, Lambertian, MaterialKind, Metal};
use raytracer::ray::Ray;
use raytracer::vec3::Vec3;

fn hit_with_normal(normal: Vec3, material: MaterialKind) -> Collision {
    Collision {
        face: Face::Front,
        material,
        normal,
        position: Vec3::new(0, 0, -65536),
        t: 65536,
    }
}

#[test]
fn diffuse_scatter_always_returns_a_ray() {
    let albedo = Vec3::new(26214, 13107, 6554);
    let lambertian = Lambertian::new(albedo);
    let material = MaterialKind::Lambertian(lambertian);
    let ray = Ray::new(Vec3::new(0, 0, 0), Vec3::new(0, 0, -65536));
    for _ in 0..50 {
        let collision = hit_with_normal(Vec3::new(0, 65536, 0), material);
        let (attenuation, scattered) =
            lambertian.scatter(&ray, &collision).expect("diffuse never absorbs");
        assert_eq!(attenuation, albedo);
        assert_eq!(scattered.origin(), collision.position);
        assert_ne!(scattered.delta(), Vec3::zero());
    }
}

#[test]
fn metal_scatter_absorbs_exactly_on_grazing_incidence() {
    let metal = Metal::new(Vec3::new(45875, 39322, 32768), 0);
    let material = MaterialKind::Metal(metal);
    let normal = Vec3::new(0, 65536, 0);

    // Grazing: the incoming direction is orthogonal to the normal, so the
    // reflected (and unfuzzed) direction stays orthogonal and the dot
    // product is not positive: absorbed.
    let grazing = Ray::new(Vec3::new(-65536, 0, 0), Vec3::new(65536, 0, 0));
    let collision = hit_with_normal(normal, material);
    assert!(metal.scatter_with(&grazing, &collision, Vec3::zero()).is_none());

    // Head-on: the reflection points back along the normal: scattered.
    let head_on = Ray::new(Vec3::new(0, 65536, 0), Vec3::new(0, -65536, 0));
    let (attenuation, scattered) = metal
        .scatter_with(&head_on, &collision, Vec3::zero())
        .expect("the reflection points away from the surface");
    assert_eq!(attenuation, Vec3::new(45875, 39322, 32768));
    assert_eq!(scattered.origin(), collision.position);
    assert_eq!(scattered.delta(), Vec3::new(0, 65536, 0));
    assert!(scattered.delta().dot(normal) > 0);
}

#[test]
fn metal_scatter_never_returns_a_ray_into_the_surface() {
    let metal = Metal::new(Vec3::new(45875, 39322, 32768), 32768);
    let material = MaterialKind::Metal(metal);
    let ray = Ray::new(Vec3::new(0, 65536, 0), Vec3::new(0, -65536, 0));
    for _ in 0..50 {
        let collision = hit_with_normal(Vec3::new(0, 65536, 0), material);
        if let Some((_, scattered)) = metal.scatter(&ray, &collision) {
            assert!(scattered.delta().dot(collision.normal) > 0);
            assert_eq!(scattered.origin(), collision.position);
        }
    }
}

#[test]
fn reflectance_at_normal_incidence_is_r0_squared_exactly() {
    // With cos_theta = 1 the fifth-power term vanishes and the Schlick
    // formula collapses to ((1 - n) / (1 + n))^2, in this arithmetic too.
    let n: i64 = 98304;
    let r0 = fx_div(FX_ONE - n, FX_ONE + n);
    assert_eq!(Dielectric::reflectance(FX_ONE, n), fx_mul(r0, r0));
    assert_eq!(Dielectric::reflectance(FX_ONE, n), 2621);
}

#[test]
fn dielectric_scatter_always_transmits_fully() {
    let dielectric = Dielectric::new(98304);
    let material = MaterialKind::Dielectric(dielectric);
    let ray = Ray::new(Vec3::new(0, 65536, 0), Vec3::new(0, -65536, 0));
    for _ in 0..50 {
        let collision = hit_with_normal(Vec3::new(0, 65536, 0), material);
        let (attenuation, scattered) =
            dielectric.scatter(&ray, &collision).expect("a dielectric never absorbs");
        assert_eq!(attenuation, Vec3::one());
        assert_eq!(scattered.origin(), collision.position);
    }
}

#[test]
fn constructors_store_their_parameters() {
    let albedo = Vec3::new(26214, 13107, 6554);
    let shared_diffuse = Lambertian::new_arc(albedo);
    assert_eq!(shared_diffuse.albedo, albedo);
    let shared_metal = Metal::new_arc(albedo, 32768);
    assert_eq!(shared_metal.fuzziness, 32768);
    let shared_glass = Dielectric::new_arc(98304);
    assert_eq!(shared_glass.refractive_index, 98304);

    let sphere = raytracer::sphere::Sphere::new_boxed(
        Vec3::new(0, 65536, 0),
        65536,
        MaterialKind::Dielectric(*shared_glass),
    );
    assert_eq!(sphere.radius, 65536);
    assert_eq!(sphere.center, Vec3::new(0, 65536, 0));
}

#[test]
fn material_dispatch_matches_the_variant() {
    let ray = Ray::new(Vec3::new(0, 65536, 0), Vec3::new(0, -65536, 0));
    let diffuse = MaterialKind::Lambertian(Lambertian::new(Vec3::new(32768, 32768, 32768)));
    let collision = hit_with_normal(Vec3::new(0, 65536, 0), diffuse);
    assert!(diffuse.scatter(&ray, &collision).is_some());

    let glass = MaterialKind::Dielectric(Dielectric::new(98304));
    let collision = hit_with_normal(Vec3::new(0, 65536, 0), glass);
    assert!(glass.scatter(&ray, &collision).is_some());
}
