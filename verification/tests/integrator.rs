//! The colour integrator, the camera, the sampling utilities and the
//! output formatting.

use raytracer::camera::{Camera, ASPECT_RATIO, DEFAULT_TAN_HALF_FOV};
use raytracer::color_formatter::ColorFormatter;
use raytracer::dvec_extensions::{ColorFormat, RandomDVec3};
use raytracer::fixed::{fx_add, fx_mul, fx_sub, FX_HALF, FX_ONE};
use raytracer::hit::Hittable;
use raytracer::material::{Lambertian, MaterialKind};
use raytracer::output::{render, write_ppm_headers};
use raytracer::random::{random_scalar, RandomInUnitSphere};
use raytracer::ray::Ray;
use raytracer::sphere::Sphere;
use raytracer::vec3::Vec3;
use raytracer::world::{sky_blue, World};

fn gray() -> MaterialKind {
    MaterialKind::Lambertian(Lambertian::new(Vec3::new(32768, 32768, 32768)))
}

/// The scene of the end-to-end check: two diffuse spheres, one small one
/// straight ahead and one huge one below acting as the ground.
fn two_sphere_scene() -> World {
    World(vec![
        Sphere {
            center: Vec3::new(0, 0, -65536),
            material: gray(),
            radius: 32768,
        },
        Sphere {
            center: Vec3::new(0, -6586368, -65536),
            material: gray(),
            radius: 6553600,
        },
    ])
}

#[test]
fn exhausted_depth_is_black() {
    let world = two_sphere_scene();
    let rays = [
        Ray::new(Vec3::new(0, 0, 0), Vec3::new(0, 0, -65536)),
        Ray::new(Vec3::new(65536, 131072, 196608), Vec3::new(123, 456, 789)),
    ];
    for ray in rays {
        assert_eq!(world.ray_color(&ray, 0), Vec3::zero());
    }
    let empty = World(vec![]);
    assert_eq!(empty.ray_color(&rays[0], 0), Vec3::zero());
}

#[test]
fn center_ray_hits_the_near_sphere() {
    let world = two_sphere_scene();
    let ray = Ray::new(Vec3::new(0, 0, 0), Vec3::new(0, 0, -65536));
    let collision = world.hit(&ray, (64, i64::MAX)).expect("the centre ray hits");
    // Geometry sanity: the hit is on the near sphere, between 0.5 and 1.5.
    assert!(32768 <= collision.t && collision.t <= 98304);
    assert_eq!(collision.t, 32768);
}

#[test]
fn background_ray_reproduces_the_gradient() {
    let world = two_sphere_scene();
    // Straight up: the unit direction has y exactly one, so the gradient
    // lands exactly on sky blue.
    let up = Ray::new(Vec3::new(0, 0, 0), Vec3::new(0, 65536, 0));
    assert_eq!(world.ray_color(&up, 5), sky_blue());

    // A slanted miss must match the lerp formula within tolerance of the
    // floating-point reference computation.
    let slanted = Ray::new(Vec3::new(0, 0, 0), Vec3::new(65536, 65536, 0));
    let color = world.ray_color(&slanted, 5);
    let y = 1.0f64 / 2.0f64.sqrt();
    let t = 0.5 * (y + 1.0);
    let expected = [
        (1.0 - t) + t * 0.5,
        (1.0 - t) + t * 0.7,
        (1.0 - t) + t * 1.0,
    ];
    let got = [color.x, color.y, color.z];
    for (channel, reference) in got.iter().zip(expected.iter()) {
        let reference_fx = (reference * 65536.0).round() as i64;
        assert!(
            (channel - reference_fx).abs() <= 16,
            "channel {channel} too far from {reference_fx}"
        );
    }

    // The same formula, written with the library's own arithmetic.
    let unit = slanted.delta().normalize();
    let t_fx = fx_mul(FX_HALF, fx_add(unit.y, FX_ONE));
    let by_formula = Vec3::one()
        .scale(fx_sub(FX_ONE, t_fx))
        .add(sky_blue().scale(t_fx));
    assert_eq!(color, by_formula);
}

#[test]
fn pinhole_camera_rays_share_the_camera_position() {
    let position = Vec3::new(851968, 131072, 196608);
    let camera = Camera::new(
        position,
        Vec3::zero(),
        Vec3::new(0, 65536, 0),
        DEFAULT_TAN_HALF_FOV,
        ASPECT_RATIO,
        0,
        655360,
    );
    for (s, t) in [(0i64, 0i64), (32768, 32768), (65536, 65536), (123, 64000)] {
        let ray = camera.get_ray(s, t);
        assert_eq!(ray.origin(), position);
    }
}

#[test]
fn default_camera_has_a_narrow_aperture() {
    let camera = Camera::default();
    // Half of the 0.1 aperture.
    assert_eq!(camera.lens_radius, 3277);
    assert_eq!(camera.position, Vec3::new(851968, 131072, 196608));
}

#[test]
fn format_color_averages_tone_maps_and_clamps() {
    // 100 samples of 0.25 average to 0.25; the tone curve takes it to
    // 0.5, which scales to 128.
    let pixel = Vec3::new(1638400, 1638400, 1638400);
    assert_eq!(pixel.format_color(100), "128 128 128");

    // An over-bright pixel clamps to 255, a black one stays 0.
    let bright = Vec3::new(13107200, 13107200, 13107200);
    assert_eq!(bright.format_color(100), "255 255 255");
    let black = Vec3::zero();
    assert_eq!(black.format_color(100), "0 0 0");

    // A negative accumulated channel darkens to zero instead of failing.
    let negative = Vec3::new(-655360, 0, 0);
    assert_eq!(negative.format_color(100), "0 0 0");

    // The trait spellings reach the same formatting.
    let through_formatter = ColorFormatter::format_color(pixel, 100);
    assert_eq!(through_formatter, "128 128 128");
    let through_format = ColorFormat::format_color(pixel, 100);
    assert_eq!(through_format, "128 128 128");
}

#[test]
fn ppm_headers_name_the_image_dimensions() {
    let mut output = String::new();
    write_ppm_headers(&mut output);
    assert_eq!(output, "P3\n1024 576\n255\n");
}

#[test]
fn render_produces_one_color_per_pixel() {
    let world = two_sphere_scene();
    let camera = Camera::default();
    let pixels = render(&camera, &world, 4, 3, 2, 3);
    assert_eq!(pixels.len(), 12);
}

#[test]
fn sample_pixel_accumulates_from_zero() {
    let world = two_sphere_scene();
    let camera = Camera::default();
    // No samples accumulate to exactly the zero colour.
    let none = world.sample_pixel(&camera, 0, 0, 67043328, 37683200, 0, 5);
    assert_eq!(none, Vec3::zero());
    // One sample of a depth-zero integration is exactly black too.
    let black = world.sample_pixel(&camera, 0, 0, 67043328, 37683200, 3, 0);
    assert_eq!(black, Vec3::zero());
}

#[test]
fn scanline_covers_the_image_width() {
    let empty = World(vec![]);
    let camera = Camera::default();
    let scanline = empty.get_scanline(&camera, 0);
    assert_eq!(scanline.len(), 1024);
    for entry in scanline.iter().take(4) {
        assert_eq!(entry.split(' ').count(), 3);
    }
}

#[test]
fn random_scene_is_well_formed() {
    let world = World::new_random();
    assert!(world.is_wf());
    // The ground, the 23-by-23 grid, and the three fixed spheres.
    assert_eq!(world.0.len(), 533);
}

#[test]
fn sampled_points_stay_inside_their_regions() {
    for _ in 0..200 {
        let scalar = random_scalar();
        assert!(0 <= scalar && scalar < FX_ONE);

        let in_ball = Vec3::random_in_unit_sphere();
        assert!(in_ball.dot(in_ball) < FX_ONE);

        let in_disk = Vec3::random_in_unit_circle();
        assert!(in_disk.dot(in_disk) < FX_ONE);
        assert_eq!(in_disk.z, 0);

        let color = Vec3::random();
        assert!(0 <= color.x && color.x < FX_ONE);
        assert!(0 <= color.y && color.y < FX_ONE);
        assert!(0 <= color.z && color.z < FX_ONE);

        // The trait spelling draws from the same regions.
        let via_trait = <Vec3 as RandomInUnitSphere>::random_in_unit_sphere();
        assert!(via_trait.dot(via_trait) < FX_ONE);
        let via_ext = <Vec3 as RandomDVec3>::random_in_unit_circle();
        assert!(via_ext.dot(via_ext) < FX_ONE);
    }
}
