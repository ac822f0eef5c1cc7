//! The camera model: an orthonormal basis built from eye, target and up,
//! a viewport sized by field of view and aspect ratio, and an optional
//! lens radius for depth of field.

use crate::fixed::{fx_div, fx_mul, spec_fx_div, spec_fx_mul, FX_TWO};
use crate::ray::Ray;
use crate::vec3::Vec3;
use vstd::prelude::*;

verus! {

/// The tangent of half the default vertical field of view of 45 degrees,
/// in the scalar's resolution.
pub const DEFAULT_TAN_HALF_FOV: i64 = 27146;

/// The default 16:9 aspect ratio as a scalar.
pub const ASPECT_RATIO: i64 = 116508;

/// A camera, fully determined at construction.
pub struct Camera {
    pub camera_x: Vec3,
    pub camera_y: Vec3,
    pub horizontal: Vec3,
    pub lens_radius: i64,
    pub lower_left_corner: Vec3,
    pub position: Vec3,
    pub vertical: Vec3,
}

impl Camera {
    /// What construction computes.  The viewport is `2 * tan(fov / 2)`
    /// high and `aspect_ratio` times as wide; the basis comes from the
    /// view axis `position - target` and the up vector; the viewport
    /// vectors are scaled by the focus distance; the lens radius is half
    /// the aperture.
    pub open spec fn spec_new(
        position: Vec3,
        target: Vec3,
        up_vector: Vec3,
        tan_half_vertical_fov: i64,
        aspect_ratio: i64,
        aperture: i64,
        focus_distance: i64,
    ) -> Camera {
        let viewport_height = spec_fx_mul(FX_TWO, tan_half_vertical_fov);
        let viewport_width = spec_fx_mul(aspect_ratio, viewport_height);
        let camera_z = position.spec_sub(target).spec_normalize();
        let camera_x = up_vector.spec_cross(camera_z).spec_normalize();
        let camera_y = camera_z.spec_cross(camera_x);
        let horizontal = camera_x.spec_scale(viewport_width).spec_scale(focus_distance);
        let vertical = camera_y.spec_scale(viewport_height).spec_scale(focus_distance);
        let lower_left_corner = position.spec_sub(horizontal.spec_div_scalar(FX_TWO)).spec_sub(
            vertical.spec_div_scalar(FX_TWO),
        ).spec_sub(camera_z.spec_scale(focus_distance));
        Camera {
            camera_x,
            camera_y,
            horizontal,
            lens_radius: spec_fx_div(aperture, FX_TWO),
            lower_left_corner,
            position,
            vertical,
        }
    }

    /// Build a camera.  The tangent of half the vertical field of view is
    /// taken precomputed, trigonometry being outside this crate's
    /// arithmetic; an aperture of zero gives a pinhole camera.
    pub fn new(
        position: Vec3,
        target: Vec3,
        up_vector: Vec3,
        tan_half_vertical_fov: i64,
        aspect_ratio: i64,
        aperture: i64,
        focus_distance: i64,
    ) -> (r: Camera)
        ensures
            r == Camera::spec_new(
                position,
                target,
                up_vector,
                tan_half_vertical_fov,
                aspect_ratio,
                aperture,
                focus_distance,
            ),
            aperture == 0 ==> r.lens_radius == 0,
    {
        let viewport_height = fx_mul(FX_TWO, tan_half_vertical_fov);
        let viewport_width = fx_mul(aspect_ratio, viewport_height);

        let camera_z = position.sub(target).normalize();
        let camera_x = up_vector.cross(camera_z).normalize();
        let camera_y = camera_z.cross(camera_x);

        let horizontal = camera_x.scale(viewport_width).scale(focus_distance);
        let vertical = camera_y.scale(viewport_height).scale(focus_distance);

        let lower_left_corner = position.sub(horizontal.div_scalar(FX_TWO)).sub(
            vertical.div_scalar(FX_TWO),
        ).sub(camera_z.scale(focus_distance));

        Camera {
            camera_x,
            camera_y,
            horizontal,
            lens_radius: fx_div(aperture, FX_TWO),
            lower_left_corner,
            position,
            vertical,
        }
    }

    /// What ray generation computes once the lens sample is fixed: the
    /// origin is the position offset over the lens disk, and the
    /// direction aims at the viewport point for `(x, y)`, corrected by
    /// the same offset.
    pub open spec fn spec_get_ray(self, disk_sample: Vec3, x: i64, y: i64) -> Ray {
        let radius = disk_sample.spec_scale(self.lens_radius);
        let offset = self.camera_x.spec_scale(radius.x).spec_add(
            self.camera_y.spec_scale(radius.y),
        );
        Ray {
            origin: self.position.spec_add(offset),
            delta: self.lower_left_corner.spec_add(self.horizontal.spec_scale(x)).spec_add(
                self.vertical.spec_scale(y),
            ).spec_sub(self.position).spec_sub(offset),
        }
    }

    /// Ray generation with the lens sample handed in.
    pub fn get_ray_with(&self, disk_sample: Vec3, x: i64, y: i64) -> (r: Ray)
        ensures
            r == self.spec_get_ray(disk_sample, x, y),
            self.lens_radius == 0 ==> r.origin == self.position,
    {
        proof {
            if self.lens_radius == 0 {
                lemma_pinhole_shares_origin(*self, disk_sample, x, y);
            }
        }
        let radius = disk_sample.scale(self.lens_radius);
        let offset = self.camera_x.scale(radius.x).add(self.camera_y.scale(radius.y));
        Ray::new(
            self.position.add(offset),
            self.lower_left_corner.add(self.horizontal.scale(x)).add(self.vertical.scale(y)).sub(
                self.position,
            ).sub(offset),
        )
    }

    /// Generate the ray through the normalised viewport coordinates
    /// `(x, y)`, sampling the lens disk for depth of field.  With a zero
    /// lens radius every generated ray starts exactly at the camera
    /// position, whatever was sampled; and the result is that of
    /// `spec_get_ray` on some sample from the unit disk.
    pub fn get_ray(&self, x: i64, y: i64) -> (r: Ray)
        ensures
            self.lens_radius == 0 ==> r.origin == self.position,
            exists|d: Vec3|
                d.spec_length_squared() < crate::fixed::FX_ONE && d.z == 0 && r
                    == #[trigger] self.spec_get_ray(d, x, y),
    {
        let sample = Vec3::random_in_unit_circle();
        let r = self.get_ray_with(sample, x, y);
        proof {
            assert(sample.spec_length_squared() < crate::fixed::FX_ONE && sample.z == 0 && r
                == self.spec_get_ray(sample, x, y));
        }
        r
    }
}

/// With a zero lens radius, rays for every viewport coordinate and every
/// lens sample share the camera position as their exact origin.
pub proof fn lemma_pinhole_shares_origin(camera: Camera, disk_sample: Vec3, x: i64, y: i64)
    requires
        camera.lens_radius == 0,
    ensures
        camera.spec_get_ray(disk_sample, x, y).origin == camera.position,
{
    let radius = disk_sample.spec_scale(camera.lens_radius);
    crate::fixed::lemma_fx_mul_zero(disk_sample.x);
    crate::fixed::lemma_fx_mul_zero(disk_sample.y);
    crate::fixed::lemma_fx_mul_zero(disk_sample.z);
    assert(radius.x == 0 && radius.y == 0 && radius.z == 0);
    crate::fixed::lemma_fx_mul_zero(camera.camera_x.x);
    crate::fixed::lemma_fx_mul_zero(camera.camera_x.y);
    crate::fixed::lemma_fx_mul_zero(camera.camera_x.z);
    crate::fixed::lemma_fx_mul_zero(camera.camera_y.x);
    crate::fixed::lemma_fx_mul_zero(camera.camera_y.y);
    crate::fixed::lemma_fx_mul_zero(camera.camera_y.z);
    let offset = camera.camera_x.spec_scale(radius.x).spec_add(
        camera.camera_y.spec_scale(radius.y),
    );
    assert(offset.x == 0 && offset.y == 0 && offset.z == 0);
}

impl Default for Camera {
    /// The reference scene's camera: eye at `(13, 2, 3)` looking at the
    /// origin, a 45 degree vertical field of view, a 16:9 viewport, an
    /// aperture of one tenth and a focus distance of ten.
    fn default() -> (r: Camera)
        ensures
            r == Camera::spec_new(
                (Vec3 { x: 851968, y: 131072, z: 196608 }),
                Vec3::spec_zero(),
                (Vec3 { x: 0, y: 65536, z: 0 }),
                DEFAULT_TAN_HALF_FOV,
                ASPECT_RATIO,
                6554,
                655360,
            ),
    {
        let position = Vec3::new(851968, 131072, 196608);
        let target = Vec3::zero();
        let focus_distance: i64 = 655360;
        let aperture: i64 = 6554;

        Camera::new(
            position,
            target,
            Vec3::new(0, 65536, 0),
            DEFAULT_TAN_HALF_FOV,
            ASPECT_RATIO,
            aperture,
            focus_distance,
        )
    }
}

} // verus!
