//! The scene: an ordered collection of spheres, its nearest-hit query,
//! and the recursive colour integrator.

use crate::camera::Camera;
use crate::color_formatter::spec_format_color;
use crate::fixed::{fx_add, fx_div, fx_mul, fx_sub, spec_fx_add, spec_fx_div, spec_fx_mul,
    spec_fx_sub, FX_HALF, FX_ONE};
use crate::hit::{Collision, Hittable};
use crate::material::{spec_scatter_possible, Dielectric, Lambertian, MaterialKind, Metal};
use crate::random::random_scalar;
use crate::ray::Ray;
use crate::sphere::Sphere;
use crate::vec3::Vec3;
use crate::{IMAGE_HEIGHT, IMAGE_WIDTH, MAX_DEPTH, SAMPLES_PER_PIXEL};
use vstd::prelude::*;

verus! {

/// The ray parameter below which a collision is ignored, so that a
/// scattered ray does not re-intersect the surface it starts on.
pub const COLLISION_EPSILON: i64 = 64;

/// The scalar denominator normalising a pixel column: `IMAGE_WIDTH - 1`.
pub const WIDTH_DENOMINATOR: i64 = 1023 * 65536;

/// The scalar denominator normalising a pixel row: `IMAGE_HEIGHT - 1`.
pub const HEIGHT_DENOMINATOR: i64 = 575 * 65536;

/// The sky colour at the top of the background gradient.
pub open spec fn spec_sky_blue() -> Vec3 {
    Vec3 { x: 32768, y: 45875, z: 65536 }
}

/// The background colour of a ray that escapes the scene: white blended
/// toward sky blue by `t = 0.5 * (unit_direction.y + 1)`.
pub open spec fn spec_background(ray: Ray) -> Vec3 {
    let unit_delta = ray.delta.spec_normalize();
    let t = spec_fx_mul(FX_HALF, spec_fx_add(unit_delta.y, FX_ONE));
    Vec3::spec_one().spec_scale(spec_fx_sub(FX_ONE, t)).spec_add(spec_sky_blue().spec_scale(t))
}

/// Of an already-found nearest collision and a candidate, the one with
/// the smaller parameter; an earlier find wins ties.
pub open spec fn spec_nearer(best: Option<Collision>, candidate: Option<Collision>) -> Option<
    Collision,
> {
    match candidate {
        Option::None => best,
        Option::Some(c) => match best {
            Option::None => candidate,
            Option::Some(b) => if c.t < b.t {
                candidate
            } else {
                best
            },
        },
    }
}

/// What scanning a sequence of spheres returns: the collision with the
/// minimum parameter among the members that report one.
pub open spec fn spec_hit_spheres(
    spheres: Seq<Sphere>,
    ray: Ray,
    t_min: i64,
    t_max: i64,
) -> Option<Collision>
    decreases spheres.len(),
{
    if spheres.len() == 0 {
        Option::None
    } else {
        spec_nearer(
            spec_hit_spheres(spheres.drop_last(), ray, t_min, t_max),
            spheres.last().spec_sphere_hit(ray, t_min, t_max),
        )
    }
}

/// The nearest-hit scan misses exactly when every member misses; a
/// reported collision is some member's, and no member reports a nearer
/// one.
#[verifier::rlimit(100)]
pub proof fn lemma_hit_spheres_properties(spheres: Seq<Sphere>, ray: Ray, t_min: i64, t_max: i64)
    ensures
        (spec_hit_spheres(spheres, ray, t_min, t_max) is None) <==> (forall|i: int|
            0 <= i < spheres.len() ==> #[trigger] spheres[i].spec_sphere_hit(
                ray,
                t_min,
                t_max,
            ) is None),
        spec_hit_spheres(spheres, ray, t_min, t_max) matches Some(c) ==> exists|i: int|
            0 <= i < spheres.len() && Some(c) == #[trigger] spheres[i].spec_sphere_hit(
                ray,
                t_min,
                t_max,
            ),
        spec_hit_spheres(spheres, ray, t_min, t_max) matches Some(c) ==> forall|i: int|
            0 <= i < spheres.len() ==> match #[trigger] spheres[i].spec_sphere_hit(
                ray,
                t_min,
                t_max,
            ) {
                Option::Some(o) => c.t <= o.t,
                Option::None => true,
            },
    decreases spheres.len(),
{
    if spheres.len() > 0 {
        let prefix = spheres.drop_last();
        lemma_hit_spheres_properties(prefix, ray, t_min, t_max);
        assert(forall|i: int| 0 <= i < prefix.len() ==> prefix[i] == spheres[i]);
        assert(spheres.last() == spheres[spheres.len() - 1]);
        let full = spec_hit_spheres(spheres, ray, t_min, t_max);
        if let Some(c) = full {
            let lastr = spheres.last().spec_sphere_hit(ray, t_min, t_max);
            let prefr = spec_hit_spheres(prefix, ray, t_min, t_max);
            if Some(c) == lastr {
                assert(0 <= spheres.len() - 1 < spheres.len() && Some(c) == spheres[spheres.len()
                    - 1].spec_sphere_hit(ray, t_min, t_max));
            } else {
                assert(Some(c) == prefr);
                let j = choose|j: int|
                    0 <= j < prefix.len() && Some(c) == #[trigger] prefix[j].spec_sphere_hit(
                        ray,
                        t_min,
                        t_max,
                    );
                assert(0 <= j < spheres.len() && Some(c) == spheres[j].spec_sphere_hit(
                    ray,
                    t_min,
                    t_max,
                ));
            }
        }
    }
}

/// With no intersecting member, the nearest-hit query reports no result.
pub proof fn lemma_world_miss(w: World, ray: Ray, t_min: i64, t_max: i64)
    requires
        forall|i: int|
            0 <= i < w.0@.len() ==> (#[trigger] w.0@[i].spec_sphere_hit(
                ray,
                t_min,
                t_max,
            )) is None,
    ensures
        w.spec_hit(ray, t_min, t_max) is None,
{
    lemma_hit_spheres_properties(w.0@, ray, t_min, t_max);
}

/// Over two spheres whose hits lie at distinct distances along the ray,
/// the nearest-hit query returns the one with the smaller parameter.
pub proof fn lemma_world_nearest_of_two(
    w: World,
    s1: Sphere,
    s2: Sphere,
    ray: Ray,
    t_min: i64,
    t_max: i64,
    c1: Collision,
    c2: Collision,
)
    requires
        w.0@ == seq![s1, s2],
        s1.spec_sphere_hit(ray, t_min, t_max) == Some(c1),
        s2.spec_sphere_hit(ray, t_min, t_max) == Some(c2),
        c1.t != c2.t,
    ensures
        w.spec_hit(ray, t_min, t_max) == Some(
            if c1.t < c2.t {
                c1
            } else {
                c2
            },
        ),
{
    assert(w.0@.drop_last() =~= seq![s1]);
    assert(w.0@.drop_last().drop_last() =~= Seq::<Sphere>::empty());
    assert(w.0@.last() == s2);
    assert(w.0@.drop_last().last() == s1);
    assert(spec_hit_spheres(w.0@.drop_last().drop_last(), ray, t_min, t_max) is None);
    assert(spec_hit_spheres(w.0@.drop_last(), ray, t_min, t_max) == Some(c1));
    assert(w.spec_hit(ray, t_min, t_max) == spec_nearer(
        Some(c1),
        s2.spec_sphere_hit(ray, t_min, t_max),
    ));
}

/// The world: an ordered sequence of spheres, built before rendering and
/// read-only afterwards.
pub struct World(pub Vec<Sphere>);

impl World {
    /// Every member sphere is meaningful.
    pub open spec fn spec_wf(self) -> bool {
        forall|i: int| 0 <= i < self.0@.len() ==> (#[trigger] self.0@[i]).spec_wf()
    }

    /// Run-time counterpart of `spec_wf`, so that unverified callers can
    /// check a scene before rendering with it.
    pub fn is_wf(&self) -> (b: bool)
        ensures
            b == self.spec_wf(),
    {
        let mut i: usize = 0;
        while i < self.0.len()
            invariant
                0 <= i <= self.0@.len(),
                forall|j: int| 0 <= j < i ==> (#[trigger] self.0@[j]).spec_wf(),
            decreases self.0@.len() - i,
        {
            let s = &self.0[i];
            if !(s.radius > 0 && s.material.is_wf()) {
                return false;
            }
            i = i + 1;
        }
        true
    }
}

impl Hittable for World {
    open spec fn wf(&self) -> bool {
        self.spec_wf()
    }

    open spec fn spec_hit(&self, ray: Ray, t_min: i64, t_max: i64) -> Option<Collision> {
        spec_hit_spheres(self.0@, ray, t_min, t_max)
    }

    fn hit(&self, ray: &Ray, t: (i64, i64)) -> (r: Option<Collision>) {
        let mut best: Option<Collision> = None;
        let mut i: usize = 0;
        while i < self.0.len()
            invariant
                0 <= i <= self.0@.len(),
                self.spec_wf(),
                best == spec_hit_spheres(self.0@.take(i as int), *ray, t.0, t.1),
            decreases self.0@.len() - i,
        {
            let candidate = self.0[i].hit(ray, t);
            proof {
                assert(self.0@.take(i as int + 1).drop_last() =~= self.0@.take(i as int));
                assert(self.0@.take(i as int + 1).last() == self.0@[i as int]);
            }
            match candidate {
                Option::Some(c) => match best {
                    Option::Some(b) => if c.t < b.t {
                        best = candidate;
                    },
                    Option::None => {
                        best = candidate;
                    },
                },
                Option::None => {},
            }
            i = i + 1;
        }
        proof {
            assert(self.0@.take(self.0@.len() as int) =~= self.0@);
        }
        best
    }
}

/// The sky colour at the top of the background gradient.
pub fn sky_blue() -> (r: Vec3)
    ensures
        r == spec_sky_blue(),
{
    Vec3 { x: 32768, y: 45875, z: 65536 }
}

impl World {
    /// The reference scene: a large ground sphere, a 23-by-23 grid of
    /// small randomly placed spheres, and three fixed large spheres of
    /// the three material kinds — 533 spheres in all, every one of them
    /// well formed.
    pub fn new_random() -> (r: World)
        ensures
            r.spec_wf(),
            r.0@.len() == 533,
    {
        let mut world = World(Vec::new());

        // The ground: a huge gray diffuse sphere below the scene.
        let ground_sphere = Sphere {
            center: Vec3::new(0, -65536000, 0),
            material: MaterialKind::Lambertian(
                Lambertian::new(Vec3::new(FX_HALF, FX_HALF, FX_HALF)),
            ),
            radius: 65536000,
        };
        world.0.push(ground_sphere);

        world.add_random_spheres();

        world.0.push(
            Sphere {
                center: Vec3::new(0, FX_ONE, 0),
                material: MaterialKind::Dielectric(Dielectric::new(98304)),
                radius: FX_ONE,
            },
        );
        world.0.push(
            Sphere {
                center: Vec3::new(-262144, FX_ONE, 0),
                material: MaterialKind::Lambertian(
                    Lambertian::new(Vec3::new(26214, 13107, 6554)),
                ),
                radius: FX_ONE,
            },
        );
        world.0.push(
            Sphere {
                center: Vec3::new(262144, FX_ONE, 0),
                material: MaterialKind::Metal(Metal::new(Vec3::new(45875, 39322, 32768), 0)),
                radius: FX_ONE,
            },
        );

        world
    }

    /// A 23-by-23 grid of small spheres, each jittered within its cell
    /// and given a random material: mostly diffuse with a random colour,
    /// some fuzzy metal, a few glass.
    fn add_random_spheres(&mut self)
        requires
            old(self).spec_wf(),
        ensures
            final(self).spec_wf(),
            final(self).0@.len() == old(self).0@.len() + 529,
            forall|i: int|
                0 <= i < old(self).0@.len() ==> final(self).0@[i] == #[trigger] old(self).0@[i],
    {
        let mut gx: i64 = -11;
        while gx <= 11
            invariant
                self.spec_wf(),
                -11 <= gx <= 12,
                self.0@.len() == old(self).0@.len() + (gx + 11) * 23,
                forall|i: int|
                    0 <= i < old(self).0@.len() ==> self.0@[i] == #[trigger] old(self).0@[i],
            decreases 12 - gx,
        {
            let mut gz: i64 = -11;
            while gz <= 11
                invariant
                    self.spec_wf(),
                    -11 <= gz <= 12,
                    -11 <= gx <= 11,
                    self.0@.len() == old(self).0@.len() + (gx + 11) * 23 + (gz + 11),
                    forall|i: int|
                        0 <= i < old(self).0@.len() ==> self.0@[i] == #[trigger] old(self).0@[i],
                decreases 12 - gz,
            {
                // Jitter within the cell by up to 0.9 of a unit.
                let rx = random_scalar();
                let rz = random_scalar();
                let jx = fx_mul(rx, 58982);
                let jz = fx_mul(rz, 58982);
                proof {
                    crate::fixed::lemma_fx_mul_unit_bound(rx, 58982);
                    crate::fixed::lemma_fx_mul_unit_bound(rz, 58982);
                }
                let sphere_position = Vec3::new(gx * FX_ONE + jx, 13107, gz * FX_ONE + jz);

                let rand = random_scalar();

                let material = if rand < 52429 {
                    MaterialKind::Lambertian(Lambertian::new(Vec3::random().mul(Vec3::random())))
                } else if rand < 62260 {
                    MaterialKind::Metal(
                        Metal::new(
                            Vec3::random().scale(39322).add(Vec3::new(26214, 26214, 26214)),
                            fx_mul(random_scalar(), FX_HALF),
                        ),
                    )
                } else {
                    MaterialKind::Dielectric(Dielectric::new(98304))
                };

                let sphere = Sphere { center: sphere_position, material, radius: 13107 };
                self.0.push(sphere);
                gz = gz + 1;
            }
            gx = gx + 1;
            proof {
                vstd::arithmetic::mul::lemma_mul_is_distributive_add_other_way(
                    23,
                    gx as int - 1,
                    1,
                );
            }
        }
    }

    /// One pixel's accumulated colour: `samples_per_pixel` jittered rays
    /// through the camera, each integrated to `max_depth`, summed.  The
    /// result is an accumulation the sampling law admits for the pixel
    /// at `(x_fx, y_fx)` with the given normalising denominators.
    pub fn sample_pixel(
        &self,
        camera: &Camera,
        x_fx: i64,
        y_fx: i64,
        width_fx: i64,
        height_fx: i64,
        samples_per_pixel: u64,
        max_depth: u8,
    ) -> (pixel: Vec3)
        requires
            self.spec_wf(),
            width_fx != 0,
            height_fx != 0,
        ensures
            spec_accumulation_possible(
                *self,
                *camera,
                x_fx,
                y_fx,
                width_fx,
                height_fx,
                max_depth,
                samples_per_pixel,
                pixel,
            ),
    {
        let mut pixel = Vec3::zero();
        let mut sample: u64 = 0;
        while sample < samples_per_pixel
            invariant
                self.spec_wf(),
                width_fx != 0,
                height_fx != 0,
                sample <= samples_per_pixel,
                spec_accumulation_possible(
                    *self,
                    *camera,
                    x_fx,
                    y_fx,
                    width_fx,
                    height_fx,
                    max_depth,
                    sample,
                    pixel,
                ),
            decreases samples_per_pixel - sample,
        {
            let ru = random_scalar();
            let rv = random_scalar();
            let u = fx_div(fx_add(x_fx, ru), width_fx);
            let v = fx_div(fx_add(y_fx, rv), height_fx);

            let ray = camera.get_ray(u, v);

            let col = self.ray_color(&ray, max_depth);
            let new_pixel = pixel.add(col);
            proof {
                let d = choose|d: Vec3|
                    d.spec_length_squared() < FX_ONE && d.z == 0 && ray
                        == #[trigger] camera.spec_get_ray(d, u, v);
                lemma_sample_possible(
                    *self,
                    *camera,
                    x_fx,
                    y_fx,
                    width_fx,
                    height_fx,
                    max_depth,
                    ru,
                    rv,
                    d,
                    u,
                    v,
                    ray,
                    col,
                );
                lemma_accumulation_step(
                    *self,
                    *camera,
                    x_fx,
                    y_fx,
                    width_fx,
                    height_fx,
                    max_depth,
                    sample,
                    pixel,
                    col,
                    new_pixel,
                );
            }
            pixel = new_pixel;
            sample = sample + 1;
        }
        pixel
    }

    /// One scanline of the image: for every pixel of row `line`, the
    /// configured number of jittered samples accumulated through the
    /// camera, formatted.  Element `x` is the formatting of some
    /// accumulation the sampling law admits for pixel `(x, line)`.
    #[verifier::rlimit(100)]
    pub fn get_scanline(&self, camera: &Camera, line: u32) -> (r: Vec<String>)
        requires
            self.spec_wf(),
        ensures
            r@.len() == IMAGE_WIDTH,
            forall|xi: int|
                #![trigger r@[xi]]
                0 <= xi < r@.len() ==> spec_scanline_entry_ok(*self, *camera, line, xi, r@[xi]@),
    {
        let y_fx: i64 = (line as i64) * FX_ONE;

        let mut scanline: Vec<String> = Vec::new();
        let mut x: u64 = 0;
        while x < IMAGE_WIDTH
            invariant
                scanline@.len() == x,
                x <= IMAGE_WIDTH,
                self.spec_wf(),
                y_fx == line * FX_ONE,
                forall|xi: int|
                    #![trigger scanline@[xi]]
                    0 <= xi < scanline@.len() ==> spec_scanline_entry_ok(
                        *self,
                        *camera,
                        line,
                        xi,
                        scanline@[xi]@,
                    ),
            decreases IMAGE_WIDTH - x,
        {
            let x_fx: i64 = (x as i64) * FX_ONE;
            let pixel = self.sample_pixel(
                camera,
                x_fx,
                y_fx,
                WIDTH_DENOMINATOR,
                HEIGHT_DENOMINATOR,
                SAMPLES_PER_PIXEL,
                MAX_DEPTH,
            );
            let ghost prev_seq = scanline@;
            scanline.push(pixel.format_color(SAMPLES_PER_PIXEL));
            proof {
                assert(scanline@[x as int]@ == spec_format_color(pixel, SAMPLES_PER_PIXEL));
                assert(((x as int) * (FX_ONE as int)) as i64 == x_fx);
                assert(((line as int) * (FX_ONE as int)) as i64 == y_fx);
                assert(spec_accumulation_possible(
                    *self,
                    *camera,
                    ((x as int) * (FX_ONE as int)) as i64,
                    ((line as int) * (FX_ONE as int)) as i64,
                    WIDTH_DENOMINATOR,
                    HEIGHT_DENOMINATOR,
                    MAX_DEPTH,
                    SAMPLES_PER_PIXEL,
                    pixel,
                ));
                assert(spec_scanline_entry_ok(
                    *self,
                    *camera,
                    line,
                    x as int,
                    scanline@[x as int]@,
                ));
                assert forall|xi: int| #![trigger scanline@[xi]] 0 <= xi < scanline@.len() implies
                    spec_scanline_entry_ok(*self, *camera, line, xi, scanline@[xi]@) by {
                    if xi < prev_seq.len() {
                        assert(scanline@[xi] == prev_seq[xi]);
                        assert(spec_scanline_entry_ok(*self, *camera, line, xi, prev_seq[xi]@));
                    }
                }
            }
            x = x + 1;
        }
        scanline
    }

    /// The colour carried back along a ray.  An exhausted recursion
    /// budget is black; a ray that hits nothing is the background
    /// gradient; otherwise the hit material scatters, an absorbed ray is
    /// black, and a scattered one recurses, attenuated by the material's
    /// colour.  Whatever the internal draws were, the result is one the
    /// integration law admits (`spec_color_possible`).
    #[verifier::rlimit(100)]
    pub fn ray_color(&self, ray: &Ray, recursion_depth: u8) -> (r: Vec3)
        requires
            self.spec_wf(),
        ensures
            spec_color_possible(*self, *ray, recursion_depth, r),
            recursion_depth == 0 ==> r == Vec3::spec_zero(),
            recursion_depth > 0 && self.spec_hit(*ray, COLLISION_EPSILON, i64::MAX) is None ==> r
                == spec_background(*ray),
        decreases recursion_depth,
    {
        if recursion_depth == 0 {
            return Vec3::zero();
        }
        if let Some(collision) = self.hit(ray, (COLLISION_EPSILON, i64::MAX)) {
            proof {
                lemma_hit_spheres_properties(self.0@, *ray, COLLISION_EPSILON, i64::MAX);
                let i = choose|i: int|
                    0 <= i < self.0@.len() && Some(collision) == #[trigger] self.0@[
                        i
                    ].spec_sphere_hit(*ray, COLLISION_EPSILON, i64::MAX);
                crate::sphere::lemma_sphere_hit_properties(
                    self.0@[i],
                    *ray,
                    COLLISION_EPSILON,
                    i64::MAX,
                );
            }
            let scatter_result = collision.material.scatter(ray, &collision);
            if let Some((attenuation, scattered_ray)) = scatter_result {
                let recursive = self.ray_color(&scattered_ray, recursion_depth - 1);
                let result = attenuation.mul(recursive);
                proof {
                    lemma_color_possible_scattered(
                        *self,
                        *ray,
                        recursion_depth,
                        collision,
                        attenuation,
                        scattered_ray,
                        recursive,
                        result,
                    );
                }
                result
            } else {
                proof {
                    lemma_color_possible_absorbed(*self, *ray, recursion_depth, collision);
                }
                Vec3::zero()
            }
        } else {
            let unit_delta = ray.delta().normalize();
            let t = fx_mul(FX_HALF, fx_add(unit_delta.y, FX_ONE));
            Vec3::one().scale(fx_sub(FX_ONE, t)).add(sky_blue().scale(t))
        }
    }
}

/// The outcomes the colour integration admits for a ray at a given
/// depth, whatever the internal random draws were: black at an exhausted
/// budget; the background gradient on a miss; on a hit, the outcome of
/// some scatter the hit material's law admits — black if it absorbed,
/// otherwise its attenuation times an admitted colour of the scattered
/// ray one level down.
pub open spec fn spec_color_possible(world: World, ray: Ray, depth: u8, r: Vec3) -> bool
    decreases depth,
{
    if depth == 0 {
        r == Vec3::spec_zero()
    } else {
        match spec_hit_spheres(world.0@, ray, COLLISION_EPSILON, i64::MAX) {
            Option::None => r == spec_background(ray),
            Option::Some(c) => (spec_scatter_possible(c.material, ray, c, None::<(Vec3, Ray)>)
                && r == Vec3::spec_zero()) || (exists|attenuation: Vec3, scattered: Ray, rec: Vec3|
                #![trigger spec_scatter_possible(c.material, ray, c, Some((attenuation, scattered))),
                    attenuation.spec_mul(rec)]
                spec_scatter_possible(c.material, ray, c, Some((attenuation, scattered)))
                    && spec_color_possible(world, scattered, (depth - 1) as u8, rec) && r
                    == attenuation.spec_mul(rec)),
        }
    }
}

/// A hit whose material absorbed gives black, an outcome the integration
/// law admits.
proof fn lemma_color_possible_absorbed(world: World, ray: Ray, depth: u8, c: Collision)
    requires
        depth > 0,
        spec_hit_spheres(world.0@, ray, COLLISION_EPSILON, i64::MAX) == Some(c),
        spec_scatter_possible(c.material, ray, c, None::<(Vec3, Ray)>),
    ensures
        spec_color_possible(world, ray, depth, Vec3::spec_zero()),
{
}

/// A hit whose material scattered gives the attenuated recursive colour,
/// an outcome the integration law admits.
#[verifier::rlimit(100)]
proof fn lemma_color_possible_scattered(
    world: World,
    ray: Ray,
    depth: u8,
    c: Collision,
    attenuation: Vec3,
    scattered_ray: Ray,
    recursive: Vec3,
    r: Vec3,
)
    requires
        depth > 0,
        spec_hit_spheres(world.0@, ray, COLLISION_EPSILON, i64::MAX) == Some(c),
        spec_scatter_possible(c.material, ray, c, Some((attenuation, scattered_ray))),
        spec_color_possible(world, scattered_ray, (depth - 1) as u8, recursive),
        r == attenuation.spec_mul(recursive),
    ensures
        spec_color_possible(world, ray, depth, r),
{
    let found = spec_hit_spheres(world.0@, ray, COLLISION_EPSILON, i64::MAX);
    let hc = found->0;
    assert(hc == c);
    assert(spec_scatter_possible(hc.material, ray, hc, Some((attenuation, scattered_ray))));
    assert(exists|a: Vec3, s: Ray, rc: Vec3|
        #![trigger spec_scatter_possible(hc.material, ray, hc, Some((a, s))), a.spec_mul(rc)]
        spec_scatter_possible(hc.material, ray, hc, Some((a, s))) && spec_color_possible(
            world,
            s,
            (depth - 1) as u8,
            rc,
        ) && r == a.spec_mul(rc));
}

/// The colours the sampling law admits for one jittered sample of the
/// pixel at `(x_fx, y_fx)`: the integrated colour of the camera ray
/// through `u = (x + ru) / width` and `v = (y + rv) / height`, for some
/// jitters `ru`, `rv` in `[0, 1)` and some lens sample from the unit
/// disk.
pub open spec fn spec_sample_possible(
    world: World,
    camera: Camera,
    x_fx: i64,
    y_fx: i64,
    width_fx: i64,
    height_fx: i64,
    depth: u8,
    col: Vec3,
) -> bool {
    exists|ru: i64, rv: i64, d: Vec3|
        #![trigger camera.spec_get_ray(d, spec_fx_div(spec_fx_add(x_fx, ru), width_fx),
            spec_fx_div(spec_fx_add(y_fx, rv), height_fx))]
        0 <= ru < FX_ONE && 0 <= rv < FX_ONE && d.spec_length_squared() < FX_ONE && d.z == 0
            && spec_color_possible(
            world,
            camera.spec_get_ray(
                d,
                spec_fx_div(spec_fx_add(x_fx, ru), width_fx),
                spec_fx_div(spec_fx_add(y_fx, rv), height_fx),
            ),
            depth,
            col,
        )
}

/// The values the sampling law admits for a pixel after `n` samples: the
/// zero colour for none, else an admitted accumulation of `n - 1`
/// samples plus one more admitted sample colour.
pub open spec fn spec_accumulation_possible(
    world: World,
    camera: Camera,
    x_fx: i64,
    y_fx: i64,
    width_fx: i64,
    height_fx: i64,
    depth: u8,
    n: u64,
    acc: Vec3,
) -> bool
    decreases n,
{
    if n == 0 {
        acc == Vec3::spec_zero()
    } else {
        exists|prev: Vec3, col: Vec3|
            #![trigger spec_sample_possible(world, camera, x_fx, y_fx, width_fx, height_fx, depth,
                col), prev.spec_add(col)]
            spec_accumulation_possible(
                world,
                camera,
                x_fx,
                y_fx,
                width_fx,
                height_fx,
                depth,
                (n - 1) as u64,
                prev,
            ) && spec_sample_possible(world, camera, x_fx, y_fx, width_fx, height_fx, depth, col)
                && acc == prev.spec_add(col)
    }
}

/// What one scanline element must be: the formatting of some pixel
/// accumulation the sampling law admits for column `xi` of row `line`.
pub open spec fn spec_scanline_entry_ok(
    world: World,
    camera: Camera,
    line: u32,
    xi: int,
    entry: Seq<char>,
) -> bool {
    exists|acc: Vec3|
        #![trigger spec_format_color(acc, SAMPLES_PER_PIXEL)]
        spec_accumulation_possible(
            world,
            camera,
            (xi * (FX_ONE as int)) as i64,
            ((line as int) * (FX_ONE as int)) as i64,
            WIDTH_DENOMINATOR,
            HEIGHT_DENOMINATOR,
            MAX_DEPTH,
            SAMPLES_PER_PIXEL,
            acc,
        ) && entry == spec_format_color(acc, SAMPLES_PER_PIXEL)
}

/// A camera ray built from admitted jitters and lens sample carries an
/// admitted colour into an admitted sample.
proof fn lemma_sample_possible(
    world: World,
    camera: Camera,
    x_fx: i64,
    y_fx: i64,
    width_fx: i64,
    height_fx: i64,
    depth: u8,
    ru: i64,
    rv: i64,
    d: Vec3,
    u: i64,
    v: i64,
    ray: Ray,
    col: Vec3,
)
    requires
        0 <= ru < FX_ONE,
        0 <= rv < FX_ONE,
        d.spec_length_squared() < FX_ONE,
        d.z == 0,
        u == spec_fx_div(spec_fx_add(x_fx, ru), width_fx),
        v == spec_fx_div(spec_fx_add(y_fx, rv), height_fx),
        ray == camera.spec_get_ray(d, u, v),
        spec_color_possible(world, ray, depth, col),
    ensures
        spec_sample_possible(world, camera, x_fx, y_fx, width_fx, height_fx, depth, col),
{
    assert(spec_color_possible(
        world,
        camera.spec_get_ray(
            d,
            spec_fx_div(spec_fx_add(x_fx, ru), width_fx),
            spec_fx_div(spec_fx_add(y_fx, rv), height_fx),
        ),
        depth,
        col,
    ));
}

/// Adding one admitted sample to an admitted accumulation gives an
/// admitted accumulation of one more sample.
proof fn lemma_accumulation_step(
    world: World,
    camera: Camera,
    x_fx: i64,
    y_fx: i64,
    width_fx: i64,
    height_fx: i64,
    depth: u8,
    n: u64,
    prev: Vec3,
    col: Vec3,
    acc: Vec3,
)
    requires
        n < u64::MAX,
        spec_accumulation_possible(world, camera, x_fx, y_fx, width_fx, height_fx, depth, n, prev),
        spec_sample_possible(world, camera, x_fx, y_fx, width_fx, height_fx, depth, col),
        acc == prev.spec_add(col),
    ensures
        spec_accumulation_possible(
            world,
            camera,
            x_fx,
            y_fx,
            width_fx,
            height_fx,
            depth,
            (n + 1) as u64,
            acc,
        ),
{
    assert(exists|p2: Vec3, c2: Vec3|
        #![trigger spec_sample_possible(world, camera, x_fx, y_fx, width_fx, height_fx, depth, c2),
            p2.spec_add(c2)]
        spec_accumulation_possible(
            world,
            camera,
            x_fx,
            y_fx,
            width_fx,
            height_fx,
            depth,
            ((n + 1) - 1) as u64,
            p2,
        ) && spec_sample_possible(world, camera, x_fx, y_fx, width_fx, height_fx, depth, c2) && acc
            == p2.spec_add(c2));
}

} // verus!
