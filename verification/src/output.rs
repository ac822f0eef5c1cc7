//! Assembling the output image: decimal rendering of the channel values,
//! the PPM header, and the full-image render driver.

use crate::camera::Camera;
use crate::vec3::Vec3;
use crate::world::World;
use crate::{IMAGE_HEIGHT, IMAGE_WIDTH};
use vstd::prelude::*;
use vstd::string::StringExecFns;

verus! {

/// The decimal digit for a value below ten.
pub open spec fn spec_digit_char(d: nat) -> char {
    if d == 0 {
        '0'
    } else if d == 1 {
        '1'
    } else if d == 2 {
        '2'
    } else if d == 3 {
        '3'
    } else if d == 4 {
        '4'
    } else if d == 5 {
        '5'
    } else if d == 6 {
        '6'
    } else if d == 7 {
        '7'
    } else if d == 8 {
        '8'
    } else {
        '9'
    }
}

/// The decimal rendering of a natural number, most significant digit
/// first and without leading zeroes.
pub open spec fn spec_dec_digits(n: nat) -> Seq<char>
    decreases n,
{
    if n < 10 {
        seq![spec_digit_char(n)]
    } else {
        spec_dec_digits(n / 10).push(spec_digit_char(n % 10))
    }
}

/// The one-character string for a decimal digit.
fn digit_str(d: u64) -> (s: &'static str)
    requires
        d < 10,
    ensures
        s@ == seq![spec_digit_char(d as nat)],
{
    proof {
        reveal_strlit("0");
        reveal_strlit("1");
        reveal_strlit("2");
        reveal_strlit("3");
        reveal_strlit("4");
        reveal_strlit("5");
        reveal_strlit("6");
        reveal_strlit("7");
        reveal_strlit("8");
        reveal_strlit("9");
    }
    let s: &'static str = match d {
        0 => "0",
        1 => "1",
        2 => "2",
        3 => "3",
        4 => "4",
        5 => "5",
        6 => "6",
        7 => "7",
        8 => "8",
        _ => "9",
    };
    proof {
        assert(s@ =~= seq![spec_digit_char(d as nat)]);
    }
    s
}

/// The decimal rendering of `n`.
pub fn fmt_u64(n: u64) -> (s: String)
    ensures
        s@ == spec_dec_digits(n as nat),
    decreases n,
{
    if n < 10 {
        String::from_str(digit_str(n))
    } else {
        proof {
            vstd::arithmetic::div_mod::lemma_fundamental_div_mod(n as int, 10);
        }
        let mut s = fmt_u64(n / 10);
        s.append(digit_str(n % 10));
        proof {
            assert(s@ =~= spec_dec_digits(n as nat));
        }
        s
    }
}

/// What one rendered pixel must be: an accumulation the sampling law
/// admits for the pixel at row-major index `i`, rows running from the
/// top of the image down.
pub open spec fn spec_render_entry_ok(
    world: World,
    camera: Camera,
    image_width: u64,
    image_height: u64,
    samples_per_pixel: u64,
    max_depth: u8,
    i: int,
    entry: Vec3,
) -> bool
    recommends
        2 <= image_width,
        2 <= image_height,
{
    crate::world::spec_accumulation_possible(
        world,
        camera,
        ((i % (image_width as int)) * 65536) as i64,
        ((image_height - 1 - i / (image_width as int)) * 65536) as i64,
        ((image_width - 1) * 65536) as i64,
        ((image_height - 1) * 65536) as i64,
        max_depth,
        samples_per_pixel,
        entry,
    )
}

/// Render a full image: for every pixel, row-major with rows from the
/// top of the image down, the accumulated colour of `samples_per_pixel`
/// jittered rays, integrated to the given recursion depth.  Every
/// element is an accumulation the sampling law admits for its pixel;
/// callers average and tone-map the result per pixel.
#[verifier::rlimit(100)]
pub fn render(
    camera: &Camera,
    world: &World,
    image_width: u64,
    image_height: u64,
    samples_per_pixel: u64,
    max_depth: u8,
) -> (r: Vec<Vec3>)
    requires
        world.spec_wf(),
        2 <= image_width <= 65536,
        2 <= image_height <= 65536,
    ensures
        r@.len() == image_width * image_height,
        forall|i: int|
            #![trigger r@[i]]
            0 <= i < r@.len() ==> spec_render_entry_ok(
                *world,
                *camera,
                image_width,
                image_height,
                samples_per_pixel,
                max_depth,
                i,
                r@[i],
            ),
{
    let width_fx: i64 = (image_width as i64 - 1) * 65536;
    let height_fx: i64 = (image_height as i64 - 1) * 65536;

    let mut pixels: Vec<Vec3> = Vec::new();
    let mut row: u64 = 0;
    while row < image_height
        invariant
            pixels@.len() == row * image_width,
            row <= image_height,
            world.spec_wf(),
            2 <= image_width <= 65536,
            2 <= image_height <= 65536,
            width_fx == (image_width - 1) * 65536,
            height_fx == (image_height - 1) * 65536,
            forall|i: int|
                #![trigger pixels@[i]]
                0 <= i < pixels@.len() ==> spec_render_entry_ok(
                    *world,
                    *camera,
                    image_width,
                    image_height,
                    samples_per_pixel,
                    max_depth,
                    i,
                    pixels@[i],
                ),
        decreases image_height - row,
    {
        let y = image_height - 1 - row;
        let y_fx: i64 = (y as i64) * 65536;
        let mut x: u64 = 0;
        while x < image_width
            invariant
                pixels@.len() == row * image_width + x,
                x <= image_width,
                row < image_height,
                world.spec_wf(),
                2 <= image_width <= 65536,
                2 <= image_height <= 65536,
                width_fx == (image_width - 1) * 65536,
                height_fx == (image_height - 1) * 65536,
                y == image_height - 1 - row,
                y_fx == y * 65536,
                forall|i: int|
                    #![trigger pixels@[i]]
                    0 <= i < pixels@.len() ==> spec_render_entry_ok(
                        *world,
                        *camera,
                        image_width,
                        image_height,
                        samples_per_pixel,
                        max_depth,
                        i,
                        pixels@[i],
                    ),
            decreases image_width - x,
        {
            let x_fx: i64 = (x as i64) * 65536;
            let pixel = world.sample_pixel(
                camera,
                x_fx,
                y_fx,
                width_fx,
                height_fx,
                samples_per_pixel,
                max_depth,
            );
            let ghost prev_seq = pixels@;
            pixels.push(pixel);
            proof {
                let i_new = prev_seq.len() as int;
                vstd::arithmetic::div_mod::lemma_fundamental_div_mod_converse(
                    i_new,
                    image_width as int,
                    row as int,
                    x as int,
                );
                assert(i_new % (image_width as int) == x as int);
                assert(i_new / (image_width as int) == row as int);
                assert(((i_new % (image_width as int)) * 65536) as i64 == x_fx);
                assert(((image_height - 1 - i_new / (image_width as int)) * 65536) as i64 == y_fx);
                assert(((image_width - 1) * 65536) as i64 == width_fx);
                assert(((image_height - 1) * 65536) as i64 == height_fx);
                assert(spec_render_entry_ok(
                    *world,
                    *camera,
                    image_width,
                    image_height,
                    samples_per_pixel,
                    max_depth,
                    i_new,
                    pixel,
                ));
                assert forall|i: int| #![trigger pixels@[i]] 0 <= i < pixels@.len() implies
                    spec_render_entry_ok(
                        *world,
                        *camera,
                        image_width,
                        image_height,
                        samples_per_pixel,
                        max_depth,
                        i,
                        pixels@[i],
                    ) by {
                    if i < prev_seq.len() {
                        assert(pixels@[i] == prev_seq[i]);
                    }
                }
            }
            x = x + 1;
        }
        row = row + 1;
        proof {
            vstd::arithmetic::mul::lemma_mul_is_distributive_add_other_way(
                image_width as int,
                row as int - 1,
                1,
            );
        }
    }
    proof {
        vstd::arithmetic::mul::lemma_mul_is_commutative(image_width as int, image_height as int);
    }
    pixels
}

/// What the PPM header is: the `P3` magic line, the image dimensions in
/// decimal, and the maximum channel value.
pub open spec fn spec_ppm_headers() -> Seq<char> {
    "P3\n"@ + spec_dec_digits(IMAGE_WIDTH as nat) + seq![' '] + spec_dec_digits(
        IMAGE_HEIGHT as nat,
    ) + "\n255\n"@
}

/// Append the PPM header for the crate's image dimensions to `output`.
pub fn write_ppm_headers(output: &mut String)
    ensures
        final(output)@ == old(output)@ + spec_ppm_headers(),
{
    output.append("P3\n");
    output.append(fmt_u64(IMAGE_WIDTH).as_str());
    output.append(" ");
    output.append(fmt_u64(IMAGE_HEIGHT).as_str());
    output.append("\n255\n");
    proof {
        reveal_strlit(" ");
        assert(" "@ =~= seq![' ']);
        assert(final(output)@ =~= old(output)@ + spec_ppm_headers());
    }
}

} // verus!
