//! Turning summed samples into pixels, and pixels into the text of a plain
//! PPM image.

use crate::interval::Interval;
use crate::scalar::{
    fx_mul, group_scalar, lemma_mul_fraction, lemma_sqrt_range, scale, Scalar,
};
use crate::vector::Vec3;
use vstd::prelude::*;
use vstd::string::StringExecFns;

verus! {

/// A colour: red, green and blue in the three components of a vector.
pub type Color = Vec3;

/// Every channel of the colour lies in `[0, 1]`.
pub open spec fn is_fraction(c: Color) -> bool {
    0 <= c.x@ <= scale() && 0 <= c.y@ <= scale() && 0 <= c.z@ <= scale()
}

/// The colour with all channels at one.
pub open spec fn spec_white() -> Color {
    Vec3 { x: Scalar::spec_one(), y: Scalar::spec_one(), z: Scalar::spec_one() }
}

/// The colour with all channels at one.
pub fn white() -> (c: Color)
    ensures
        c == spec_white(),
        is_fraction(c),
{
    Vec3 { x: Scalar::one(), y: Scalar::one(), z: Scalar::one() }
}

/// Raw value of `0.999`, the largest intensity that a channel is given.
pub const INTENSITY_MAX_RAW: i64 = 4290672328;

/// A pixel: red, green and blue, each from 0 to 255.
#[derive(Clone, Copy, Debug, PartialEq, Eq)]
pub struct Rgb {
    pub r: u8,
    pub g: u8,
    pub b: u8,
}

/// The character of the decimal digit `d`.
pub open spec fn spec_digit(d: int) -> char {
    if d == 0 {
        '0'
    } else if d == 1 {
        '1'
    } else if d == 2 {
        '2'
    } else if d == 3 {
        '3'
    } else if d == 4 {
        '4'
    } else if d == 5 {
        '5'
    } else if d == 6 {
        '6'
    } else if d == 7 {
        '7'
    } else if d == 8 {
        '8'
    } else {
        '9'
    }
}

/// The decimal numeral of `n`, without leading zeros.
pub open spec fn spec_decimal(n: nat) -> Seq<char>
    decreases n,
{
    if n < 10 {
        seq![spec_digit(n as int)]
    } else {
        spec_decimal(n / 10).push(spec_digit((n % 10) as int))
    }
}

/// The line of a pixel in a plain PPM image: the three channels in decimal,
/// separated by blanks and closed by a line feed.
pub open spec fn spec_pixel_text(p: Rgb) -> Seq<char> {
    spec_decimal(p.r as nat) + seq![' '] + spec_decimal(p.g as nat) + seq![' '] + spec_decimal(
        p.b as nat,
    ) + seq!['\n']
}

/// The lines of a sequence of pixels, one after the other.
pub open spec fn spec_body(pixels: Seq<Rgb>) -> Seq<char>
    decreases pixels.len(),
{
    if pixels.len() == 0 {
        Seq::<char>::empty()
    } else {
        spec_body(pixels.drop_last()) + spec_pixel_text(pixels.last())
    }
}

/// The head of a plain PPM image: the magic number `P3`, the width and the
/// height, and the largest channel value 255, on a line each.
pub open spec fn spec_header(width: nat, height: nat) -> Seq<char> {
    seq!['P', '3', '\n'] + spec_decimal(width) + seq![' '] + spec_decimal(height) + seq![
        '\n',
        '2',
        '5',
        '5',
        '\n',
    ]
}

/// The gamma-corrected value of a linear intensity: its square root.
pub open spec fn spec_linear_to_gamma(linear_component: Scalar) -> Scalar {
    linear_component.spec_sqrt()
}

/// The value from 0 to 255 that stands for the sum `total` of `samples`
/// samples of a channel: the mean is gamma-corrected, limited to
/// `[0, 0.999]` and scaled by 256; the whole part is taken.
pub open spec fn spec_channel(total: Scalar, samples: int) -> int {
    let mean = total.spec_mul(Scalar::spec_one().spec_div(Scalar::spec_from_int(samples)));
    let limited = (Interval {
        min: Scalar::spec_zero(),
        max: Scalar::make(INTENSITY_MAX_RAW as int),
    }).spec_clamp(spec_linear_to_gamma(mean));
    Scalar::spec_from_int(256).spec_mul(limited).spec_trunc()
}

/// The pixel that stands for the sum `pixel_color` of `samples` samples.
pub open spec fn spec_quantize(pixel_color: Color, samples: int) -> Rgb {
    Rgb {
        r: spec_channel(pixel_color.x, samples) as u8,
        g: spec_channel(pixel_color.y, samples) as u8,
        b: spec_channel(pixel_color.z, samples) as u8,
    }
}

/// A channel value fits in a byte.
pub proof fn lemma_channel_range(total: Scalar, samples: int)
    ensures
        0 <= spec_channel(total, samples) <= 255,
{
    broadcast use group_scalar;

    let mean = total.spec_mul(Scalar::spec_one().spec_div(Scalar::spec_from_int(samples)));
    lemma_sqrt_range(mean@);
    let limited = (Interval {
        min: Scalar::spec_zero(),
        max: Scalar::make(INTENSITY_MAX_RAW as int),
    }).spec_clamp(spec_linear_to_gamma(mean));
    assert(0 <= limited@ <= INTENSITY_MAX_RAW);
    crate::scalar::lemma_mul_commutes(256 * scale(), limited@);
    lemma_mul_fraction(256 * scale(), limited@);
    assert(fx_mul(256 * scale(), limited@) == (256 * scale()) * limited@ / scale());
    assert((256 * scale()) * limited@ / scale() == 256 * limited@) by (nonlinear_arith)
        requires
            scale() == 0x1_0000_0000,
    ;
}

/// The gamma-corrected value of a linear intensity: its square root.
pub fn linear_to_gamma(linear_component: Scalar) -> (r: Scalar)
    ensures
        r == spec_linear_to_gamma(linear_component),
{
    linear_component.sqrt()
}

/// The text of the decimal digit `d`.
pub fn digit_text(d: u8) -> (s: &'static str)
    requires
        d < 10,
    ensures
        s@ == seq![spec_digit(d as int)],
{
    proof {
        reveal_strlit("0");
        reveal_strlit("1");
        reveal_strlit("2");
        reveal_strlit("3");
        reveal_strlit("4");
        reveal_strlit("5");
        reveal_strlit("6");
        reveal_strlit("7");
        reveal_strlit("8");
        reveal_strlit("9");
    }
    let s: &'static str = if d == 0 {
        "0"
    } else if d == 1 {
        "1"
    } else if d == 2 {
        "2"
    } else if d == 3 {
        "3"
    } else if d == 4 {
        "4"
    } else if d == 5 {
        "5"
    } else if d == 6 {
        "6"
    } else if d == 7 {
        "7"
    } else if d == 8 {
        "8"
    } else {
        "9"
    };
    assert(s@ =~= seq![spec_digit(d as int)]);
    s
}

/// Appends the decimal numeral of `n` to `out`.
pub fn push_decimal(out: &mut String, n: usize)
    ensures
        final(out)@ == old(out)@ + spec_decimal(n as nat),
    decreases n,
{
    if n < 10 {
        out.append(digit_text(n as u8));
    } else {
        push_decimal(out, n / 10);
        out.append(digit_text((n % 10) as u8));
        assert(final(out)@ =~= old(out)@ + spec_decimal(n as nat));
    }
}

impl Rgb {
    /// Appends the line of this pixel to `out`.
    pub fn push_text(&self, out: &mut String)
        ensures
            final(out)@ == old(out)@ + spec_pixel_text(*self),
    {
        proof {
            reveal_strlit(" ");
            reveal_strlit("\n");
        }
        push_decimal(out, self.r as usize);
        out.append(" ");
        push_decimal(out, self.g as usize);
        out.append(" ");
        push_decimal(out, self.b as usize);
        out.append("\n");
        assert(final(out)@ =~= old(out)@ + spec_pixel_text(*self));
    }

    /// The line of this pixel in a plain PPM image.
    pub fn to_text(&self) -> (text: String)
        ensures
            text@ == spec_pixel_text(*self),
    {
        let mut text: String = String::new();
        self.push_text(&mut text);
        assert(text@ =~= spec_pixel_text(*self));
        text
    }
}

/// The value from 0 to 255 that stands for the sum `total` of
/// `pixel_samples` samples of a channel.
pub fn channel(total: Scalar, pixel_samples: usize) -> (r: u8)
    ensures
        r == spec_channel(total, pixel_samples as int),
{
    proof {
        lemma_channel_range(total, pixel_samples as int);
    }
    let scale_down: Scalar = Scalar::one() / Scalar::from_usize(pixel_samples);
    let gamma: Scalar = linear_to_gamma(total * scale_down);
    let intensity: Interval = Interval::new(Scalar::zero(), Scalar::from_raw(INTENSITY_MAX_RAW));
    proof {
        broadcast use group_scalar;

    }
    let level: u64 = (Scalar::from_int(256) * intensity.clamp(gamma)).trunc();
    level as u8
}

/// The pixel that stands for the sum `pixel_color` of `pixel_samples`
/// samples.
pub fn quantize(pixel_color: Color, pixel_samples: usize) -> (p: Rgb)
    ensures
        p == spec_quantize(pixel_color, pixel_samples as int),
{
    proof {
        lemma_channel_range(pixel_color.x, pixel_samples as int);
        lemma_channel_range(pixel_color.y, pixel_samples as int);
        lemma_channel_range(pixel_color.z, pixel_samples as int);
    }
    Rgb {
        r: channel(pixel_color.x, pixel_samples),
        g: channel(pixel_color.y, pixel_samples),
        b: channel(pixel_color.z, pixel_samples),
    }
}

/// The line of a pixel in a plain PPM image, from the sum `pixel_color` of
/// `pixel_samples` samples: the mean of each channel is gamma-corrected,
/// limited to `[0, 0.999]` and scaled to the values from 0 to 255.
pub fn write_color(pixel_color: Color, pixel_samples: usize) -> (text: String)
    ensures
        text@ == spec_pixel_text(spec_quantize(pixel_color, pixel_samples as int)),
{
    quantize(pixel_color, pixel_samples).to_text()
}

/// Appends the head of a plain PPM image of the given size to `out`.
pub fn push_header(out: &mut String, width: usize, height: usize)
    ensures
        final(out)@ == old(out)@ + spec_header(width as nat, height as nat),
{
    proof {
        reveal_strlit("P3\n");
        reveal_strlit(" ");
        reveal_strlit("\n255\n");
    }
    out.append("P3\n");
    push_decimal(out, width);
    out.append(" ");
    push_decimal(out, height);
    out.append("\n255\n");
    assert("P3\n"@ =~= seq!['P', '3', '\n']);
    assert("\n255\n"@ =~= seq!['\n', '2', '5', '5', '\n']);
    assert(final(out)@ =~= old(out)@ + spec_header(width as nat, height as nat));
}

/// Appends the lines of `pixels` to `out`.
pub fn push_pixels(out: &mut String, pixels: &Vec<Rgb>)
    ensures
        final(out)@ == old(out)@ + spec_body(pixels@),
{
    let mut k: usize = 0;
    assert(pixels@.take(0) =~= Seq::<Rgb>::empty());
    assert(out@ =~= old(out)@ + spec_body(pixels@.take(0)));
    while k < pixels.len()
        invariant
            k <= pixels@.len(),
            out@ == old(out)@ + spec_body(pixels@.take(k as int)),
        decreases pixels@.len() - k,
    {
        let ghost before = out@;
        pixels[k].push_text(out);
        proof {
            assert(pixels@.take(k + 1).drop_last() =~= pixels@.take(k as int));
            assert(pixels@.take(k + 1).last() == pixels@[k as int]);
            assert(out@ =~= old(out)@ + spec_body(pixels@.take(k + 1)));
        }
        k += 1;
    }
    assert(pixels@.take(k as int) =~= pixels@);
}

/// The text of the plain PPM image with the given size and pixels, which
/// are taken row by row from the top, each row from the left.
pub fn encode_ppm(width: usize, height: usize, pixels: &Vec<Rgb>) -> (text: String)
    ensures
        text@ == spec_header(width as nat, height as nat) + spec_body(pixels@),
{
    let mut text: String = String::new();
    push_header(&mut text, width, height);
    push_pixels(&mut text, pixels);
    assert(text@ =~= spec_header(width as nat, height as nat) + spec_body(pixels@));
    text
}

} // verus!
