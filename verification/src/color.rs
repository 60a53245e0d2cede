//! Colors and the mapping from an accumulated sample sum to an output pixel.

use vstd::prelude::*;

use crate::fixed::{fclamp, fdiv, fmul, sat, tdivp, Fixed, SCALE};
use crate::vec3::Vec3;
use vstd::string::*;

verus! {

/// A color: three channels, nominally in `[0, 1]` each, unclamped until
/// output.
pub type Color = Vec3;

/// Model of one output channel: the accumulated channel value is scaled by
/// `1/samples`, clamped to `[0, 0.999]`, multiplied by 256 and truncated to
/// a whole number (which therefore lies in `0..=255`).
pub open spec fn channel_level(c: int, samples: int) -> int {
    let scale = fdiv(SCALE as int, sat(samples * SCALE));
    let scaled = fmul(c, scale);
    let clamped = fclamp(scaled, 0, 999_000);
    tdivp(fmul(256 * SCALE, clamped), SCALE as int)
}

/// The decimal digits of `n`, most significant first.
pub open spec fn dec_seq(n: int) -> Seq<char>
    decreases n,
{
    if n < 10 {
        seq![digit_char(n)]
    } else {
        dec_seq(n / 10).push(digit_char(n % 10))
    }
}

/// The character for one decimal digit.
pub open spec fn digit_char(d: int) -> char {
    if d == 0 {
        '0'
    } else if d == 1 {
        '1'
    } else if d == 2 {
        '2'
    } else if d == 3 {
        '3'
    } else if d == 4 {
        '4'
    } else if d == 5 {
        '5'
    } else if d == 6 {
        '6'
    } else if d == 7 {
        '7'
    } else if d == 8 {
        '8'
    } else {
        '9'
    }
}

/// The line written for one pixel: the three channel levels in decimal,
/// separated by single spaces and ended by a newline.
pub open spec fn pixel_line(r: int, g: int, b: int) -> Seq<char> {
    dec_seq(r) + seq![' '] + dec_seq(g) + seq![' '] + dec_seq(b) + seq!['\n']
}

/// One decimal digit as a string slice.
fn digit_str(d: u64) -> (s: &'static str)
    requires
        d < 10,
    ensures
        s@ == seq![digit_char(d as int)],
{
    proof {
        reveal_strlit("0");
        reveal_strlit("1");
        reveal_strlit("2");
        reveal_strlit("3");
        reveal_strlit("4");
        reveal_strlit("5");
        reveal_strlit("6");
        reveal_strlit("7");
        reveal_strlit("8");
        reveal_strlit("9");
    }
    let s = if d == 0 {
        "0"
    } else if d == 1 {
        "1"
    } else if d == 2 {
        "2"
    } else if d == 3 {
        "3"
    } else if d == 4 {
        "4"
    } else if d == 5 {
        "5"
    } else if d == 6 {
        "6"
    } else if d == 7 {
        "7"
    } else if d == 8 {
        "8"
    } else {
        "9"
    };
    proof {
        assert(s@ =~= seq![digit_char(d as int)]);
    }
    s
}

/// The decimal rendering of `n`.
fn u64_to_string(n: u64) -> (s: String)
    ensures
        s@ == dec_seq(n as int),
    decreases n,
{
    if n < 10 {
        let s = String::from_str(digit_str(n));
        proof {
            assert(s@ =~= dec_seq(n as int));
        }
        s
    } else {
        let mut s = u64_to_string(n / 10);
        s.append(digit_str(n % 10));
        proof {
            assert(s@ =~= dec_seq(n as int));
        }
        s
    }
}

/// Map one accumulated channel to its output level in `0..=255`.
fn channel_to_level(c: Fixed, samples: u64) -> (level: u64)
    requires
        samples > 0,
    ensures
        level as int == channel_level(c@, samples as int),
        level <= 255,
{
    let s = Fixed::from_u64(samples);
    proof {
        assert(samples * SCALE >= SCALE) by (nonlinear_arith)
            requires
                samples >= 1,
                SCALE == 1_000_000i128,
        ;
        assert(s@ > 0);
    }
    let scale = Fixed::one().div(s);
    let scaled = c.mul(scale);
    let c999 = Fixed::from_ratio(999, 1000);
    let clamped = scaled.clamp(Fixed::zero(), c999);
    proof {
        assert(c999@ == 999_000int);
        assert(0 <= clamped@ <= 999_000int);
    }
    let prod = Fixed::from_int(256).mul(clamped);
    proof {
        assert(0 <= 256_000_000 * clamped@ <= 255_744_000_000_000int) by (nonlinear_arith)
            requires
                0 <= clamped@ <= 999_000int,
        ;
        vstd::arithmetic::div_mod::lemma_div_is_ordered(
            256_000_000 * clamped@,
            255_744_000_000_000int,
            SCALE as int,
        );
        assert(0 <= prod@ <= 255_744_000int);
    }
    let level = prod.trunc_units();
    proof {
        vstd::arithmetic::div_mod::lemma_div_is_ordered(prod@, 255_744_000int, SCALE as int);
        assert(0 <= level <= 255int);
    }
    level as u64
}

/// Render one accumulated pixel color as a PPM text line.
///
/// Each channel is scaled by `1/samples_per_pixel`, clamped to `[0, 0.999]`,
/// multiplied by 256 and truncated to a whole number in `0..=255`; the three
/// levels are written in decimal, space-separated, newline-terminated.
pub fn get_color_string(pixel_color: Color, samples_per_pixel: u64) -> (s: String)
    requires
        samples_per_pixel > 0,
    ensures
        s@ == pixel_line(
            channel_level(pixel_color@.x, samples_per_pixel as int),
            channel_level(pixel_color@.y, samples_per_pixel as int),
            channel_level(pixel_color@.z, samples_per_pixel as int),
        ),
{
    let r = channel_to_level(pixel_color.x, samples_per_pixel);
    let g = channel_to_level(pixel_color.y, samples_per_pixel);
    let b = channel_to_level(pixel_color.z, samples_per_pixel);
    proof {
        reveal_strlit(" ");
        reveal_strlit("\n");
    }
    let mut s = u64_to_string(r);
    s.append(" ");
    let gs = u64_to_string(g);
    s.append(gs.as_str());
    s.append(" ");
    let bs = u64_to_string(b);
    s.append(bs.as_str());
    s.append("\n");
    proof {
        assert(s@ =~= pixel_line(
            channel_level(pixel_color@.x, samples_per_pixel as int),
            channel_level(pixel_color@.y, samples_per_pixel as int),
            channel_level(pixel_color@.z, samples_per_pixel as int),
        ));
    }
    s
}

} // verus!
