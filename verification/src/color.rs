//! Colors with 8-bit channels and exact, integer-rounded linear blending.
//!
//! A blend factor is a fraction `t / d` with `0 <= t <= d`.  Blending uses
//! round-half-up arithmetic, so results are reproducible bit for bit.

use vstd::prelude::*;
use vstd::arithmetic::div_mod::{
    lemma_div_is_ordered, lemma_div_multiples_vanish_fancy, lemma_multiply_divide_lt,
};

verus! {

/// Denominator of the fixed-point blend factor taken by [`Color::interpolate`]:
/// a factor `t` stands for the real number `t / BLEND_ONE`.
pub const BLEND_ONE: u32 = 65536;

/// Round-half-up linear blend of the two channel values `a` and `b` with
/// blend factor `t / d`, that is `round(a + (b - a) * t / d)`.
pub open spec fn blend_channel(a: int, b: int, t: int, d: int) -> int {
    (a * (d - t) + b * t + d / 2) / d
}

/// The blended channel stays between the two endpoint channels.
pub proof fn lemma_blend_channel_bounds(a: int, b: int, t: int, d: int)
    requires
        0 < d,
        0 <= t <= d,
        0 <= a,
        0 <= b,
    ensures
        a <= b ==> a <= blend_channel(a, b, t, d) <= b,
        b <= a ==> b <= blend_channel(a, b, t, d) <= a,
{
    let lo = if a <= b { a } else { b };
    let hi = if a <= b { b } else { a };
    let num = a * (d - t) + b * t + d / 2;
    assert(d * lo <= num) by (nonlinear_arith)
        requires
            0 < d,
            0 <= t <= d,
            lo <= a,
            lo <= b,
            num == a * (d - t) + b * t + d / 2,
    ;
    assert(num < d * (hi + 1)) by (nonlinear_arith)
        requires
            0 < d,
            0 <= t <= d,
            a <= hi,
            b <= hi,
            num == a * (d - t) + b * t + d / 2,
    ;
    lemma_div_multiples_vanish_fancy(lo, 0, d);
    lemma_div_is_ordered(d * lo, num, d);
    lemma_multiply_divide_lt(num, d, hi + 1);
}

/// Blending with factor `0 / d` returns the first channel exactly, and
/// blending with factor `d / d` returns the second channel exactly.
pub proof fn lemma_blend_channel_endpoints(a: int, b: int, d: int)
    requires
        0 < d,
    ensures
        blend_channel(a, b, 0, d) == a,
        blend_channel(a, b, d, d) == b,
{
    assert(a * (d - 0) + b * 0 + d / 2 == d * a + d / 2) by (nonlinear_arith);
    assert(a * (d - d) + b * d + d / 2 == d * b + d / 2) by (nonlinear_arith);
    lemma_div_multiples_vanish_fancy(a, d / 2, d);
    lemma_div_multiples_vanish_fancy(b, d / 2, d);
}

/// Per channel, blending is monotonic in the blend factor: as `t` grows the
/// result moves from the first channel toward the second, never back.
pub proof fn lemma_blend_channel_monotonic(a: int, b: int, t1: int, t2: int, d: int)
    requires
        0 < d,
        0 <= t1 <= t2 <= d,
    ensures
        a <= b ==> blend_channel(a, b, t1, d) <= blend_channel(a, b, t2, d),
        b <= a ==> blend_channel(a, b, t2, d) <= blend_channel(a, b, t1, d),
{
    let num1 = a * (d - t1) + b * t1 + d / 2;
    let num2 = a * (d - t2) + b * t2 + d / 2;
    assert((a <= b ==> num1 <= num2) && (b <= a ==> num2 <= num1)) by (nonlinear_arith)
        requires
            t1 <= t2,
            num1 == a * (d - t1) + b * t1 + d / 2,
            num2 == a * (d - t2) + b * t2 + d / 2,
    ;
    if a <= b {
        lemma_div_is_ordered(num1, num2, d);
    }
    if b <= a {
        lemma_div_is_ordered(num2, num1, d);
    }
}

/// The color whose channels blend those of `a` and `b` with factor `t / d`.
pub open spec fn blend_color(a: Color, b: Color, t: int, d: int) -> Color {
    Color {
        red: blend_channel(a.red as int, b.red as int, t, d) as u8,
        green: blend_channel(a.green as int, b.green as int, t, d) as u8,
        blue: blend_channel(a.blue as int, b.blue as int, t, d) as u8,
    }
}

/// Blending two colors with factor `0 / d` returns the first color exactly,
/// and blending with factor `d / d` returns the second color exactly.
pub proof fn lemma_blend_color_endpoints(a: Color, b: Color, d: int)
    requires
        0 < d,
    ensures
        blend_color(a, b, 0, d) == a,
        blend_color(a, b, d, d) == b,
{
    lemma_blend_channel_endpoints(a.red as int, b.red as int, d);
    lemma_blend_channel_endpoints(a.green as int, b.green as int, d);
    lemma_blend_channel_endpoints(a.blue as int, b.blue as int, d);
}

/// An opaque color: three 8-bit channels; the alpha channel is fixed at
/// full opacity when the color is serialized to a pixel.
#[derive(Clone, Copy, Debug, PartialEq, Eq, Structural)]
pub struct Color {
    pub red: u8,
    pub green: u8,
    pub blue: u8,
}

/// Round-half-up blend of two 8-bit channels with factor `t / BLEND_ONE`.
fn blend8(a: u8, b: u8, t: u32) -> (r: u8)
    requires
        t <= BLEND_ONE,
    ensures
        r as int == blend_channel(a as int, b as int, t as int, BLEND_ONE as int),
{
    let aw: u64 = a as u64;
    let bw: u64 = b as u64;
    let tw: u64 = t as u64;
    let d: u64 = BLEND_ONE as u64;
    proof {
        assert(aw * (d - tw) <= 255 * 65536 && bw * tw <= 255 * 65536) by (nonlinear_arith)
            requires
                aw <= 255,
                bw <= 255,
                tw <= 65536,
                d == 65536,
        ;
    }
    let num: u64 = aw * (d - tw) + bw * tw + d / 2;
    let q: u64 = num / d;
    proof {
        lemma_blend_channel_bounds(a as int, b as int, t as int, BLEND_ONE as int);
    }
    q as u8
}

impl Color {
    /// Builds the color with the given red, green and blue channels.
    pub fn new(r: u8, g: u8, b: u8) -> (c: Color)
        ensures
            c == (Color { red: r, green: g, blue: b }),
    {
        Color { red: r, green: g, blue: b }
    }

    /// The color as one RGBA pixel: the three channels followed by a fully
    /// opaque alpha byte.
    pub fn as_slice(&self) -> (s: [u8; 4])
        ensures
            s@ == seq![self.red, self.green, self.blue, 0xFFu8],
    {
        let s: [u8; 4] = [self.red, self.green, self.blue, 0xFF];
        proof {
            assert(s@ =~= seq![self.red, self.green, self.blue, 0xFFu8]);
        }
        s
    }

    /// Linear blend of `self` toward `other_color` with the fixed-point
    /// factor `t / BLEND_ONE`, each channel rounded half up.
    pub fn interpolate(&self, other_color: &Color, t: u32) -> (c: Color)
        requires
            t <= BLEND_ONE,
        ensures
            c == blend_color(*self, *other_color, t as int, BLEND_ONE as int),
            c.red as int == blend_channel(
                self.red as int, other_color.red as int, t as int, BLEND_ONE as int),
            c.green as int == blend_channel(
                self.green as int, other_color.green as int, t as int, BLEND_ONE as int),
            c.blue as int == blend_channel(
                self.blue as int, other_color.blue as int, t as int, BLEND_ONE as int),
    {
        Color {
            red: blend8(self.red, other_color.red, t),
            green: blend8(self.green, other_color.green, t),
            blue: blend8(self.blue, other_color.blue, t),
        }
    }
}

} // verus!
