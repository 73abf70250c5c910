//! A precomputed gradient palette mapping iteration counts to colors.
//!
//! Entry `i` of a palette of `size` entries blends the gradient's start
//! color `(0x00, 0x00, 0x55)` toward white with factor `i / size`, so the
//! gradient brightens with the escape speed.  A designated interior color,
//! pure black, stands apart for points that never escape.

use vstd::prelude::*;
use vstd::arithmetic::div_mod::lemma_div_multiples_vanish_fancy;
use crate::color::{
    blend_channel, blend_color, lemma_blend_channel_bounds, lemma_blend_color_endpoints, Color,
};

verus! {

/// The gradient entry at `index` of a palette of `size` entries: the blend
/// of `(0x00, 0x00, 0x55)` toward `(0xFF, 0xFF, 0xFF)` with factor
/// `index / size`.
pub open spec fn gradient_color(index: int, size: int) -> Color {
    blend_color(
        Color { red: 0x00, green: 0x00, blue: 0x55 },
        Color { red: 0xFF, green: 0xFF, blue: 0xFF },
        index,
        size,
    )
}

/// Round-half-up blend of two 8-bit channels with factor `index / size`.
fn gradient_channel(lo: u8, hi: u8, index: usize, size: usize) -> (r: u8)
    requires
        0 < size,
        index < size,
    ensures
        r as int == blend_channel(lo as int, hi as int, index as int, size as int),
{
    let lw: u128 = lo as u128;
    let hw: u128 = hi as u128;
    let iw: u128 = index as u128;
    let sw: u128 = size as u128;
    proof {
        assert(lw * (sw - iw) <= 255 * sw && hw * iw <= 255 * sw) by (nonlinear_arith)
            requires
                lw <= 255,
                hw <= 255,
                0 <= iw <= sw,
        ;
    }
    let num: u128 = lw * (sw - iw) + hw * iw + sw / 2;
    let q: u128 = num / sw;
    proof {
        lemma_blend_channel_bounds(lo as int, hi as int, index as int, size as int);
    }
    q as u8
}

/// An ordered, fixed-length gradient of colors, plus the designated
/// interior color for points that stay bounded through the whole
/// iteration budget.
pub struct Palette {
    /// The gradient entries; entry `i` equals `gradient_color(i, len)`.
    pub colors: Vec<Color>,
    /// The interior color, pure black.
    pub max_color: Color,
}

impl Palette {
    /// Builds the palette of exactly `size` gradient entries together with
    /// the fixed interior color.  The result is a function of `size` alone,
    /// so palette generation is reproducible bit for bit.
    pub fn generate(size: usize) -> (p: Palette)
        ensures
            p.colors@.len() == size,
            forall|i: int| 0 <= i < size ==> p.colors@[i] == gradient_color(i, size as int),
            p.max_color == (Color { red: 0, green: 0, blue: 0 }),
    {
        let mut colors: Vec<Color> = Vec::with_capacity(size);
        let mut index: usize = 0;
        while index < size
            invariant
                index <= size,
                colors@.len() == index,
                forall|i: int| 0 <= i < index ==> colors@[i] == gradient_color(i, size as int),
            decreases size - index,
        {
            let c = Color::new(
                gradient_channel(0x00, 0xFF, index, size),
                gradient_channel(0x00, 0xFF, index, size),
                gradient_channel(0x55, 0xFF, index, size),
            );
            proof {
                lemma_blend_channel_bounds(0x00, 0xFF, index as int, size as int);
                lemma_blend_channel_bounds(0x55, 0xFF, index as int, size as int);
                assert(c == gradient_color(index as int, size as int));
            }
            colors.push(c);
            index += 1;
        }
        Palette { colors, max_color: Color::new(0, 0, 0) }
    }

    /// The gradient entry at `index`; the index must be in range, so
    /// callers clamp any derived index first.
    pub fn get_color(&self, index: usize) -> (c: &Color)
        requires
            index < self.colors@.len(),
        ensures
            *c == self.colors@[index as int],
    {
        &self.colors[index]
    }
}

/// Palette generation is deterministic: any two palettes that meet
/// `generate`'s contract for the same size hold bit-identical color
/// sequences and the same interior color.
pub proof fn lemma_generate_deterministic(p1: Palette, p2: Palette, size: int)
    requires
        p1.colors@.len() == size,
        p2.colors@.len() == size,
        forall|i: int| 0 <= i < size ==> p1.colors@[i] == gradient_color(i, size),
        forall|i: int| 0 <= i < size ==> p2.colors@[i] == gradient_color(i, size),
        p1.max_color == (Color { red: 0, green: 0, blue: 0 }),
        p2.max_color == (Color { red: 0, green: 0, blue: 0 }),
    ensures
        p1.colors@ == p2.colors@,
        p1.max_color == p2.max_color,
{
    assert forall|i: int| 0 <= i < size implies p1.colors@[i] == p2.colors@[i] by {
        assert(p1.colors@[i] == gradient_color(i, size));
        assert(p2.colors@[i] == gradient_color(i, size));
    }
    assert(p1.colors@ =~= p2.colors@);
}

/// The gradient's first entry is exactly the start color: red and green
/// `0x00`, blue `0x55`, in every palette size.
pub proof fn lemma_gradient_start(size: int)
    requires
        0 < size,
    ensures
        gradient_color(0, size) == (Color { red: 0x00, green: 0x00, blue: 0x55 }),
{
    lemma_blend_color_endpoints(
        Color { red: 0x00, green: 0x00, blue: 0x55 },
        Color { red: 0xFF, green: 0xFF, blue: 0xFF },
        size,
    );
}

/// The gradient's last entry approaches pure white as the palette grows:
/// from 510 entries on it is exactly white.
pub proof fn lemma_gradient_end(size: int)
    requires
        510 <= size,
    ensures
        gradient_color(size - 1, size) == (Color { red: 0xFF, green: 0xFF, blue: 0xFF }),
{
    lemma_gradient_end_channel(0x00, size);
    lemma_gradient_end_channel(0x55, size);
}

/// Helper for [`lemma_gradient_end`]: one channel of the last gradient
/// entry saturates at 255 once the palette has at least 510 entries.
proof fn lemma_gradient_end_channel(a: int, size: int)
    requires
        510 <= size,
        0 <= a <= 255,
    ensures
        blend_channel(a, 255, size - 1, size) == 255,
{
    let d = size;
    let rest = a + d / 2 - 255;
    assert(a * (d - (d - 1)) + 255 * (d - 1) + d / 2 == d * 255 + rest) by (nonlinear_arith)
        requires
            rest == a + d / 2 - 255,
    ;
    assert(0 <= rest < d);
    lemma_div_multiples_vanish_fancy(255, rest, d);
}

} // verus!
