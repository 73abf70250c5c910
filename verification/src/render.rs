//! From smoothed iteration counts to pixel colors, and from colors to the
//! flat RGBA pixel buffer handed to a display or encoding collaborator.
//!
//! The escape-time loop itself works in double-precision floating point and
//! lives with the drivers; it delivers its smoothed iteration count here as
//! a fixed-point number: a whole part `whole` and a fractional part
//! `frac / BLEND_ONE`.  Everything from there to the final bytes is exact
//! integer arithmetic.

use vstd::prelude::*;
use crate::color::{blend_color, lemma_blend_color_endpoints, Color, BLEND_ONE};
use crate::palette::Palette;

verus! {

/// The color shown for the smoothed iteration count `whole + frac /
/// BLEND_ONE` under an iteration budget of `max_iterations`: the blend,
/// by the fractional part, of the primary color (the interior color for
/// points that exhausted the budget, else the gradient entry at the
/// whole part) toward the secondary color (the next gradient entry,
/// clamped to the last).
pub open spec fn point_color_spec(
    palette: Palette,
    whole: int,
    frac: int,
    max_iterations: int,
) -> Color {
    let primary = if whole >= max_iterations {
        palette.max_color
    } else {
        palette.colors@[whole]
    };
    let secondary_index = if whole + 1 < max_iterations {
        whole + 1
    } else {
        max_iterations - 1
    };
    blend_color(primary, palette.colors@[secondary_index], frac, BLEND_ONE as int)
}

/// Selects and blends the palette colors for one evaluated sample point,
/// given its smoothed iteration count as the fixed-point number
/// `whole + frac / BLEND_ONE`.
pub fn point_color(palette: &Palette, whole: usize, frac: u32, max_iterations: usize) -> (c: Color)
    requires
        palette.colors@.len() == max_iterations,
        0 < max_iterations,
        frac < BLEND_ONE,
    ensures
        c == point_color_spec(*palette, whole as int, frac as int, max_iterations as int),
{
    let primary = if whole >= max_iterations {
        &palette.max_color
    } else {
        palette.get_color(whole)
    };
    let secondary_index = if whole < max_iterations - 1 {
        whole + 1
    } else {
        max_iterations - 1
    };
    let secondary = palette.get_color(secondary_index);
    primary.interpolate(secondary, frac)
}

/// A point that exhausts the iteration budget exactly, with no fractional
/// part, is painted the palette's interior color, whatever the palette
/// holds and whatever the budget.
pub proof fn lemma_interior_point_color(palette: Palette, whole: int, max_iterations: int)
    requires
        whole >= max_iterations,
    ensures
        point_color_spec(palette, whole, 0, max_iterations) == palette.max_color,
{
    let secondary_index = if whole + 1 < max_iterations {
        whole + 1
    } else {
        max_iterations - 1
    };
    lemma_blend_color_endpoints(
        palette.max_color,
        palette.colors@[secondary_index],
        BLEND_ONE as int,
    );
}

/// Flattens a row-major sequence of colors into the row-major RGBA byte
/// buffer the display and encoding collaborators consume: four bytes per
/// pixel, the three channels followed by a fully opaque alpha byte.
pub fn colors_to_rgba(colors: &Vec<Color>) -> (buf: Vec<u8>)
    requires
        colors@.len() * 4 <= usize::MAX,
    ensures
        buf@.len() == colors@.len() * 4,
        forall|i: int| 0 <= i < colors@.len() ==> {
            &&& buf@[4 * i] == colors@[i].red
            &&& buf@[4 * i + 1] == colors@[i].green
            &&& buf@[4 * i + 2] == colors@[i].blue
            &&& buf@[4 * i + 3] == 0xFFu8
        },
{
    let mut buf: Vec<u8> = Vec::with_capacity(colors.len() * 4);
    let mut index: usize = 0;
    while index < colors.len()
        invariant
            index <= colors@.len(),
            colors@.len() * 4 <= usize::MAX,
            buf@.len() == index * 4,
            forall|i: int| 0 <= i < index ==> {
                &&& buf@[4 * i] == colors@[i].red
                &&& buf@[4 * i + 1] == colors@[i].green
                &&& buf@[4 * i + 2] == colors@[i].blue
                &&& buf@[4 * i + 3] == 0xFFu8
            },
        decreases colors@.len() - index,
    {
        let c = colors[index];
        buf.push(c.red);
        buf.push(c.green);
        buf.push(c.blue);
        buf.push(0xFF);
        index += 1;
    }
    buf
}

} // verus!
