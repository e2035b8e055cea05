//! Colors and their packed form.
use vstd::prelude::*;

verus! {

/// A color with its opacity: red, green, blue and alpha.
#[derive(Debug, Clone, Copy, PartialEq, Eq, Structural)]
pub struct Color(pub u8, pub u8, pub u8, pub u8);

/// The color as one number, alpha in the most significant byte, then red, green and blue.
pub open spec fn argb(color: Color) -> int {
    color.3 * 0x100_0000 + color.0 * 0x1_0000 + color.1 * 0x100 + color.2
}

/// Packs a color, alpha first.
pub fn color_to_cef_argb(color: Color) -> (packed: u32)
    ensures
        packed == argb(color),
{
    let (r, g, b, a) = (color.0, color.1, color.2, color.3);
    assert(((a as u32) << 24u32) | ((r as u32) << 16u32) | ((g as u32) << 8u32) | (b as u32) == a
        * 0x100_0000 + r * 0x1_0000 + g * 0x100 + b) by (bit_vector);
    ((a as u32) << 24u32) | ((r as u32) << 16u32) | ((g as u32) << 8u32) | (b as u32)
}

/// Packs an optional color; without one it is opaque white.
pub fn color_opt_to_cef_argb(color: Option<Color>) -> (packed: u32)
    ensures
        packed == argb(
            match color {
                Some(color) => color,
                None => Color(255, 255, 255, 255),
            },
        ),
{
    match color {
        Some(color) => color_to_cef_argb(color),
        None => 0xFFFF_FFFF,
    }
}

/// Two colors that pack to the same number are the same color.
pub proof fn argb_is_injective(left: Color, right: Color)
    requires
        argb(left) == argb(right),
    ensures
        left == right,
{
}

} // verus!
