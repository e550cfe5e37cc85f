//! Packed-color utilities: the framebuffer consumes one `u32` per pixel, and
//! these functions build that value from separate 8-bit channels.

use vstd::prelude::*;

verus! {

/// An RGBA color kept as its four separate 8-bit channels.
#[derive(Clone, Copy, Debug, PartialEq, Eq, Structural)]
pub struct Color(pub u8, pub u8, pub u8, pub u8);

/// Packs 8-bit red, green and blue channels into one pixel value, with red in
/// the high byte: `0x00RRGGBB`.
pub fn from_u8_rgb(r: u8, g: u8, b: u8) -> (c: u32)
    ensures
        c == ((r as u32) << 16) | ((g as u32) << 8) | (b as u32),
{
    let (r, g, b) = (r as u32, g as u32, b as u32);
    (r << 16) | (g << 8) | b
}

/// Packs 8-bit red, green, blue and alpha channels into one pixel value, with
/// red in the high byte: `0xRRGGBBAA`.
pub fn from_u8_rgba(r: u8, g: u8, b: u8, a: u8) -> (c: u32)
    ensures
        c == ((r as u32) << 24) | ((g as u32) << 16) | ((b as u32) << 8) | (a as u32),
{
    let (r, g, b, a) = (r as u32, g as u32, b as u32, a as u32);
    (r << 24) | (g << 16) | (b << 8) | a
}

} // verus!
