//! Colors with eight bits per channel, and the named palette that the
//! terrain and creature rules draw from.

use vstd::prelude::*;

verus! {

/// A color in sRGB space: red, green, blue and alpha, eight bits each.
pub type Rgba = (u8, u8, u8, u8);

pub const BLACK: Rgba = (0x00, 0x00, 0x00, 0xff);

pub const WHITE: Rgba = (0xff, 0xff, 0xff, 0xff);

pub const AZURE: Rgba = (0xf0, 0xff, 0xff, 0xff);

pub const CORAL: Rgba = (0xff, 0x7f, 0x50, 0xff);

pub const CORNFLOWERBLUE: Rgba = (0x64, 0x95, 0xed, 0xff);

pub const DARKGOLDENROD: Rgba = (0xb8, 0x86, 0x0b, 0xff);

pub const DARKGREEN: Rgba = (0x00, 0x64, 0x00, 0xff);

pub const DARKRED: Rgba = (0x8b, 0x00, 0x00, 0xff);

pub const DARKSLATEGRAY: Rgba = (0x2f, 0x4f, 0x4f, 0xff);

pub const FIREBRICK: Rgba = (0xb2, 0x22, 0x22, 0xff);

pub const GAINSBORO: Rgba = (0xdc, 0xdc, 0xdc, 0xff);

pub const GOLD: Rgba = (0xff, 0xd7, 0x00, 0xff);

pub const GREEN: Rgba = (0x00, 0x80, 0x00, 0xff);

pub const LIGHTSLATEGRAY: Rgba = (0x77, 0x88, 0x99, 0xff);

pub const MAGENTA: Rgba = (0xff, 0x00, 0xff, 0xff);

pub const OLIVE: Rgba = (0x80, 0x80, 0x00, 0xff);

pub const ROYALBLUE: Rgba = (0x41, 0x69, 0xe1, 0xff);

pub const SADDLEBROWN: Rgba = (0x8b, 0x45, 0x13, 0xff);

pub const SLATEGRAY: Rgba = (0x70, 0x80, 0x90, 0xff);

pub const YELLOW: Rgba = (0xff, 0xff, 0x00, 0xff);

/// The opaque color with the given red, green and blue channels.
pub open spec fn opaque(r: u8, g: u8, b: u8) -> Rgba {
    (r, g, b, 0xffu8)
}

/// Builds an opaque color from red, green and blue.
pub fn rgb(r: u8, g: u8, b: u8) -> (c: Rgba)
    ensures
        c == opaque(r, g, b),
{
    (r, g, b, 0xff)
}

/// Whether two colors agree in every channel.
pub fn same_color(a: Rgba, b: Rgba) -> (same: bool)
    ensures
        same == (a == b),
{
    a.0 == b.0 && a.1 == b.1 && a.2 == b.2 && a.3 == b.3
}

} // verus!
