//! Colors with eight bits per channel.

use vstd::prelude::*;

verus! {

/// A color as four channels of eight bits: red, green, blue and alpha.
#[derive(Clone, Copy, Debug, PartialEq, Eq, Hash, Structural)]
pub struct Rgba {
    pub r: u8,
    pub g: u8,
    pub b: u8,
    pub a: u8,
}

impl Rgba {
    /// The opaque color `#rrggbb`.
    pub fn from_rgb(r: u8, g: u8, b: u8) -> (color: Rgba)
        ensures
            color == (Rgba { r, g, b, a: 255 }),
    {
        Rgba { r, g, b, a: 255 }
    }

    /// The color `#rrggbbaa`.
    pub fn from_rgba(r: u8, g: u8, b: u8, a: u8) -> (color: Rgba)
        ensures
            color == (Rgba { r, g, b, a }),
    {
        Rgba { r, g, b, a }
    }

    /// The four channels in the order red, green, blue, alpha.
    pub fn to_array(&self) -> (channels: [u8; 4])
        ensures
            channels@ == seq![self.r, self.g, self.b, self.a],
    {
        [self.r, self.g, self.b, self.a]
    }
}

/// A color whose alpha channel can be replaced.
pub trait WithAlpha: Sized {
    /// The value that [`WithAlpha::with_alpha`] returns.
    spec fn alpha_set(&self, a: u8) -> Self;

    /// The same color with alpha `a`.
    fn with_alpha(&self, a: u8) -> (color: Self)
        ensures
            color == self.alpha_set(a),
    ;
}

impl WithAlpha for Rgba {
    open spec fn alpha_set(&self, a: u8) -> Rgba {
        Rgba { r: self.r, g: self.g, b: self.b, a }
    }

    #[inline]
    fn with_alpha(&self, a: u8) -> (color: Rgba) {
        Rgba { r: self.r, g: self.g, b: self.b, a }
    }
}

/// `#ff0000`
pub fn red() -> (color: Rgba)
    ensures
        color == (Rgba { r: 0xff, g: 0x00, b: 0x00, a: 0xff }),
{
    Rgba::from_rgb(0xff, 0x00, 0x00)
}

/// `#ffa160`
pub fn orange() -> (color: Rgba)
    ensures
        color == (Rgba { r: 0xff, g: 0xa1, b: 0x60, a: 0xff }),
{
    Rgba::from_rgb(0xff, 0xa1, 0x60)
}

/// `#c2fffe`
pub fn light_blue() -> (color: Rgba)
    ensures
        color == (Rgba { r: 0xc2, g: 0xff, b: 0xfe, a: 0xff }),
{
    Rgba::from_rgb(0xc2, 0xff, 0xfe)
}

/// `#ffffff`
pub fn white() -> (color: Rgba)
    ensures
        color == (Rgba { r: 0xff, g: 0xff, b: 0xff, a: 0xff }),
{
    Rgba::from_rgb(0xff, 0xff, 0xff)
}

/// `#b6b6b6`
pub fn light_gray() -> (color: Rgba)
    ensures
        color == (Rgba { r: 0xb6, g: 0xb6, b: 0xb6, a: 0xff }),
{
    Rgba::from_rgb(0xb6, 0xb6, 0xb6)
}

/// `#747474`
pub fn gray() -> (color: Rgba)
    ensures
        color == (Rgba { r: 0x74, g: 0x74, b: 0x74, a: 0xff }),
{
    Rgba::from_rgb(0x74, 0x74, 0x74)
}

/// `#474747`
pub fn dark_gray() -> (color: Rgba)
    ensures
        color == (Rgba { r: 0x47, g: 0x47, b: 0x47, a: 0xff }),
{
    Rgba::from_rgb(0x47, 0x47, 0x47)
}

/// `#000000`
pub fn black() -> (color: Rgba)
    ensures
        color == (Rgba { r: 0x00, g: 0x00, b: 0x00, a: 0xff }),
{
    Rgba::from_rgb(0x00, 0x00, 0x00)
}

/// `#00000000`
pub fn transparent() -> (color: Rgba)
    ensures
        color == (Rgba { r: 0x00, g: 0x00, b: 0x00, a: 0x00 }),
{
    Rgba::from_rgba(0x00, 0x00, 0x00, 0x00)
}

} // verus!
