//! Colours as the layer carries them to the native API.

use vstd::prelude::*;

verus! {

/// A colour of four channels, each held as the bit pattern of an IEEE 754
/// single precision number. The layer never computes with the channels: it
/// hands them on as they came.
#[derive(Debug, Copy, Clone, PartialEq, Eq, Structural)]
pub struct ColorBits {
    pub r: u32,
    pub g: u32,
    pub b: u32,
    pub a: u32,
}

impl ColorBits {
    #[must_use]
    pub fn from_rgba(r: u32, g: u32, b: u32, a: u32) -> (color: Self)
        ensures
            color == (ColorBits { r, g, b, a }),
    {
        Self { r, g, b, a }
    }

    #[must_use]
    pub fn as_rgba(&self) -> (channels: [u32; 4])
        ensures
            channels@ == seq![self.r, self.g, self.b, self.a],
    {
        let channels = [self.r, self.g, self.b, self.a];
        assert(channels@ =~= seq![self.r, self.g, self.b, self.a]);
        channels
    }
}

} // verus!
