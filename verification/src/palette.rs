//! Colours as the video hardware stores them.
use vstd::prelude::*;

verus! {

/// How many bits of tile data make one pixel.
#[derive(Debug, Clone, Copy, PartialEq, Eq, Structural)]
pub enum PixelFormat {
    BPP4,
    BPP8,
}

/// A 15-bit colour: red in bits 4..0, green in bits 9..5, blue in bits 14..10.
#[derive(Debug, Clone, Copy, PartialEq, Eq, Structural)]
pub struct Rgb15(pub u16);

impl Rgb15 {
    /// The colour with eight bits per channel, as `0x00RRGGBB`: each five-bit
    /// channel moved up by three bits.
    pub open spec fn spec_rgb24(self) -> u32 {
        ((((self.0 & 0x1f) << 3u16) as u32) << 16u32) | (((((self.0 >> 5u16) & 0x1f) << 3u16) as u32)
            << 8u32) | ((((self.0 >> 10u16) & 0x1f) << 3u16) as u32)
    }

    pub fn rgb24(&self) -> (r: u32)
        ensures
            r == self.spec_rgb24(),
    {
        ((((self.0 & 0x1f) << 3u16) as u32) << 16u32) | (((((self.0 >> 5u16) & 0x1f) << 3u16) as u32)
            << 8u32) | ((((self.0 >> 10u16) & 0x1f) << 3u16) as u32)
    }
}

} // verus!
