//! Display commands.
use crate::bits::{bits_of, field};
use crate::gpu::{DisplayDepth, DmaDirection, HorizontalResolution, VerticalResolution, VideoMode};
use vstd::prelude::*;

verus! {

/// A display enable command.
#[derive(Debug, Clone, Copy, PartialEq, Eq, Structural)]
pub struct DisplayEnableCmd(pub u32);

impl DisplayEnableCmd {
    /// Whether the display is disabled. (bit 0)
    pub fn disabled(&self) -> (r: bool)
        ensures
            r == (bits_of(self.0, 0, 1) == 1),
    {
        field(self.0, 0, 1) == 1
    }

}

/// A DMA direction command.
#[derive(Debug, Clone, Copy, PartialEq, Eq, Structural)]
pub struct DmaDirectionCmd(pub u32);

impl DmaDirectionCmd {
    /// The DMA direction. (bits 0..2)
    pub open spec fn spec_direction(self) -> DmaDirection {
        DmaDirection::spec_from_code(bits_of(self.0, 0, 2)).unwrap()
    }

    /// Returns: the DMA direction.
    pub fn direction(&self) -> (r: DmaDirection)
        ensures
            r == self.spec_direction(),
    {
        proof {
            vstd::arithmetic::power2::lemma2_to64();
        }
        DmaDirection::from_code(field(self.0, 0, 2)).unwrap()
    }

}

/// A display area command.
#[derive(Debug, Clone, Copy, PartialEq, Eq, Structural)]
pub struct DisplayAreaCmd(pub u32);

impl DisplayAreaCmd {
    /// The X of the top left of the displayed area. (bits 0..10)
    pub fn x(&self) -> (r: u32)
        ensures
            r == bits_of(self.0, 0, 10),
    {
        field(self.0, 0, 10)
    }

    /// The Y of the top left of the displayed area. (bits 10..19)
    pub fn y(&self) -> (r: u32)
        ensures
            r == bits_of(self.0, 10, 9),
    {
        field(self.0, 10, 9)
    }

}

/// A horizontal display range command.
#[derive(Debug, Clone, Copy, PartialEq, Eq, Structural)]
pub struct HorizontalDisplayRangeCmd(pub u32);

impl HorizontalDisplayRangeCmd {
    /// The start of the range. (bits 0..12)
    pub fn x1(&self) -> (r: u32)
        ensures
            r == bits_of(self.0, 0, 12),
    {
        field(self.0, 0, 12)
    }

    /// The end of the range. (bits 12..24)
    pub fn x2(&self) -> (r: u32)
        ensures
            r == bits_of(self.0, 12, 12),
    {
        field(self.0, 12, 12)
    }

}

/// A vertical display range command.
#[derive(Debug, Clone, Copy, PartialEq, Eq, Structural)]
pub struct VerticalDisplayRangeCmd(pub u32);

impl VerticalDisplayRangeCmd {
    /// The start of the range. (bits 0..10)
    pub fn y1(&self) -> (r: u32)
        ensures
            r == bits_of(self.0, 0, 10),
    {
        field(self.0, 0, 10)
    }

    /// The end of the range. (bits 10..20)
    pub fn y2(&self) -> (r: u32)
        ensures
            r == bits_of(self.0, 10, 10),
    {
        field(self.0, 10, 10)
    }

}

/// A display mode command.
#[derive(Debug, Clone, Copy, PartialEq, Eq, Structural)]
pub struct DisplayModeCmd(pub u32);

impl DisplayModeCmd {
    /// The horizontal resolution. (bits 0..2)
    pub open spec fn spec_horizontal_resolution(self) -> HorizontalResolution {
        HorizontalResolution::spec_from_code(bits_of(self.0, 0, 2)).unwrap()
    }

    /// Returns: the horizontal resolution.
    pub fn horizontal_resolution(&self) -> (r: HorizontalResolution)
        ensures
            r == self.spec_horizontal_resolution(),
    {
        proof {
            vstd::arithmetic::power2::lemma2_to64();
        }
        HorizontalResolution::from_code(field(self.0, 0, 2)).unwrap()
    }

    /// The vertical resolution. (bit 2)
    pub open spec fn spec_vertical_resolution(self) -> VerticalResolution {
        VerticalResolution::spec_from_code(bits_of(self.0, 2, 1)).unwrap()
    }

    /// Returns: the vertical resolution.
    pub fn vertical_resolution(&self) -> (r: VerticalResolution)
        ensures
            r == self.spec_vertical_resolution(),
    {
        proof {
            vstd::arithmetic::power2::lemma2_to64();
        }
        VerticalResolution::from_code(field(self.0, 2, 1)).unwrap()
    }

    /// The video mode. (bit 3)
    pub open spec fn spec_video_mode(self) -> VideoMode {
        VideoMode::spec_from_code(bits_of(self.0, 3, 1)).unwrap()
    }

    /// Returns: the video mode.
    pub fn video_mode(&self) -> (r: VideoMode)
        ensures
            r == self.spec_video_mode(),
    {
        proof {
            vstd::arithmetic::power2::lemma2_to64();
        }
        VideoMode::from_code(field(self.0, 3, 1)).unwrap()
    }

    /// The color depth. (bit 4)
    pub open spec fn spec_display_depth(self) -> DisplayDepth {
        DisplayDepth::spec_from_code(bits_of(self.0, 4, 1)).unwrap()
    }

    /// Returns: the color depth.
    pub fn display_depth(&self) -> (r: DisplayDepth)
        ensures
            r == self.spec_display_depth(),
    {
        proof {
            vstd::arithmetic::power2::lemma2_to64();
        }
        DisplayDepth::from_code(field(self.0, 4, 1)).unwrap()
    }

    /// Whether vertical interlacing is on. (bit 5)
    pub fn vertical_interlace(&self) -> (r: bool)
        ensures
            r == (bits_of(self.0, 5, 1) == 1),
    {
        field(self.0, 5, 1) == 1
    }

    /// Whether the horizontal resolution is forced to 368. (bit 6)
    pub fn force_horizontal_368(&self) -> (r: bool)
        ensures
            r == (bits_of(self.0, 6, 1) == 1),
    {
        field(self.0, 6, 1) == 1
    }

    /// Whether the screen is flipped horizontally. (bit 7)
    pub fn flip_screen_x(&self) -> (r: bool)
        ensures
            r == (bits_of(self.0, 7, 1) == 1),
    {
        field(self.0, 7, 1) == 1
    }

}

/// A VRAM size command.
#[derive(Debug, Clone, Copy, PartialEq, Eq, Structural)]
pub struct VramSizeCmd(pub u32);

impl VramSizeCmd {
    /// Whether the VRAM is doubled. (bit 0)
    pub fn double(&self) -> (r: bool)
        ensures
            r == (bits_of(self.0, 0, 1) == 1),
    {
        field(self.0, 0, 1) == 1
    }

}

} // verus!
