//! Environment commands.
use crate::bits::{bits_of, field};
use crate::gpu::CompressionMode;
use crate::gpu::texture::{TexPage, TexWindow};
use vstd::prelude::*;

verus! {

/// A drawing settings command.
#[derive(Debug, Clone, Copy, PartialEq, Eq, Structural)]
pub struct DrawingSettingsCmd(pub u32);

impl DrawingSettingsCmd {
    /// How colors are reduced. (bit 9)
    pub open spec fn spec_compression_mode(self) -> CompressionMode {
        CompressionMode::spec_from_code(bits_of(self.0, 9, 1)).unwrap()
    }

    /// Returns: how colors are reduced.
    pub fn compression_mode(&self) -> (r: CompressionMode)
        ensures
            r == self.spec_compression_mode(),
    {
        proof {
            vstd::arithmetic::power2::lemma2_to64();
        }
        CompressionMode::from_code(field(self.0, 9, 1)).unwrap()
    }

    /// Whether drawing to the displayed area is allowed. (bit 10)
    pub fn enable_drawing_to_display(&self) -> (r: bool)
        ensures
            r == (bits_of(self.0, 10, 1) == 1),
    {
        field(self.0, 10, 1) == 1
    }

    /// Whether textures are disabled. (bit 11)
    pub fn texture_disable(&self) -> (r: bool)
        ensures
            r == (bits_of(self.0, 11, 1) == 1),
    {
        field(self.0, 11, 1) == 1
    }

    /// Whether textured rectangles are flipped horizontally. (bit 12)
    pub fn textured_rect_flip_x(&self) -> (r: bool)
        ensures
            r == (bits_of(self.0, 12, 1) == 1),
    {
        field(self.0, 12, 1) == 1
    }

    /// Whether textured rectangles are flipped vertically. (bit 13)
    pub fn textured_rect_flip_y(&self) -> (r: bool)
        ensures
            r == (bits_of(self.0, 13, 1) == 1),
    {
        field(self.0, 13, 1) == 1
    }

}

impl DrawingSettingsCmd {
    /// The texture page (bits 0..9).
    pub fn texpage(&self) -> (r: TexPage)
        ensures
            r.0 == bits_of(self.0, 0, 9),
    {
        proof {
            vstd::arithmetic::power2::lemma2_to64();
        }
        TexPage(field(self.0, 0, 9) as u16)
    }
}

/// A texture window settings command.
#[derive(Debug, Clone, Copy, PartialEq, Eq, Structural)]
pub struct TextureWindowSettingsCmd(pub u32);

impl TextureWindowSettingsCmd {
    /// The texture window (bits 0..20).
    pub fn texwindow(&self) -> (r: TexWindow)
        ensures
            r.0 == bits_of(self.0, 0, 20),
    {
        TexWindow(field(self.0, 0, 20))
    }
}

/// A drawing area corner command.
#[derive(Debug, Clone, Copy, PartialEq, Eq, Structural)]
pub struct DrawingAreaCornerCmd(pub u32);

impl DrawingAreaCornerCmd {
    /// The X of the corner. (bits 0..10)
    pub fn x(&self) -> (r: u32)
        ensures
            r == bits_of(self.0, 0, 10),
    {
        field(self.0, 0, 10)
    }

    /// The Y of the corner. (bits 10..19)
    pub fn y(&self) -> (r: u32)
        ensures
            r == bits_of(self.0, 10, 9),
    {
        field(self.0, 10, 9)
    }

}

/// A drawing offset command.
#[derive(Debug, Clone, Copy, PartialEq, Eq, Structural)]
pub struct DrawingOffsetCmd(pub u32);

impl DrawingOffsetCmd {
    /// The X offset, as 11 bit two's complement. (bits 0..11)
    pub fn x_bits(&self) -> (r: u32)
        ensures
            r == bits_of(self.0, 0, 11),
    {
        field(self.0, 0, 11)
    }

    /// The Y offset, as 11 bit two's complement. (bits 11..22)
    pub fn y_bits(&self) -> (r: u32)
        ensures
            r == bits_of(self.0, 11, 11),
    {
        field(self.0, 11, 11)
    }

}

/// A mask settings command.
#[derive(Debug, Clone, Copy, PartialEq, Eq, Structural)]
pub struct MaskSettingsCmd(pub u32);

impl MaskSettingsCmd {
    /// Whether drawing sets the mask bit. (bit 0)
    pub fn write_to_mask(&self) -> (r: bool)
        ensures
            r == (bits_of(self.0, 0, 1) == 1),
    {
        field(self.0, 0, 1) == 1
    }

    /// Whether drawing skips pixels with the mask bit set. (bit 1)
    pub fn check_mask(&self) -> (r: bool)
        ensures
            r == (bits_of(self.0, 1, 1) == 1),
    {
        field(self.0, 1, 1) == 1
    }
}

} // verus!
