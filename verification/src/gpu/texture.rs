//! Items related to textures.
use crate::bits::{bits_of, field};
use vstd::prelude::*;

verus! {

/// The bit depth of a texture.
#[derive(Debug, Clone, Copy, PartialEq, Eq, Structural)]
pub enum Depth {
    Nibble,
    Byte,
    Full,
    Reserved,
}

impl Depth {
    /// The code of this value.
    pub open spec fn spec_code(self) -> u32 {
        match self {
            Depth::Nibble => 0,
            Depth::Byte => 1,
            Depth::Full => 2,
            Depth::Reserved => 3,
        }
    }

    /// The value with the given code, if any.
    pub open spec fn spec_from_code(code: u32) -> Option<Depth> {
        if code == 0 { Some(Depth::Nibble) } else if code == 1 { Some(Depth::Byte) } else if code == 2 { Some(Depth::Full) } else if code == 3 { Some(Depth::Reserved) } else { None }
    }

    /// Returns the value with the given code, if any.
    pub fn from_code(code: u32) -> (r: Option<Depth>)
        ensures
            r == Self::spec_from_code(code),
    {
        match code {
            0 => Some(Depth::Nibble),
            1 => Some(Depth::Byte),
            2 => Some(Depth::Full),
            3 => Some(Depth::Reserved),
            _ => None,
        }
    }
}

/// The blending mode of a texture.
#[derive(Debug, Clone, Copy, PartialEq, Eq, Structural)]
pub enum BlendingMode {
    /// Final Color = Old / 2 + New / 2
    Half,
    /// Final Color = Old + New
    Add,
    /// Final Color = Old - New
    Sub,
    /// Final Color = Old + New / 4
    Quarter,
}

impl BlendingMode {
    /// The code of this value.
    pub open spec fn spec_code(self) -> u32 {
        match self {
            BlendingMode::Half => 0,
            BlendingMode::Add => 1,
            BlendingMode::Sub => 2,
            BlendingMode::Quarter => 3,
        }
    }

    /// The value with the given code, if any.
    pub open spec fn spec_from_code(code: u32) -> Option<BlendingMode> {
        if code == 0 { Some(BlendingMode::Half) } else if code == 1 { Some(BlendingMode::Add) } else if code == 2 { Some(BlendingMode::Sub) } else if code == 3 { Some(BlendingMode::Quarter) } else { None }
    }

    /// Returns the value with the given code, if any.
    pub fn from_code(code: u32) -> (r: Option<BlendingMode>)
        ensures
            r == Self::spec_from_code(code),
    {
        match code {
            0 => Some(BlendingMode::Half),
            1 => Some(BlendingMode::Add),
            2 => Some(BlendingMode::Sub),
            3 => Some(BlendingMode::Quarter),
            _ => None,
        }
    }
}

/// A texture page (9 bits).
#[derive(Debug, Clone, Copy, Default, PartialEq, Eq, Structural)]
pub struct TexPage(pub u16);

impl TexPage {
    /// The X base, in units of 64 pixels (bits 0..4).
    pub fn x_base(&self) -> (r: u32)
        ensures
            r == bits_of(self.0 as u32, 0, 4),
    {
        field(self.0 as u32, 0, 4)
    }

    /// The Y base, in units of 256 lines (bit 4).
    pub fn y_base(&self) -> (r: u32)
        ensures
            r == bits_of(self.0 as u32, 4, 1),
    {
        field(self.0 as u32, 4, 1)
    }

    /// The blending mode (bits 5..7).
    pub fn blending_mode(&self) -> (r: BlendingMode)
        ensures
            Some(r) == BlendingMode::spec_from_code(bits_of(self.0 as u32, 5, 2)),
    {
        proof {
            vstd::arithmetic::power2::lemma2_to64();
        }
        BlendingMode::from_code(field(self.0 as u32, 5, 2)).unwrap()
    }

    /// The bit depth (bits 7..9).
    pub fn depth(&self) -> (r: Depth)
        ensures
            Some(r) == Depth::spec_from_code(bits_of(self.0 as u32, 7, 2)),
    {
        proof {
            vstd::arithmetic::power2::lemma2_to64();
        }
        Depth::from_code(field(self.0 as u32, 7, 2)).unwrap()
    }
}

/// A texture window (20 bits): masks and offsets, in units of 8 pixels.
#[derive(Debug, Clone, Copy, Default, PartialEq, Eq, Structural)]
pub struct TexWindow(pub u32);

/// Color lookup table coordinates (16 bits): X in units of 16 pixels, and Y.
#[derive(Debug, Clone, Copy, Default, PartialEq, Eq, Structural)]
pub struct Clut(pub u16);

} // verus!
