//! The rendering interface for renderer implementations.
use super::{HorizontalResolution, VerticalResolution};
use vstd::prelude::*;

verus! {

/// Full 32-bit RGBA color.
#[derive(Debug, Clone, Copy, Default, PartialEq, Eq, Structural)]
pub struct Rgba8 {
    pub r: u8,
    pub g: u8,
    pub b: u8,
    pub a: u8,
}

impl Rgba8 {
    /// The opaque color with the given components.
    #[inline(always)]
    pub fn new(r: u8, g: u8, b: u8) -> (c: Self)
        ensures
            c == (Rgba8 { r, g, b, a: 255 }),
    {
        Self { r, g, b, a: 255 }
    }
}

/// Top-Left position of the display.
#[derive(Debug, Clone, Copy, PartialEq, Eq, Structural)]
pub struct DisplayTopLeft {
    pub x: u16,
    pub y: u16,
}

/// Resolution of the display.
#[derive(Debug, Clone, Copy, PartialEq, Eq, Structural)]
pub struct DisplayResolution {
    pub horizontal: HorizontalResolution,
    pub vertical: VerticalResolution,
}

} // verus!
