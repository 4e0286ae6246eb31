//! Rendering commands.
use crate::bits::{bits_of, field};
use vstd::prelude::*;

verus! {

/// A framebuffer transfer coordinate packet.
#[derive(Debug, Clone, Copy, PartialEq, Eq, Structural)]
pub struct CoordPacket(pub u32);

impl CoordPacket {
    /// The X coordinate. (bits 0..16)
    pub fn x(&self) -> (r: u32)
        ensures
            r == bits_of(self.0, 0, 16),
    {
        field(self.0, 0, 16)
    }

    /// The Y coordinate. (bits 16..32)
    pub fn y(&self) -> (r: u32)
        ensures
            r == bits_of(self.0, 16, 16),
    {
        field(self.0, 16, 16)
    }

}

/// A framebuffer transfer dimensions packet.
#[derive(Debug, Clone, Copy, PartialEq, Eq, Structural)]
pub struct SizePacket(pub u32);

impl SizePacket {
    /// The width. (bits 0..16)
    pub fn width(&self) -> (r: u32)
        ensures
            r == bits_of(self.0, 0, 16),
    {
        field(self.0, 0, 16)
    }

    /// The height. (bits 16..32)
    pub fn height(&self) -> (r: u32)
        ensures
            r == bits_of(self.0, 16, 16),
    {
        field(self.0, 16, 16)
    }

}

/// The texture mode of a rendering command.
#[derive(Debug, Clone, Copy, PartialEq, Eq, Structural)]
pub enum TextureMode {
    Modulated,
    Raw,
}

impl TextureMode {
    /// The code of this value.
    pub open spec fn spec_code(self) -> u32 {
        match self {
            TextureMode::Modulated => 0,
            TextureMode::Raw => 1,
        }
    }

    /// The value with the given code, if any.
    pub open spec fn spec_from_code(code: u32) -> Option<TextureMode> {
        if code == 0 { Some(TextureMode::Modulated) } else if code == 1 { Some(TextureMode::Raw) } else { None }
    }

    /// Returns the value with the given code, if any.
    pub fn from_code(code: u32) -> (r: Option<TextureMode>)
        ensures
            r == Self::spec_from_code(code),
    {
        match code {
            0 => Some(TextureMode::Modulated),
            1 => Some(TextureMode::Raw),
            _ => None,
        }
    }
}

/// The blending mode of a rendering command.
#[derive(Debug, Clone, Copy, PartialEq, Eq, Structural)]
pub enum BlendingMode {
    Opaque,
    SemiTransparent,
}

impl BlendingMode {
    /// The code of this value.
    pub open spec fn spec_code(self) -> u32 {
        match self {
            BlendingMode::Opaque => 0,
            BlendingMode::SemiTransparent => 1,
        }
    }

    /// The value with the given code, if any.
    pub open spec fn spec_from_code(code: u32) -> Option<BlendingMode> {
        if code == 0 { Some(BlendingMode::Opaque) } else if code == 1 { Some(BlendingMode::SemiTransparent) } else { None }
    }

    /// Returns the value with the given code, if any.
    pub fn from_code(code: u32) -> (r: Option<BlendingMode>)
        ensures
            r == Self::spec_from_code(code),
    {
        match code {
            0 => Some(BlendingMode::Opaque),
            1 => Some(BlendingMode::SemiTransparent),
            _ => None,
        }
    }
}

/// The shading mode of a rendering command.
#[derive(Debug, Clone, Copy, PartialEq, Eq, Structural)]
pub enum ShadingMode {
    Flat,
    Gouraud,
}

impl ShadingMode {
    /// The code of this value.
    pub open spec fn spec_code(self) -> u32 {
        match self {
            ShadingMode::Flat => 0,
            ShadingMode::Gouraud => 1,
        }
    }

    /// The value with the given code, if any.
    pub open spec fn spec_from_code(code: u32) -> Option<ShadingMode> {
        if code == 0 { Some(ShadingMode::Flat) } else if code == 1 { Some(ShadingMode::Gouraud) } else { None }
    }

    /// Returns the value with the given code, if any.
    pub fn from_code(code: u32) -> (r: Option<ShadingMode>)
        ensures
            r == Self::spec_from_code(code),
    {
        match code {
            0 => Some(ShadingMode::Flat),
            1 => Some(ShadingMode::Gouraud),
            _ => None,
        }
    }
}

/// A vertex color packet.
#[derive(Debug, Clone, Copy, PartialEq, Eq, Structural, Default)]
pub struct VertexColorPacket(pub u32);

impl VertexColorPacket {
    /// The red component. (bits 0..8)
    pub fn r(&self) -> (r: u32)
        ensures
            r == bits_of(self.0, 0, 8),
    {
        field(self.0, 0, 8)
    }

    /// The green component. (bits 8..16)
    pub fn g(&self) -> (r: u32)
        ensures
            r == bits_of(self.0, 8, 8),
    {
        field(self.0, 8, 8)
    }

    /// The blue component. (bits 16..24)
    pub fn b(&self) -> (r: u32)
        ensures
            r == bits_of(self.0, 16, 8),
    {
        field(self.0, 16, 8)
    }

}

/// The polygon mode of a [`PolygonCmd`].
#[derive(Debug, Clone, Copy, PartialEq, Eq, Structural)]
pub enum PolygonMode {
    Triangle,
    Rectangle,
}

impl PolygonMode {
    /// The code of this value.
    pub open spec fn spec_code(self) -> u32 {
        match self {
            PolygonMode::Triangle => 0,
            PolygonMode::Rectangle => 1,
        }
    }

    /// The value with the given code, if any.
    pub open spec fn spec_from_code(code: u32) -> Option<PolygonMode> {
        if code == 0 { Some(PolygonMode::Triangle) } else if code == 1 { Some(PolygonMode::Rectangle) } else { None }
    }

    /// Returns the value with the given code, if any.
    pub fn from_code(code: u32) -> (r: Option<PolygonMode>)
        ensures
            r == Self::spec_from_code(code),
    {
        match code {
            0 => Some(PolygonMode::Triangle),
            1 => Some(PolygonMode::Rectangle),
            _ => None,
        }
    }
}

impl PolygonMode {
    /// The number of vertices of the polygon.
    pub open spec fn spec_vertices(self) -> usize {
        match self {
            PolygonMode::Triangle => 3,
            PolygonMode::Rectangle => 4,
        }
    }

    /// Returns the number of vertices of the polygon.
    pub fn vertices(&self) -> (r: usize)
        ensures
            r == self.spec_vertices(),
    {
        match self {
            PolygonMode::Triangle => 3,
            PolygonMode::Rectangle => 4,
        }
    }
}

/// A polygon rendering command.
#[derive(Debug, Clone, Copy, PartialEq, Eq, Structural)]
pub struct PolygonCmd(pub u32);

impl PolygonCmd {
    /// The red component. (bits 0..8)
    pub fn r(&self) -> (r: u32)
        ensures
            r == bits_of(self.0, 0, 8),
    {
        field(self.0, 0, 8)
    }

    /// The green component. (bits 8..16)
    pub fn g(&self) -> (r: u32)
        ensures
            r == bits_of(self.0, 8, 8),
    {
        field(self.0, 8, 8)
    }

    /// The blue component. (bits 16..24)
    pub fn b(&self) -> (r: u32)
        ensures
            r == bits_of(self.0, 16, 8),
    {
        field(self.0, 16, 8)
    }

    /// The texture mode. (bit 24)
    pub open spec fn spec_texture_mode(self) -> TextureMode {
        TextureMode::spec_from_code(bits_of(self.0, 24, 1)).unwrap()
    }

    /// Returns: the texture mode.
    pub fn texture_mode(&self) -> (r: TextureMode)
        ensures
            r == self.spec_texture_mode(),
    {
        proof {
            vstd::arithmetic::power2::lemma2_to64();
        }
        TextureMode::from_code(field(self.0, 24, 1)).unwrap()
    }

    /// The blending mode. (bit 25)
    pub open spec fn spec_blending_mode(self) -> BlendingMode {
        BlendingMode::spec_from_code(bits_of(self.0, 25, 1)).unwrap()
    }

    /// Returns: the blending mode.
    pub fn blending_mode(&self) -> (r: BlendingMode)
        ensures
            r == self.spec_blending_mode(),
    {
        proof {
            vstd::arithmetic::power2::lemma2_to64();
        }
        BlendingMode::from_code(field(self.0, 25, 1)).unwrap()
    }

    /// Whether the polygon is textured. (bit 26)
    pub fn textured(&self) -> (r: bool)
        ensures
            r == (bits_of(self.0, 26, 1) == 1),
    {
        field(self.0, 26, 1) == 1
    }

    /// Whether the polygon is a triangle or a rectangle. (bit 27)
    pub open spec fn spec_polygon_mode(self) -> PolygonMode {
        PolygonMode::spec_from_code(bits_of(self.0, 27, 1)).unwrap()
    }

    /// Returns: whether the polygon is a triangle or a rectangle.
    pub fn polygon_mode(&self) -> (r: PolygonMode)
        ensures
            r == self.spec_polygon_mode(),
    {
        proof {
            vstd::arithmetic::power2::lemma2_to64();
        }
        PolygonMode::from_code(field(self.0, 27, 1)).unwrap()
    }

    /// The shading mode. (bit 28)
    pub open spec fn spec_shading_mode(self) -> ShadingMode {
        ShadingMode::spec_from_code(bits_of(self.0, 28, 1)).unwrap()
    }

    /// Returns: the shading mode.
    pub fn shading_mode(&self) -> (r: ShadingMode)
        ensures
            r == self.spec_shading_mode(),
    {
        proof {
            vstd::arithmetic::power2::lemma2_to64();
        }
        ShadingMode::from_code(field(self.0, 28, 1)).unwrap()
    }

}

/// The line mode of a [`LineCmd`].
#[derive(Debug, Clone, Copy, PartialEq, Eq, Structural)]
pub enum LineMode {
    Single,
    Poly,
}

impl LineMode {
    /// The code of this value.
    pub open spec fn spec_code(self) -> u32 {
        match self {
            LineMode::Single => 0,
            LineMode::Poly => 1,
        }
    }

    /// The value with the given code, if any.
    pub open spec fn spec_from_code(code: u32) -> Option<LineMode> {
        if code == 0 { Some(LineMode::Single) } else if code == 1 { Some(LineMode::Poly) } else { None }
    }

    /// Returns the value with the given code, if any.
    pub fn from_code(code: u32) -> (r: Option<LineMode>)
        ensures
            r == Self::spec_from_code(code),
    {
        match code {
            0 => Some(LineMode::Single),
            1 => Some(LineMode::Poly),
            _ => None,
        }
    }
}

/// A line rendering command.
#[derive(Debug, Clone, Copy, PartialEq, Eq, Structural)]
pub struct LineCmd(pub u32);

impl LineCmd {
    /// The red component. (bits 0..8)
    pub fn color_r(&self) -> (r: u32)
        ensures
            r == bits_of(self.0, 0, 8),
    {
        field(self.0, 0, 8)
    }

    /// The green component. (bits 8..16)
    pub fn color_g(&self) -> (r: u32)
        ensures
            r == bits_of(self.0, 8, 8),
    {
        field(self.0, 8, 8)
    }

    /// The blue component. (bits 16..24)
    pub fn color_b(&self) -> (r: u32)
        ensures
            r == bits_of(self.0, 16, 8),
    {
        field(self.0, 16, 8)
    }

    /// The blending mode. (bit 25)
    pub open spec fn spec_transparency_mode(self) -> BlendingMode {
        BlendingMode::spec_from_code(bits_of(self.0, 25, 1)).unwrap()
    }

    /// Returns: the blending mode.
    pub fn transparency_mode(&self) -> (r: BlendingMode)
        ensures
            r == self.spec_transparency_mode(),
    {
        proof {
            vstd::arithmetic::power2::lemma2_to64();
        }
        BlendingMode::from_code(field(self.0, 25, 1)).unwrap()
    }

    /// Whether this is a single line or a poly-line. (bit 27)
    pub open spec fn spec_line_mode(self) -> LineMode {
        LineMode::spec_from_code(bits_of(self.0, 27, 1)).unwrap()
    }

    /// Returns: whether this is a single line or a poly-line.
    pub fn line_mode(&self) -> (r: LineMode)
        ensures
            r == self.spec_line_mode(),
    {
        proof {
            vstd::arithmetic::power2::lemma2_to64();
        }
        LineMode::from_code(field(self.0, 27, 1)).unwrap()
    }

    /// The shading mode. (bit 28)
    pub open spec fn spec_shading_mode(self) -> ShadingMode {
        ShadingMode::spec_from_code(bits_of(self.0, 28, 1)).unwrap()
    }

    /// Returns: the shading mode.
    pub fn shading_mode(&self) -> (r: ShadingMode)
        ensures
            r == self.spec_shading_mode(),
    {
        proof {
            vstd::arithmetic::power2::lemma2_to64();
        }
        ShadingMode::from_code(field(self.0, 28, 1)).unwrap()
    }

}

/// The rectangle mode of a [`RectangleCmd`].
#[derive(Debug, Clone, Copy, PartialEq, Eq, Structural)]
pub enum RectangleMode {
    Variable,
    SinglePixel,
    Sprite8,
    Sprite16,
}

impl RectangleMode {
    /// The code of this value.
    pub open spec fn spec_code(self) -> u32 {
        match self {
            RectangleMode::Variable => 0,
            RectangleMode::SinglePixel => 1,
            RectangleMode::Sprite8 => 2,
            RectangleMode::Sprite16 => 3,
        }
    }

    /// The value with the given code, if any.
    pub open spec fn spec_from_code(code: u32) -> Option<RectangleMode> {
        if code == 0 { Some(RectangleMode::Variable) } else if code == 1 { Some(RectangleMode::SinglePixel) } else if code == 2 { Some(RectangleMode::Sprite8) } else if code == 3 { Some(RectangleMode::Sprite16) } else { None }
    }

    /// Returns the value with the given code, if any.
    pub fn from_code(code: u32) -> (r: Option<RectangleMode>)
        ensures
            r == Self::spec_from_code(code),
    {
        match code {
            0 => Some(RectangleMode::Variable),
            1 => Some(RectangleMode::SinglePixel),
            2 => Some(RectangleMode::Sprite8),
            3 => Some(RectangleMode::Sprite16),
            _ => None,
        }
    }
}

/// A rectangle rendering command.
#[derive(Debug, Clone, Copy, PartialEq, Eq, Structural)]
pub struct RectangleCmd(pub u32);

impl RectangleCmd {
    /// The red component. (bits 0..8)
    pub fn r(&self) -> (r: u32)
        ensures
            r == bits_of(self.0, 0, 8),
    {
        field(self.0, 0, 8)
    }

    /// The green component. (bits 8..16)
    pub fn g(&self) -> (r: u32)
        ensures
            r == bits_of(self.0, 8, 8),
    {
        field(self.0, 8, 8)
    }

    /// The blue component. (bits 16..24)
    pub fn b(&self) -> (r: u32)
        ensures
            r == bits_of(self.0, 16, 8),
    {
        field(self.0, 16, 8)
    }

    /// The texture mode. (bit 24)
    pub open spec fn spec_texture_mode(self) -> TextureMode {
        TextureMode::spec_from_code(bits_of(self.0, 24, 1)).unwrap()
    }

    /// Returns: the texture mode.
    pub fn texture_mode(&self) -> (r: TextureMode)
        ensures
            r == self.spec_texture_mode(),
    {
        proof {
            vstd::arithmetic::power2::lemma2_to64();
        }
        TextureMode::from_code(field(self.0, 24, 1)).unwrap()
    }

    /// The blending mode. (bit 25)
    pub open spec fn spec_blending_mode(self) -> BlendingMode {
        BlendingMode::spec_from_code(bits_of(self.0, 25, 1)).unwrap()
    }

    /// Returns: the blending mode.
    pub fn blending_mode(&self) -> (r: BlendingMode)
        ensures
            r == self.spec_blending_mode(),
    {
        proof {
            vstd::arithmetic::power2::lemma2_to64();
        }
        BlendingMode::from_code(field(self.0, 25, 1)).unwrap()
    }

    /// Whether the rectangle is textured. (bit 26)
    pub fn textured(&self) -> (r: bool)
        ensures
            r == (bits_of(self.0, 26, 1) == 1),
    {
        field(self.0, 26, 1) == 1
    }

    /// The size of the rectangle. (bits 27..29)
    pub open spec fn spec_rectangle_mode(self) -> RectangleMode {
        RectangleMode::spec_from_code(bits_of(self.0, 27, 2)).unwrap()
    }

    /// Returns: the size of the rectangle.
    pub fn rectangle_mode(&self) -> (r: RectangleMode)
        ensures
            r == self.spec_rectangle_mode(),
    {
        proof {
            vstd::arithmetic::power2::lemma2_to64();
        }
        RectangleMode::from_code(field(self.0, 27, 2)).unwrap()
    }

}


/// The value of the 11 bit two's complement number `bits`.
pub open spec fn sext11(bits: u32) -> i16 {
    if bits >= 0x400 {
        (bits - 0x800) as i16
    } else {
        bits as i16
    }
}

/// Returns the value of the 11 bit two's complement number `bits` (below `0x800`).
pub fn sign_extend11(bits: u32) -> (r: i16)
    requires
        bits < 0x800,
    ensures
        r == sext11(bits),
        -0x400 <= r < 0x400,
{
    if bits >= 0x400 {
        (bits as i32 - 0x800) as i16
    } else {
        bits as i16
    }
}

/// `value` wrapped to an 11 bit two's complement number.
pub open spec fn wrap11(value: int) -> i16 {
    sext11(((value % 0x800 + 0x800) % 0x800) as u32)
}

/// A vertex position packet: X in bits 0..11 and Y in bits 16..27, as 11 bit two's complement.
#[derive(Debug, Clone, Copy, PartialEq, Eq, Structural, Default)]
pub struct VertexPositionPacket(pub u32);

impl VertexPositionPacket {
    /// The X coordinate.
    pub open spec fn spec_x(self) -> i16 {
        sext11(bits_of(self.0, 0, 11))
    }

    /// The Y coordinate.
    pub open spec fn spec_y(self) -> i16 {
        sext11(bits_of(self.0, 16, 11))
    }

    /// Returns the X coordinate.
    pub fn x(&self) -> (r: i16)
        ensures
            r == self.spec_x(),
            -0x400 <= r < 0x400,
    {
        proof {
            vstd::arithmetic::power2::lemma2_to64();
        }
        sign_extend11(field(self.0, 0, 11))
    }

    /// Returns the Y coordinate.
    pub fn y(&self) -> (r: i16)
        ensures
            r == self.spec_y(),
            -0x400 <= r < 0x400,
    {
        proof {
            vstd::arithmetic::power2::lemma2_to64();
        }
        sign_extend11(field(self.0, 16, 11))
    }
}

/// Adds an offset to a coordinate, wrapping to 11 bit two's complement.
pub fn apply_offset(coord: i16, offset: i16) -> (r: i16)
    requires
        -0x400 <= coord < 0x400,
        -0x400 <= offset < 0x400,
    ensures
        r == wrap11(coord + offset),
        -0x400 <= r < 0x400,
{
    let sum = coord as i32 + offset as i32;
    let bits = ((sum % 0x800 + 0x800) % 0x800) as u32;
    sign_extend11(bits)
}

/// A vertex UV packet: the texture coordinates in bits 0..8 and 8..16, the CLUT in bits 16..32,
/// or the texture page in bits 16..25 and its texture disable flag in bit 26.
#[derive(Debug, Clone, Copy, PartialEq, Eq, Structural, Default)]
pub struct VertexUVPacket(pub u32);

impl VertexUVPacket {
    /// The U coordinate. (bits 0..8)
    pub fn u(&self) -> (r: u8)
        ensures
            r == bits_of(self.0, 0, 8),
    {
        proof {
            vstd::arithmetic::power2::lemma2_to64();
        }
        field(self.0, 0, 8) as u8
    }

    /// The V coordinate. (bits 8..16)
    pub fn v(&self) -> (r: u8)
        ensures
            r == bits_of(self.0, 8, 8),
    {
        proof {
            vstd::arithmetic::power2::lemma2_to64();
        }
        field(self.0, 8, 8) as u8
    }

    /// The color lookup table. (bits 16..32)
    pub fn clut(&self) -> (r: crate::gpu::texture::Clut)
        ensures
            r.0 == bits_of(self.0, 16, 16),
    {
        proof {
            vstd::arithmetic::power2::lemma2_to64();
        }
        crate::gpu::texture::Clut(field(self.0, 16, 16) as u16)
    }

    /// The texture page. (bits 16..25)
    pub fn texpage(&self) -> (r: crate::gpu::texture::TexPage)
        ensures
            r.0 == bits_of(self.0, 16, 9),
    {
        proof {
            vstd::arithmetic::power2::lemma2_to64();
        }
        crate::gpu::texture::TexPage(field(self.0, 16, 9) as u16)
    }

    /// Whether textures are disabled. (bit 26)
    pub fn texture_disable(&self) -> (r: bool)
        ensures
            r == (bits_of(self.0, 26, 1) == 1),
    {
        field(self.0, 26, 1) == 1
    }
}

} // verus!
