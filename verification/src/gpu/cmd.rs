//! Commands received by the GPU.
pub mod display;
pub mod environment;
pub mod rendering;

use self::display::{
    DisplayAreaCmd, DisplayEnableCmd, DisplayModeCmd, DmaDirectionCmd, HorizontalDisplayRangeCmd,
    VerticalDisplayRangeCmd, VramSizeCmd,
};
use self::environment::{
    DrawingAreaCornerCmd, DrawingOffsetCmd, DrawingSettingsCmd, MaskSettingsCmd,
    TextureWindowSettingsCmd,
};
use self::rendering::{LineCmd, PolygonCmd, RectangleCmd, RectangleMode, ShadingMode};
use crate::bits::{bits_of, field};
use vstd::prelude::*;

verus! {

/// The primary opcode of a [`RenderingCommand`].
#[derive(Debug, Clone, Copy, PartialEq, Eq, Structural)]
pub enum RenderingOpcode {
    Misc,
    Polygon,
    Line,
    Rectangle,
    VramToVramBlit,
    CpuToVramBlit,
    VramToCpuBlit,
    Environment,
}

impl RenderingOpcode {
    /// The code of this value.
    pub open spec fn spec_code(self) -> u32 {
        match self {
            RenderingOpcode::Misc => 0,
            RenderingOpcode::Polygon => 1,
            RenderingOpcode::Line => 2,
            RenderingOpcode::Rectangle => 3,
            RenderingOpcode::VramToVramBlit => 4,
            RenderingOpcode::CpuToVramBlit => 5,
            RenderingOpcode::VramToCpuBlit => 6,
            RenderingOpcode::Environment => 7,
        }
    }

    /// The value with the given code, if any.
    pub open spec fn spec_from_code(code: u32) -> Option<RenderingOpcode> {
        if code == 0 { Some(RenderingOpcode::Misc) } else if code == 1 { Some(RenderingOpcode::Polygon) } else if code == 2 { Some(RenderingOpcode::Line) } else if code == 3 { Some(RenderingOpcode::Rectangle) } else if code == 4 { Some(RenderingOpcode::VramToVramBlit) } else if code == 5 { Some(RenderingOpcode::CpuToVramBlit) } else if code == 6 { Some(RenderingOpcode::VramToCpuBlit) } else if code == 7 { Some(RenderingOpcode::Environment) } else { None }
    }

    /// Returns the value with the given code, if any.
    pub fn from_code(code: u32) -> (r: Option<RenderingOpcode>)
        ensures
            r == Self::spec_from_code(code),
    {
        match code {
            0 => Some(RenderingOpcode::Misc),
            1 => Some(RenderingOpcode::Polygon),
            2 => Some(RenderingOpcode::Line),
            3 => Some(RenderingOpcode::Rectangle),
            4 => Some(RenderingOpcode::VramToVramBlit),
            5 => Some(RenderingOpcode::CpuToVramBlit),
            6 => Some(RenderingOpcode::VramToCpuBlit),
            7 => Some(RenderingOpcode::Environment),
            _ => None,
        }
    }
}

/// The misc opcode of a [`RenderingCommand`].
#[derive(Debug, Clone, Copy, PartialEq, Eq, Structural)]
pub enum MiscOpcode {
    /// Does nothing.
    NOP,
    /// Clear the texture cache of the GPU.
    ClearCache,
    /// Fills an area in the frame buffer with a color.
    QuickRectangleFill,
    /// Requests an interrupt.
    InterruptRequest,
}

impl MiscOpcode {
    /// The code of this value.
    pub open spec fn spec_code(self) -> u32 {
        match self {
            MiscOpcode::NOP => 0x00,
            MiscOpcode::ClearCache => 0x01,
            MiscOpcode::QuickRectangleFill => 0x02,
            MiscOpcode::InterruptRequest => 0x1F,
        }
    }

    /// The value with the given code, if any.
    pub open spec fn spec_from_code(code: u32) -> Option<MiscOpcode> {
        if code == 0x00 { Some(MiscOpcode::NOP) } else if code == 0x01 { Some(MiscOpcode::ClearCache) } else if code == 0x02 { Some(MiscOpcode::QuickRectangleFill) } else if code == 0x1F { Some(MiscOpcode::InterruptRequest) } else { None }
    }

    /// Returns the value with the given code, if any.
    pub fn from_code(code: u32) -> (r: Option<MiscOpcode>)
        ensures
            r == Self::spec_from_code(code),
    {
        match code {
            0x00 => Some(MiscOpcode::NOP),
            0x01 => Some(MiscOpcode::ClearCache),
            0x02 => Some(MiscOpcode::QuickRectangleFill),
            0x1F => Some(MiscOpcode::InterruptRequest),
            _ => None,
        }
    }
}

/// The environment opcode of a [`RenderingCommand`].
#[derive(Debug, Clone, Copy, PartialEq, Eq, Structural)]
pub enum EnvironmentOpcode {
    /// Set the drawing settings.
    DrawingSettings,
    /// Set the texture window settings.
    TexWindowSettings,
    /// Set the top-left position of the drawing area.
    DrawingAreaTopLeft,
    /// Set the bottom-right position of the drawing area.
    DrawingAreaBottomRight,
    /// Set the offset of the drawing area.
    DrawingOffset,
    /// Set the mask settings.
    MaskSettings,
}

impl EnvironmentOpcode {
    /// The code of this value.
    pub open spec fn spec_code(self) -> u32 {
        match self {
            EnvironmentOpcode::DrawingSettings => 1,
            EnvironmentOpcode::TexWindowSettings => 2,
            EnvironmentOpcode::DrawingAreaTopLeft => 3,
            EnvironmentOpcode::DrawingAreaBottomRight => 4,
            EnvironmentOpcode::DrawingOffset => 5,
            EnvironmentOpcode::MaskSettings => 6,
        }
    }

    /// The value with the given code, if any.
    pub open spec fn spec_from_code(code: u32) -> Option<EnvironmentOpcode> {
        if code == 1 { Some(EnvironmentOpcode::DrawingSettings) } else if code == 2 { Some(EnvironmentOpcode::TexWindowSettings) } else if code == 3 { Some(EnvironmentOpcode::DrawingAreaTopLeft) } else if code == 4 { Some(EnvironmentOpcode::DrawingAreaBottomRight) } else if code == 5 { Some(EnvironmentOpcode::DrawingOffset) } else if code == 6 { Some(EnvironmentOpcode::MaskSettings) } else { None }
    }

    /// Returns the value with the given code, if any.
    pub fn from_code(code: u32) -> (r: Option<EnvironmentOpcode>)
        ensures
            r == Self::spec_from_code(code),
    {
        match code {
            1 => Some(EnvironmentOpcode::DrawingSettings),
            2 => Some(EnvironmentOpcode::TexWindowSettings),
            3 => Some(EnvironmentOpcode::DrawingAreaTopLeft),
            4 => Some(EnvironmentOpcode::DrawingAreaBottomRight),
            5 => Some(EnvironmentOpcode::DrawingOffset),
            6 => Some(EnvironmentOpcode::MaskSettings),
            _ => None,
        }
    }
}

/// The opcode of a [`DisplayCommand`].
#[derive(Debug, Clone, Copy, PartialEq, Eq, Structural)]
pub enum DisplayOpcode {
    ResetGpu,
    ResetCommandBuffer,
    AcknowledgeGpuInterrupt,
    DisplayEnabled,
    DmaDirection,
    DisplayArea,
    HorizontalDisplayRange,
    VerticalDisplayRange,
    DisplayMode,
    VramSizeV2,
    ReadGpuRegister,
    VramSizeV1,
}

impl DisplayOpcode {
    /// The code of this value.
    pub open spec fn spec_code(self) -> u32 {
        match self {
            DisplayOpcode::ResetGpu => 0x0,
            DisplayOpcode::ResetCommandBuffer => 0x1,
            DisplayOpcode::AcknowledgeGpuInterrupt => 0x2,
            DisplayOpcode::DisplayEnabled => 0x3,
            DisplayOpcode::DmaDirection => 0x4,
            DisplayOpcode::DisplayArea => 0x5,
            DisplayOpcode::HorizontalDisplayRange => 0x6,
            DisplayOpcode::VerticalDisplayRange => 0x7,
            DisplayOpcode::DisplayMode => 0x8,
            DisplayOpcode::VramSizeV2 => 0x09,
            DisplayOpcode::ReadGpuRegister => 0x10,
            DisplayOpcode::VramSizeV1 => 0x20,
        }
    }

    /// The value with the given code, if any.
    pub open spec fn spec_from_code(code: u32) -> Option<DisplayOpcode> {
        if code == 0x0 { Some(DisplayOpcode::ResetGpu) } else if code == 0x1 { Some(DisplayOpcode::ResetCommandBuffer) } else if code == 0x2 { Some(DisplayOpcode::AcknowledgeGpuInterrupt) } else if code == 0x3 { Some(DisplayOpcode::DisplayEnabled) } else if code == 0x4 { Some(DisplayOpcode::DmaDirection) } else if code == 0x5 { Some(DisplayOpcode::DisplayArea) } else if code == 0x6 { Some(DisplayOpcode::HorizontalDisplayRange) } else if code == 0x7 { Some(DisplayOpcode::VerticalDisplayRange) } else if code == 0x8 { Some(DisplayOpcode::DisplayMode) } else if code == 0x09 { Some(DisplayOpcode::VramSizeV2) } else if code == 0x10 { Some(DisplayOpcode::ReadGpuRegister) } else if code == 0x20 { Some(DisplayOpcode::VramSizeV1) } else { None }
    }

    /// Returns the value with the given code, if any.
    pub fn from_code(code: u32) -> (r: Option<DisplayOpcode>)
        ensures
            r == Self::spec_from_code(code),
    {
        match code {
            0x0 => Some(DisplayOpcode::ResetGpu),
            0x1 => Some(DisplayOpcode::ResetCommandBuffer),
            0x2 => Some(DisplayOpcode::AcknowledgeGpuInterrupt),
            0x3 => Some(DisplayOpcode::DisplayEnabled),
            0x4 => Some(DisplayOpcode::DmaDirection),
            0x5 => Some(DisplayOpcode::DisplayArea),
            0x6 => Some(DisplayOpcode::HorizontalDisplayRange),
            0x7 => Some(DisplayOpcode::VerticalDisplayRange),
            0x8 => Some(DisplayOpcode::DisplayMode),
            0x09 => Some(DisplayOpcode::VramSizeV2),
            0x10 => Some(DisplayOpcode::ReadGpuRegister),
            0x20 => Some(DisplayOpcode::VramSizeV1),
            _ => None,
        }
    }
}

/// A display command. Received through GP1.
#[derive(Debug, Clone, Copy, PartialEq, Eq, Structural)]
pub struct DisplayCommand(pub u32);

impl DisplayCommand {
    /// The operation of this command. (bits 24..30)
    pub open spec fn spec_opcode(self) -> Option<DisplayOpcode> {
        DisplayOpcode::spec_from_code(bits_of(self.0, 24, 6))
    }

    /// Returns: the operation of this command.
    pub fn opcode(&self) -> (r: Option<DisplayOpcode>)
        ensures
            r == self.spec_opcode(),
    {
        DisplayOpcode::from_code(field(self.0, 24, 6))
    }

}

impl DisplayCommand {
    /// This command as a display enable command.
    pub fn display_enable_cmd(&self) -> (r: DisplayEnableCmd)
        ensures
            r.0 == self.0,
    {
        DisplayEnableCmd(self.0)
    }

    /// This command as a DMA direction command.
    pub fn dma_direction_cmd(&self) -> (r: DmaDirectionCmd)
        ensures
            r.0 == self.0,
    {
        DmaDirectionCmd(self.0)
    }

    /// This command as a display area command.
    pub fn display_area_cmd(&self) -> (r: DisplayAreaCmd)
        ensures
            r.0 == self.0,
    {
        DisplayAreaCmd(self.0)
    }

    /// This command as a horizontal display range command.
    pub fn horizontal_display_range_cmd(&self) -> (r: HorizontalDisplayRangeCmd)
        ensures
            r.0 == self.0,
    {
        HorizontalDisplayRangeCmd(self.0)
    }

    /// This command as a vertical display range command.
    pub fn vertical_display_range_cmd(&self) -> (r: VerticalDisplayRangeCmd)
        ensures
            r.0 == self.0,
    {
        VerticalDisplayRangeCmd(self.0)
    }

    /// This command as a display mode command.
    pub fn display_mode_cmd(&self) -> (r: DisplayModeCmd)
        ensures
            r.0 == self.0,
    {
        DisplayModeCmd(self.0)
    }

    /// This command as a VRAM size command.
    pub fn vram_size_cmd(&self) -> (r: VramSizeCmd)
        ensures
            r.0 == self.0,
    {
        VramSizeCmd(self.0)
    }
}

/// A rendering command. Received through GP0.
#[derive(Debug, Clone, Copy, PartialEq, Eq, Structural)]
pub struct RenderingCommand(pub u32);

impl RenderingCommand {
    /// The operation of this command. (bits 29..32)
    pub open spec fn spec_opcode(self) -> RenderingOpcode {
        RenderingOpcode::spec_from_code(bits_of(self.0, 29, 3)).unwrap()
    }

    /// Returns: the operation of this command.
    pub fn opcode(&self) -> (r: RenderingOpcode)
        ensures
            r == self.spec_opcode(),
    {
        proof {
            vstd::arithmetic::power2::lemma2_to64();
        }
        RenderingOpcode::from_code(field(self.0, 29, 3)).unwrap()
    }

    /// The misc operation of this command. (bits 24..29)
    pub open spec fn spec_misc_opcode(self) -> Option<MiscOpcode> {
        MiscOpcode::spec_from_code(bits_of(self.0, 24, 5))
    }

    /// Returns: the misc operation of this command.
    pub fn misc_opcode(&self) -> (r: Option<MiscOpcode>)
        ensures
            r == self.spec_misc_opcode(),
    {
        MiscOpcode::from_code(field(self.0, 24, 5))
    }

    /// The environment operation of this command. (bits 24..27)
    pub open spec fn spec_environment_opcode(self) -> Option<EnvironmentOpcode> {
        EnvironmentOpcode::spec_from_code(bits_of(self.0, 24, 3))
    }

    /// Returns: the environment operation of this command.
    pub fn environment_opcode(&self) -> (r: Option<EnvironmentOpcode>)
        ensures
            r == self.spec_environment_opcode(),
    {
        EnvironmentOpcode::from_code(field(self.0, 24, 3))
    }

}

impl RenderingCommand {
    /// This command as a polygon command.
    pub fn polygon_cmd(&self) -> (r: PolygonCmd)
        ensures
            r.0 == self.0,
    {
        PolygonCmd(self.0)
    }

    /// This command as a line command.
    pub fn line_cmd(&self) -> (r: LineCmd)
        ensures
            r.0 == self.0,
    {
        LineCmd(self.0)
    }

    /// This command as a rectangle command.
    pub fn rectangle_cmd(&self) -> (r: RectangleCmd)
        ensures
            r.0 == self.0,
    {
        RectangleCmd(self.0)
    }

    /// This command as a drawing settings command.
    pub fn drawing_settings_cmd(&self) -> (r: DrawingSettingsCmd)
        ensures
            r.0 == self.0,
    {
        DrawingSettingsCmd(self.0)
    }

    /// This command as a texture window settings command.
    pub fn texture_window_settings_cmd(&self) -> (r: TextureWindowSettingsCmd)
        ensures
            r.0 == self.0,
    {
        TextureWindowSettingsCmd(self.0)
    }

    /// This command as a drawing area corner command.
    pub fn drawing_area_corner_cmd(&self) -> (r: DrawingAreaCornerCmd)
        ensures
            r.0 == self.0,
    {
        DrawingAreaCornerCmd(self.0)
    }

    /// This command as a drawing offset command.
    pub fn drawing_offset_cmd(&self) -> (r: DrawingOffsetCmd)
        ensures
            r.0 == self.0,
    {
        DrawingOffsetCmd(self.0)
    }

    /// This command as a mask settings command.
    pub fn mask_settings_cmd(&self) -> (r: MaskSettingsCmd)
        ensures
            r.0 == self.0,
    {
        MaskSettingsCmd(self.0)
    }

    /// How many arguments a command takes before execution can start: a quick rectangle fill
    /// takes two; a polygon one per vertex, plus one more per vertex if Gouraud shaded and one
    /// more per vertex if textured; a line two, four if Gouraud shaded; a rectangle two, plus one
    /// if textured and one if its size is variable; a blit between VRAM places three, one to or
    /// from the CPU two; others none.
    pub open spec fn spec_args(self) -> usize {
        let (p, l, r) = (PolygonCmd(self.0), LineCmd(self.0), RectangleCmd(self.0));
        match self.spec_opcode() {
            RenderingOpcode::Misc => match self.spec_misc_opcode() {
                Some(MiscOpcode::QuickRectangleFill) => 2,
                _ => 0,
            },
            RenderingOpcode::Polygon => {
                let vertices = p.spec_polygon_mode().spec_vertices();
                let colors = if p.spec_shading_mode() == ShadingMode::Gouraud {
                    vertices
                } else {
                    0
                };
                let uvs = if bits_of(self.0, 26, 1) == 1 {
                    vertices
                } else {
                    0
                };
                (vertices + colors + uvs) as usize
            },
            RenderingOpcode::Line => if l.spec_shading_mode() == ShadingMode::Gouraud {
                4
            } else {
                2
            },
            RenderingOpcode::Rectangle => {
                let uv: usize = if bits_of(self.0, 26, 1) == 1 {
                    1
                } else {
                    0
                };
                let dimensions: usize = if r.spec_rectangle_mode() == RectangleMode::Variable {
                    1
                } else {
                    0
                };
                (2 + uv + dimensions) as usize
            },
            RenderingOpcode::VramToVramBlit => 3,
            RenderingOpcode::CpuToVramBlit => 2,
            RenderingOpcode::VramToCpuBlit => 2,
            RenderingOpcode::Environment => 0,
        }
    }

    /// Returns how many arguments this command requires before execution can start.
    pub fn args(&self) -> (r: usize)
        ensures
            r == self.spec_args(),
    {
        match self.opcode() {
            RenderingOpcode::Misc => match self.misc_opcode() {
                Some(MiscOpcode::QuickRectangleFill) => 2,
                _ => 0,
            },
            RenderingOpcode::Polygon => {
                let cmd = self.polygon_cmd();
                let vertices = cmd.polygon_mode().vertices();
                let colors = vertices * match cmd.shading_mode() {
                    ShadingMode::Flat => 0,
                    ShadingMode::Gouraud => 1,
                };
                let uvs = vertices * if cmd.textured() {
                    1
                } else {
                    0
                };
                vertices + colors + uvs
            },
            RenderingOpcode::Line => {
                let cmd = self.line_cmd();
                match cmd.shading_mode() {
                    ShadingMode::Flat => 2,
                    ShadingMode::Gouraud => 4,
                }
            },
            RenderingOpcode::Rectangle => {
                let cmd = self.rectangle_cmd();
                let uv: usize = if cmd.textured() {
                    1
                } else {
                    0
                };
                let dimensions: usize = match cmd.rectangle_mode() {
                    RectangleMode::Variable => 1,
                    _ => 0,
                };
                2 + uv + dimensions
            },
            RenderingOpcode::VramToVramBlit => 3,
            RenderingOpcode::CpuToVramBlit => 2,
            RenderingOpcode::VramToCpuBlit => 2,
            RenderingOpcode::Environment => 0,
        }
    }
}

} // verus!
