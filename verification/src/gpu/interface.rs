//! The interface for renderer implementations: the commands the GPU gives a renderer.
use super::cmd::rendering::{BlendingMode as TransparencyMode, ShadingMode};
use super::texture::{BlendingMode, Clut, TexPage, TexWindow};
use vstd::prelude::*;

pub use super::renderer::{DisplayResolution, Rgba8};

verus! {

/// VRAM coordinates: X below `0x400`, Y below `0x200`.
#[derive(Debug, Clone, Copy, PartialEq, Eq, Structural)]
pub struct VramCoords {
    pub x: u16,
    pub y: u16,
}

/// VRAM dimensions: width up to `0x400`, height up to `0x200`.
#[derive(Debug, Clone, Copy, PartialEq, Eq, Structural)]
pub struct VramDimensions {
    pub width: u16,
    pub height: u16,
}

/// Texture configuration.
#[derive(Debug, Clone, Copy, Default, PartialEq, Eq, Structural)]
pub struct TexConfig {
    pub clut: Clut,
    pub texpage: TexPage,
    pub texwindow: TexWindow,
}

/// A data copy to VRAM.
#[derive(Debug, Clone)]
pub struct CopyToVram {
    pub coords: VramCoords,
    pub dimensions: VramDimensions,
    pub data: Vec<u8>,
}

/// A data copy from VRAM, whose bytes the renderer gives back.
#[derive(Debug, Clone, Copy, PartialEq, Eq, Structural)]
pub struct CopyFromVram {
    pub coords: VramCoords,
    pub dimensions: VramDimensions,
}

/// The area of VRAM drawing goes to.
#[derive(Debug, Clone, Copy, PartialEq, Eq, Structural)]
pub struct DrawingArea {
    pub coords: VramCoords,
    pub dimensions: VramDimensions,
}

/// How drawing blends and masks.
#[derive(Debug, Clone, Copy, PartialEq, Eq, Structural)]
pub struct DrawingSettings {
    pub blending_mode: BlendingMode,
    pub write_to_mask: bool,
    pub check_mask: bool,
}

/// A vertex of a primitive.
#[derive(Debug, Clone, Copy, PartialEq, Eq, Structural)]
pub struct Vertex {
    pub color: Rgba8,
    /// X, as an 11 bit two's complement number.
    pub x: i16,
    /// Y, as an 11 bit two's complement number.
    pub y: i16,
    pub u: u8,
    pub v: u8,
}

/// A triangle primitive.
#[derive(Debug, Clone, Copy)]
pub struct Triangle {
    pub vertices: [Vertex; 3],
    pub shading: ShadingMode,
    pub transparency: TransparencyMode,
    pub texconfig: Option<TexConfig>,
}

/// A rectangle primitive.
#[derive(Debug, Clone, Copy)]
pub struct Rectangle {
    pub top_left: Vertex,
    pub width: u16,
    pub height: u16,
    pub transparency: TransparencyMode,
    pub texconfig: Option<TexConfig>,
}

/// A drawing primitive.
#[derive(Debug, Clone, Copy)]
pub enum Primitive {
    Triangle(Triangle),
    Rectangle(Rectangle),
}

/// A renderer command.
#[derive(Debug, Clone)]
pub enum Command {
    SetDrawingArea(DrawingArea),
    SetDrawingSettings(DrawingSettings),
    SetTexWindow(TexWindow),
    SetDisplayTopLeft(VramCoords),
    SetDisplayResolution(DisplayResolution),
    VBlank,
    CopyToVram(CopyToVram),
    CopyFromVram(CopyFromVram),
    Draw { primitive: Primitive },
}

/// The contents of a copy to VRAM.
pub ghost struct CopyToVramView {
    pub coords: VramCoords,
    pub dimensions: VramDimensions,
    pub data: Seq<u8>,
}

/// The contents of a renderer command.
pub ghost enum CommandView {
    SetDrawingArea(DrawingArea),
    SetDrawingSettings(DrawingSettings),
    SetTexWindow(TexWindow),
    SetDisplayTopLeft(VramCoords),
    SetDisplayResolution(DisplayResolution),
    VBlank,
    CopyToVram(CopyToVramView),
    CopyFromVram(CopyFromVram),
    Draw { primitive: Primitive },
}

impl View for Command {
    type V = CommandView;

    open spec fn view(&self) -> CommandView {
        match self {
            Command::SetDrawingArea(area) => CommandView::SetDrawingArea(*area),
            Command::SetDrawingSettings(settings) => CommandView::SetDrawingSettings(*settings),
            Command::SetTexWindow(window) => CommandView::SetTexWindow(*window),
            Command::SetDisplayTopLeft(coords) => CommandView::SetDisplayTopLeft(*coords),
            Command::SetDisplayResolution(resolution) => CommandView::SetDisplayResolution(*resolution),
            Command::VBlank => CommandView::VBlank,
            Command::CopyToVram(copy) => CommandView::CopyToVram(
                CopyToVramView { coords: copy.coords, dimensions: copy.dimensions, data: copy.data@ },
            ),
            Command::CopyFromVram(copy) => CommandView::CopyFromVram(*copy),
            Command::Draw { primitive } => CommandView::Draw { primitive: *primitive },
        }
    }
}

/// The contents of each of `commands`.
pub open spec fn views(commands: Seq<Command>) -> Seq<CommandView> {
    commands.map_values(|c: Command| c@)
}

} // verus!
