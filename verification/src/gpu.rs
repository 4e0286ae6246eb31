//! Items related to the GPU of the PSX.
pub mod cmd;
pub mod instr;
pub mod interface;
pub mod interpreter;
pub mod renderer;
pub mod texture;

use crate::bits::{bits_of, field, set_field, with_bits};
use cmd::{DisplayCommand, DisplayOpcode};
use renderer::{DisplayResolution, DisplayTopLeft};
use std::collections::VecDeque;
use texture::{BlendingMode, Depth, TexPage, TexWindow};
use vstd::prelude::*;

verus! {

/// The horizontal resolution of the display.
#[derive(Debug, Clone, Copy, PartialEq, Eq, Structural)]
pub enum HorizontalResolution {
    R256,
    R320,
    R512,
    R640,
}

impl HorizontalResolution {
    /// The code of this value.
    pub open spec fn spec_code(self) -> u32 {
        match self {
            HorizontalResolution::R256 => 0,
            HorizontalResolution::R320 => 1,
            HorizontalResolution::R512 => 2,
            HorizontalResolution::R640 => 3,
        }
    }

    /// The value with the given code, if any.
    pub open spec fn spec_from_code(code: u32) -> Option<HorizontalResolution> {
        if code == 0 { Some(HorizontalResolution::R256) } else if code == 1 { Some(HorizontalResolution::R320) } else if code == 2 { Some(HorizontalResolution::R512) } else if code == 3 { Some(HorizontalResolution::R640) } else { None }
    }

    /// Returns the value with the given code, if any.
    pub fn from_code(code: u32) -> (r: Option<HorizontalResolution>)
        ensures
            r == Self::spec_from_code(code),
    {
        match code {
            0 => Some(HorizontalResolution::R256),
            1 => Some(HorizontalResolution::R320),
            2 => Some(HorizontalResolution::R512),
            3 => Some(HorizontalResolution::R640),
            _ => None,
        }
    }
}

impl HorizontalResolution {
    /// The number of pixels of a line.
    pub open spec fn spec_value(self) -> u16 {
        match self {
            HorizontalResolution::R256 => 256,
            HorizontalResolution::R320 => 320,
            HorizontalResolution::R512 => 512,
            HorizontalResolution::R640 => 640,
        }
    }

    /// Returns the number of pixels of a line.
    pub fn value(&self) -> (r: u16)
        ensures
            r == self.spec_value(),
    {
        match self {
            HorizontalResolution::R256 => 256,
            HorizontalResolution::R320 => 320,
            HorizontalResolution::R512 => 512,
            HorizontalResolution::R640 => 640,
        }
    }
}

/// The vertical resolution of the display.
#[derive(Debug, Clone, Copy, PartialEq, Eq, Structural)]
pub enum VerticalResolution {
    R240,
    R480,
}

impl VerticalResolution {
    /// The code of this value.
    pub open spec fn spec_code(self) -> u32 {
        match self {
            VerticalResolution::R240 => 0,
            VerticalResolution::R480 => 1,
        }
    }

    /// The value with the given code, if any.
    pub open spec fn spec_from_code(code: u32) -> Option<VerticalResolution> {
        if code == 0 { Some(VerticalResolution::R240) } else if code == 1 { Some(VerticalResolution::R480) } else { None }
    }

    /// Returns the value with the given code, if any.
    pub fn from_code(code: u32) -> (r: Option<VerticalResolution>)
        ensures
            r == Self::spec_from_code(code),
    {
        match code {
            0 => Some(VerticalResolution::R240),
            1 => Some(VerticalResolution::R480),
            _ => None,
        }
    }
}

impl VerticalResolution {
    /// The number of lines.
    pub open spec fn spec_value(self) -> u16 {
        match self {
            VerticalResolution::R240 => 240,
            VerticalResolution::R480 => 480,
        }
    }

    /// Returns the number of lines.
    pub fn value(&self) -> (r: u16)
        ensures
            r == self.spec_value(),
    {
        match self {
            VerticalResolution::R240 => 240,
            VerticalResolution::R480 => 480,
        }
    }
}

/// The video mode of the display.
#[derive(Debug, Clone, Copy, PartialEq, Eq, Structural)]
pub enum VideoMode {
    /// 60Hz
    NTSC,
    /// 50Hz
    PAL,
}

impl VideoMode {
    /// The code of this value.
    pub open spec fn spec_code(self) -> u32 {
        match self {
            VideoMode::NTSC => 0,
            VideoMode::PAL => 1,
        }
    }

    /// The value with the given code, if any.
    pub open spec fn spec_from_code(code: u32) -> Option<VideoMode> {
        if code == 0 { Some(VideoMode::NTSC) } else if code == 1 { Some(VideoMode::PAL) } else { None }
    }

    /// Returns the value with the given code, if any.
    pub fn from_code(code: u32) -> (r: Option<VideoMode>)
        ensures
            r == Self::spec_from_code(code),
    {
        match code {
            0 => Some(VideoMode::NTSC),
            1 => Some(VideoMode::PAL),
            _ => None,
        }
    }
}

/// The color depth of the display.
#[derive(Debug, Clone, Copy, PartialEq, Eq, Structural)]
pub enum DisplayDepth {
    /// 15 Bit
    Limited,
    /// 24 Bit
    Full,
}

impl DisplayDepth {
    /// The code of this value.
    pub open spec fn spec_code(self) -> u32 {
        match self {
            DisplayDepth::Limited => 0,
            DisplayDepth::Full => 1,
        }
    }

    /// The value with the given code, if any.
    pub open spec fn spec_from_code(code: u32) -> Option<DisplayDepth> {
        if code == 0 { Some(DisplayDepth::Limited) } else if code == 1 { Some(DisplayDepth::Full) } else { None }
    }

    /// Returns the value with the given code, if any.
    pub fn from_code(code: u32) -> (r: Option<DisplayDepth>)
        ensures
            r == Self::spec_from_code(code),
    {
        match code {
            0 => Some(DisplayDepth::Limited),
            1 => Some(DisplayDepth::Full),
            _ => None,
        }
    }
}

/// The compression mode of colors.
#[derive(Debug, Clone, Copy, PartialEq, Eq, Structural)]
pub enum CompressionMode {
    /// Strip LSBs.
    Strip,
    /// Perform dithering.
    Dither,
}

impl CompressionMode {
    /// The code of this value.
    pub open spec fn spec_code(self) -> u32 {
        match self {
            CompressionMode::Strip => 0,
            CompressionMode::Dither => 1,
        }
    }

    /// The value with the given code, if any.
    pub open spec fn spec_from_code(code: u32) -> Option<CompressionMode> {
        if code == 0 { Some(CompressionMode::Strip) } else if code == 1 { Some(CompressionMode::Dither) } else { None }
    }

    /// Returns the value with the given code, if any.
    pub fn from_code(code: u32) -> (r: Option<CompressionMode>)
        ensures
            r == Self::spec_from_code(code),
    {
        match code {
            0 => Some(CompressionMode::Strip),
            1 => Some(CompressionMode::Dither),
            _ => None,
        }
    }
}

/// The direction of DMA transfers of the GPU.
#[derive(Debug, Clone, Copy, PartialEq, Eq, Structural)]
pub enum DmaDirection {
    Off,
    Fifo,
    CpuToGp0,
    GpuToCpu,
}

impl DmaDirection {
    /// The code of this value.
    pub open spec fn spec_code(self) -> u32 {
        match self {
            DmaDirection::Off => 0,
            DmaDirection::Fifo => 1,
            DmaDirection::CpuToGp0 => 2,
            DmaDirection::GpuToCpu => 3,
        }
    }

    /// The value with the given code, if any.
    pub open spec fn spec_from_code(code: u32) -> Option<DmaDirection> {
        if code == 0 { Some(DmaDirection::Off) } else if code == 1 { Some(DmaDirection::Fifo) } else if code == 2 { Some(DmaDirection::CpuToGp0) } else if code == 3 { Some(DmaDirection::GpuToCpu) } else { None }
    }

    /// Returns the value with the given code, if any.
    pub fn from_code(code: u32) -> (r: Option<DmaDirection>)
        ensures
            r == Self::spec_from_code(code),
    {
        match code {
            0 => Some(DmaDirection::Off),
            1 => Some(DmaDirection::Fifo),
            2 => Some(DmaDirection::CpuToGp0),
            3 => Some(DmaDirection::GpuToCpu),
            _ => None,
        }
    }
}

/// The status of the GPU.
#[derive(Debug, Clone, Copy, PartialEq, Eq, Structural)]
pub struct Status(pub u32);

impl Default for Status {
    /// The status at reset: display disabled, ready to receive commands and blocks, drawing to the
    /// display allowed.
    fn default() -> (r: Self)
        ensures
            r.0 == 0x1480_2000,
    {
        Status(0x1480_2000)
    }
}

impl Status {
    /// The X base of the texture page, in units of 64 pixels. (bits 0..4)
    pub fn texpage_x_base(&self) -> (r: u32)
        ensures
            r == bits_of(self.0, 0, 4),
    {
        field(self.0, 0, 4)
    }

    /// The Y base of the texture page, in units of 256 lines. (bits 4..5)
    pub fn texpage_y_base(&self) -> (r: u32)
        ensures
            r == bits_of(self.0, 4, 1),
    {
        field(self.0, 4, 1)
    }

    /// The blending mode of semi-transparent pixels. (bits 5..7)
    pub open spec fn spec_transparency_mode(self) -> BlendingMode {
        BlendingMode::spec_from_code(bits_of(self.0, 5, 2)).unwrap()
    }

    /// Returns: the blending mode of semi-transparent pixels.
    pub fn transparency_mode(&self) -> (r: BlendingMode)
        ensures
            r == self.spec_transparency_mode(),
    {
        proof {
            vstd::arithmetic::power2::lemma2_to64();
        }
        BlendingMode::from_code(field(self.0, 5, 2)).unwrap()
    }

    /// The depth of the texture page. (bits 7..9)
    pub open spec fn spec_texpage_depth(self) -> Depth {
        Depth::spec_from_code(bits_of(self.0, 7, 2)).unwrap()
    }

    /// Returns: the depth of the texture page.
    pub fn texpage_depth(&self) -> (r: Depth)
        ensures
            r == self.spec_texpage_depth(),
    {
        proof {
            vstd::arithmetic::power2::lemma2_to64();
        }
        Depth::from_code(field(self.0, 7, 2)).unwrap()
    }

    /// How colors are reduced. (bits 9..10)
    pub open spec fn spec_compression_mode(self) -> CompressionMode {
        CompressionMode::spec_from_code(bits_of(self.0, 9, 1)).unwrap()
    }

    /// Returns: how colors are reduced.
    pub fn compression_mode(&self) -> (r: CompressionMode)
        ensures
            r == self.spec_compression_mode(),
    {
        proof {
            vstd::arithmetic::power2::lemma2_to64();
        }
        CompressionMode::from_code(field(self.0, 9, 1)).unwrap()
    }

    /// Whether drawing to the displayed area is allowed. (bit 10)
    pub fn enable_drawing_to_display(&self) -> (r: bool)
        ensures
            r == (bits_of(self.0, 10, 1) == 1),
    {
        field(self.0, 10, 1) == 1
    }

    /// If enabled, drawing sets the mask bit on pixels. (bit 11)
    pub fn write_to_mask(&self) -> (r: bool)
        ensures
            r == (bits_of(self.0, 11, 1) == 1),
    {
        field(self.0, 11, 1) == 1
    }

    /// If enabled, pixels can only be drawn to non-masked areas. (bit 12)
    pub fn enable_mask(&self) -> (r: bool)
        ensures
            r == (bits_of(self.0, 12, 1) == 1),
    {
        field(self.0, 12, 1) == 1
    }

    /// Whether the display is interlaced. (bit 13)
    pub fn interlace(&self) -> (r: bool)
        ensures
            r == (bits_of(self.0, 13, 1) == 1),
    {
        field(self.0, 13, 1) == 1
    }

    /// Whether the screen is flipped horizontally. (bit 14)
    pub fn flip_screen_x(&self) -> (r: bool)
        ensures
            r == (bits_of(self.0, 14, 1) == 1),
    {
        field(self.0, 14, 1) == 1
    }

    /// Whether textures are disabled. (bit 15)
    pub fn texture_disable(&self) -> (r: bool)
        ensures
            r == (bits_of(self.0, 15, 1) == 1),
    {
        field(self.0, 15, 1) == 1
    }

    /// The horizontal resolution. (bits 16..18)
    pub open spec fn spec_horizontal_resolution(self) -> HorizontalResolution {
        HorizontalResolution::spec_from_code(bits_of(self.0, 16, 2)).unwrap()
    }

    /// Returns: the horizontal resolution.
    pub fn horizontal_resolution(&self) -> (r: HorizontalResolution)
        ensures
            r == self.spec_horizontal_resolution(),
    {
        proof {
            vstd::arithmetic::power2::lemma2_to64();
        }
        HorizontalResolution::from_code(field(self.0, 16, 2)).unwrap()
    }

    /// Whether the horizontal resolution is forced to 368. (bit 18)
    pub fn force_horizontal_368(&self) -> (r: bool)
        ensures
            r == (bits_of(self.0, 18, 1) == 1),
    {
        field(self.0, 18, 1) == 1
    }

    /// The vertical resolution. (bits 19..20)
    pub open spec fn spec_vertical_resolution(self) -> VerticalResolution {
        VerticalResolution::spec_from_code(bits_of(self.0, 19, 1)).unwrap()
    }

    /// Returns: the vertical resolution.
    pub fn vertical_resolution(&self) -> (r: VerticalResolution)
        ensures
            r == self.spec_vertical_resolution(),
    {
        proof {
            vstd::arithmetic::power2::lemma2_to64();
        }
        VerticalResolution::from_code(field(self.0, 19, 1)).unwrap()
    }

    /// The video mode. (bits 20..21)
    pub open spec fn spec_video_mode(self) -> VideoMode {
        VideoMode::spec_from_code(bits_of(self.0, 20, 1)).unwrap()
    }

    /// Returns: the video mode.
    pub fn video_mode(&self) -> (r: VideoMode)
        ensures
            r == self.spec_video_mode(),
    {
        proof {
            vstd::arithmetic::power2::lemma2_to64();
        }
        VideoMode::from_code(field(self.0, 20, 1)).unwrap()
    }

    /// The color depth of the display. (bits 21..22)
    pub open spec fn spec_display_depth(self) -> DisplayDepth {
        DisplayDepth::spec_from_code(bits_of(self.0, 21, 1)).unwrap()
    }

    /// Returns: the color depth of the display.
    pub fn display_depth(&self) -> (r: DisplayDepth)
        ensures
            r == self.spec_display_depth(),
    {
        proof {
            vstd::arithmetic::power2::lemma2_to64();
        }
        DisplayDepth::from_code(field(self.0, 21, 1)).unwrap()
    }

    /// Whether vertical interlacing is on. (bit 22)
    pub fn vertical_interlace(&self) -> (r: bool)
        ensures
            r == (bits_of(self.0, 22, 1) == 1),
    {
        field(self.0, 22, 1) == 1
    }

    /// Whether the display is disabled. (bit 23)
    pub fn disable_display(&self) -> (r: bool)
        ensures
            r == (bits_of(self.0, 23, 1) == 1),
    {
        field(self.0, 23, 1) == 1
    }

    /// Whether an interrupt is requested. (bit 24)
    pub fn interrupt_request(&self) -> (r: bool)
        ensures
            r == (bits_of(self.0, 24, 1) == 1),
    {
        field(self.0, 24, 1) == 1
    }

    /// Whether DMA data is requested. (bit 25)
    pub fn dma_request(&self) -> (r: bool)
        ensures
            r == (bits_of(self.0, 25, 1) == 1),
    {
        field(self.0, 25, 1) == 1
    }

    /// Whether a command can be received. (bit 26)
    pub fn ready_to_receive_cmd(&self) -> (r: bool)
        ensures
            r == (bits_of(self.0, 26, 1) == 1),
    {
        field(self.0, 26, 1) == 1
    }

    /// Whether VRAM data can be sent. (bit 27)
    pub fn ready_to_send_vram(&self) -> (r: bool)
        ensures
            r == (bits_of(self.0, 27, 1) == 1),
    {
        field(self.0, 27, 1) == 1
    }

    /// Whether a DMA block can be received. (bit 28)
    pub fn ready_to_receive_block(&self) -> (r: bool)
        ensures
            r == (bits_of(self.0, 28, 1) == 1),
    {
        field(self.0, 28, 1) == 1
    }

    /// The direction of DMA transfers. (bits 29..31)
    pub open spec fn spec_dma_direction(self) -> DmaDirection {
        DmaDirection::spec_from_code(bits_of(self.0, 29, 2)).unwrap()
    }

    /// Returns: the direction of DMA transfers.
    pub fn dma_direction(&self) -> (r: DmaDirection)
        ensures
            r == self.spec_dma_direction(),
    {
        proof {
            vstd::arithmetic::power2::lemma2_to64();
        }
        DmaDirection::from_code(field(self.0, 29, 2)).unwrap()
    }

    /// Whether the odd lines are being drawn. (bit 31)
    pub fn interlace_odd(&self) -> (r: bool)
        ensures
            r == (bits_of(self.0, 31, 1) == 1),
    {
        field(self.0, 31, 1) == 1
    }

    /// Sets bit `i` to `value`.
    pub fn set_bit(&mut self, i: u32, value: bool)
        requires
            i < 32,
        ensures
            final(self).0 == if value {
                old(self).0 | (1u32 << i)
            } else {
                old(self).0 & !(1u32 << i)
            },
    {
        self.0 = if value {
            self.0 | (1u32 << i)
        } else {
            self.0 & !(1u32 << i)
        };
    }

    /// The value of the DMA request flag for the current DMA direction: always set when off or
    /// in FIFO mode, else the readiness to receive a block or to send VRAM.
    pub open spec fn spec_dreq(self) -> bool {
        match self.spec_dma_direction() {
            DmaDirection::Off | DmaDirection::Fifo => true,
            DmaDirection::CpuToGp0 => bits_of(self.0, 28, 1) == 1,
            DmaDirection::GpuToCpu => bits_of(self.0, 27, 1) == 1,
        }
    }

    /// Updates the DMA request flag (bit 25) from the DMA direction.
    pub fn update_dreq(&mut self)
        ensures
            final(self).0 == if old(self).spec_dreq() {
                old(self).0 | (1u32 << 25u32)
            } else {
                old(self).0 & !(1u32 << 25u32)
            },
    {
        let request = match self.dma_direction() {
            DmaDirection::Off => true,
            DmaDirection::Fifo => true,
            DmaDirection::CpuToGp0 => self.ready_to_receive_block(),
            DmaDirection::GpuToCpu => self.ready_to_send_vram(),
        };
        self.set_bit(25, request);
    }

    /// The texture page the status describes: its bits 0..9 are those of a texture page.
    pub fn texpage(&self) -> (r: TexPage)
        ensures
            r.0 == bits_of(self.0, 0, 9),
    {
        proof {
            vstd::arithmetic::power2::lemma2_to64();
        }
        TexPage(field(self.0, 0, 9) as u16)
    }
}

/// Environment configuration of the GPU.
#[derive(Debug, Clone, Copy)]
pub struct EnvironmentState {
    pub double_vram: bool,
    pub textured_rect_flip_x: bool,
    pub textured_rect_flip_y: bool,
    /// The top left corner of the drawing area: X below `0x400`, Y below `0x200`.
    pub drawing_area_top_left_x: u16,
    pub drawing_area_top_left_y: u16,
    /// The bottom right corner of the drawing area: X below `0x400`, Y below `0x200`.
    pub drawing_area_bottom_right_x: u16,
    pub drawing_area_bottom_right_y: u16,
    /// The offset added to vertices, as 11 bit two's complement numbers.
    pub drawing_offset_x: i16,
    pub drawing_offset_y: i16,
    /// The texture window.
    pub texwindow: TexWindow,
}

/// Display configuration of the GPU: the top left of the displayed area in VRAM, and the
/// horizontal and vertical ranges of the display, as start and end.
#[derive(Debug)]
pub struct DisplayState {
    pub top_left_x: u16,
    pub top_left_y: u16,
    pub horizontal_range: (u16, u16),
    pub vertical_range: (u16, u16),
}

/// The state of the GPU.
#[derive(Debug)]
pub struct Gpu {
    /// GPU status. This is the value of GPUSTAT (GP1).
    pub status: Status,
    /// GPU response. This is the value of GPUREAD (GP0).
    pub response_queue: VecDeque<u32>,
    /// The queued packets written to GP0.
    pub render_queue: VecDeque<u32>,
    /// The queued packets written to GP1.
    pub display_queue: VecDeque<u32>,
    /// Environment configuration.
    pub environment: EnvironmentState,
    /// Display configuration.
    pub display: DisplayState,
}

impl Default for Gpu {
    fn default() -> (r: Self)
        ensures
            r.status.0 == 0x1480_2000,
            r.response_queue@.len() == 0,
            r.render_queue@.len() == 0,
            r.display_queue@.len() == 0,
    {
        Gpu {
            status: Status::default(),
            response_queue: VecDeque::new(),
            render_queue: VecDeque::new(),
            display_queue: VecDeque::new(),
            environment: EnvironmentState {
                double_vram: false,
                textured_rect_flip_x: false,
                textured_rect_flip_y: false,
                drawing_area_top_left_x: 0,
                drawing_area_top_left_y: 0,
                drawing_area_bottom_right_x: 0,
                drawing_area_bottom_right_y: 0,
                drawing_offset_x: 0,
                drawing_offset_y: 0,
                texwindow: TexWindow(0),
            },
            display: DisplayState {
                top_left_x: 0,
                top_left_y: 0,
                horizontal_range: (0, 0),
                vertical_range: (0, 0),
            },
        }
    }
}

/// The refresh rate of NTSC video, in thousandths of a hertz.
pub const NTSC_MILLIHERTZ: u64 = 59_826;

/// The refresh rate of PAL video, in thousandths of a hertz.
pub const PAL_MILLIHERTZ: u64 = 50_219;

impl Gpu {
    /// The CPU cycles in one frame of the video mode: the CPU frequency divided by the refresh
    /// rate, rounded down.
    pub open spec fn spec_cycles_per_vblank(mode: VideoMode) -> u32 {
        match mode {
            VideoMode::NTSC => (crate::cpu::FREQUENCY as int * 1000 / NTSC_MILLIHERTZ as int) as u32,
            VideoMode::PAL => (crate::cpu::FREQUENCY as int * 1000 / PAL_MILLIHERTZ as int) as u32,
        }
    }

    /// Returns the CPU cycles in one frame.
    #[inline]
    pub fn cycles_per_vblank(&self) -> (r: u32)
        ensures
            r == Self::spec_cycles_per_vblank(self.status.spec_video_mode()),
    {
        let rate = match self.status.video_mode() {
            VideoMode::NTSC => NTSC_MILLIHERTZ,
            VideoMode::PAL => PAL_MILLIHERTZ,
        };
        (crate::cpu::FREQUENCY as u64 * 1000 / rate) as u32
    }
}

/// What executing a display command asks of the rest of the machine.
#[derive(Debug, Clone, Copy, PartialEq, Eq, Structural)]
pub enum DisplayAction {
    /// Nothing.
    Nothing,
    /// The renderer takes a new display resolution.
    SetDisplayResolution(DisplayResolution),
    /// The renderer takes a new top left corner of the display.
    SetDisplayTopLeft(DisplayTopLeft),
    /// A DMA update is due now.
    ScheduleDmaUpdate,
}

/// The status after a display mode command `cmd`: its bits 0..8 go to the resolution, video
/// mode, depth, interlace, forced width and flip fields of the status.
pub open spec fn spec_display_mode_status(status: u32, cmd: u32) -> u32 {
    let s = with_bits(status, 16, 2, bits_of(cmd, 0, 2));
    let s = with_bits(s, 19, 1, bits_of(cmd, 2, 1));
    let s = with_bits(s, 20, 1, bits_of(cmd, 3, 1));
    let s = with_bits(s, 21, 1, bits_of(cmd, 4, 1));
    let s = with_bits(s, 22, 1, bits_of(cmd, 5, 1));
    let s = with_bits(s, 18, 1, bits_of(cmd, 6, 1));
    with_bits(s, 14, 1, bits_of(cmd, 7, 1))
}

impl Gpu {
    /// Executes the given display command (received through GP1). The command must have a known
    /// opcode.
    pub fn exec_display(&mut self, cmd: DisplayCommand) -> (r: DisplayAction)
        requires
            cmd.spec_opcode() is Some,
        ensures
            final(self).render_queue@ == old(self).render_queue@,
            final(self).response_queue@ == old(self).response_queue@,
            final(self).display_queue@ == old(self).display_queue@,
            match cmd.spec_opcode().unwrap() {
                DisplayOpcode::ResetGpu => {
                    &&& final(self).status.0 == 0x1480_2000
                    &&& r == DisplayAction::Nothing
                },
                DisplayOpcode::DisplayMode => {
                    &&& final(self).status.0 == spec_display_mode_status(old(self).status.0, cmd.0)
                    &&& r == DisplayAction::SetDisplayResolution(
                        DisplayResolution {
                            horizontal: HorizontalResolution::spec_from_code(
                                bits_of(cmd.0, 0, 2),
                            ).unwrap(),
                            vertical: VerticalResolution::spec_from_code(
                                bits_of(cmd.0, 2, 1),
                            ).unwrap(),
                        },
                    )
                },
                DisplayOpcode::DmaDirection => {
                    &&& final(self).status.0 == with_bits(
                        old(self).status.0,
                        29,
                        2,
                        bits_of(cmd.0, 0, 2),
                    )
                    &&& r == DisplayAction::ScheduleDmaUpdate
                },
                DisplayOpcode::DisplayArea => {
                    &&& final(self).status == old(self).status
                    &&& final(self).display.top_left_x == bits_of(cmd.0, 0, 10)
                    &&& final(self).display.top_left_y == bits_of(cmd.0, 10, 9)
                    &&& r == DisplayAction::SetDisplayTopLeft(
                        DisplayTopLeft {
                            x: bits_of(cmd.0, 0, 10) as u16,
                            y: bits_of(cmd.0, 10, 9) as u16,
                        },
                    )
                },
                DisplayOpcode::HorizontalDisplayRange => {
                    &&& final(self).status == old(self).status
                    &&& final(self).display.horizontal_range == (
                        bits_of(cmd.0, 0, 12) as u16,
                        bits_of(cmd.0, 12, 12) as u16,
                    )
                    &&& r == DisplayAction::Nothing
                },
                DisplayOpcode::VerticalDisplayRange => {
                    &&& final(self).status == old(self).status
                    &&& final(self).display.vertical_range == (
                        bits_of(cmd.0, 0, 10) as u16,
                        bits_of(cmd.0, 10, 10) as u16,
                    )
                    &&& r == DisplayAction::Nothing
                },
                DisplayOpcode::DisplayEnabled => {
                    &&& final(self).status.0 == with_bits(
                        old(self).status.0,
                        23,
                        1,
                        bits_of(cmd.0, 0, 1),
                    )
                    &&& r == DisplayAction::Nothing
                },
                DisplayOpcode::VramSizeV2 => {
                    &&& final(self).status == old(self).status
                    &&& final(self).environment.double_vram == (bits_of(cmd.0, 0, 1) == 1)
                    &&& r == DisplayAction::Nothing
                },
                DisplayOpcode::AcknowledgeGpuInterrupt => {
                    &&& final(self).status.0 == with_bits(old(self).status.0, 24, 1, 0)
                    &&& r == DisplayAction::Nothing
                },
                _ => {
                    &&& final(self).status == old(self).status
                    &&& r == DisplayAction::Nothing
                },
            },
    {
        proof {
            vstd::arithmetic::power2::lemma2_to64();
        }
        let opcode = cmd.opcode().unwrap();
        match opcode {
            DisplayOpcode::ResetGpu => {
                self.status = Status::default();
                DisplayAction::Nothing
            },
            DisplayOpcode::DisplayMode => {
                let settings = cmd.display_mode_cmd();
                let s = self.status.0;
                let s = set_field(s, 16, 2, field(settings.0, 0, 2));
                let s = set_field(s, 19, 1, field(settings.0, 2, 1));
                let s = set_field(s, 20, 1, field(settings.0, 3, 1));
                let s = set_field(s, 21, 1, field(settings.0, 4, 1));
                let s = set_field(s, 22, 1, field(settings.0, 5, 1));
                let s = set_field(s, 18, 1, field(settings.0, 6, 1));
                let s = set_field(s, 14, 1, field(settings.0, 7, 1));
                self.status = Status(s);
                DisplayAction::SetDisplayResolution(
                    DisplayResolution {
                        horizontal: settings.horizontal_resolution(),
                        vertical: settings.vertical_resolution(),
                    },
                )
            },
            DisplayOpcode::DmaDirection => {
                self.status = Status(set_field(self.status.0, 29, 2, field(cmd.0, 0, 2)));
                DisplayAction::ScheduleDmaUpdate
            },
            DisplayOpcode::DisplayArea => {
                let settings = cmd.display_area_cmd();
                let (x, y) = (settings.x(), settings.y());
                self.display.top_left_x = x as u16;
                self.display.top_left_y = y as u16;
                DisplayAction::SetDisplayTopLeft(DisplayTopLeft { x: x as u16, y: y as u16 })
            },
            DisplayOpcode::HorizontalDisplayRange => {
                let settings = cmd.horizontal_display_range_cmd();
                self.display.horizontal_range = (settings.x1() as u16, settings.x2() as u16);
                DisplayAction::Nothing
            },
            DisplayOpcode::VerticalDisplayRange => {
                let settings = cmd.vertical_display_range_cmd();
                self.display.vertical_range = (settings.y1() as u16, settings.y2() as u16);
                DisplayAction::Nothing
            },
            DisplayOpcode::DisplayEnabled => {
                self.status = Status(set_field(self.status.0, 23, 1, field(cmd.0, 0, 1)));
                DisplayAction::Nothing
            },
            DisplayOpcode::VramSizeV2 => {
                self.environment.double_vram = cmd.vram_size_cmd().double();
                DisplayAction::Nothing
            },
            DisplayOpcode::AcknowledgeGpuInterrupt => {
                self.status = Status(set_field(self.status.0, 24, 1, 0));
                DisplayAction::Nothing
            },
            _ => DisplayAction::Nothing,
        }
    }
}

} // verus!
