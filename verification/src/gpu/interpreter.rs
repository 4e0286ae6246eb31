//! The GPU packet interpreter: executes the packets queued on the GP0 and GP1 ports, and tells
//! the renderer what to draw and copy.
use super::cmd::environment::{DrawingAreaCornerCmd, DrawingOffsetCmd};
use super::cmd::rendering::{
    apply_offset, sext11, wrap11, BlendingMode as TransparencyMode, CoordPacket, LineCmd, LineMode,
    PolygonCmd, PolygonMode, RectangleCmd, RectangleMode, ShadingMode, SizePacket,
    VertexColorPacket, VertexPositionPacket, VertexUVPacket,
};
use super::cmd::display::DisplayModeCmd;
use super::cmd::{DisplayCommand, DisplayOpcode, EnvironmentOpcode, MiscOpcode, RenderingCommand, RenderingOpcode};
use super::interface::{
    Command, CommandView, CopyFromVram, CopyToVram, CopyToVramView, views, DrawingArea, DrawingSettings, Primitive, Rectangle,
    Rgba8, TexConfig, Triangle, Vertex, VramCoords, VramDimensions,
};
use super::texture::{BlendingMode, Clut, TexPage};
use super::{spec_display_mode_status, DisplayResolution, DisplayState, EnvironmentState, Gpu, VerticalResolution};
use crate::interrupts::Interrupt;
use crate::bits::{bits_of, field, lemma_masked_bounds, set_field, with_bits};
use crate::mem::primitive::{le_value_at, read_at, window};
use crate::psx::PSX;
use crate::scheduler::{Event, ScheduledEvent};
use vstd::prelude::*;

verus! {

/// The state of the interpreter.
#[derive(Debug, Clone, Copy)]
pub enum State {
    Idle,
    /// Waiting for enough data to complete a CPU to VRAM blit.
    CpuToVramBlit { dest: CoordPacket, size: SizePacket },
    /// Receiving the vertices of a poly-line.
    PolyLine { cmd: LineCmd, received: u32 },
}

/// A GPU packet interpreter.
#[derive(Debug)]
pub struct Interpreter {
    inner: State,
}

impl Interpreter {
    /// The state of this interpreter.
    pub closed spec fn spec_inner(&self) -> State {
        self.inner
    }
}

/// The packets of a vertex: its color, its position with the drawing offset applied, and its
/// texture coordinates.
#[derive(Debug, Clone, Copy)]
pub struct VertexPackets {
    pub color: VertexColorPacket,
    pub x: i16,
    pub y: i16,
    pub uv: VertexUVPacket,
}

/// The state the render packets work on.
pub ghost struct GpuState {
    pub status: u32,
    pub env: EnvironmentState,
    pub render: Seq<u32>,
    pub response: Seq<u32>,
    pub elapsed: u64,
    pub events: Seq<ScheduledEvent>,
    pub last_scheduled: u64,
    pub inner: State,
}

/// The state of `psx` and `interp` that the render packets work on.
pub open spec fn gpu_state_of(psx: PSX, interp: Interpreter) -> GpuState {
    GpuState {
        status: psx.gpu.status.0,
        env: psx.gpu.environment,
        render: psx.gpu.render_queue@,
        response: psx.gpu.response_queue@,
        elapsed: psx.scheduler.spec_elapsed(),
        events: psx.scheduler.events(),
        last_scheduled: psx.scheduler.spec_last_scheduled_time(),
        inner: interp.spec_inner(),
    }
}

/// Only the parts of the machine the render packets work on differ between `old` and `new`.
pub open spec fn render_frame(old: PSX, new: PSX) -> bool {
    new == PSX {
        gpu: Gpu {
            status: new.gpu.status,
            environment: new.gpu.environment,
            render_queue: new.gpu.render_queue,
            response_queue: new.gpu.response_queue,
            ..old.gpu
        },
        scheduler: new.scheduler,
        ..old
    }
}

/// The drawing offsets are 11 bit two's complement numbers.
pub open spec fn env_wf(env: EnvironmentState) -> bool {
    &&& -0x400 <= env.drawing_offset_x < 0x400
    &&& -0x400 <= env.drawing_offset_y < 0x400
}

/// `s` with a DMA update scheduled now.
pub open spec fn schedule_dma(s: GpuState) -> GpuState {
    GpuState {
        events: s.events.push(ScheduledEvent { time: s.elapsed, event: Event::DmaUpdate }),
        last_scheduled: s.elapsed,
        ..s
    }
}

/// The color packet holding the color of a flat polygon command.
pub open spec fn base_color(cmd: PolygonCmd) -> VertexColorPacket {
    VertexColorPacket(cmd.0 % 0x100_0000)
}

/// How many packets the next vertex of a polygon takes.
pub open spec fn vertex_words(skip_color: bool, cmd: PolygonCmd) -> nat {
    (if !skip_color && cmd.spec_shading_mode() == ShadingMode::Gouraud {
        1nat
    } else {
        0nat
    }) + 1 + (if bits_of(cmd.0, 26, 1) == 1 {
        1nat
    } else {
        0nat
    })
}

/// The next vertex of a polygon read from the front of `q`, and what is left of `q`: its color
/// (the command's for the first vertex or a flat polygon), its position with the drawing offset
/// applied, and its texture coordinates if the polygon is textured.
pub open spec fn read_vertex(q: Seq<u32>, skip_color: bool, cmd: PolygonCmd, env: EnvironmentState) -> (VertexPackets, Seq<u32>) {
    let (color, q) = if skip_color || cmd.spec_shading_mode() == ShadingMode::Flat {
        (base_color(cmd), q)
    } else {
        (VertexColorPacket(q[0]), q.drop_first())
    };
    let position = VertexPositionPacket(q[0]);
    let q = q.drop_first();
    let (uv, q) = if bits_of(cmd.0, 26, 1) == 1 {
        (VertexUVPacket(q[0]), q.drop_first())
    } else {
        (VertexUVPacket(0), q)
    };
    (
        VertexPackets {
            color,
            x: wrap11(position.spec_x() + env.drawing_offset_x),
            y: wrap11(position.spec_y() + env.drawing_offset_y),
            uv,
        },
        q,
    )
}

/// The vertex of the renderer the packets describe.
pub open spec fn to_vertex(p: VertexPackets) -> Vertex {
    Vertex {
        color: Rgba8 {
            r: bits_of(p.color.0, 0, 8) as u8,
            g: bits_of(p.color.0, 8, 8) as u8,
            b: bits_of(p.color.0, 16, 8) as u8,
            a: 255,
        },
        x: p.x,
        y: p.y,
        u: bits_of(p.uv.0, 0, 8) as u8,
        v: bits_of(p.uv.0, 8, 8) as u8,
    }
}

/// The status with the texture page fields (bits 0..9) taken from `texpage`, and the texture
/// disable flag (bit 15) set to `disable` where the VRAM is doubled, else cleared.
pub open spec fn status_with_texpage(status: u32, texpage: u32, double_vram: bool, disable: bool) -> u32 {
    let s = with_bits(status, 0, 9, texpage);
    with_bits(
        s,
        15,
        1,
        if double_vram && disable {
            1
        } else {
            0
        },
    )
}


/// The drawing settings the status describes.
pub open spec fn drawing_settings(status: u32) -> DrawingSettings {
    DrawingSettings {
        blending_mode: BlendingMode::spec_from_code(bits_of(status, 5, 2)).unwrap(),
        write_to_mask: bits_of(status, 11, 1) == 1,
        check_mask: bits_of(status, 12, 1) == 1,
    }
}

/// `a - b`, or zero where `b` is larger.
pub open spec fn saturating_sub(a: u16, b: u16) -> u16 {
    if a >= b {
        (a - b) as u16
    } else {
        0
    }
}

/// The drawing area the environment describes: from its top left corner to its bottom right
/// one, empty where they are reversed.
pub open spec fn drawing_area(env: EnvironmentState) -> DrawingArea {
    DrawingArea {
        coords: VramCoords { x: env.drawing_area_top_left_x, y: env.drawing_area_top_left_y },
        dimensions: VramDimensions {
            width: saturating_sub(env.drawing_area_bottom_right_x, env.drawing_area_top_left_x),
            height: saturating_sub(env.drawing_area_bottom_right_y, env.drawing_area_top_left_y),
        },
    }
}

/// The color of the bits 0..24 of a command.
pub open spec fn command_color(cmd: u32) -> Rgba8 {
    Rgba8 {
        r: bits_of(cmd, 0, 8) as u8,
        g: bits_of(cmd, 8, 8) as u8,
        b: bits_of(cmd, 16, 8) as u8,
        a: 255,
    }
}

/// The result of a render command: the state after it, the commands for the renderer, and the
/// copy from VRAM it waits for, if any.
pub type RenderResult = (GpuState, Seq<CommandView>, Option<CopyFromVram>);

/// A quick rectangle fill: the corner and size packets give an opaque rectangle of the command's
/// color, its corner aligned down to 16 pixels horizontally and its width rounded up to 16.
pub open spec fn quick_rect_fill_spec(s: GpuState, cmd: RenderingCommand) -> RenderResult {
    let position = s.render[0];
    let size = s.render[1];
    let rectangle = Rectangle {
        top_left: Vertex {
            color: command_color(cmd.0),
            x: (bits_of(position, 0, 16) & 0x3F0) as i16,
            y: (bits_of(position, 16, 16) & 0x1FF) as i16,
            u: 0,
            v: 0,
        },
        width: ((((bits_of(size, 0, 16) & 0x3FF) + 0xF) as u32) & 0xFFF0) as u16,
        height: (bits_of(size, 16, 16) & 0x1FF) as u16,
        transparency: TransparencyMode::Opaque,
        texconfig: None,
    };
    (
        GpuState { render: s.render.subrange(2, s.render.len() as int), ..s },
        seq![CommandView::Draw { primitive: Primitive::Rectangle(rectangle) }],
        None,
    )
}

/// A polygon: three or four vertices, giving one or two triangles; a textured polygon takes its
/// CLUT from the first vertex and its texture page from the second, which also go to the status.
pub open spec fn polygon_spec(s: GpuState, cmd: RenderingCommand) -> RenderResult {
    let p = PolygonCmd(cmd.0);
    let textured = bits_of(cmd.0, 26, 1) == 1;
    let rectangle = p.spec_polygon_mode() == PolygonMode::Rectangle;
    let (a, q) = read_vertex(s.render, true, p, s.env);
    let (b, q) = read_vertex(q, false, p, s.env);
    let (c, q) = read_vertex(q, false, p, s.env);
    let (d, q) = if rectangle {
        read_vertex(q, false, p, s.env)
    } else {
        (
            VertexPackets {
                color: VertexColorPacket(0),
                x: 0,
                y: 0,
                uv: VertexUVPacket(0),
            },
            q,
        )
    };
    let texconfig = if textured {
        Some(
            TexConfig {
                clut: Clut(bits_of(a.uv.0, 16, 16) as u16),
                texpage: TexPage(bits_of(b.uv.0, 16, 9) as u16),
                texwindow: s.env.texwindow,
            },
        )
    } else {
        None
    };
    let status = if textured {
        status_with_texpage(
            s.status,
            bits_of(b.uv.0, 16, 9),
            s.env.double_vram,
            bits_of(b.uv.0, 26, 1) == 1,
        )
    } else {
        s.status
    };
    let first = Triangle {
        vertices: [to_vertex(a), to_vertex(b), to_vertex(c)],
        shading: p.spec_shading_mode(),
        transparency: p.spec_blending_mode(),
        texconfig,
    };
    let second = Triangle {
        vertices: [to_vertex(b), to_vertex(c), to_vertex(d)],
        shading: p.spec_shading_mode(),
        transparency: p.spec_blending_mode(),
        texconfig,
    };
    let out = if rectangle {
        seq![
            CommandView::Draw { primitive: Primitive::Triangle(first) },
            CommandView::Draw { primitive: Primitive::Triangle(second) },
        ]
    } else {
        seq![CommandView::Draw { primitive: Primitive::Triangle(first) }]
    };
    (GpuState { render: q, status, ..s }, out, None)
}

/// Law: a polygon command (bit 27 set for four vertices, bit 28 for Gouraud shading, bit 26 for
/// texturing) takes, for each vertex, a position packet, a texture packet when textured and a
/// color packet when Gouraud shaded (but for the first vertex, whose color is in the command),
/// and draws one triangle, or two for four vertices: the second made of the second, third and
/// fourth vertices.
pub proof fn law_polygon_shape(s: GpuState, cmd: RenderingCommand)
    requires
        s.render.len() >= 16,
    ensures
        ({
            let quad = (cmd.0 / 0x800_0000) % 2 == 1;
            let gouraud = (cmd.0 / 0x1000_0000) % 2 == 1;
            let textured = (cmd.0 / 0x400_0000) % 2 == 1;
            let vertices: int = if quad {
                4
            } else {
                3
            };
            let per: int = 1 + (if textured {
                1int
            } else {
                0
            }) + (if gouraud {
                1int
            } else {
                0
            });
            let words = vertices * per - (if gouraud {
                1int
            } else {
                0
            });
            let (n, out, request) = polygon_spec(s, cmd);
            &&& request is None
            &&& n.render == s.render.subrange(words, s.render.len() as int)
            &&& out.len() == (if quad {
                2int
            } else {
                1
            })
            &&& quad ==> match (out[0], out[1]) {
                (
                    CommandView::Draw { primitive: Primitive::Triangle(t0) },
                    CommandView::Draw { primitive: Primitive::Triangle(t1) },
                ) => t1.vertices[0] == t0.vertices[1] && t1.vertices[1] == t0.vertices[2],
                _ => false,
            }
        }),
{
    vstd::arithmetic::power2::lemma2_to64();
    let p = PolygonCmd(cmd.0);
    assert(bits_of(cmd.0, 27, 1) == (cmd.0 / 0x800_0000) % 2);
    assert(bits_of(cmd.0, 28, 1) == (cmd.0 / 0x1000_0000) % 2);
    assert(bits_of(cmd.0, 26, 1) == (cmd.0 / 0x400_0000) % 2);
    let q0 = s.render;
    lemma_read_vertex_len(q0, true, p, s.env);
    let q1 = read_vertex(q0, true, p, s.env).1;
    lemma_read_vertex_len(q1, false, p, s.env);
    let q2 = read_vertex(q1, false, p, s.env).1;
    lemma_read_vertex_len(q2, false, p, s.env);
    let q3 = read_vertex(q2, false, p, s.env).1;
    lemma_read_vertex_len(q3, false, p, s.env);
    assert(q1 =~= q0.subrange(vertex_words(true, p) as int, q0.len() as int));
    assert(q2 =~= q0.subrange((vertex_words(true, p) + vertex_words(false, p)) as int, q0.len() as int));
    assert(q3 =~= q0.subrange((vertex_words(true, p) + 2 * vertex_words(false, p)) as int, q0.len() as int));
    let q4 = read_vertex(q3, false, p, s.env).1;
    assert(q4 =~= q0.subrange((vertex_words(true, p) + 3 * vertex_words(false, p)) as int, q0.len() as int));
}

/// A rectangle: its corner with the drawing offset applied, its texture coordinates and CLUT
/// if textured (with the texture page of the status), and its size from a packet or its mode.
pub open spec fn rectangle_spec(s: GpuState, cmd: RenderingCommand) -> RenderResult {
    let rc = RectangleCmd(cmd.0);
    let position = VertexPositionPacket(s.render[0]);
    let q = s.render.drop_first();
    let textured = bits_of(cmd.0, 26, 1) == 1;
    let (uv, q) = if textured {
        (VertexUVPacket(q[0]), q.drop_first())
    } else {
        (VertexUVPacket(0), q)
    };
    let texconfig = if textured {
        Some(
            TexConfig {
                clut: Clut(bits_of(uv.0, 16, 16) as u16),
                texpage: TexPage(bits_of(s.status, 0, 9) as u16),
                texwindow: s.env.texwindow,
            },
        )
    } else {
        None
    };
    let (width, height, q) = match rc.spec_rectangle_mode() {
        RectangleMode::Variable => (
            bits_of(q[0], 0, 16) as u16,
            bits_of(q[0], 16, 16) as u16,
            q.drop_first(),
        ),
        RectangleMode::SinglePixel => (1u16, 1u16, q),
        RectangleMode::Sprite8 => (8u16, 8u16, q),
        RectangleMode::Sprite16 => (16u16, 16u16, q),
    };
    let rectangle = Rectangle {
        top_left: Vertex {
            color: command_color(cmd.0),
            x: wrap11(position.spec_x() + s.env.drawing_offset_x),
            y: wrap11(position.spec_y() + s.env.drawing_offset_y),
            u: bits_of(uv.0, 0, 8) as u8,
            v: bits_of(uv.0, 8, 8) as u8,
        },
        width,
        height,
        transparency: rc.spec_blending_mode(),
        texconfig,
    };
    (
        GpuState { render: q, ..s },
        seq![CommandView::Draw { primitive: Primitive::Rectangle(rectangle) }],
        None,
    )
}

/// Law: a rectangle command draws one rectangle whose size its bits 27 and 28 give: a
/// variable-size one is as wide as the low half-word of its size packet and as high as its high
/// half-word (the size packet follows the position packet, and the texture coordinates packet
/// when the rectangle is textured, bit 26); the others are a single pixel, 8 by 8 or 16 by 16.
pub proof fn law_rectangle_size(s: GpuState, cmd: RenderingCommand)
    requires
        s.render.len() >= 3,
    ensures
        ({
            let mode = (cmd.0 / 0x800_0000) % 4;
            let size = if (cmd.0 / 0x400_0000) % 2 == 1 {
                s.render[2]
            } else {
                s.render[1]
            };
            let (w, h) = if mode == 0 {
                (size % 0x1_0000, size / 0x1_0000)
            } else if mode == 1 {
                (1, 1)
            } else if mode == 2 {
                (8, 8)
            } else {
                (16, 16)
            };
            rectangle_spec(s, cmd).1.len() == 1 && match rectangle_spec(s, cmd).1[0] {
                CommandView::Draw { primitive: Primitive::Rectangle(r) } => r.width as int == w
                    && r.height as int == h,
                _ => false,
            }
        }),
{
    vstd::arithmetic::power2::lemma2_to64();
    let q = s.render.drop_first();
    let size = if bits_of(cmd.0, 26, 1) == 1 {
        q.drop_first()[0]
    } else {
        q[0]
    };
    assert(size / 0x1_0000 < 0x1_0000) by (nonlinear_arith)
        requires size < 0x1_0000_0000;
    assert(bits_of(size, 16, 16) == size / 0x1_0000);
    assert(bits_of(size, 0, 16) == size % 0x1_0000);
    assert(bits_of(cmd.0, 27, 2) == (cmd.0 / 0x800_0000) % 4);
}

/// A line: a single line takes its two vertices (with their colors if shaded) and draws
/// nothing; a poly-line starts receiving vertices.
pub open spec fn line_spec(s: GpuState, cmd: RenderingCommand) -> RenderResult {
    let lc = LineCmd(cmd.0);
    match lc.spec_line_mode() {
        LineMode::Single => {
            let n = if lc.spec_shading_mode() == ShadingMode::Gouraud {
                4int
            } else {
                2int
            };
            (GpuState { render: s.render.subrange(n, s.render.len() as int), ..s }, Seq::empty(), None)
        },
        LineMode::Poly => (
            GpuState { inner: State::PolyLine { cmd: lc, received: 0 }, ..s },
            Seq::empty(),
            None,
        ),
    }
}

/// The width of a blit for the width bits of a size packet: 1 to `0x400`, zero meaning the
/// largest.
pub open spec fn blit_width(width: u32) -> int {
    if width == 0 {
        0x400
    } else {
        (((width - 1) as u32) & 0x3FF) + 1
    }
}

/// The height of a blit for the height bits of a size packet: 1 to `0x200`, zero meaning the
/// largest.
pub open spec fn blit_height(height: u32) -> int {
    if height == 0 {
        0x200
    } else {
        (((height - 1) as u32) & 0x1FF) + 1
    }
}

/// An environment command: the drawing area corners, the drawing offset, the drawing settings,
/// the texture window and the mask settings; the renderer is told of the new drawing area,
/// drawing settings or texture window.
pub open spec fn environment_spec(s: GpuState, cmd: RenderingCommand) -> RenderResult {
    let v = cmd.0;
    match cmd.spec_environment_opcode().unwrap() {
        EnvironmentOpcode::DrawingAreaTopLeft => {
            let env = EnvironmentState {
                drawing_area_top_left_x: bits_of(v, 0, 10) as u16,
                drawing_area_top_left_y: bits_of(v, 10, 9) as u16,
                ..s.env
            };
            (GpuState { env, ..s }, seq![CommandView::SetDrawingArea(drawing_area(env))], None)
        },
        EnvironmentOpcode::DrawingAreaBottomRight => {
            let env = EnvironmentState {
                drawing_area_bottom_right_x: bits_of(v, 0, 10) as u16,
                drawing_area_bottom_right_y: bits_of(v, 10, 9) as u16,
                ..s.env
            };
            (GpuState { env, ..s }, seq![CommandView::SetDrawingArea(drawing_area(env))], None)
        },
        EnvironmentOpcode::DrawingOffset => {
            let env = EnvironmentState {
                drawing_offset_x: sext11(bits_of(v, 0, 11)),
                drawing_offset_y: sext11(bits_of(v, 11, 11)),
                ..s.env
            };
            (GpuState { env, ..s }, Seq::empty(), None)
        },
        EnvironmentOpcode::DrawingSettings => {
            let status = with_bits(
                with_bits(
                    with_bits(s.status, 0, 9, bits_of(v, 0, 9)),
                    9,
                    1,
                    bits_of(v, 9, 1),
                ),
                10,
                1,
                bits_of(v, 10, 1),
            );
            let status = with_bits(
                status,
                15,
                1,
                if s.env.double_vram {
                    bits_of(v, 11, 1)
                } else {
                    0
                },
            );
            let env = EnvironmentState {
                textured_rect_flip_x: bits_of(v, 12, 1) == 1,
                textured_rect_flip_y: bits_of(v, 13, 1) == 1,
                ..s.env
            };
            (
                GpuState { env, status, ..s },
                seq![CommandView::SetDrawingSettings(drawing_settings(status))],
                None,
            )
        },
        EnvironmentOpcode::TexWindowSettings => {
            let texwindow = super::texture::TexWindow(bits_of(v, 0, 20));
            (
                GpuState { env: EnvironmentState { texwindow, ..s.env }, ..s },
                seq![CommandView::SetTexWindow(texwindow)],
                None,
            )
        },
        EnvironmentOpcode::MaskSettings => {
            let status = with_bits(with_bits(s.status, 11, 1, bits_of(v, 0, 1)), 12, 1, bits_of(v, 1, 1));
            (
                GpuState { status, ..s },
                seq![CommandView::SetDrawingSettings(drawing_settings(status))],
                None,
            )
        },
    }
}

/// Whether a render command can be executed: a misc or environment command must be a known one.
pub open spec fn render_ok(cmd: RenderingCommand) -> bool {
    match cmd.spec_opcode() {
        RenderingOpcode::Misc => cmd.spec_misc_opcode() is Some,
        RenderingOpcode::Environment => cmd.spec_environment_opcode() is Some,
        _ => true,
    }
}

/// The result of the render command `cmd`, its packet taken off the queue of `s` and its
/// arguments queued.
pub open spec fn exec_render_spec(s: GpuState, cmd: RenderingCommand) -> RenderResult {
    match cmd.spec_opcode() {
        RenderingOpcode::Misc => match cmd.spec_misc_opcode() {
            Some(MiscOpcode::QuickRectangleFill) => quick_rect_fill_spec(s, cmd),
            _ => (s, Seq::empty(), None),
        },
        RenderingOpcode::Environment => environment_spec(s, cmd),
        RenderingOpcode::Polygon => polygon_spec(s, cmd),
        RenderingOpcode::CpuToVramBlit => (
            schedule_dma(
                GpuState {
                    inner: State::CpuToVramBlit {
                        dest: CoordPacket(s.render[0]),
                        size: SizePacket(s.render[1]),
                    },
                    render: s.render.subrange(2, s.render.len() as int),
                    status: with_bits(s.status, 27, 1, 0),
                    ..s
                },
            ),
            Seq::empty(),
            None,
        ),
        RenderingOpcode::VramToCpuBlit => {
            let src = s.render[0];
            let size = s.render[1];
            (
                GpuState {
                    render: s.render.subrange(2, s.render.len() as int),
                    status: with_bits(s.status, 27, 1, 1),
                    ..s
                },
                Seq::empty(),
                Some(
                    CopyFromVram {
                        coords: VramCoords {
                            x: (bits_of(src, 0, 16) & 0x3FF) as u16,
                            y: (bits_of(src, 16, 16) & 0x1FF) as u16,
                        },
                        dimensions: VramDimensions {
                            width: blit_width(bits_of(size, 0, 16)) as u16,
                            height: blit_height(bits_of(size, 16, 16)) as u16,
                        },
                    },
                ),
            )
        },
        RenderingOpcode::Rectangle => rectangle_spec(s, cmd),
        RenderingOpcode::Line => line_spec(s, cmd),
        _ => (s, Seq::empty(), None),
    }
}


/// The result of `s`, where `s` executes one command, and how many packets the command takes.
pub open spec fn exec_args_ok(s: GpuState, cmd: RenderingCommand) -> bool {
    s.render.len() >= cmd.spec_args()
}

proof fn lemma_bits_bounds(v: u32)
    ensures
        bits_of(v, 0, 8) < 256,
        bits_of(v, 8, 8) < 256,
        bits_of(v, 16, 8) < 256,
        bits_of(v, 0, 16) < 0x1_0000,
        bits_of(v, 16, 16) < 0x1_0000,
        bits_of(v, 16, 9) < 0x200,
        bits_of(v, 0, 9) < 0x200,
        bits_of(v, 0, 10) < 0x400,
        bits_of(v, 10, 9) < 0x200,
        bits_of(v, 0, 11) < 0x800,
        bits_of(v, 11, 11) < 0x800,
        bits_of(v, 0, 20) < 0x10_0000,
        bits_of(v, 26, 1) < 2,
{
    vstd::arithmetic::power2::lemma2_to64();
}

impl Interpreter {
    /// A new interpreter, waiting for a command.
    pub fn new() -> (r: Self)
        ensures
            r.spec_inner() matches State::Idle,
    {
        Interpreter { inner: State::Idle }
    }

    /// Reads the next vertex of a polygon from the render queue.
    fn read_vertex(psx: &mut PSX, skip_color: bool, cmd: PolygonCmd) -> (r: VertexPackets)
        requires
            old(psx).gpu.render_queue@.len() >= vertex_words(skip_color, cmd),
            env_wf(old(psx).gpu.environment),
        ensures
            (r, final(psx).gpu.render_queue@) == read_vertex(
                old(psx).gpu.render_queue@,
                skip_color,
                cmd,
                old(psx).gpu.environment,
            ),
            *final(psx) == (PSX {
                gpu: Gpu { render_queue: final(psx).gpu.render_queue, ..old(psx).gpu },
                ..*old(psx)
            }),
    {
        let color = if skip_color || cmd.shading_mode() == ShadingMode::Flat {
            VertexColorPacket(cmd.0 & 0xFF_FFFF)
        } else {
            VertexColorPacket(psx.gpu.render_queue.pop_front().unwrap())
        };
        let raw = cmd.0;
        assert(raw & 0xFF_FFFF == raw % 0x100_0000) by (bit_vector);
        let position = VertexPositionPacket(psx.gpu.render_queue.pop_front().unwrap());
        let x = apply_offset(position.x(), psx.gpu.environment.drawing_offset_x);
        let y = apply_offset(position.y(), psx.gpu.environment.drawing_offset_y);
        let uv = if cmd.textured() {
            VertexUVPacket(psx.gpu.render_queue.pop_front().unwrap())
        } else {
            VertexUVPacket(0)
        };
        VertexPackets { color, x, y, uv }
    }
}

/// Returns the renderer vertex of the packets.
fn to_vertex_exec(p: VertexPackets) -> (r: Vertex)
    ensures
        r == to_vertex(p),
{
    proof {
        lemma_bits_bounds(p.color.0);
    }
    Vertex {
        color: Rgba8::new(p.color.r() as u8, p.color.g() as u8, p.color.b() as u8),
        x: p.x,
        y: p.y,
        u: p.uv.u(),
        v: p.uv.v(),
    }
}


/// The commands and request of a render command, in exec form.
pub type RenderOutput = (Vec<Command>, Option<CopyFromVram>);

impl Interpreter {
    /// Draws a quick rectangle fill.
    fn exec_quick_rect_fill(&mut self, psx: &mut PSX, cmd: RenderingCommand) -> (r: RenderOutput)
        requires
            old(psx).gpu.render_queue@.len() >= 2,
        ensures
            (gpu_state_of(*final(psx), *final(self)), views(r.0@), r.1) == quick_rect_fill_spec(
                gpu_state_of(*old(psx), *old(self)),
                cmd,
            ),
            render_frame(*old(psx), *final(psx)),
    {
        let rc = cmd.rectangle_cmd();
        proof {
            lemma_bits_bounds(cmd.0);
        }
        let color = Rgba8::new(rc.r() as u8, rc.g() as u8, rc.b() as u8);
        let position = CoordPacket(psx.gpu.render_queue.pop_front().unwrap());
        let dimensions = SizePacket(psx.gpu.render_queue.pop_front().unwrap());
        let (x, y) = (position.x(), position.y());
        let (width, height) = (dimensions.width(), dimensions.height());
        proof {
            lemma_bits_bounds(position.0);
            lemma_bits_bounds(dimensions.0);
        }
        proof {
            lemma_masked_bounds(width);
        }
        let rectangle = Rectangle {
            top_left: Vertex {
                color,
                x: (x & 0x3F0) as i16,
                y: (y & 0x1FF) as i16,
                u: 0,
                v: 0,
            },
            width: (((width & 0x3FF) + 0xF) & 0xFFF0) as u16,
            height: (height & 0x1FF) as u16,
            transparency: TransparencyMode::Opaque,
            texconfig: None,
        };
        let mut out = Vec::new();
        out.push(Command::Draw { primitive: Primitive::Rectangle(rectangle) });
        proof {
            let old_q = old(psx).gpu.render_queue@;
            assert(psx.gpu.render_queue@ =~= old_q.subrange(2, old_q.len() as int));
            assert(views(out@) =~= seq![CommandView::Draw { primitive: Primitive::Rectangle(rectangle) }]);
        }
        (out, None)
    }

    /// Draws a polygon: one or two triangles.
    fn exec_polygon(&mut self, psx: &mut PSX, cmd: RenderingCommand) -> (r: RenderOutput)
        requires
            old(psx).gpu.render_queue@.len() >= cmd.spec_args(),
            cmd.spec_opcode() == RenderingOpcode::Polygon,
            env_wf(old(psx).gpu.environment),
        ensures
            (gpu_state_of(*final(psx), *final(self)), views(r.0@), r.1) == polygon_spec(
                gpu_state_of(*old(psx), *old(self)),
                cmd,
            ),
            render_frame(*old(psx), *final(psx)),
    {
        let p = cmd.polygon_cmd();
        let ghost s = gpu_state_of(*psx, *self);
        proof {
            lemma_bits_bounds(cmd.0);
        }
        let a = Self::read_vertex(psx, true, p);
        let b = Self::read_vertex(psx, false, p);
        let c = Self::read_vertex(psx, false, p);
        let rectangle = p.polygon_mode() == PolygonMode::Rectangle;
        let d = if rectangle {
            Self::read_vertex(psx, false, p)
        } else {
            VertexPackets { color: VertexColorPacket(0), x: 0, y: 0, uv: VertexUVPacket(0) }
        };
        let texconfig = if p.textured() {
            let clut = a.uv.clut();
            let texpage = b.uv.texpage();
            let config = TexConfig { clut, texpage, texwindow: psx.gpu.environment.texwindow };
            let status = set_field(psx.gpu.status.0, 0, 9, texpage.0 as u32);
            let disable = psx.gpu.environment.double_vram && b.uv.texture_disable();
            psx.gpu.status = super::Status(
                set_field(
                    status,
                    15,
                    1,
                    if disable {
                        1
                    } else {
                        0
                    },
                ),
            );
            Some(config)
        } else {
            None
        };
        let first = Triangle {
            vertices: [to_vertex_exec(a), to_vertex_exec(b), to_vertex_exec(c)],
            shading: p.shading_mode(),
            transparency: p.blending_mode(),
            texconfig,
        };
        let mut out = Vec::new();
        out.push(Command::Draw { primitive: Primitive::Triangle(first) });
        if rectangle {
            let second = Triangle {
                vertices: [to_vertex_exec(b), to_vertex_exec(c), to_vertex_exec(d)],
                shading: p.shading_mode(),
                transparency: p.blending_mode(),
                texconfig,
            };
            out.push(Command::Draw { primitive: Primitive::Triangle(second) });
        }
        proof {
            assert(views(out@) =~= polygon_spec(s, cmd).1);
        }
        (out, None)
    }
}


impl Interpreter {
    /// Draws a rectangle.
    fn exec_rectangle(&mut self, psx: &mut PSX, cmd: RenderingCommand) -> (r: RenderOutput)
        requires
            old(psx).gpu.render_queue@.len() >= cmd.spec_args(),
            cmd.spec_opcode() == RenderingOpcode::Rectangle,
            env_wf(old(psx).gpu.environment),
        ensures
            (gpu_state_of(*final(psx), *final(self)), views(r.0@), r.1) == rectangle_spec(
                gpu_state_of(*old(psx), *old(self)),
                cmd,
            ),
            render_frame(*old(psx), *final(psx)),
    {
        let rc = cmd.rectangle_cmd();
        proof {
            lemma_bits_bounds(cmd.0);
        }
        let color = Rgba8::new(rc.r() as u8, rc.g() as u8, rc.b() as u8);
        let position = VertexPositionPacket(psx.gpu.render_queue.pop_front().unwrap());
        let x = apply_offset(position.x(), psx.gpu.environment.drawing_offset_x);
        let y = apply_offset(position.y(), psx.gpu.environment.drawing_offset_y);
        let (uv, texconfig) = if rc.textured() {
            let uv = VertexUVPacket(psx.gpu.render_queue.pop_front().unwrap());
            let config = TexConfig {
                clut: uv.clut(),
                texpage: psx.gpu.status.texpage(),
                texwindow: psx.gpu.environment.texwindow,
            };
            (uv, Some(config))
        } else {
            (VertexUVPacket(0), None)
        };
        let (width, height) = match rc.rectangle_mode() {
            RectangleMode::Variable => {
                let size = SizePacket(psx.gpu.render_queue.pop_front().unwrap());
                proof {
                    lemma_bits_bounds(size.0);
                }
                (size.width() as u16, size.height() as u16)
            },
            RectangleMode::SinglePixel => (1, 1),
            RectangleMode::Sprite8 => (8, 8),
            RectangleMode::Sprite16 => (16, 16),
        };
        let rectangle = Rectangle {
            top_left: Vertex { color, x, y, u: uv.u(), v: uv.v() },
            width,
            height,
            transparency: rc.blending_mode(),
            texconfig,
        };
        let mut out = Vec::new();
        out.push(Command::Draw { primitive: Primitive::Rectangle(rectangle) });
        proof {
            assert(views(out@) =~= seq![CommandView::Draw { primitive: Primitive::Rectangle(rectangle) }]);
        }
        (out, None)
    }

    /// Takes a line: a single line's vertices are consumed, a poly-line starts.
    fn exec_line(&mut self, psx: &mut PSX, cmd: RenderingCommand) -> (r: RenderOutput)
        requires
            old(psx).gpu.render_queue@.len() >= cmd.spec_args(),
            cmd.spec_opcode() == RenderingOpcode::Line,
        ensures
            (gpu_state_of(*final(psx), *final(self)), views(r.0@), r.1) == line_spec(
                gpu_state_of(*old(psx), *old(self)),
                cmd,
            ),
            render_frame(*old(psx), *final(psx)),
    {
        let lc = cmd.line_cmd();
        match lc.line_mode() {
            LineMode::Single => {
                let gouraud = lc.shading_mode() == ShadingMode::Gouraud;
                let mut i: usize = 0;
                while i < 2
                    invariant
                        0 <= i <= 2,
                        psx.gpu.render_queue@ == old(psx).gpu.render_queue@.subrange(
                            i * (if gouraud { 2int } else { 1int }),
                            old(psx).gpu.render_queue@.len() as int,
                        ),
                        old(psx).gpu.render_queue@.len() >= 2 * (if gouraud { 2int } else { 1int }),
                        gouraud == (lc.spec_shading_mode() == ShadingMode::Gouraud),
                        *psx == (PSX {
                            gpu: Gpu { render_queue: psx.gpu.render_queue, ..old(psx).gpu },
                            ..*old(psx)
                        }),
                    decreases 2 - i,
                {
                    if gouraud {
                        psx.gpu.render_queue.pop_front();
                    }
                    psx.gpu.render_queue.pop_front();
                    i += 1;
                    proof {
                        let old_q = old(psx).gpu.render_queue@;
                        assert(psx.gpu.render_queue@ =~= old_q.subrange(
                            i * (if gouraud { 2int } else { 1int }),
                            old_q.len() as int,
                        ));
                    }
                }
            },
            LineMode::Poly => {
                self.inner = State::PolyLine { cmd: lc, received: 0 };
            },
        }
        (Vec::new(), None)
    }
}


/// Returns the drawing area of the environment.
fn drawing_area_exec(env: &EnvironmentState) -> (r: DrawingArea)
    ensures
        r == drawing_area(*env),
{
    let width = if env.drawing_area_bottom_right_x >= env.drawing_area_top_left_x {
        env.drawing_area_bottom_right_x - env.drawing_area_top_left_x
    } else {
        0
    };
    let height = if env.drawing_area_bottom_right_y >= env.drawing_area_top_left_y {
        env.drawing_area_bottom_right_y - env.drawing_area_top_left_y
    } else {
        0
    };
    DrawingArea {
        coords: VramCoords { x: env.drawing_area_top_left_x, y: env.drawing_area_top_left_y },
        dimensions: VramDimensions { width, height },
    }
}

/// Returns the drawing settings the status describes.
fn drawing_settings_exec(status: &super::Status) -> (r: DrawingSettings)
    ensures
        r == drawing_settings(status.0),
{
    DrawingSettings {
        blending_mode: status.transparency_mode(),
        write_to_mask: status.write_to_mask(),
        check_mask: status.enable_mask(),
    }
}

/// A single command for the renderer.
fn one(command: Command) -> (r: Vec<Command>)
    ensures
        views(r@) == seq![command@],
{
    let mut out = Vec::new();
    out.push(command);
    assert(views(out@) =~= seq![command@]);
    out
}

impl Interpreter {
    /// Sets the top left corner of the drawing area.
    fn exec_drawing_area_top_left(&mut self, psx: &mut PSX, cmd: RenderingCommand) -> (r: RenderOutput)
        requires
            cmd.spec_environment_opcode() == Some(EnvironmentOpcode::DrawingAreaTopLeft),
        ensures
            (gpu_state_of(*final(psx), *final(self)), views(r.0@), r.1) == environment_spec(
                gpu_state_of(*old(psx), *old(self)),
                cmd,
            ),
            render_frame(*old(psx), *final(psx)),
            env_wf(old(psx).gpu.environment) ==> env_wf(final(psx).gpu.environment),
    {
        let corner = DrawingAreaCornerCmd(cmd.0);
        proof {
            lemma_bits_bounds(cmd.0);
        }
        psx.gpu.environment.drawing_area_top_left_x = corner.x() as u16;
        psx.gpu.environment.drawing_area_top_left_y = corner.y() as u16;
        (one(Command::SetDrawingArea(drawing_area_exec(&psx.gpu.environment))), None)
    }

    /// Sets the bottom right corner of the drawing area.
    fn exec_drawing_area_bottom_right(&mut self, psx: &mut PSX, cmd: RenderingCommand) -> (r: RenderOutput)
        requires
            cmd.spec_environment_opcode() == Some(EnvironmentOpcode::DrawingAreaBottomRight),
        ensures
            (gpu_state_of(*final(psx), *final(self)), views(r.0@), r.1) == environment_spec(
                gpu_state_of(*old(psx), *old(self)),
                cmd,
            ),
            render_frame(*old(psx), *final(psx)),
            env_wf(old(psx).gpu.environment) ==> env_wf(final(psx).gpu.environment),
    {
        let corner = DrawingAreaCornerCmd(cmd.0);
        proof {
            lemma_bits_bounds(cmd.0);
        }
        psx.gpu.environment.drawing_area_bottom_right_x = corner.x() as u16;
        psx.gpu.environment.drawing_area_bottom_right_y = corner.y() as u16;
        (one(Command::SetDrawingArea(drawing_area_exec(&psx.gpu.environment))), None)
    }

    /// Sets the drawing offset.
    fn exec_drawing_offset(&mut self, psx: &mut PSX, cmd: RenderingCommand) -> (r: RenderOutput)
        requires
            cmd.spec_environment_opcode() == Some(EnvironmentOpcode::DrawingOffset),
        ensures
            (gpu_state_of(*final(psx), *final(self)), views(r.0@), r.1) == environment_spec(
                gpu_state_of(*old(psx), *old(self)),
                cmd,
            ),
            render_frame(*old(psx), *final(psx)),
            env_wf(old(psx).gpu.environment) ==> env_wf(final(psx).gpu.environment),
    {
        let offset = DrawingOffsetCmd(cmd.0);
        proof {
            lemma_bits_bounds(cmd.0);
        }
        psx.gpu.environment.drawing_offset_x = super::cmd::rendering::sign_extend11(offset.x_bits());
        psx.gpu.environment.drawing_offset_y = super::cmd::rendering::sign_extend11(offset.y_bits());
        (Vec::new(), None)
    }

    /// Sets the drawing settings: the texture page, dithering, drawing to the display, the texture disable flag and the flips of textured rectangles.
    fn exec_drawing_settings(&mut self, psx: &mut PSX, cmd: RenderingCommand) -> (r: RenderOutput)
        requires
            cmd.spec_environment_opcode() == Some(EnvironmentOpcode::DrawingSettings),
        ensures
            (gpu_state_of(*final(psx), *final(self)), views(r.0@), r.1) == environment_spec(
                gpu_state_of(*old(psx), *old(self)),
                cmd,
            ),
            render_frame(*old(psx), *final(psx)),
            env_wf(old(psx).gpu.environment) ==> env_wf(final(psx).gpu.environment),
    {
        let settings = cmd.drawing_settings_cmd();
        proof {
            lemma_bits_bounds(cmd.0);
        }
        let status = set_field(psx.gpu.status.0, 0, 9, settings.texpage().0 as u32);
        let status = set_field(status, 9, 1, field(cmd.0, 9, 1));
        let status = set_field(status, 10, 1, field(cmd.0, 10, 1));
        let disable = if psx.gpu.environment.double_vram {
            field(cmd.0, 11, 1)
        } else {
            0
        };
        psx.gpu.status = super::Status(set_field(status, 15, 1, disable));
        psx.gpu.environment.textured_rect_flip_x = settings.textured_rect_flip_x();
        psx.gpu.environment.textured_rect_flip_y = settings.textured_rect_flip_y();
        (one(Command::SetDrawingSettings(drawing_settings_exec(&psx.gpu.status))), None)
    }

    /// Sets the texture window.
    fn exec_texwindow_settings(&mut self, psx: &mut PSX, cmd: RenderingCommand) -> (r: RenderOutput)
        requires
            cmd.spec_environment_opcode() == Some(EnvironmentOpcode::TexWindowSettings),
        ensures
            (gpu_state_of(*final(psx), *final(self)), views(r.0@), r.1) == environment_spec(
                gpu_state_of(*old(psx), *old(self)),
                cmd,
            ),
            render_frame(*old(psx), *final(psx)),
            env_wf(old(psx).gpu.environment) ==> env_wf(final(psx).gpu.environment),
    {
        let settings = cmd.texture_window_settings_cmd();
        let texwindow = settings.texwindow();
        psx.gpu.environment.texwindow = texwindow;
        (one(Command::SetTexWindow(texwindow)), None)
    }

    /// Sets the mask settings.
    fn exec_mask_settings(&mut self, psx: &mut PSX, cmd: RenderingCommand) -> (r: RenderOutput)
        requires
            cmd.spec_environment_opcode() == Some(EnvironmentOpcode::MaskSettings),
        ensures
            (gpu_state_of(*final(psx), *final(self)), views(r.0@), r.1) == environment_spec(
                gpu_state_of(*old(psx), *old(self)),
                cmd,
            ),
            render_frame(*old(psx), *final(psx)),
            env_wf(old(psx).gpu.environment) ==> env_wf(final(psx).gpu.environment),
    {
        let settings = cmd.mask_settings_cmd();
        let status = set_field(psx.gpu.status.0, 11, 1, field(cmd.0, 0, 1));
        psx.gpu.status = super::Status(set_field(status, 12, 1, field(cmd.0, 1, 1)));
        (one(Command::SetDrawingSettings(drawing_settings_exec(&psx.gpu.status))), None)
    }

}


/// Returns the width of a blit for the width bits of a size packet.
fn blit_width_exec(width: u32) -> (r: u32)
    requires
        width < 0x1_0000,
    ensures
        r == blit_width(width),
        1 <= r <= 0x400,
{
    if width == 0 {
        0x400
    } else {
        let w = width - 1;
        proof {
            lemma_masked_bounds(w);
        }
        (w & 0x3FF) + 1
    }
}

/// Returns the height of a blit for the height bits of a size packet.
fn blit_height_exec(height: u32) -> (r: u32)
    requires
        height < 0x1_0000,
    ensures
        r == blit_height(height),
        1 <= r <= 0x200,
{
    if height == 0 {
        0x200
    } else {
        let h = height - 1;
        proof {
            lemma_masked_bounds(h);
        }
        (h & 0x1FF) + 1
    }
}

impl Interpreter {
    /// Starts a CPU to VRAM blit: the destination and size packets are taken, and the blit
    /// waits for its data.
    fn exec_cpu_to_vram_blit(&mut self, psx: &mut PSX, cmd: RenderingCommand) -> (r: RenderOutput)
        requires
            old(psx).gpu.render_queue@.len() >= 2,
            cmd.spec_opcode() == RenderingOpcode::CpuToVramBlit,
        ensures
            (gpu_state_of(*final(psx), *final(self)), views(r.0@), r.1) == exec_render_spec(
                gpu_state_of(*old(psx), *old(self)),
                cmd,
            ),
            render_frame(*old(psx), *final(psx)),
    {
        let dest = CoordPacket(psx.gpu.render_queue.pop_front().unwrap());
        let size = SizePacket(psx.gpu.render_queue.pop_front().unwrap());
        self.inner = State::CpuToVramBlit { dest, size };
        psx.gpu.status = super::Status(set_field(psx.gpu.status.0, 27, 1, 0));
        psx.scheduler.schedule(Event::DmaUpdate, 0);
        proof {
            let old_q = old(psx).gpu.render_queue@;
            assert(psx.gpu.render_queue@ =~= old_q.subrange(2, old_q.len() as int));
        }
        (Vec::new(), None)
    }

    /// Starts a VRAM to CPU blit: the source and size packets are taken, and the copy from VRAM
    /// is asked of the renderer. Its bytes come back through
    /// [`receive_vram`](Self::receive_vram).
    fn exec_vram_to_cpu_blit(&mut self, psx: &mut PSX, cmd: RenderingCommand) -> (r: RenderOutput)
        requires
            old(psx).gpu.render_queue@.len() >= 2,
            cmd.spec_opcode() == RenderingOpcode::VramToCpuBlit,
        ensures
            (gpu_state_of(*final(psx), *final(self)), views(r.0@), r.1) == exec_render_spec(
                gpu_state_of(*old(psx), *old(self)),
                cmd,
            ),
            render_frame(*old(psx), *final(psx)),
    {
        psx.gpu.status = super::Status(set_field(psx.gpu.status.0, 27, 1, 1));
        let src = CoordPacket(psx.gpu.render_queue.pop_front().unwrap());
        let size = SizePacket(psx.gpu.render_queue.pop_front().unwrap());
        proof {
            lemma_bits_bounds(src.0);
            lemma_bits_bounds(size.0);
        }
        let (sx, sy) = (src.x(), src.y());
        let x = sx & 0x3FF;
        let y = sy & 0x1FF;
        proof {
            lemma_masked_bounds(sx);
            lemma_masked_bounds(sy);
        }
        let copy = CopyFromVram {
            coords: VramCoords { x: x as u16, y: y as u16 },
            dimensions: VramDimensions {
                width: blit_width_exec(size.width()) as u16,
                height: blit_height_exec(size.height()) as u16,
            },
        };
        proof {
            let old_q = old(psx).gpu.render_queue@;
            assert(psx.gpu.render_queue@ =~= old_q.subrange(2, old_q.len() as int));
        }
        (Vec::new(), Some(copy))
    }

    /// Executes a render command, its packet taken off the queue and its arguments queued.
    pub fn exec_render(&mut self, psx: &mut PSX, cmd: RenderingCommand) -> (r: RenderOutput)
        requires
            old(psx).gpu.render_queue@.len() >= cmd.spec_args(),
            render_ok(cmd),
            env_wf(old(psx).gpu.environment),
        ensures
            (gpu_state_of(*final(psx), *final(self)), views(r.0@), r.1) == exec_render_spec(
                gpu_state_of(*old(psx), *old(self)),
                cmd,
            ),
            render_frame(*old(psx), *final(psx)),
            env_wf(final(psx).gpu.environment),
    {
        match cmd.opcode() {
            RenderingOpcode::Misc => match cmd.misc_opcode().unwrap() {
                MiscOpcode::QuickRectangleFill => self.exec_quick_rect_fill(psx, cmd),
                _ => (Vec::new(), None),
            },
            RenderingOpcode::Environment => match cmd.environment_opcode().unwrap() {
                EnvironmentOpcode::DrawingAreaTopLeft => self.exec_drawing_area_top_left(psx, cmd),
                EnvironmentOpcode::DrawingAreaBottomRight => {
                    self.exec_drawing_area_bottom_right(psx, cmd)
                },
                EnvironmentOpcode::DrawingOffset => self.exec_drawing_offset(psx, cmd),
                EnvironmentOpcode::DrawingSettings => self.exec_drawing_settings(psx, cmd),
                EnvironmentOpcode::TexWindowSettings => self.exec_texwindow_settings(psx, cmd),
                EnvironmentOpcode::MaskSettings => self.exec_mask_settings(psx, cmd),
            },
            RenderingOpcode::Polygon => self.exec_polygon(psx, cmd),
            RenderingOpcode::CpuToVramBlit => self.exec_cpu_to_vram_blit(psx, cmd),
            RenderingOpcode::VramToCpuBlit => self.exec_vram_to_cpu_blit(psx, cmd),
            RenderingOpcode::Rectangle => self.exec_rectangle(psx, cmd),
            RenderingOpcode::Line => self.exec_line(psx, cmd),
            _ => (Vec::new(), None),
        }
    }
}


/// The little endian bytes of a word.
pub open spec fn word_bytes(w: u32) -> Seq<u8> {
    seq![
        (w % 0x100) as u8,
        ((w / 0x100) % 0x100) as u8,
        ((w / 0x1_0000) % 0x100) as u8,
        ((w / 0x100_0000) % 0x100) as u8,
    ]
}

/// The little endian bytes of `words`, in order.
pub open spec fn words_bytes(words: Seq<u32>) -> Seq<u8>
    decreases words.len(),
{
    if words.len() == 0 {
        Seq::empty()
    } else {
        words_bytes(words.drop_last()) + word_bytes(words.last())
    }
}

/// The number of packets the data of a CPU to VRAM blit of `size` takes: two pixels a packet,
/// rounded up.
pub open spec fn blit_count(size: SizePacket) -> int {
    (blit_width(bits_of(size.0, 0, 16)) * blit_height(bits_of(size.0, 16, 16)) + 1) / 2
}

/// Whether `word` ends a poly-line.
pub open spec fn ends_poly_line(word: u32) -> bool {
    word & 0xF000_F000 == 0x5000_5000
}

/// The next step of the render queue, or `None` where it waits for more packets: in the idle
/// state, the command at the front of the queue once all its arguments are queued; in a CPU to
/// VRAM blit, the copy of its data once all of it is queued; in a poly-line, its end marker (after
/// two vertices) or its next vertex.
pub open spec fn render_step(s: GpuState) -> Option<RenderResult> {
    match s.inner {
        State::Idle => if s.render.len() == 0 {
            None
        } else {
            let cmd = RenderingCommand(s.render[0]);
            if s.render.len() <= cmd.spec_args() {
                None
            } else {
                Some(exec_render_spec(GpuState { render: s.render.drop_first(), ..s }, cmd))
            }
        },
        State::CpuToVramBlit { dest, size } => {
            let count = blit_count(size);
            if s.render.len() < count {
                None
            } else {
                Some(
                    (
                        schedule_dma(
                            GpuState {
                                render: s.render.subrange(count, s.render.len() as int),
                                inner: State::Idle,
                                status: with_bits(s.status, 27, 1, 0),
                                ..s
                            },
                        ),
                        seq![
                            CommandView::CopyToVram(
                                CopyToVramView {
                                    coords: VramCoords {
                                        x: (bits_of(dest.0, 0, 16) & 0x3FF) as u16,
                                        y: (bits_of(dest.0, 16, 16) & 0x1FF) as u16,
                                    },
                                    dimensions: VramDimensions {
                                        width: blit_width(bits_of(size.0, 0, 16)) as u16,
                                        height: blit_height(bits_of(size.0, 16, 16)) as u16,
                                    },
                                    data: words_bytes(s.render.subrange(0, count)),
                                },
                            ),
                        ],
                        None,
                    ),
                )
            }
        },
        State::PolyLine { cmd, received } => if s.render.len() == 0 {
            None
        } else if received >= 2 && ends_poly_line(s.render[0]) {
            Some((GpuState { render: s.render.drop_first(), inner: State::Idle, ..s }, Seq::empty(), None))
        } else if cmd.spec_shading_mode() == ShadingMode::Flat {
            Some(
                (
                    GpuState {
                        render: s.render.drop_first(),
                        inner: State::PolyLine { cmd, received: (received + 1) as u32 },
                        ..s
                    },
                    Seq::empty(),
                    None,
                ),
            )
        } else if s.render.len() >= 2 {
            Some(
                (
                    GpuState {
                        render: s.render.subrange(2, s.render.len() as int),
                        inner: State::PolyLine { cmd, received: (received + 1) as u32 },
                        ..s
                    },
                    Seq::empty(),
                    None,
                ),
            )
        } else {
            None
        },
    }
}

/// Whether the next step can be taken: a command must be a known one, and a shaded poly-line
/// with a single packet queued (not its end) would wait forever.
pub open spec fn step_ok(s: GpuState) -> bool {
    match s.inner {
        State::Idle => s.render.len() > RenderingCommand(s.render[0]).spec_args() ==> render_ok(
            RenderingCommand(s.render[0]),
        ),
        State::PolyLine { cmd, received } => s.render.len() > 0 ==> {
            &&& received < u32::MAX
            &&& !(cmd.spec_shading_mode() == ShadingMode::Gouraud && s.render.len() == 1 && !(
            received >= 2 && ends_poly_line(s.render[0])))
        },
        _ => true,
    }
}

/// The state, the renderer commands and the copy from VRAM waited for, after running the render
/// queue of `s` until it waits for packets or for a copy from VRAM.
pub open spec fn render_run(s: GpuState) -> RenderResult
    decreases s.render.len(),
{
    match render_step(s) {
        None => (s, Seq::empty(), None),
        Some((next, out, request)) => if request is Some || next.render.len() >= s.render.len() {
            (next, out, request)
        } else {
            let (last, rest, request) = render_run(next);
            (last, out + rest, request)
        },
    }
}

/// Whether every step of running the render queue of `s` can be taken.
pub open spec fn render_run_ok(s: GpuState) -> bool
    decreases s.render.len(),
{
    &&& step_ok(s)
    &&& match render_step(s) {
        None => true,
        Some((next, _out, request)) => request is Some || next.render.len() >= s.render.len()
            || render_run_ok(next),
    }
}


/// Proof that reading a vertex takes its packets off the front of the queue.
proof fn lemma_read_vertex_len(q: Seq<u32>, skip_color: bool, cmd: PolygonCmd, env: EnvironmentState)
    requires
        q.len() >= vertex_words(skip_color, cmd),
    ensures
        read_vertex(q, skip_color, cmd, env).1.len() == q.len() - vertex_words(skip_color, cmd),
{
}

/// Proof that a render command only takes packets off the queue.
proof fn lemma_exec_render_shrinks(s: GpuState, cmd: RenderingCommand)
    requires
        s.render.len() >= cmd.spec_args(),
    ensures
        exec_render_spec(s, cmd).0.render.len() <= s.render.len(),
{
    if cmd.spec_opcode() == RenderingOpcode::Polygon {
        let p = PolygonCmd(cmd.0);
        let q0 = s.render;
        lemma_read_vertex_len(q0, true, p, s.env);
        let q1 = read_vertex(q0, true, p, s.env).1;
        lemma_read_vertex_len(q1, false, p, s.env);
        let q2 = read_vertex(q1, false, p, s.env).1;
        lemma_read_vertex_len(q2, false, p, s.env);
        let q3 = read_vertex(q2, false, p, s.env).1;
        if p.spec_polygon_mode() == PolygonMode::Rectangle {
            lemma_read_vertex_len(q3, false, p, s.env);
        }
    }
}

/// The render result `res` with the commands `out` first.
pub open spec fn after(out: Seq<CommandView>, res: RenderResult) -> RenderResult {
    (res.0, out + res.1, res.2)
}

/// Pushes the little endian bytes of a word.
fn push_word_bytes(data: &mut Vec<u8>, w: u32)
    ensures
        final(data)@ == old(data)@ + word_bytes(w),
{
    assert((w & 0xFF) == w % 0x100 && ((w >> 8) & 0xFF) == (w / 0x100) % 0x100 && ((w >> 16)
        & 0xFF) == (w / 0x1_0000) % 0x100 && ((w >> 24) & 0xFF) == (w / 0x100_0000) % 0x100)
        by (bit_vector);
    data.push((w & 0xFF) as u8);
    data.push(((w >> 8) & 0xFF) as u8);
    data.push(((w >> 16) & 0xFF) as u8);
    data.push(((w >> 24) & 0xFF) as u8);
    assert(data@ =~= old(data)@ + word_bytes(w));
}

impl Interpreter {
    /// Copies the data of a CPU to VRAM blit, once all of it is queued.
    fn exec_blit_data(&mut self, psx: &mut PSX, dest: CoordPacket, size: SizePacket) -> (r: Option<RenderOutput>)
        requires
            old(self).spec_inner() == (State::CpuToVramBlit { dest, size }),
        ensures
            r is None ==> render_step(gpu_state_of(*old(psx), *old(self))) is None && *final(psx)
                == *old(psx) && final(self).spec_inner() == old(self).spec_inner(),
            r matches Some(out) ==> render_step(gpu_state_of(*old(psx), *old(self))) == Some(
                (gpu_state_of(*final(psx), *final(self)), views(out.0@), out.1),
            ),
            r is Some ==> final(psx).gpu.render_queue@.len() < old(psx).gpu.render_queue@.len(),
            render_frame(*old(psx), *final(psx)),
            final(psx).gpu.environment == old(psx).gpu.environment,
    {
        proof {
            lemma_bits_bounds(size.0);
            lemma_bits_bounds(dest.0);
        }
        let width = blit_width_exec(size.width());
        let height = blit_height_exec(size.height());
        assert(1 <= width * height <= 0x80000) by (nonlinear_arith)
            requires
                1 <= width <= 0x400,
                1 <= height <= 0x200,
        ;
        let count = (width * height + 1) / 2;
        if psx.gpu.render_queue.len() < count as usize {
            return None;
        }
        let ghost q = psx.gpu.render_queue@;
        let mut data: Vec<u8> = Vec::new();
        let mut i: u32 = 0;
        while i < count
            invariant
                i <= count,
                count <= q.len(),
                psx.gpu.render_queue@ == q.subrange(i as int, q.len() as int),
                data@ == words_bytes(q.subrange(0, i as int)),
                *psx == (PSX {
                    gpu: Gpu { render_queue: psx.gpu.render_queue, ..old(psx).gpu },
                    ..*old(psx)
                }),
            decreases count - i,
        {
            let w = psx.gpu.render_queue.pop_front().unwrap();
            push_word_bytes(&mut data, w);
            proof {
                assert(q.subrange(0, i as int + 1).drop_last() =~= q.subrange(0, i as int));
                assert(q.subrange(0, i as int + 1).last() == w);
            }
            i += 1;
            assert(psx.gpu.render_queue@ =~= q.subrange(i as int, q.len() as int));
        }
        let (dx, dy) = (dest.x(), dest.y());
        let x = dx & 0x3FF;
        let y = dy & 0x1FF;
        proof {
            lemma_masked_bounds(dx);
            lemma_masked_bounds(dy);
        }
        let copy = CopyToVram {
            coords: VramCoords { x: x as u16, y: y as u16 },
            dimensions: VramDimensions { width: width as u16, height: height as u16 },
            data,
        };
        self.inner = State::Idle;
        psx.gpu.status = super::Status(set_field(psx.gpu.status.0, 27, 1, 0));
        psx.scheduler.schedule(Event::DmaUpdate, 0);
        let out = one(Command::CopyToVram(copy));
        Some((out, None))
    }

    /// Takes the next step of a poly-line.
    fn exec_poly_line(&mut self, psx: &mut PSX, cmd: LineCmd, received: u32) -> (r: Option<RenderOutput>)
        requires
            old(self).spec_inner() == (State::PolyLine { cmd, received }),
            step_ok(gpu_state_of(*old(psx), *old(self))),
        ensures
            r is None ==> render_step(gpu_state_of(*old(psx), *old(self))) is None && *final(psx)
                == *old(psx) && final(self).spec_inner() == old(self).spec_inner(),
            r matches Some(out) ==> render_step(gpu_state_of(*old(psx), *old(self))) == Some(
                (gpu_state_of(*final(psx), *final(self)), views(out.0@), out.1),
            ),
            r is Some ==> final(psx).gpu.render_queue@.len() < old(psx).gpu.render_queue@.len(),
            render_frame(*old(psx), *final(psx)),
            final(psx).gpu.environment == old(psx).gpu.environment,
    {
        let len = psx.gpu.render_queue.len();
        if len == 0 {
            return None;
        }
        let front = psx.gpu.render_queue[0];
        if received >= 2 && (front & 0xF000_F000 == 0x5000_5000) {
            psx.gpu.render_queue.pop_front();
            self.inner = State::Idle;
            return Some((Vec::new(), None));
        }
        match cmd.shading_mode() {
            ShadingMode::Flat => {
                psx.gpu.render_queue.pop_front();
                self.inner = State::PolyLine { cmd, received: received + 1 };
                Some((Vec::new(), None))
            },
            ShadingMode::Gouraud => {
                if len >= 2 {
                    psx.gpu.render_queue.pop_front();
                    psx.gpu.render_queue.pop_front();
                    self.inner = State::PolyLine { cmd, received: received + 1 };
                    proof {
                        let old_q = old(psx).gpu.render_queue@;
                        assert(psx.gpu.render_queue@ =~= old_q.subrange(2, old_q.len() as int));
                    }
                    Some((Vec::new(), None))
                } else {
                    None
                }
            },
        }
    }

    /// Takes the next step of the render queue, if it does not wait for more packets.
    fn render_next(&mut self, psx: &mut PSX) -> (r: Option<RenderOutput>)
        requires
            env_wf(old(psx).gpu.environment),
            step_ok(gpu_state_of(*old(psx), *old(self))),
        ensures
            r is None ==> render_step(gpu_state_of(*old(psx), *old(self))) is None && *final(psx)
                == *old(psx) && final(self).spec_inner() == old(self).spec_inner(),
            r matches Some(out) ==> render_step(gpu_state_of(*old(psx), *old(self))) == Some(
                (gpu_state_of(*final(psx), *final(self)), views(out.0@), out.1),
            ),
            r is Some ==> final(psx).gpu.render_queue@.len() < old(psx).gpu.render_queue@.len(),
            render_frame(*old(psx), *final(psx)),
            env_wf(final(psx).gpu.environment),
    {
        match self.inner {
            State::Idle => {
                if psx.gpu.render_queue.len() == 0 {
                    return None;
                }
                let cmd = RenderingCommand(psx.gpu.render_queue[0]);
                if psx.gpu.render_queue.len() <= cmd.args() {
                    return None;
                }
                psx.gpu.render_queue.pop_front();
                proof {
                    let before = gpu_state_of(*old(psx), *old(self));
                    assert(psx.gpu.render_queue@ =~= before.render.drop_first());
                    assert(gpu_state_of(*psx, *self) == GpuState {
                        render: before.render.drop_first(),
                        ..before
                    });
                    lemma_exec_render_shrinks(gpu_state_of(*psx, *self), cmd);
                }
                let out = self.exec_render(psx, cmd);
                Some(out)
            },
            State::CpuToVramBlit { dest, size } => self.exec_blit_data(psx, dest, size),
            State::PolyLine { cmd, received } => self.exec_poly_line(psx, cmd, received),
        }
    }
}


proof fn lemma_views_append(a: Seq<Command>, b: Seq<Command>)
    ensures
        views(a + b) == views(a) + views(b),
{
    assert(views(a + b) =~= views(a) + views(b));
}

impl Interpreter {
    /// Executes the queued render packets, until the queue waits for more packets or for a copy
    /// from VRAM; returns the commands for the renderer and the copy from VRAM asked for, if any.
    fn exec_queued_render(&mut self, psx: &mut PSX) -> (r: RenderOutput)
        requires
            env_wf(old(psx).gpu.environment),
            render_run_ok(gpu_state_of(*old(psx), *old(self))),
        ensures
            (gpu_state_of(*final(psx), *final(self)), views(r.0@), r.1) == render_run(
                gpu_state_of(*old(psx), *old(self)),
            ),
            render_frame(*old(psx), *final(psx)),
            env_wf(final(psx).gpu.environment),
    {
        let mut out: Vec<Command> = Vec::new();
        loop
            invariant
                render_run(gpu_state_of(*old(psx), *old(self))) == after(
                    views(out@),
                    render_run(gpu_state_of(*psx, *self)),
                ),
                render_run_ok(gpu_state_of(*psx, *self)),
                env_wf(psx.gpu.environment),
                render_frame(*old(psx), *psx),
            decreases psx.gpu.render_queue@.len(),
        {
            let ghost current = gpu_state_of(*psx, *self);
            let ghost before_out = out@;
            match self.render_next(psx) {
                None => {
                    assert(views(out@) + Seq::<CommandView>::empty() =~= views(out@));
                    return (out, None);
                },
                Some((mut cmds, request)) => {
                    let ghost step_out = cmds@;
                    out.append(&mut cmds);
                    proof {
                        lemma_views_append(before_out, step_out);
                        let next = gpu_state_of(*psx, *self);
                        assert(render_step(current) == Some((next, views(step_out), request)));
                        if request is None {
                            let rest = render_run(next);
                            assert(views(before_out) + (views(step_out) + rest.1) =~= views(out@)
                                + rest.1);
                        }
                    }
                    if request.is_some() {
                        return (out, request);
                    }
                },
            }
        }
    }
}


/// Returns whether the render command `cmd` can be executed (see [`render_ok`]).
fn can_render(cmd: RenderingCommand) -> (r: bool)
    ensures
        r == render_ok(cmd),
{
    match cmd.opcode() {
        RenderingOpcode::Misc => cmd.misc_opcode().is_some(),
        RenderingOpcode::Environment => cmd.environment_opcode().is_some(),
        _ => true,
    }
}

impl Interpreter {
    /// Returns whether the next step of the render queue can be taken (see [`step_ok`]).
    fn can_step(&self, psx: &PSX) -> (r: bool)
        ensures
            r == step_ok(gpu_state_of(*psx, *self)),
    {
        let q = &psx.gpu.render_queue;
        match self.inner {
            State::Idle => {
                if q.len() == 0 {
                    return true;
                }
                let cmd = RenderingCommand(q[0]);
                q.len() <= cmd.args() || can_render(cmd)
            },
            State::PolyLine { cmd, received } => {
                if q.len() == 0 {
                    return true;
                }
                let gouraud = match cmd.shading_mode() {
                    ShadingMode::Gouraud => true,
                    _ => false,
                };
                received < u32::MAX && !(gouraud && q.len() == 1 && !(received >= 2 && q[0]
                    & 0xF000_F000 == 0x5000_5000))
            },
            _ => true,
        }
    }

    /// Runs the render queue as [`exec_queued_render`](Self::exec_queued_render) does, where
    /// every step of it can be taken; stops with `None` at a step that cannot.
    fn try_exec_queued_render(&mut self, psx: &mut PSX) -> (r: Option<RenderOutput>)
        requires
            env_wf(old(psx).gpu.environment),
        ensures
            r is Some <==> render_run_ok(gpu_state_of(*old(psx), *old(self))),
            r matches Some(out) ==> (gpu_state_of(*final(psx), *final(self)), views(out.0@), out.1)
                == render_run(gpu_state_of(*old(psx), *old(self))),
            render_frame(*old(psx), *final(psx)),
            env_wf(final(psx).gpu.environment),
    {
        let mut out: Vec<Command> = Vec::new();
        loop
            invariant
                render_run_ok(gpu_state_of(*old(psx), *old(self))) == render_run_ok(
                    gpu_state_of(*psx, *self),
                ),
                render_run_ok(gpu_state_of(*psx, *self)) ==> render_run(
                    gpu_state_of(*old(psx), *old(self)),
                ) == after(views(out@), render_run(gpu_state_of(*psx, *self))),
                env_wf(psx.gpu.environment),
                render_frame(*old(psx), *psx),
            decreases psx.gpu.render_queue@.len(),
        {
            let ghost current = gpu_state_of(*psx, *self);
            let ghost before_out = out@;
            if !self.can_step(psx) {
                return None;
            }
            match self.render_next(psx) {
                None => {
                    assert(views(out@) + Seq::<CommandView>::empty() =~= views(out@));
                    return Some((out, None));
                },
                Some((mut cmds, request)) => {
                    let ghost step_out = cmds@;
                    out.append(&mut cmds);
                    proof {
                        lemma_views_append(before_out, step_out);
                        let next = gpu_state_of(*psx, *self);
                        assert(render_step(current) == Some((next, views(step_out), request)));
                        if request is None && render_run_ok(next) {
                            let rest = render_run(next);
                            assert(views(before_out) + (views(step_out) + rest.1) =~= views(out@)
                                + rest.1);
                        }
                    }
                    if request.is_some() {
                        return Some((out, request));
                    }
                },
            }
        }
    }

    /// Executes all queued GPU packets as [`exec_queued`](Self::exec_queued) does, where every
    /// step of the render queue can be taken ([`render_run_ok`]); otherwise returns `None`,
    /// having stopped at the step that cannot.
    pub fn try_exec_queued(&mut self, psx: &mut PSX) -> (r: Option<RenderOutput>)
        requires
            display_queue_ok(old(psx).gpu.display_queue@),
            env_wf(old(psx).gpu.environment),
        ensures
            ({
                let d = display_run(display_model_of(*old(psx)));
                let start = render_state(d.0, old(self).spec_inner());
                let run = render_run(start);
                &&& r is Some <==> render_run_ok(start)
                &&& r matches Some(out) ==> {
                    &&& gpu_state_of(*final(psx), *final(self)) == run.0
                    &&& views(out.0@) == d.1 + run.1
                    &&& out.1 == run.2
                    &&& final(psx).gpu.display == d.0.display
                    &&& final(psx).gpu.display_queue@ == d.0.queue
                }
            }),
            gpu_frame(*old(psx), *final(psx)),
            env_wf(final(psx).gpu.environment),
    {
        let mut out = self.exec_queued_display(psx);
        let ghost display_out = out@;
        assert(gpu_state_of(*psx, *self) == render_state(display_model_of(*psx), self.spec_inner()));
        match self.try_exec_queued_render(psx) {
            Some((mut commands, request)) => {
                let ghost render_out = commands@;
                out.append(&mut commands);
                proof {
                    lemma_views_append(display_out, render_out);
                }
                Some((out, request))
            },
            None => None,
        }
    }
}

/// Returns whether the queued display packets of `psx` can be executed and its drawing offset is
/// in range: what [`Interpreter::exec_queued`] needs besides [`render_run_ok`].
pub fn can_exec_display(psx: &PSX) -> (r: bool)
    ensures
        r == (display_queue_ok(psx.gpu.display_queue@) && env_wf(psx.gpu.environment)),
{
    let env = &psx.gpu.environment;
    if !(-0x400 <= env.drawing_offset_x && env.drawing_offset_x < 0x400 && -0x400
        <= env.drawing_offset_y && env.drawing_offset_y < 0x400) {
        return false;
    }
    let q = &psx.gpu.display_queue;
    let n = q.len();
    let mut k: usize = 0;
    while k < n
        invariant
            n == q@.len(),
            q == &psx.gpu.display_queue,
            env_wf(psx.gpu.environment),
            k <= n,
            forall|i: int| 0 <= i < k ==> display_ok(#[trigger] q@[i]),
        decreases n - k,
    {
        let cmd = q[k];
        let ok = match DisplayCommand(cmd).opcode() {
            None => false,
            Some(DisplayOpcode::ReadGpuRegister) => field(cmd, 0, 3) != 2,
            Some(_) => true,
        };
        if !ok {
            assert(!display_ok(q@[k as int]));
            return false;
        }
        k += 1;
    }
    true
}

/// The state the display packets work on.
pub ghost struct DisplayModel {
    pub status: u32,
    pub env: EnvironmentState,
    pub display: DisplayState,
    pub render: Seq<u32>,
    pub response: Seq<u32>,
    pub queue: Seq<u32>,
    pub elapsed: u64,
    pub events: Seq<ScheduledEvent>,
    pub last_scheduled: u64,
}

/// The state of `psx` that the display packets work on.
pub open spec fn display_model_of(psx: PSX) -> DisplayModel {
    DisplayModel {
        status: psx.gpu.status.0,
        env: psx.gpu.environment,
        display: psx.gpu.display,
        render: psx.gpu.render_queue@,
        response: psx.gpu.response_queue@,
        queue: psx.gpu.display_queue@,
        elapsed: psx.scheduler.spec_elapsed(),
        events: psx.scheduler.events(),
        last_scheduled: psx.scheduler.spec_last_scheduled_time(),
    }
}

/// Only the GPU and the scheduler differ between `old` and `new`.
pub open spec fn gpu_frame(old: PSX, new: PSX) -> bool {
    new == PSX { gpu: new.gpu, scheduler: new.scheduler, ..old }
}

/// Whether a display packet can be executed: its operation must be a known one, and it must not
/// read GPU register 2.
pub open spec fn display_ok(cmd: u32) -> bool {
    &&& DisplayCommand(cmd).spec_opcode() is Some
    &&& DisplayCommand(cmd).spec_opcode() == Some(DisplayOpcode::ReadGpuRegister) ==> bits_of(
        cmd,
        0,
        3,
    ) != 2
}

/// The result of the display packet `cmd`: the state after it, and the command for the renderer,
/// if any. Resetting the GPU resets the status and drops the queued render packets; the display
/// mode goes to the status and to the renderer; the DMA direction goes to the status and
/// schedules a DMA update; the display area goes to the display state and the renderer; the
/// display ranges go to the display state; the display enable, interrupt acknowledge and VRAM
/// size bits go to the status and environment; resetting the command buffer drops the queued
/// render packets; reading GPU registers 3, 4 and 5 puts the drawing area corners or the drawing
/// offset at the front of the responses.
pub open spec fn display_step(m: DisplayModel, cmd: u32) -> (DisplayModel, Option<CommandView>) {
    match DisplayCommand(cmd).spec_opcode().unwrap() {
        DisplayOpcode::ResetGpu => (
            DisplayModel { status: 0x1480_2000, render: Seq::empty(), ..m },
            None,
        ),
        DisplayOpcode::DisplayMode => (
            DisplayModel { status: spec_display_mode_status(m.status, cmd), ..m },
            Some(
                CommandView::SetDisplayResolution(
                    DisplayResolution {
                        horizontal: DisplayModeCmd(cmd).spec_horizontal_resolution(),
                        vertical: DisplayModeCmd(cmd).spec_vertical_resolution(),
                    },
                ),
            ),
        ),
        DisplayOpcode::DmaDirection => (
            DisplayModel {
                status: with_bits(m.status, 29, 2, bits_of(cmd, 0, 2)),
                events: m.events.push(ScheduledEvent { time: m.elapsed, event: Event::DmaUpdate }),
                last_scheduled: m.elapsed,
                ..m
            },
            None,
        ),
        DisplayOpcode::DisplayArea => {
            let (x, y) = (bits_of(cmd, 0, 10) as u16, bits_of(cmd, 10, 9) as u16);
            (
                DisplayModel {
                    display: DisplayState { top_left_x: x, top_left_y: y, ..m.display },
                    ..m
                },
                Some(CommandView::SetDisplayTopLeft(VramCoords { x, y })),
            )
        },
        DisplayOpcode::HorizontalDisplayRange => (
            DisplayModel {
                display: DisplayState {
                    horizontal_range: (bits_of(cmd, 0, 12) as u16, bits_of(cmd, 12, 12) as u16),
                    ..m.display
                },
                ..m
            },
            None,
        ),
        DisplayOpcode::VerticalDisplayRange => (
            DisplayModel {
                display: DisplayState {
                    vertical_range: (bits_of(cmd, 0, 10) as u16, bits_of(cmd, 10, 10) as u16),
                    ..m.display
                },
                ..m
            },
            None,
        ),
        DisplayOpcode::DisplayEnabled => (
            DisplayModel { status: with_bits(m.status, 23, 1, bits_of(cmd, 0, 1)), ..m },
            None,
        ),
        DisplayOpcode::VramSizeV2 => (
            DisplayModel {
                env: EnvironmentState { double_vram: bits_of(cmd, 0, 1) == 1, ..m.env },
                ..m
            },
            None,
        ),
        DisplayOpcode::AcknowledgeGpuInterrupt => (
            DisplayModel { status: with_bits(m.status, 24, 1, 0), ..m },
            None,
        ),
        DisplayOpcode::ResetCommandBuffer => (DisplayModel { render: Seq::empty(), ..m }, None),
        DisplayOpcode::ReadGpuRegister => {
            let index = bits_of(cmd, 0, 3);
            if index == 3 {
                let value = (m.env.drawing_area_top_left_x & 0x3FF) as u32 | (((
                m.env.drawing_area_top_left_y & 0x1FF) as u32) << 10u32);
                (DisplayModel { response: seq![value] + m.response, ..m }, None)
            } else if index == 4 {
                let value = (m.env.drawing_area_bottom_right_x & 0x3FF) as u32 | (((
                m.env.drawing_area_bottom_right_y & 0x1FF) as u32) << 10u32);
                (DisplayModel { response: seq![value] + m.response, ..m }, None)
            } else if index == 5 {
                let value = ((m.env.drawing_offset_x as u16 & 0x7FF) as u32) | (((
                m.env.drawing_offset_y as u16 & 0x7FF) as u32) << 11u32);
                (DisplayModel { response: seq![value] + m.response, ..m }, None)
            } else {
                (m, None)
            }
        },
        _ => (m, None),
    }
}

/// The state after executing every queued display packet of `m`, in order, and the commands for
/// the renderer.
pub open spec fn display_run(m: DisplayModel) -> (DisplayModel, Seq<CommandView>)
    decreases m.queue.len(),
{
    if m.queue.len() == 0 {
        (m, Seq::empty())
    } else {
        let (next, command) = display_step(DisplayModel { queue: m.queue.drop_first(), ..m }, m.queue[0]);
        if next.queue.len() < m.queue.len() {
            let (last, rest) = display_run(next);
            (
                last,
                match command {
                    Some(c) => seq![c] + rest,
                    None => rest,
                },
            )
        } else {
            (next, Seq::empty())
        }
    }
}

/// Whether every queued display packet can be executed.
pub open spec fn display_queue_ok(queue: Seq<u32>) -> bool {
    forall|i: int| 0 <= i < queue.len() ==> display_ok(#[trigger] queue[i])
}


/// The words of the bytes of a copy from VRAM: four bytes a word in little endian order, a last
/// word of fewer bytes completed with zeros.
pub open spec fn packed_words(data: Seq<u8>) -> Seq<u32> {
    Seq::new(((data.len() + 3) / 4) as nat, |k: int| le_value_at(data, 4 * k, 4) as u32)
}

/// The contents of an optional renderer command.
pub open spec fn opt_view(c: Option<Command>) -> Option<CommandView> {
    match c {
        Some(c) => Some(c@),
        None => None,
    }
}

impl Interpreter {
    /// Executes a display packet.
    pub fn exec_display(&mut self, psx: &mut PSX, cmd: DisplayCommand) -> (r: Option<Command>)
        requires
            display_ok(cmd.0),
        ensures
            (display_model_of(*final(psx)), opt_view(r)) == display_step(
                display_model_of(*old(psx)),
                cmd.0,
            ),
            gpu_frame(*old(psx), *final(psx)),
            final(self).spec_inner() == old(self).spec_inner(),
            final(psx).gpu.environment.drawing_offset_x == old(psx).gpu.environment.drawing_offset_x,
            final(psx).gpu.environment.drawing_offset_y == old(psx).gpu.environment.drawing_offset_y,
    {
        proof {
            vstd::arithmetic::power2::lemma2_to64();
            lemma_bits_bounds(cmd.0);
        }
        match cmd.opcode().unwrap() {
            DisplayOpcode::ResetGpu => {
                psx.gpu.status = super::Status(0x1480_2000);
                psx.gpu.render_queue.clear();
                None
            },
            DisplayOpcode::DisplayMode => {
                let settings = cmd.display_mode_cmd();
                let s = psx.gpu.status.0;
                let s = set_field(s, 16, 2, field(settings.0, 0, 2));
                let s = set_field(s, 19, 1, field(settings.0, 2, 1));
                let s = set_field(s, 20, 1, field(settings.0, 3, 1));
                let s = set_field(s, 21, 1, field(settings.0, 4, 1));
                let s = set_field(s, 22, 1, field(settings.0, 5, 1));
                let s = set_field(s, 18, 1, field(settings.0, 6, 1));
                let s = set_field(s, 14, 1, field(settings.0, 7, 1));
                psx.gpu.status = super::Status(s);
                Some(
                    Command::SetDisplayResolution(
                        DisplayResolution {
                            horizontal: settings.horizontal_resolution(),
                            vertical: settings.vertical_resolution(),
                        },
                    ),
                )
            },
            DisplayOpcode::DmaDirection => {
                psx.gpu.status = super::Status(set_field(psx.gpu.status.0, 29, 2, field(cmd.0, 0, 2)));
                psx.scheduler.schedule(Event::DmaUpdate, 0);
                None
            },
            DisplayOpcode::DisplayArea => {
                let x = field(cmd.0, 0, 10) as u16;
                let y = field(cmd.0, 10, 9) as u16;
                psx.gpu.display.top_left_x = x;
                psx.gpu.display.top_left_y = y;
                Some(Command::SetDisplayTopLeft(VramCoords { x, y }))
            },
            DisplayOpcode::HorizontalDisplayRange => {
                psx.gpu.display.horizontal_range = (
                    field(cmd.0, 0, 12) as u16,
                    field(cmd.0, 12, 12) as u16,
                );
                None
            },
            DisplayOpcode::VerticalDisplayRange => {
                psx.gpu.display.vertical_range = (
                    field(cmd.0, 0, 10) as u16,
                    field(cmd.0, 10, 10) as u16,
                );
                None
            },
            DisplayOpcode::DisplayEnabled => {
                psx.gpu.status = super::Status(set_field(psx.gpu.status.0, 23, 1, field(cmd.0, 0, 1)));
                None
            },
            DisplayOpcode::VramSizeV2 => {
                psx.gpu.environment.double_vram = field(cmd.0, 0, 1) == 1;
                None
            },
            DisplayOpcode::AcknowledgeGpuInterrupt => {
                psx.gpu.status = super::Status(set_field(psx.gpu.status.0, 24, 1, 0));
                None
            },
            DisplayOpcode::ResetCommandBuffer => {
                psx.gpu.render_queue.clear();
                None
            },
            DisplayOpcode::ReadGpuRegister => {
                let index = field(cmd.0, 0, 3);
                let env = psx.gpu.environment;
                if index == 3 {
                    let value = (env.drawing_area_top_left_x & 0x3FF) as u32 | (((
                    env.drawing_area_top_left_y & 0x1FF) as u32) << 10u32);
                    psx.gpu.response_queue.push_front(value);
                } else if index == 4 {
                    let value = (env.drawing_area_bottom_right_x & 0x3FF) as u32 | (((
                    env.drawing_area_bottom_right_y & 0x1FF) as u32) << 10u32);
                    psx.gpu.response_queue.push_front(value);
                } else if index == 5 {
                    let value = ((env.drawing_offset_x as u16 & 0x7FF) as u32) | (((
                    env.drawing_offset_y as u16 & 0x7FF) as u32) << 11u32);
                    psx.gpu.response_queue.push_front(value);
                }
                None
            },
            _ => None,
        }
    }

    /// Executes every queued display packet, in order, and returns the commands for the
    /// renderer.
    fn exec_queued_display(&mut self, psx: &mut PSX) -> (r: Vec<Command>)
        requires
            display_queue_ok(old(psx).gpu.display_queue@),
        ensures
            (display_model_of(*final(psx)), views(r@)) == display_run(display_model_of(*old(psx))),
            gpu_frame(*old(psx), *final(psx)),
            final(self).spec_inner() == old(self).spec_inner(),
            final(psx).gpu.environment.drawing_offset_x == old(psx).gpu.environment.drawing_offset_x,
            final(psx).gpu.environment.drawing_offset_y == old(psx).gpu.environment.drawing_offset_y,
    {
        let mut out: Vec<Command> = Vec::new();
        loop
            invariant
                display_run(display_model_of(*old(psx))) == (
                    display_run(display_model_of(*psx)).0,
                    views(out@) + display_run(display_model_of(*psx)).1,
                ),
                display_queue_ok(psx.gpu.display_queue@),
                gpu_frame(*old(psx), *psx),
                self.spec_inner() == old(self).spec_inner(),
                psx.gpu.environment.drawing_offset_x == old(psx).gpu.environment.drawing_offset_x,
                psx.gpu.environment.drawing_offset_y == old(psx).gpu.environment.drawing_offset_y,
            decreases psx.gpu.display_queue@.len(),
        {
            let ghost current = display_model_of(*psx);
            let ghost before_out = out@;
            match psx.gpu.display_queue.pop_front() {
                None => {
                    assert(views(out@) + Seq::<CommandView>::empty() =~= views(out@));
                    return out;
                },
                Some(packet) => {
                    proof {
                        assert(display_ok(current.queue[0]));
                        assert(display_model_of(*psx) == DisplayModel {
                            queue: current.queue.drop_first(),
                            ..current
                        });
                        assert forall|i: int|
                            0 <= i < psx.gpu.display_queue@.len() implies display_ok(
                                #[trigger] psx.gpu.display_queue@[i],
                            ) by {
                            assert(psx.gpu.display_queue@[i] == current.queue[i + 1]);
                        }
                    }
                    let command = self.exec_display(psx, DisplayCommand(packet));
                    match command {
                        Some(c) => {
                            out.push(c);
                            proof {
                                let rest = display_run(display_model_of(*psx)).1;
                                assert(views(out@) =~= views(before_out) + seq![c@]);
                                assert(views(before_out) + (seq![c@] + rest) =~= views(out@) + rest);
                            }
                        },
                        None => {},
                    }
                },
            }
        }
    }

    /// Takes the bytes of a copy from VRAM: they go to the responses, four bytes a word in
    /// little endian order (a last word of two or three bytes completed with zeros), and a DMA
    /// update is scheduled.
    pub fn receive_vram(&mut self, psx: &mut PSX, data: Vec<u8>)
        requires
            data@.len() % 4 != 1,
            data@.len() < 0x1000_0000,
        ensures
            final(psx).gpu.response_queue@ == old(psx).gpu.response_queue@ + packed_words(data@),
            final(psx).gpu == (Gpu { response_queue: final(psx).gpu.response_queue, ..old(psx).gpu }),
            final(psx).scheduler.events() == old(psx).scheduler.events().push(
                ScheduledEvent { time: old(psx).scheduler.spec_elapsed(), event: Event::DmaUpdate },
            ),
            final(psx).scheduler.spec_elapsed() == old(psx).scheduler.spec_elapsed(),
            final(psx).scheduler.spec_last_scheduled_time() == old(psx).scheduler.spec_elapsed(),
            gpu_frame(*old(psx), *final(psx)),
            final(self).spec_inner() == old(self).spec_inner(),
    {
        let ghost start = psx.gpu.response_queue@;
        let mut offset: usize = 0;
        while offset < data.len()
            invariant
                offset % 4 == 0,
                offset <= data@.len() + 3,
                data@.len() < 0x1000_0000,
                psx.gpu.response_queue@ == start + Seq::new(
                    (offset / 4) as nat,
                    |k: int| le_value_at(data@, 4 * k, 4) as u32,
                ),
                gpu_frame(*old(psx), *psx),
                psx.scheduler == old(psx).scheduler,
                psx.gpu == (Gpu { response_queue: psx.gpu.response_queue, ..old(psx).gpu }),
            decreases data@.len() + 4 - offset,
        {
            let word: u32 = read_at(data.as_slice(), offset);
            psx.gpu.response_queue.push_back(word);
            proof {
                assert(word == le_value_at(data@, offset as int, 4) as u32);
            }
            offset += 4;
            proof {
                assert(psx.gpu.response_queue@ =~= start + Seq::new((offset / 4) as nat, |k: int| le_value_at(data@, 4 * k, 4) as u32));
            }
        }
        proof {
            assert(psx.gpu.response_queue@ =~= start + packed_words(data@));
        }
        psx.scheduler.schedule(Event::DmaUpdate, 0);
    }
}


/// The render state after the display packets left `d`, with the interpreter in `inner`.
pub open spec fn render_state(d: DisplayModel, inner: State) -> GpuState {
    GpuState {
        status: d.status,
        env: d.env,
        render: d.render,
        response: d.response,
        elapsed: d.elapsed,
        events: d.events,
        last_scheduled: d.last_scheduled,
        inner,
    }
}

/// The status after a VBlank: in 480 line mode the odd line flag (bit 31) toggles, else it is
/// cleared.
pub open spec fn vblank_status(status: u32) -> u32 {
    if bits_of(status, 19, 1) == 1 {
        with_bits(
            status,
            31,
            1,
            if bits_of(status, 31, 1) == 1 {
                0
            } else {
                1
            },
        )
    } else {
        with_bits(status, 31, 1, 0)
    }
}

impl Interpreter {
    /// Executes all queued GPU packets: the display packets first, then the render packets until
    /// they wait for more packets or a copy from VRAM. Returns the commands for the renderer and
    /// the copy from VRAM asked for, if any.
    pub fn exec_queued(&mut self, psx: &mut PSX) -> (r: RenderOutput)
        requires
            display_queue_ok(old(psx).gpu.display_queue@),
            env_wf(old(psx).gpu.environment),
            render_run_ok(
                render_state(display_run(display_model_of(*old(psx))).0, old(self).spec_inner()),
            ),
        ensures
            ({
                let d = display_run(display_model_of(*old(psx)));
                let run = render_run(render_state(d.0, old(self).spec_inner()));
                &&& gpu_state_of(*final(psx), *final(self)) == run.0
                &&& views(r.0@) == d.1 + run.1
                &&& r.1 == run.2
                &&& final(psx).gpu.display == d.0.display
                &&& final(psx).gpu.display_queue@ == d.0.queue
            }),
            gpu_frame(*old(psx), *final(psx)),
            env_wf(final(psx).gpu.environment),
    {
        let mut out = self.exec_queued_display(psx);
        let ghost display_out = out@;
        assert(gpu_state_of(*psx, *self) == render_state(display_model_of(*psx), self.spec_inner()));
        let (mut commands, request) = self.exec_queued_render(psx);
        let ghost render_out = commands@;
        out.append(&mut commands);
        proof {
            lemma_views_append(display_out, render_out);
        }
        (out, request)
    }

    /// Performs a VBlank: updates the odd line flag, requests the VBlank interrupt, schedules the
    /// next VBlank a frame later, and tells the renderer.
    pub fn vblank(&mut self, psx: &mut PSX) -> (r: Command)
        requires
            old(psx).scheduler.spec_elapsed() + 0x1_0000_0000 <= u64::MAX,
        ensures
            r@ == CommandView::VBlank,
            final(psx).gpu == (Gpu { status: super::Status(vblank_status(old(psx).gpu.status.0)), ..old(psx).gpu }),
            final(psx).interrupts.status.0 == old(psx).interrupts.status.0 | (1u32 << Interrupt::VBlank.spec_index()),
            final(psx).scheduler.events() == old(psx).scheduler.events().push(
                ScheduledEvent {
                    time: (old(psx).scheduler.spec_elapsed() + Gpu::spec_cycles_per_vblank(
                        super::Status(vblank_status(old(psx).gpu.status.0)).spec_video_mode(),
                    )) as u64,
                    event: Event::VBlank,
                },
            ),
            final(psx).scheduler.spec_elapsed() == old(psx).scheduler.spec_elapsed(),
            *final(psx) == (PSX {
                gpu: final(psx).gpu,
                interrupts: final(psx).interrupts,
                scheduler: final(psx).scheduler,
                ..*old(psx)
            }),
            final(psx).interrupts.mask == old(psx).interrupts.mask,
            final(self).spec_inner() == old(self).spec_inner(),
    {
        proof {
            vstd::arithmetic::power2::lemma2_to64();
        }
        let status = psx.gpu.status.0;
        let odd = if psx.gpu.status.vertical_resolution() == VerticalResolution::R480 {
            if psx.gpu.status.interlace_odd() {
                0
            } else {
                1
            }
        } else {
            0
        };
        psx.gpu.status = super::Status(set_field(status, 31, 1, odd));
        psx.interrupts.status.request(Interrupt::VBlank);
        let cycles = psx.gpu.cycles_per_vblank();
        psx.scheduler.schedule(Event::VBlank, cycles as u64);
        Command::VBlank
    }
}


/// Law: executing the queued display packets leaves none queued.
pub proof fn law_display_run_drains(m: DisplayModel)
    ensures
        display_run(m).0.queue.len() == 0,
    decreases m.queue.len(),
{
    if m.queue.len() > 0 {
        let next = display_step(DisplayModel { queue: m.queue.drop_first(), ..m }, m.queue[0]).0;
        assert(next.queue == m.queue.drop_first());
        law_display_run_drains(next);
    }
}

/// Law: running the render queue stops only where it waits for more packets, or for a copy
/// from VRAM.
pub proof fn law_render_run_waits(s: GpuState)
    ensures
        render_run(s).2 is None ==> render_step(render_run(s).0) is None,
    decreases s.render.len(),
{
    match render_step(s) {
        None => {},
        Some((next, out, request)) => {
            if request is None && next.render.len() < s.render.len() {
                law_render_run_waits(next);
            } else if request is None {
                lemma_step_progress(s);
            }
        },
    }
}

/// Proof that a step of the render queue takes packets off it.
proof fn lemma_step_progress(s: GpuState)
    requires
        render_step(s) is Some,
    ensures
        render_step(s).unwrap().0.render.len() < s.render.len(),
{
    match s.inner {
        State::Idle => {
            let cmd = RenderingCommand(s.render[0]);
            lemma_exec_render_shrinks(GpuState { render: s.render.drop_first(), ..s }, cmd);
        },
        State::CpuToVramBlit { dest, size } => {
            let w = blit_width(bits_of(size.0, 0, 16));
            let h = blit_height(bits_of(size.0, 16, 16));
            assert(1 <= w && 1 <= h) by {
                let a = (bits_of(size.0, 0, 16) - 1) as u32;
                let b = (bits_of(size.0, 16, 16) - 1) as u32;
                lemma_masked_bounds(a);
                lemma_masked_bounds(b);
            }
            assert(w * h >= 1) by (nonlinear_arith)
                requires
                    1 <= w,
                    1 <= h,
            ;
        },
        State::PolyLine { .. } => {},
    }
}

/// Law: the words of the little endian bytes of words are those words: the data of a copy to
/// VRAM packs back into the packets it came from.
pub proof fn law_pack_bytes_of_words(words: Seq<u32>)
    ensures
        packed_words(words_bytes(words)) == words,
    decreases words.len(),
{
    lemma_words_bytes_len(words);
    let bytes = words_bytes(words);
    assert forall|k: int| 0 <= k < words.len() implies #[trigger] packed_words(bytes)[k]
        == words[k] by {
        lemma_words_bytes_at(words, k);
        let w = words[k];
        let b = window(bytes, 4 * k);
        assert(b[0] == (w % 0x100) as u8);
        assert(b[1] == ((w / 0x100) % 0x100) as u8);
        assert(b[2] == ((w / 0x1_0000) % 0x100) as u8);
        assert(b[3] == ((w / 0x100_0000) % 0x100) as u8);
        assert((w % 0x100) as u8 as u32 + ((w / 0x100) % 0x100) as u8 as u32 * 0x100 + ((w
            / 0x1_0000) % 0x100) as u8 as u32 * 0x1_0000 + ((w / 0x100_0000) % 0x100) as u8 as u32
            * 0x100_0000 == w) by (bit_vector);
    }
    assert(packed_words(bytes) =~= words);
}

proof fn lemma_words_bytes_len(words: Seq<u32>)
    ensures
        words_bytes(words).len() == 4 * words.len(),
    decreases words.len(),
{
    if words.len() > 0 {
        lemma_words_bytes_len(words.drop_last());
    }
}

proof fn lemma_words_bytes_at(words: Seq<u32>, k: int)
    requires
        0 <= k < words.len(),
    ensures
        words_bytes(words).subrange(4 * k, 4 * k + 4) == word_bytes(words[k]),
    decreases words.len(),
{
    lemma_words_bytes_len(words);
    lemma_words_bytes_len(words.drop_last());
    if k < words.len() - 1 {
        lemma_words_bytes_at(words.drop_last(), k);
        assert(words_bytes(words).subrange(4 * k, 4 * k + 4) =~= words_bytes(words.drop_last()).subrange(4 * k, 4 * k + 4));
    } else {
        assert(words_bytes(words).subrange(4 * k, 4 * k + 4) =~= word_bytes(words.last()));
    }
}

} // verus!
