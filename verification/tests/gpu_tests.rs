use shimmer::cdrom::Cdrom;
use shimmer::cpu::Cpu;
use shimmer::dma;
use shimmer::gpu::interface::{Command, CopyFromVram, Primitive, VramCoords, VramDimensions};
use shimmer::gpu::interpreter::Interpreter;
use shimmer::gpu::Gpu;
use shimmer::gte::Gte;
use shimmer::interrupts;
use shimmer::mem::Memory;
use shimmer::psx::PSX;
use shimmer::scheduler::Scheduler;
use shimmer::sio0;
use shimmer::timers::Timers;

fn machine() -> PSX {
    PSX {
        scheduler: Scheduler::new(),
        memory: Memory::with_bios(vec![]).expect("the BIOS fits"),
        timers: Timers::default(),
        dma: dma::Controller::default(),
        cpu: Cpu::default(),
        cop0: shimmer::cpu::cop0::Cop0::default(),
        gte: Gte::default(),
        interrupts: interrupts::Controller::default(),
        gpu: Gpu::default(),
        cdrom: Cdrom::new(),
        sio0: sio0::Registers::default(),
    }
}

fn render(psx: &mut PSX, interp: &mut Interpreter, packets: &[u32]) -> Vec<Command> {
    for p in packets {
        psx.gpu.render_queue.push_back(*p);
    }
    let (commands, request) = interp.exec_queued(psx);
    assert!(request.is_none());
    commands
}

#[test]
fn flat_triangle_is_drawn() {
    let mut psx = machine();
    let mut interp = Interpreter::new();
    let commands = render(&mut psx, &mut interp, &[0x2000_00FF, 0x0000_0000, 0x0000_0010, 0x0010_0000]);
    assert_eq!(commands.len(), 1);
    match &commands[0] {
        Command::Draw { primitive: Primitive::Triangle(t) } => {
            assert_eq!(t.vertices[1].x, 16);
            assert_eq!(t.vertices[2].y, 16);
            assert_eq!(t.vertices[0].color.r, 0xFF);
            assert_eq!(t.vertices[2].color.r, 0xFF);
            assert!(t.texconfig.is_none());
        }
        other => panic!("unexpected command {other:?}"),
    }
    assert_eq!(psx.gpu.render_queue.len(), 0);
}

#[test]
fn quad_gives_two_triangles() {
    let mut psx = machine();
    let mut interp = Interpreter::new();
    let commands = render(&mut psx, &mut interp, &[0x2800_0000, 0, 1, 2, 3]);
    assert_eq!(commands.len(), 2);
}

#[test]
fn command_waits_for_arguments() {
    let mut psx = machine();
    let mut interp = Interpreter::new();
    let commands = render(&mut psx, &mut interp, &[0x2000_0000, 0]);
    assert!(commands.is_empty());
    assert_eq!(psx.gpu.render_queue.len(), 2);
    let commands = render(&mut psx, &mut interp, &[0, 0]);
    assert_eq!(commands.len(), 1);
}

#[test]
fn drawing_offset_applies_to_vertices() {
    let mut psx = machine();
    let mut interp = Interpreter::new();
    // offset (-2, 3): X bits 0..11, Y bits 11..22
    let offset = 0xE500_0000 | (0x7FE) | (3 << 11);
    let commands = render(&mut psx, &mut interp, &[offset, 0x6800_0000, 0x0005_0005, 0x0000_0000]);
    assert_eq!(psx.gpu.environment.drawing_offset_x, -2);
    assert_eq!(psx.gpu.environment.drawing_offset_y, 3);
    match &commands[0] {
        Command::Draw { primitive: Primitive::Rectangle(r) } => {
            assert_eq!((r.top_left.x, r.top_left.y), (3, 8));
        }
        other => panic!("unexpected command {other:?}"),
    }
}

#[test]
fn quick_fill_aligns_rectangle() {
    let mut psx = machine();
    let mut interp = Interpreter::new();
    let commands = render(&mut psx, &mut interp, &[0x0200_00FF, 0x0010_0013, 0x0020_0011]);
    match &commands[0] {
        Command::Draw { primitive: Primitive::Rectangle(r) } => {
            assert_eq!(r.top_left.x, 0x10);
            assert_eq!(r.top_left.y, 0x10);
            assert_eq!(r.width, 0x20);
            assert_eq!(r.height, 0x20);
        }
        other => panic!("unexpected command {other:?}"),
    }
}

#[test]
fn cpu_to_vram_blit_copies_data() {
    let mut psx = machine();
    let mut interp = Interpreter::new();
    // a 2x2 blit takes two data packets
    let commands = render(&mut psx, &mut interp, &[0xA000_0000, 0x0001_0002, 0x0002_0002, 0x4433_2211]);
    assert!(commands.is_empty());
    let commands = render(&mut psx, &mut interp, &[0x8877_6655]);
    match &commands[0] {
        Command::CopyToVram(copy) => {
            assert_eq!(copy.coords, VramCoords { x: 2, y: 1 });
            assert_eq!(copy.dimensions, VramDimensions { width: 2, height: 2 });
            assert_eq!(copy.data, vec![0x11, 0x22, 0x33, 0x44, 0x55, 0x66, 0x77, 0x88]);
        }
        other => panic!("unexpected command {other:?}"),
    }
}

#[test]
fn vram_to_cpu_blit_asks_and_receives() {
    let mut psx = machine();
    let mut interp = Interpreter::new();
    psx.gpu.render_queue.push_back(0xC000_0000);
    psx.gpu.render_queue.push_back(0x0000_0000);
    psx.gpu.render_queue.push_back(0x0001_0003);
    let (_, request) = interp.exec_queued(&mut psx);
    assert_eq!(
        request,
        Some(CopyFromVram {
            coords: VramCoords { x: 0, y: 0 },
            dimensions: VramDimensions { width: 3, height: 1 }
        })
    );
    interp.receive_vram(&mut psx, vec![1, 2, 3, 4, 5, 6]);
    let words: Vec<u32> = psx.gpu.response_queue.iter().copied().collect();
    assert_eq!(words, vec![0x0403_0201, 0x0000_0605]);
}

#[test]
fn display_area_command() {
    let mut psx = machine();
    let mut interp = Interpreter::new();
    psx.gpu.display_queue.push_back(0x0500_0000 | 16 | (8 << 10));
    let (commands, _) = interp.exec_queued(&mut psx);
    assert_eq!(psx.gpu.display.top_left_x, 16);
    assert_eq!(psx.gpu.display.top_left_y, 8);
    assert!(matches!(commands[0], Command::SetDisplayTopLeft(VramCoords { x: 16, y: 8 })));
    assert_eq!(psx.gpu.display_queue.len(), 0);
}

#[test]
fn reset_command_buffer_drops_render_packets() {
    let mut psx = machine();
    let mut interp = Interpreter::new();
    psx.gpu.render_queue.push_back(0x2000_0000);
    psx.gpu.display_queue.push_back(0x0100_0000);
    interp.exec_queued(&mut psx);
    assert_eq!(psx.gpu.render_queue.len(), 0);
}

#[test]
fn read_drawing_area_register() {
    let mut psx = machine();
    let mut interp = Interpreter::new();
    render(&mut psx, &mut interp, &[0xE300_0000 | 5 | (7 << 10)]);
    psx.gpu.display_queue.push_back(0x1000_0003);
    interp.exec_queued(&mut psx);
    assert_eq!(psx.gpu.response_queue[0], 5 | (7 << 10));
}

#[test]
fn vblank_toggles_and_requests() {
    let mut psx = machine();
    let mut interp = Interpreter::new();
    let before = psx.scheduler.len();
    let command = interp.vblank(&mut psx);
    assert!(matches!(command, Command::VBlank));
    assert_eq!(psx.interrupts.status.0 & 1, 1);
    assert_eq!(psx.scheduler.len(), before + 1);
    assert_eq!(psx.gpu.status.0 >> 31, 0);
}

#[test]
fn poly_line_ends_on_marker() {
    let mut psx = machine();
    let mut interp = Interpreter::new();
    let commands = render(&mut psx, &mut interp, &[0x4800_0000, 0, 0, 1, 2, 0x5000_5000, 0x2000_0000, 0, 0, 0]);
    assert_eq!(commands.len(), 1);
    assert_eq!(psx.gpu.render_queue.len(), 0);
}
