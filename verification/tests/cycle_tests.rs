use shimmer::cdrom::drive::Cdrom as Drive;
use shimmer::cdrom::{Cdrom, Event as CdromEvent};
use shimmer::cpu::cop0::{Cop0, CAUSE, EPC, SR};
use shimmer::cpu::interpreter::Interpreter;
use shimmer::cpu::{Cpu, Reg};
use shimmer::dma;
use shimmer::gpu::interpreter::{can_exec_display, Interpreter as GpuInterpreter};
use shimmer::gpu::Gpu;
use shimmer::gte::fixed::Integer;
use shimmer::gte::Gte;
use shimmer::interrupts::{self, Interrupt, Status};
use shimmer::dma::executor::Executor;
use shimmer::mem::{Address, Memory};
use shimmer::run::exec_until_next_event;
use shimmer::scheduler::Event;
use shimmer::psx::PSX;
use shimmer::scheduler::Scheduler;
use shimmer::sio0;
use shimmer::timers::driver::Timers as Ticker;
use shimmer::timers::{self, Timers, CYCLES_SCANLINE};

fn machine() -> PSX {
    PSX {
        scheduler: Scheduler::new(),
        memory: Memory::with_bios(vec![0; 16]).expect("the BIOS fits"),
        timers: Timers::default(),
        dma: dma::Controller::default(),
        cpu: Cpu::default(),
        cop0: Cop0::default(),
        gte: Gte::default(),
        interrupts: interrupts::Controller::default(),
        gpu: Gpu::default(),
        cdrom: Cdrom::new(),
        sio0: sio0::Registers::default(),
    }
}

/// A machine whose CPU runs the given words from `0x8000_1000` on.
fn running(program: &[u32]) -> (PSX, Interpreter) {
    let mut psx = machine();
    for (i, word) in program.iter().enumerate() {
        psx.write(Address(0x8000_1000 + 4 * i as u32), *word).unwrap();
    }
    psx.cpu.regs.write_pc(0x8000_1000);
    (psx, Interpreter::default())
}

fn step(psx: &mut PSX, cpu: &mut Interpreter) -> u64 {
    assert!(cpu.can_exec_next(psx));
    cpu.exec_next(psx)
}

#[test]
fn integer_sum_at_the_limit_overflows() {
    let a = Integer::<44>::new((1 << 43) - 1);
    let b = Integer::<44>::new(1);
    let sum = a + b;
    assert!(sum.overflowed());
    assert!(!sum.underflowed());
    assert_eq!(sum.value(), -(1 << 43));
}

#[test]
fn integer_difference_below_the_limit_underflows() {
    let a = Integer::<44>::new(-(1 << 43));
    let b = Integer::<44>::new(1);
    let difference = a - b;
    assert!(difference.underflowed());
    assert!(!difference.overflowed());
    assert_eq!(difference.value(), (1 << 43) - 1);
}

#[test]
fn integer_sum_below_the_limit_is_clean() {
    let sum = Integer::<44>::new((1 << 43) - 2) + Integer::<44>::new(1);
    assert!(!sum.overflowed());
    assert_eq!(sum.value(), (1 << 43) - 1);
}

#[test]
fn controller_interrupt_is_requested() {
    let mut status = Status(0);
    status.request(Interrupt::Controller);
    assert_eq!(status.0, 1 << 10);
    assert_eq!(status.requested(), Some(Interrupt::Controller));
    status.request(Interrupt::CDROM);
    assert_eq!(status.0, (1 << 10) | (1 << 2));
    assert_eq!(status.requested(), Some(Interrupt::CDROM));
}

#[test]
fn instruction_runs_after_its_fetch() {
    // ADDIU R8, R0, 5
    let (mut psx, mut cpu) = running(&[0x2408_0005, 0]);
    assert_eq!(step(&mut psx, &mut cpu), 2);
    assert_eq!(psx.cpu.regs.read(Reg::R8), 0);
    assert_eq!(psx.cpu.regs.read_pc(), 0x8000_1004);
    step(&mut psx, &mut cpu);
    assert_eq!(psx.cpu.regs.read(Reg::R8), 5);
    assert_eq!(cpu.current_addr, Address(0x8000_1000));
    assert_eq!(psx.cpu.regs.read_pc(), 0x8000_1008);
}

#[test]
fn load_lands_after_the_delay_slot() {
    // LUI R9, 0x8000; LW R8, 0x2000(R9); ADDIU R10, R8, 1; NOP; NOP
    let (mut psx, mut cpu) = running(&[0x3C09_8000, 0x8D28_2000, 0x250A_0001, 0, 0]);
    psx.write(Address(0x8000_2000), 41u32).unwrap();
    step(&mut psx, &mut cpu);
    step(&mut psx, &mut cpu);
    assert_eq!(psx.cpu.regs.read(Reg::R9), 0x8000_0000);
    step(&mut psx, &mut cpu);
    assert_eq!(psx.cpu.regs.read(Reg::R8), 0);
    step(&mut psx, &mut cpu);
    assert_eq!(psx.cpu.regs.read(Reg::R8), 41);
    // the instruction in the load delay slot saw the old value
    assert_eq!(psx.cpu.regs.read(Reg::R10), 1);
}

#[test]
fn syscall_takes_the_exception() {
    let (mut psx, mut cpu) = running(&[0x0000_000C, 0]);
    psx.cop0.regs[SR] = 0b01;
    step(&mut psx, &mut cpu);
    step(&mut psx, &mut cpu);
    assert_eq!(psx.cop0.regs[EPC], 0x8000_1000);
    assert_eq!(psx.cop0.regs[CAUSE] & 0x7C, 0x08 << 2);
    assert_eq!(psx.cop0.regs[CAUSE] >> 31, 0);
    assert_eq!(psx.cop0.regs[SR] & 0x3F, 0b0100);
    assert_eq!(psx.cpu.regs.read_pc(), 0x8000_0080);
}

#[test]
fn exception_returns_with_rfe() {
    // RFE
    let (mut psx, mut cpu) = running(&[0x4200_0010, 0]);
    psx.cop0.regs[SR] = 0b0100;
    step(&mut psx, &mut cpu);
    step(&mut psx, &mut cpu);
    assert_eq!(psx.cop0.regs[SR] & 0x3F, 0b0001);
}

#[test]
fn enabled_interrupt_is_taken() {
    let (mut psx, mut cpu) = running(&[0, 0, 0]);
    psx.cop0.regs[SR] = (1 << 10) | 1;
    psx.interrupts.mask.0 = 1;
    step(&mut psx, &mut cpu);
    psx.interrupts.status.request(Interrupt::VBlank);
    step(&mut psx, &mut cpu);
    assert_eq!(psx.cop0.regs[CAUSE] & 0x7C, 0);
    assert_eq!(psx.cop0.regs[CAUSE] & 0x400, 0x400);
    assert_eq!(psx.cop0.regs[EPC], 0x8000_1000);
    assert_eq!(psx.cpu.regs.read_pc(), 0x8000_0080);
}

#[test]
fn masked_interrupt_is_not_taken() {
    let (mut psx, mut cpu) = running(&[0, 0, 0]);
    psx.cop0.regs[SR] = (1 << 10) | 1;
    psx.interrupts.status.request(Interrupt::VBlank);
    step(&mut psx, &mut cpu);
    step(&mut psx, &mut cpu);
    assert_eq!(psx.cop0.regs[CAUSE] & 0x400, 0);
    assert_eq!(psx.cpu.regs.read_pc(), 0x8000_1008);
}

#[test]
fn mtc0_then_mfc0_reads_back() {
    // ORI R8, R0, 0x1234; MTC0 R8, COP0R3; NOP; MFC0 R9, COP0R3; NOP; NOP
    let (mut psx, mut cpu) =
        running(&[0x3408_1234, 0x4088_1800, 0, 0x4009_1800, 0, 0, 0]);
    for _ in 0..7 {
        step(&mut psx, &mut cpu);
    }
    assert_eq!(psx.cop0.regs[3], 0x1234);
    assert_eq!(psx.cpu.regs.read(Reg::R9), 0x1234);
}

#[test]
fn misaligned_fetch_is_an_address_error() {
    let mut psx = machine();
    let mut cpu = Interpreter::default();
    psx.cpu.regs.write_pc(0x8000_1002);
    assert_eq!(step(&mut psx, &mut cpu), 2);
    assert_eq!(psx.cop0.regs[CAUSE] & 0x7C, 0x04 << 2);
    assert_eq!(psx.cpu.regs.read_pc(), 0x8000_0080);
}

#[test]
fn timer_setup_schedules_both_timers() {
    let mut psx = machine();
    let before = psx.scheduler.len();
    Ticker::new().update(&mut psx, timers::Event::Setup);
    assert_eq!(psx.timers.timer1.mode & 0x400, 0x400);
    assert_eq!(psx.timers.timer2.mode & 0x400, 0x400);
    assert_eq!(psx.scheduler.len(), before + 2);
}

#[test]
fn timer_tick_counts_and_reaches_target() {
    let mut psx = machine();
    psx.timers.timer2.target = 2;
    psx.timers.timer2.mode = (1 << 4) | (1 << 6);
    Ticker::new().update(&mut psx, timers::Event::Timer2);
    assert_eq!(psx.timers.timer2.value, 1);
    assert_eq!(psx.interrupts.status.0, 0);
    Ticker::new().update(&mut psx, timers::Event::Timer2);
    assert_eq!(psx.timers.timer2.value, 2);
    assert_eq!(psx.timers.timer2.mode & 0x800, 0x800);
    assert_eq!(psx.interrupts.status.0, 1 << 6);
}

#[test]
fn timer1_counts_scanlines() {
    let mut psx = machine();
    psx.timers.timer1.mode = 1 << 8;
    let before = psx.scheduler.len();
    Ticker::new().update(&mut psx, timers::Event::Timer1);
    assert_eq!(psx.timers.timer1.value, 1);
    assert_eq!(psx.scheduler.len(), before + 1);
    assert_eq!(psx.scheduler.last_scheduled_time(), CYCLES_SCANLINE);
}

#[test]
fn stopped_timer_does_not_count() {
    let mut psx = machine();
    psx.timers.timer2.mode = 0b1001;
    Ticker::new().update(&mut psx, timers::Event::Timer2);
    assert_eq!(psx.timers.timer2.value, 0);
}

#[test]
fn drive_refuses_unknown_completion() {
    let psx = machine();
    let drive = Drive::new(false);
    assert!(!drive.can_update(&psx, CdromEvent::Complete(shimmer::cdrom::Command::Nop)));
    assert!(drive.can_update(&psx, CdromEvent::Complete(shimmer::cdrom::Command::Init)));
    assert!(drive.can_update(&psx, CdromEvent::Update));
}

#[test]
fn gpu_runs_with_checks() {
    let mut psx = machine();
    assert!(can_exec_display(&psx));
    let mut gpu = GpuInterpreter::new();
    // fill rectangle without its arguments: waits
    psx.gpu.render_queue.push_back(0x0200_0000);
    let out = gpu.try_exec_queued(&mut psx);
    assert!(matches!(out, Some((ref commands, None)) if commands.is_empty()));
    // unknown misc command
    let mut psx = machine();
    psx.gpu.render_queue.push_back(0x0300_0000);
    assert!(gpu.try_exec_queued(&mut psx).is_none());
}

#[test]
fn instruction_is_fetched_from_the_io_ports() {
    let mut psx = machine();
    let mut cpu = Interpreter::default();
    // OR R8, R0, R9 in the base address register of DMA channel 0
    psx.write(Address(0x1F80_1080), 0x0009_4025u32).unwrap();
    psx.cpu.regs.write(Reg::R9, 7);
    psx.cpu.regs.write_pc(0x1F80_1080);
    step(&mut psx, &mut cpu);
    step(&mut psx, &mut cpu);
    assert_eq!(psx.cpu.regs.read(Reg::R8), 7);
    assert_eq!(psx.cpu.regs.read_pc(), 0x1F80_1088);
}

#[test]
fn unaligned_load_reads_the_io_ports() {
    // LUI R9, 0x1F80; ORI R9, R9, 0x1074; LWR R8, 0(R9); LWL R10, 3(R9); NOP; NOP
    let (mut psx, mut cpu) =
        running(&[0x3C09_1F80, 0x3529_1074, 0x9928_0000, 0x892A_0003, 0, 0]);
    psx.interrupts.mask.0 = 0x3FF;
    for _ in 0..6 {
        step(&mut psx, &mut cpu);
    }
    assert_eq!(psx.cpu.regs.read(Reg::R8), 0x3FF);
    assert_eq!(psx.cpu.regs.read(Reg::R10), 0x3FF);
}

/// A machine running NOPs from `0x8000_1000`, with the events of the start processed.
fn idle_machine() -> (PSX, Interpreter) {
    let (mut psx, cpu) = running(&[0; 16]);
    while psx.scheduler.pop().is_some() {}
    (psx, cpu)
}

#[test]
fn run_stops_at_a_due_event() {
    let mut psx = machine();
    let mut cpu = Interpreter::default();
    let dma = Executor::default();
    assert_eq!(exec_until_next_event(&mut cpu, &dma, &mut psx, 100), Some(0));
    assert_eq!(psx.cpu.regs.read_pc(), 0xBFC0_0000);
}

#[test]
fn run_without_events_runs_to_the_limit() {
    let (mut psx, mut cpu) = idle_machine();
    psx.scheduler.schedule(Event::Gpu, 1000);
    let dma = Executor::default();
    assert_eq!(exec_until_next_event(&mut cpu, &dma, &mut psx, 10), Some(10));
    assert_eq!(psx.cpu.regs.read_pc(), 0x8000_1014);
    assert_eq!(psx.scheduler.elapsed(), 0);
}

#[test]
fn run_counts_cycles_up_to_the_next_event() {
    let (mut psx, mut cpu) = idle_machine();
    psx.scheduler.schedule(Event::Gpu, 5);
    let dma = Executor::default();
    assert_eq!(exec_until_next_event(&mut cpu, &dma, &mut psx, 100), Some(5));
    assert_eq!(psx.cpu.regs.read_pc(), 0x8000_100C);
}

#[test]
fn run_refuses_an_overdue_event() {
    let (mut psx, mut cpu) = idle_machine();
    psx.scheduler.schedule(Event::Gpu, 5);
    psx.scheduler.advance(6);
    let dma = Executor::default();
    assert_eq!(exec_until_next_event(&mut cpu, &dma, &mut psx, 100), None);
    assert_eq!(psx.cpu.regs.read_pc(), 0x8000_1000);
}

#[test]
fn run_stops_where_the_cpu_cannot_go_on() {
    // CFC0 R8, R0
    let (mut psx, mut cpu) = running(&[0x4048_0000, 0]);
    while psx.scheduler.pop().is_some() {}
    psx.scheduler.schedule(Event::Gpu, 1000);
    let dma = Executor::default();
    assert_eq!(exec_until_next_event(&mut cpu, &dma, &mut psx, 100), None);
    assert_eq!(psx.cpu.regs.read_pc(), 0x8000_1004);
}

#[test]
fn run_needs_an_event_once_one_was_scheduled_before_it() {
    let (mut psx, mut cpu) = idle_machine();
    let dma = Executor::default();
    assert_eq!(exec_until_next_event(&mut cpu, &dma, &mut psx, 10), None);
    assert_eq!(psx.cpu.regs.read_pc(), 0x8000_1000);
}
