use shimmer::cdrom::Cdrom;
use shimmer::cpu::Cpu;
use shimmer::dma::executor::{start_next, Executor};
use shimmer::dma::{self, Channel, ChannelBase, ChannelBlockControl, ChannelControl};
use shimmer::gpu::Gpu;
use shimmer::gte::Gte;
use shimmer::interrupts;
use shimmer::mem::{Address, Memory};
use shimmer::psx::PSX;
use shimmer::scheduler::Scheduler;
use shimmer::sio0;
use shimmer::timers::Timers;

fn machine() -> PSX {
    PSX {
        scheduler: Scheduler::new(),
        memory: Memory::with_bios(vec![0; 16]).expect("the BIOS fits"),
        timers: Timers::default(),
        dma: dma::Controller::default(),
        cpu: Cpu::default(),
        cop0: shimmer::cpu::cop0::Cop0::default(),
        gte: Gte::default(),
        interrupts: interrupts::Controller::default(),
        gpu: Gpu::default(),
        cdrom: Cdrom::new(),
        sio0: sio0::Registers::default(),
    }
}

/// Enables channel `i` with the given priority in the DMA control register.
fn enable(psx: &mut PSX, i: u32, priority: u32) {
    psx.dma.control.0 |= (8 | priority) << (4 * i);
}

fn word(psx: &mut PSX, addr: u32) -> u32 {
    psx.read::<u32>(Address(addr)).unwrap()
}

fn run_to_end(executor: &mut Executor, psx: &mut PSX) -> usize {
    let mut steps = 0;
    while executor.ongoing() {
        assert!(executor.can_advance(psx));
        executor.advance(psx);
        steps += 1;
    }
    steps
}

const START: u32 = 0x0100_0000;
const FORCE: u32 = 0x1000_0000;

#[test]
fn otc_clears_ordering_table() {
    let mut psx = machine();
    psx.dma.channels[6].base = ChannelBase(0x110);
    psx.dma.channels[6].block_control = ChannelBlockControl(4);
    psx.dma.channels[6].control = ChannelControl(START | FORCE | 0x2);
    enable(&mut psx, 6, 3);

    let mut executor = Executor::default();
    assert!(!executor.ongoing());
    executor.update(&mut psx);
    assert!(executor.ongoing());
    assert_eq!(psx.dma.channels[6].control.0 & FORCE, 0);
    assert_eq!(run_to_end(&mut executor, &mut psx), 4);

    assert_eq!(word(&mut psx, 0x110), 0x10C);
    assert_eq!(word(&mut psx, 0x10C), 0x108);
    assert_eq!(word(&mut psx, 0x108), 0x104);
    assert_eq!(word(&mut psx, 0x104), 0x00FF_FFFF);
    assert_eq!(word(&mut psx, 0x100), 0);
    assert_eq!(psx.dma.channels[6].control.0 & START, 0);
}

#[test]
fn otc_without_force_does_not_start() {
    let mut psx = machine();
    psx.dma.channels[6].control = ChannelControl(START | 0x2);
    enable(&mut psx, 6, 3);
    let mut executor = Executor::default();
    executor.update(&mut psx);
    assert!(!executor.ongoing());
}

#[test]
fn burst_of_zero_words_moves_a_full_block() {
    let mut psx = machine();
    psx.dma.channels[6].base = ChannelBase(0x4_0000);
    psx.dma.channels[6].block_control = ChannelBlockControl(0);
    psx.dma.channels[6].control = ChannelControl(START | FORCE | 0x2);
    enable(&mut psx, 6, 0);
    let mut executor = Executor::default();
    executor.update(&mut psx);
    assert_eq!(run_to_end(&mut executor, &mut psx), 0x10000);
    assert_eq!(word(&mut psx, 0x4_0000), 0x3_FFFC);
    assert_eq!(word(&mut psx, 0x4), 0x00FF_FFFF);
}

#[test]
fn linked_list_feeds_render_queue() {
    let mut psx = machine();
    psx.write(Address(0x200), 0x0200_0300u32).unwrap();
    psx.write(Address(0x204), 0xAAAAu32).unwrap();
    psx.write(Address(0x208), 0xBBBBu32).unwrap();
    psx.write(Address(0x300), 0x01FF_FFFFu32).unwrap();
    psx.write(Address(0x304), 0xCCCCu32).unwrap();
    psx.dma.channels[2].base = ChannelBase(0x200);
    psx.dma.channels[2].control = ChannelControl(START | 0x400 | 0x1);
    enable(&mut psx, 2, 1);

    let mut executor = Executor::default();
    executor.update(&mut psx);
    assert!(executor.ongoing());
    executor.advance(&mut psx);
    assert!(executor.ongoing());
    assert_eq!(psx.gpu.render_queue.iter().copied().collect::<Vec<_>>(), vec![0xAAAA, 0xBBBB]);
    assert_eq!(psx.dma.channels[2].base.0, 0x300);
    executor.advance(&mut psx);
    assert!(!executor.ongoing());
    assert_eq!(psx.gpu.render_queue.len(), 2);
    assert_eq!(psx.dma.channels[2].control.0 & START, 0);
}

#[test]
fn slice_to_gpu_moves_blocks() {
    let mut psx = machine();
    for (i, value) in [1u32, 2, 3, 4].into_iter().enumerate() {
        psx.write(Address(0x400 + 4 * i as u32), value).unwrap();
    }
    psx.dma.channels[2].base = ChannelBase(0x400);
    psx.dma.channels[2].block_control = ChannelBlockControl(0x0002_0002);
    psx.dma.channels[2].control = ChannelControl(START | 0x200 | 0x1);
    enable(&mut psx, 2, 1);

    let mut executor = Executor::default();
    executor.update(&mut psx);
    executor.advance(&mut psx);
    assert!(executor.ongoing());
    assert_eq!(psx.gpu.render_queue.iter().copied().collect::<Vec<_>>(), vec![1, 2]);
    assert_eq!(psx.dma.channels[2].base.0, 0x408);
    assert_eq!(psx.dma.channels[2].block_control.0, 0x0001_0002);
    executor.advance(&mut psx);
    assert!(!executor.ongoing());
    assert_eq!(psx.gpu.render_queue.iter().copied().collect::<Vec<_>>(), vec![1, 2, 3, 4]);
    assert_eq!(psx.dma.channels[2].base.0, 0x410);
    assert_eq!(psx.dma.channels[2].block_control.0, 0x0000_0002);
}

#[test]
fn slice_from_gpu_writes_response() {
    let mut psx = machine();
    psx.gpu.response_queue.push_back(0x1111);
    psx.gpu.response_queue.push_back(0x2222);
    psx.dma.channels[2].base = ChannelBase(0x600);
    psx.dma.channels[2].block_control = ChannelBlockControl(0x0001_0002);
    psx.dma.channels[2].control = ChannelControl(START | 0x200);
    enable(&mut psx, 2, 1);

    let mut executor = Executor::default();
    executor.update(&mut psx);
    assert!(executor.can_advance(&psx));
    executor.advance(&mut psx);
    assert!(!executor.ongoing());
    assert_eq!(word(&mut psx, 0x600), 0x1111);
    assert_eq!(word(&mut psx, 0x604), 0x2222);
    assert!(psx.gpu.response_queue.is_empty());
}

#[test]
fn slice_cannot_advance_without_response_or_blocks() {
    let mut psx = machine();
    psx.gpu.response_queue.push_back(0x1111);
    psx.dma.channels[2].block_control = ChannelBlockControl(0x0001_0002);
    psx.dma.channels[2].control = ChannelControl(START | 0x200);
    enable(&mut psx, 2, 1);
    let mut executor = Executor::default();
    executor.update(&mut psx);
    assert!(executor.ongoing());
    assert!(!executor.can_advance(&psx));
    psx.gpu.response_queue.push_back(0x2222);
    assert!(executor.can_advance(&psx));
    psx.dma.channels[2].block_control = ChannelBlockControl(0x0000_0002);
    assert!(!executor.can_advance(&psx));
}

#[test]
fn linked_list_on_other_channel_cannot_advance() {
    let mut psx = machine();
    psx.dma.channels[4].control = ChannelControl(START | 0x400);
    enable(&mut psx, 4, 1);
    let mut executor = Executor::default();
    executor.update(&mut psx);
    assert!(executor.ongoing());
    assert!(!executor.can_advance(&psx));
}

#[test]
fn cdrom_burst_reads_sector_data() {
    let mut psx = machine();
    psx.cdrom.lock_data_queue = false;
    for byte in [1u8, 2, 3, 4, 5] {
        psx.cdrom.sector_data.push_back(byte);
    }
    psx.dma.channels[3].base = ChannelBase(0x500);
    psx.dma.channels[3].block_control = ChannelBlockControl(2);
    psx.dma.channels[3].control = ChannelControl(START);
    enable(&mut psx, 3, 2);

    let mut executor = Executor::default();
    executor.update(&mut psx);
    assert_eq!(run_to_end(&mut executor, &mut psx), 2);
    assert_eq!(word(&mut psx, 0x500), 0x0403_0201);
    assert_eq!(word(&mut psx, 0x504), 0x0000_0005);
    assert!(psx.cdrom.sector_data.is_empty());
}

#[test]
fn locked_cdrom_data_reads_zero() {
    let mut psx = machine();
    psx.write(Address(0x500), 0xFFFF_FFFFu32).unwrap();
    psx.cdrom.sector_data.push_back(7);
    psx.dma.channels[3].base = ChannelBase(0x500);
    psx.dma.channels[3].block_control = ChannelBlockControl(1);
    psx.dma.channels[3].control = ChannelControl(START);
    enable(&mut psx, 3, 2);
    let mut executor = Executor::default();
    executor.update(&mut psx);
    run_to_end(&mut executor, &mut psx);
    assert_eq!(word(&mut psx, 0x500), 0);
    assert_eq!(psx.cdrom.sector_data.len(), 1);
}

#[test]
fn highest_priority_channel_starts_first() {
    let mut psx = machine();
    psx.dma.channels[2].control = ChannelControl(START | 0x200);
    psx.dma.channels[2].block_control = ChannelBlockControl(0x0001_0001);
    psx.dma.channels[3].control = ChannelControl(START);
    psx.dma.channels[3].block_control = ChannelBlockControl(1);
    enable(&mut psx, 2, 1);
    enable(&mut psx, 3, 5);
    let mut executor = Executor::default();
    executor.update(&mut psx);
    // the CDROM channel advances after the 24 cycles of a word
    assert_eq!(psx.scheduler.last_scheduled_time(), 24);
    executor.advance(&mut psx);
    assert!(!executor.ongoing());
    assert_eq!(psx.dma.channels[3].control.0 & START, 0);
    assert_ne!(psx.dma.channels[2].control.0 & START, 0);
    executor.update(&mut psx);
    assert_eq!(psx.scheduler.last_scheduled_time(), 1);
}

#[test]
fn start_next_follows_the_given_order() {
    let mut psx = machine();
    psx.dma.channels[3].control = ChannelControl(START);
    psx.dma.channels[4].control = ChannelControl(START);
    let mut order = arrayvec::ArrayVec::<(Channel, u8), 7>::new();
    order.push((Channel::SPU, 2));
    order.push((Channel::CDROM, 2));
    let state = start_next(&mut psx, &order);
    assert!(matches!(
        state,
        shimmer::dma::executor::State::BurstTransfer(t) if t.channel == Channel::SPU
    ));
    let mut psx = machine();
    let state = start_next(&mut psx, &order);
    assert_eq!(state, shimmer::dma::executor::State::Idle);
}

#[test]
fn finished_transfer_raises_channel_interrupt() {
    let mut psx = machine();
    psx.dma.channels[6].base = ChannelBase(0x20);
    psx.dma.channels[6].block_control = ChannelBlockControl(1);
    psx.dma.channels[6].control = ChannelControl(START | FORCE | 0x2);
    psx.dma.interrupt_control = dma::InterruptControl((1 << 22) | (1 << 23));
    enable(&mut psx, 6, 0);
    let mut executor = Executor::default();
    executor.update(&mut psx);
    executor.advance(&mut psx);
    assert!(!executor.ongoing());
    let ic = psx.dma.interrupt_control.0;
    assert_ne!(ic & (1 << 30), 0);
    assert_ne!(ic & (1 << 31), 0);
    assert_ne!(psx.interrupts.status.0 & (1 << 3), 0);
}

#[test]
fn unmasked_channel_raises_no_interrupt() {
    let mut psx = machine();
    psx.dma.channels[6].block_control = ChannelBlockControl(1);
    psx.dma.channels[6].base = ChannelBase(0x20);
    psx.dma.channels[6].control = ChannelControl(START | FORCE | 0x2);
    psx.dma.interrupt_control = dma::InterruptControl(1 << 23);
    enable(&mut psx, 6, 0);
    let mut executor = Executor::default();
    executor.update(&mut psx);
    executor.advance(&mut psx);
    assert_eq!(psx.dma.interrupt_control.0, 1 << 23);
    assert_eq!(psx.interrupts.status.0 & (1 << 3), 0);
}

#[test]
fn bus_error_forces_master_flag() {
    let mut psx = machine();
    psx.dma.interrupt_control = dma::InterruptControl(1 << 15);
    let mut executor = Executor::default();
    executor.update(&mut psx);
    assert_eq!(psx.dma.interrupt_control.0, (1 << 15) | (1 << 31));
    assert_ne!(psx.interrupts.status.0 & (1 << 3), 0);
}

#[test]
fn alternative_otc_resets_base_and_length() {
    let mut psx = machine();
    psx.dma.channels[6].base = ChannelBase(0x30);
    psx.dma.channels[6].block_control = ChannelBlockControl(2);
    psx.dma.channels[6].control = ChannelControl(START | FORCE | 0x2 | 0x100);
    enable(&mut psx, 6, 0);
    let mut executor = Executor::default();
    executor.update(&mut psx);
    run_to_end(&mut executor, &mut psx);
    assert_eq!(psx.dma.channels[6].base.0, 0x2C);
    assert_eq!(psx.dma.channels[6].block_control.0, 0);
}
