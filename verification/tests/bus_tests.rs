use shimmer::cdrom::{Cdrom, Reg as CdromReg, RegWrite};
use shimmer::cpu::Cpu;
use shimmer::dma;
use shimmer::gpu::Gpu;
use shimmer::gte::Gte;
use shimmer::interrupts;
use shimmer::mem::{Address, Memory};
use shimmer::psx::{MisalignedAddressErr, PSX};
use shimmer::scheduler::{Event, Scheduler};
use shimmer::sio0;
use shimmer::timers::Timers;

fn machine() -> PSX {
    PSX {
        scheduler: Scheduler::new(),
        memory: Memory::with_bios(vec![0xAB; 16]).expect("the BIOS fits"),
        timers: Timers::default(),
        dma: dma::Controller::default(),
        cpu: Cpu::default(),
        cop0: shimmer::cpu::cop0::Cop0::default(),
        gte: Gte::default(),
        interrupts: interrupts::Controller::default(),
        gpu: Gpu::default(),
        cdrom: Cdrom::new(),
        sio0: sio0::Registers::default(),
    }
}

#[test]
fn ram_read_after_write() {
    let mut psx = machine();
    psx.write(Address(0x8000_1000), 0xDEAD_BEEFu32).unwrap();
    assert_eq!(psx.read::<u32>(Address(0x8000_1000)), Ok(0xDEAD_BEEF));
    assert_eq!(psx.read::<u16>(Address(0x8000_1002)), Ok(0xDEAD));
    assert_eq!(psx.read::<u8>(Address(0xA000_1000)), Ok(0xEF));
    assert_eq!(psx.read::<i8>(Address(0x0000_1003)), Ok(-34));
}

#[test]
fn ram_mirror_reads_ram() {
    let mut psx = machine();
    psx.write(Address(0x0000_0040), 0x1234_5678u32).unwrap();
    assert_eq!(psx.read::<u32>(Address(0x0020_0040)), Ok(0x1234_5678));
    assert_eq!(psx.read::<u32>(Address(0x0060_0040)), Ok(0x1234_5678));
    psx.write(Address(0x0040_0080), 0x55u8).unwrap();
    assert_eq!(psx.read::<u8>(Address(0x0000_0080)), Ok(0x55));
}

#[test]
fn write_keeps_neighbours() {
    let mut psx = machine();
    psx.write(Address(0x100), 0x1111_1111u32).unwrap();
    psx.write(Address(0x104), 0x2222_2222u32).unwrap();
    psx.write(Address(0x102), 0xFFFFu16).unwrap();
    assert_eq!(psx.read::<u32>(Address(0x100)), Ok(0xFFFF_1111));
    assert_eq!(psx.read::<u32>(Address(0x104)), Ok(0x2222_2222));
}

#[test]
fn misaligned_access_is_refused() {
    let mut psx = machine();
    assert_eq!(
        psx.read::<u32>(Address(0x8000_0002)),
        Err(MisalignedAddressErr { addr: Address(0x8000_0002), alignment: 4 })
    );
    assert_eq!(
        psx.write(Address(0x8000_0001), 7u16),
        Err(MisalignedAddressErr { addr: Address(0x8000_0001), alignment: 2 })
    );
    assert_eq!(psx.read::<u32>(Address(0x8000_0000)), Ok(0));
}

#[test]
fn unaligned_access_reads_bytes() {
    let mut psx = machine();
    psx.write(Address(0x200), 0x4433_2211u32).unwrap();
    psx.write(Address(0x204), 0x8877_6655u32).unwrap();
    assert_eq!(psx.read_unaligned::<u32>(Address(0x202)), 0x6655_4433);
}

#[test]
fn bios_is_read_from_rom() {
    let mut psx = machine();
    assert_eq!(psx.read::<u32>(Address(0xBFC0_0000)), Ok(0xABAB_ABAB));
    assert_eq!(psx.read::<u32>(Address(0xBFC0_0010)), Ok(0));
}

#[test]
fn unmapped_reads_zero_and_ignores_writes() {
    let mut psx = machine();
    psx.write(Address(0x1000_0000), 0xFFFF_FFFFu32).unwrap();
    assert_eq!(psx.read::<u32>(Address(0x1000_0000)), Ok(0));
}

#[test]
fn cache_control_takes_bytes() {
    let mut psx = machine();
    psx.write(Address(0xFFFE_0130), 0x0001_E988u32).unwrap();
    assert_eq!(psx.cpu.cache_control, 0x0001_E988);
    assert_eq!(psx.read::<u16>(Address(0xFFFE_0130)), Ok(0xE988));
}

#[test]
fn interrupt_mask_read_after_write() {
    let mut psx = machine();
    psx.write(Address(0x1F80_1074), 0x0000_000Du32).unwrap();
    assert_eq!(psx.interrupts.mask.0, 0xD);
    assert_eq!(psx.read::<u32>(Address(0x1F80_1074)), Ok(0xD));
    psx.write(Address(0x1F80_1075), 0x01u8).unwrap();
    assert_eq!(psx.interrupts.mask.0, 0x10D);
}

#[test]
fn interrupt_status_write_acknowledges() {
    let mut psx = machine();
    psx.interrupts.status = interrupts::Status(0b1011);
    psx.write(Address(0x1F80_1070), !0b0010u32).unwrap();
    assert_eq!(psx.interrupts.status.0, 0b1001);
    psx.write(Address(0x1F80_1071), 0x00u8).unwrap();
    assert_eq!(psx.interrupts.status.0, 0b1001);
}

#[test]
fn gp0_write_queues_packet_and_schedules() {
    let mut psx = machine();
    let before = psx.scheduler.len();
    psx.write(Address(0x1F80_1810), 0xE100_0000u32).unwrap();
    assert_eq!(psx.gpu.render_queue.len(), 1);
    assert_eq!(psx.gpu.render_queue[0], 0xE100_0000);
    assert_eq!(psx.scheduler.len(), before + 2);
}

#[test]
fn gp1_read_gives_status() {
    let mut psx = machine();
    assert_eq!(psx.read::<u32>(Address(0x1F80_1814)), Ok(0x1480_2000));
}

#[test]
fn gp0_read_pops_response() {
    let mut psx = machine();
    psx.gpu.response_queue.push_back(0xCAFE);
    assert_eq!(psx.read::<u32>(Address(0x1F80_1810)), Ok(0xCAFE));
    assert_eq!(psx.read::<u32>(Address(0x1F80_1810)), Ok(0));
}

#[test]
fn cdrom_write_is_queued() {
    let mut psx = machine();
    psx.write(Address(0x1F80_1801), 0x19u8).unwrap();
    assert_eq!(psx.cdrom.write_queue.len(), 1);
    assert_eq!(psx.cdrom.write_queue[0], RegWrite { reg: CdromReg::Reg1, value: 0x19 });
}

#[test]
fn cdrom_read_pops_result() {
    let mut psx = machine();
    psx.cdrom.result_queue.push_back(0x42);
    assert_eq!(psx.read::<u8>(Address(0x1F80_1801)), Ok(0x42));
    assert_eq!(psx.cdrom.result_queue.len(), 0);
    assert_eq!(psx.read::<u8>(Address(0x1F80_1800)), Ok(0x18));
}

#[test]
fn dma_registers_read_after_write() {
    let mut psx = machine();
    psx.write(Address(0x1F80_10A0), 0x0010_0000u32).unwrap();
    assert_eq!(psx.dma.channels[2].base.0, 0x0010_0000);
    assert_eq!(psx.read::<u32>(Address(0x1F80_10A0)), Ok(0x0010_0000));
    psx.write(Address(0x1F80_10F0), 0x0765_4321u32).unwrap();
    assert_eq!(psx.read::<u32>(Address(0x1F80_10F0)), Ok(0x0765_4321));
}

#[test]
fn otc_channel_control_is_masked() {
    let mut psx = machine();
    psx.write(Address(0x1F80_10E8), 0xFFFF_FFFFu32).unwrap();
    assert_eq!(psx.dma.channels[6].control.0, 0x5100_0002);
}

#[test]
fn dma_interrupt_flags_are_acknowledged() {
    let mut psx = machine();
    psx.dma.interrupt_control = dma::InterruptControl(0x0300_0000);
    psx.write(Address(0x1F80_10F4), 0x0100_0000u32).unwrap();
    assert_eq!(psx.dma.interrupt_control.0, 0x0200_0000);
}

#[test]
fn timer_mode_write_resets_value() {
    let mut psx = machine();
    psx.timers.timer1.value = 77;
    psx.write(Address(0x1F80_1114), 0x0100u16).unwrap();
    assert_eq!(psx.timers.timer1.value, 0);
    assert_eq!(psx.timers.timer1.mode, 0x0100);
}

#[test]
fn joypad_data_write_and_read() {
    let mut psx = machine();
    psx.write(Address(0x1F80_1040), 0x01u8).unwrap();
    assert_eq!(psx.sio0.tx, Some(0x01));
    psx.sio0.rx = Some(0x41);
    assert_eq!(psx.read::<u32>(Address(0x1F80_1040)), Ok(0xFFFF_FF41));
    assert_eq!(psx.sio0.rx, None);
    assert_eq!(psx.read::<u8>(Address(0x1F80_1040)), Ok(0xFF));
}

#[test]
fn joypad_control_bits() {
    let mut psx = machine();
    psx.write(Address(0x1F80_104A), 0x1003u16).unwrap();
    assert!(psx.sio0.tx_enable && psx.sio0.selected);
    assert!(psx.sio0.device_ready_to_receive_interrupt_enable);
    assert_eq!(psx.read::<u16>(Address(0x1F80_104A)), Ok(0x1003));
}

#[test]
fn stub_ports_keep_what_is_written() {
    let mut psx = machine();
    psx.write(Address(0x1F80_1D80), 0x3FFFu16).unwrap();
    assert_eq!(psx.read::<u16>(Address(0x1F80_1D80)), Ok(0x3FFF));
}

#[test]
fn events_are_scheduled_on_dma_write() {
    let mut psx = machine();
    psx.write(Address(0x1F80_10F0), 0u32).unwrap();
    let mut events = Vec::new();
    while let Some(e) = psx.scheduler.pop() {
        events.push(e);
    }
    assert!(events.contains(&Event::DmaUpdate));
}
