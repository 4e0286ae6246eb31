use shimmer::cdrom::drive::{Cdrom as Drive, SectorRead, ACK_DEFAULT_DELAY, CDROM_VERSION};
use shimmer::cdrom::{Cdrom, Command, Event as CdromEvent, Reg, RegWrite};
use shimmer::cpu::Cpu;
use shimmer::dma;
use shimmer::gpu::Gpu;
use shimmer::gte::Gte;
use shimmer::interrupts;
use shimmer::mem::Memory;
use shimmer::psx::PSX;
use shimmer::scheduler::{Event, Scheduler};
use shimmer::sio0;
use shimmer::timers::Timers;

fn machine() -> PSX {
    PSX {
        scheduler: Scheduler::new(),
        memory: Memory::with_bios(vec![]).expect("the BIOS fits"),
        timers: Timers::default(),
        dma: dma::Controller::default(),
        cpu: Cpu::default(),
        cop0: shimmer::cpu::cop0::Cop0::default(),
        gte: Gte::default(),
        interrupts: interrupts::Controller::default(),
        gpu: Gpu::default(),
        cdrom: Cdrom::new(),
        sio0: sio0::Registers::default(),
    }
}

fn drain(psx: &mut PSX) -> Vec<Event> {
    psx.scheduler.advance(10_000_000);
    let mut events = Vec::new();
    while let Some(e) = psx.scheduler.pop() {
        events.push(e);
    }
    events
}

#[test]
fn command_write_schedules_acknowledge() {
    let mut psx = machine();
    let mut drive = Drive::new(true);
    drain(&mut psx);
    psx.cdrom.write_queue.push_back(RegWrite { reg: Reg::Reg2, value: 0x20 });
    psx.cdrom.write_queue.push_back(RegWrite { reg: Reg::Reg1, value: 0x19 });
    assert_eq!(drive.update(&mut psx, CdromEvent::Update), None);
    assert_eq!(psx.cdrom.write_queue.len(), 0);
    assert_eq!(psx.cdrom.parameter_queue.len(), 1);
    assert!(psx.cdrom.command_status.busy());
    assert_eq!(psx.scheduler.until_next(), Some(ACK_DEFAULT_DELAY));
    assert_eq!(drain(&mut psx), vec![Event::Cdrom(CdromEvent::Acknowledge(Command::Test))]);
}

#[test]
fn test_command_reports_version() {
    let mut psx = machine();
    let mut drive = Drive::new(true);
    psx.cdrom.write_queue.push_back(RegWrite { reg: Reg::Reg2, value: 0x20 });
    psx.cdrom.write_queue.push_back(RegWrite { reg: Reg::Reg1, value: 0x19 });
    drive.update(&mut psx, CdromEvent::Update);
    drive.update(&mut psx, CdromEvent::Acknowledge(Command::Test));
    let results: Vec<u8> = psx.cdrom.result_queue.iter().copied().collect();
    assert_eq!(results, CDROM_VERSION.to_vec());
    assert!(!psx.cdrom.command_status.busy());
    // the acknowledge interrupt is raised, and enabled by the mask
    assert_eq!(psx.cdrom.interrupt_status.0 % 8, 3);
    assert_eq!(psx.interrupts.status.0 & 0b100, 0b100);
    // the status flags follow the queues: results pending, no parameters
    assert!(psx.cdrom.command_status.result_fifo_not_empty());
    assert!(psx.cdrom.command_status.parameter_fifo_empty());
}

#[test]
fn get_id_completes_with_disc_identity() {
    let mut psx = machine();
    let mut drive = Drive::new(true);
    psx.cdrom.write_queue.push_back(RegWrite { reg: Reg::Reg1, value: 0x1A });
    drive.update(&mut psx, CdromEvent::Update);
    drive.update(&mut psx, CdromEvent::Acknowledge(Command::GetID));
    // the status goes first, from an open-less drive: motor on
    assert_eq!(psx.cdrom.result_queue[0], 0x02);
    psx.cdrom.result_queue.clear();
    psx.cdrom.interrupt_status.0 = 0xE0;
    drive.update(&mut psx, CdromEvent::Complete(Command::GetID));
    let results: Vec<u8> = psx.cdrom.result_queue.iter().copied().collect();
    assert_eq!(results, vec![0x02, 0x00, 0x20, 0x00, 0x53, 0x43, 0x45, 0x41]);
    assert_eq!(psx.cdrom.interrupt_status.0 % 8, 2);
}

#[test]
fn shell_opens_without_disc() {
    let mut psx = machine();
    let mut drive = Drive::new(false);
    drive.update(&mut psx, CdromEvent::Update);
    assert!(psx.cdrom.status.shell_open());
    drive.insert_rom();
    drive.update(&mut psx, CdromEvent::Update);
    assert!(!psx.cdrom.status.shell_open());
}

#[test]
fn bank_switch_and_interrupt_mask() {
    let mut psx = machine();
    let mut drive = Drive::new(true);
    psx.cdrom.write_queue.push_back(RegWrite { reg: Reg::Reg0, value: 0x01 });
    psx.cdrom.write_queue.push_back(RegWrite { reg: Reg::Reg2, value: 0x1F });
    psx.cdrom.write_queue.push_back(RegWrite { reg: Reg::Reg3, value: 0x47 });
    drive.update(&mut psx, CdromEvent::Update);
    assert_eq!(psx.cdrom.command_status.0 % 4, 1);
    assert_eq!(psx.cdrom.interrupt_mask.0, 0x1F);
    assert_eq!(psx.cdrom.interrupt_status.0, 0xF8);
}

#[test]
fn set_location_and_read_asks_sector() {
    let mut psx = machine();
    let mut drive = Drive::new(true);
    // location 00:02:16 (binary coded decimal), then read
    for value in [0x00, 0x02, 0x16] {
        psx.cdrom.write_queue.push_back(RegWrite { reg: Reg::Reg2, value });
    }
    psx.cdrom.write_queue.push_back(RegWrite { reg: Reg::Reg1, value: 0x02 });
    drive.update(&mut psx, CdromEvent::Update);
    drive.update(&mut psx, CdromEvent::Acknowledge(Command::SetLocation));
    assert_eq!(psx.cdrom.location.seconds(), 2);
    assert_eq!(psx.cdrom.location.frames(), 16);
    psx.cdrom.command_status.set_bit(7, true);
    drive.update(&mut psx, CdromEvent::Acknowledge(Command::ReadN));
    assert!(psx.cdrom.status.read());
    let request = drive.update(&mut psx, CdromEvent::Read);
    assert_eq!(request, Some(SectorRead { position: 16 * 0x930 + 0x18, size: 0x800 }));
    drive.finish_read(&mut psx, vec![7; 0x800]);
    assert_eq!(psx.cdrom.sector_data.len(), 0x800);
    assert_eq!(psx.cdrom.location.frames(), 17);
}

#[test]
fn read_in_pregap_gives_zeros() {
    let mut psx = machine();
    let mut drive = Drive::new(true);
    psx.cdrom.command_status.set_bit(7, true);
    drive.update(&mut psx, CdromEvent::Acknowledge(Command::ReadN));
    assert_eq!(drive.update(&mut psx, CdromEvent::Read), None);
    assert_eq!(psx.cdrom.sector_data.len(), 0x800);
    assert!(psx.cdrom.sector_data.iter().all(|b| *b == 0));
}

#[test]
fn read_while_not_reading_does_nothing() {
    let mut psx = machine();
    let mut drive = Drive::new(true);
    assert_eq!(drive.update(&mut psx, CdromEvent::Read), None);
    assert_eq!(psx.cdrom.sector_data.len(), 0);
    assert_eq!(psx.cdrom.result_queue.len(), 0);
}
