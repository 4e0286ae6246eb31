use shimmer::cdrom::Sector;
use shimmer::cpu::instr::Instruction;
use shimmer::cpu::interpreter::{Exception, Interpreter, Outcome};
use shimmer::cpu::{Reg, Registers};
use shimmer::dma::{Channel, Control};
use shimmer::exe::{Executable, ParseError};
use shimmer::interrupts::{Interrupt, Mask, Status};
use shimmer::kernel::Function;
use shimmer::mem::io::Reg as IoReg;
use shimmer::mem::primitive::{read_at, reg_read, reg_write, write_at};
use shimmer::mem::{Address, Memory, PhysicalAddress, Region, Segment};
use shimmer::scheduler::{Event, Scheduler};
use shimmer::timers;

fn interpreter() -> Interpreter {
    Interpreter {
        current_addr: Address(0x8000_0000),
        delay_slot: Address(0x8000_0004),
        pending_load: None,
        load_delay_slot: None,
    }
}

fn special(rs: u32, rt: u32, rd: u32, funct: u32) -> Instruction {
    Instruction((rs << 21) | (rt << 16) | (rd << 11) | funct)
}

#[test]
fn register_zero_stays_zero() {
    let mut regs = Registers::default();
    regs.write(Reg::ZERO, 5);
    assert_eq!(regs.read(Reg::ZERO), 0);
    regs.write(Reg::SP, 0x801F_FF00);
    assert_eq!(regs.read(Reg::SP), 0x801F_FF00);
}

#[test]
fn addu_wraps_and_add_overflows() {
    let mut regs = Registers::default();
    let mut cpu = interpreter();
    regs.write(Reg::from_index(2), 0x7FFF_FFFF);
    regs.write(Reg::from_index(3), 1);
    let (cycles, outcome) = cpu.exec(&mut regs, special(2, 3, 1, 0x21));
    assert_eq!(cycles, 2);
    assert_eq!(outcome, Outcome::Done);
    assert_eq!(regs.read(Reg::from_index(1)), 0x8000_0000);
    let (_, outcome) = cpu.exec(&mut regs, special(2, 3, 4, 0x20));
    assert_eq!(outcome, Outcome::Raise(Exception::ArithmeticOverflow));
    assert_eq!(regs.read(Reg::from_index(4)), 0);
}

#[test]
fn mult_gives_high_and_low() {
    let mut regs = Registers::default();
    let mut cpu = interpreter();
    regs.write(Reg::from_index(2), 0xFFFF_FFFF);
    regs.write(Reg::from_index(3), 2);
    // MULTU
    cpu.exec(&mut regs, special(2, 3, 0, 0x19));
    assert_eq!((regs.read_hi(), regs.read_lo()), (1, 0xFFFF_FFFE));
    // MULT: -1 * 2
    cpu.exec(&mut regs, special(2, 3, 0, 0x18));
    assert_eq!((regs.read_hi(), regs.read_lo()), (0xFFFF_FFFF, 0xFFFF_FFFE));
}

#[test]
fn div_by_zero_gives_quirk() {
    let mut regs = Registers::default();
    let mut cpu = interpreter();
    regs.write(Reg::from_index(2), 7);
    // DIV 7 / 0: quotient -1, remainder the dividend
    cpu.exec(&mut regs, special(2, 0, 0, 0x1A));
    assert_eq!((regs.read_lo(), regs.read_hi()), (0xFFFF_FFFF, 7));
}

#[test]
fn lui_ori_build_constant() {
    let mut regs = Registers::default();
    let mut cpu = interpreter();
    cpu.exec(&mut regs, Instruction((0x0F << 26) | (5 << 16) | 0x1234));
    cpu.exec(&mut regs, Instruction((0x0D << 26) | (5 << 21) | (5 << 16) | 0x5678));
    assert_eq!(regs.read(Reg::from_index(5)), 0x1234_5678);
}

#[test]
fn interrupts_lowest_pending_is_requested() {
    let mut status = Status(0);
    status.request(Interrupt::DMA);
    status.request(Interrupt::CDROM);
    assert_eq!(status.requested(), Some(Interrupt::CDROM));
    assert_eq!(status.mask(&Mask(0b1000)).requested(), Some(Interrupt::DMA));
    assert_eq!(status.mask(&Mask(0)).requested(), None);
}

#[test]
fn scheduler_pops_due_events_in_time() {
    let mut scheduler = Scheduler::new();
    assert_eq!(scheduler.pop(), Some(Event::VBlank));
    assert_eq!(scheduler.pop(), Some(Event::Timer(timers::Event::Setup)));
    assert_eq!(scheduler.pop(), None);
    scheduler.schedule(Event::Gpu, 10);
    assert_eq!(scheduler.until_next(), Some(10));
    scheduler.advance(9);
    assert_eq!(scheduler.pop(), None);
    assert_eq!(scheduler.until_next(), Some(1));
    scheduler.advance(1);
    assert_eq!(scheduler.pop(), Some(Event::Gpu));
    assert_eq!(scheduler.elapsed(), 10);
}

#[test]
fn address_segments_and_regions() {
    assert_eq!(Address(0x8000_1234).segment(), Segment::KSEG0);
    assert_eq!(Address(0xBFC0_0000).physical().map(|p| p.value()), Some(0x1FC0_0000));
    assert_eq!(Address(0xFFFE_0130).physical(), None);
    assert_eq!(PhysicalAddress::new(0x1F80_1810).unwrap().region(), Some(Region::IOPorts));
    assert_eq!(PhysicalAddress::new(0x0030_0000).unwrap().region(), Some(Region::RamMirror));
    assert_eq!(PhysicalAddress::new(0x1000_0000).unwrap().region(), None);
    assert!(PhysicalAddress::new(0x2000_0000).is_none());
    assert!(Address(0x100).is_aligned(4));
    assert!(!Address(0x102).is_aligned(4));
}

#[test]
fn io_registers_are_found_with_offsets() {
    assert_eq!(IoReg::reg_and_offset(Address(0x1F80_1070)), Some((IoReg::InterruptStatus, 0)));
    assert_eq!(IoReg::reg_and_offset(Address(0xBF80_1812)), Some((IoReg::Gp0, 2)));
    assert_eq!(IoReg::reg_and_offset(Address(0x1F80_1801)), Some((IoReg::Cdrom1, 0)));
    assert_eq!(IoReg::Gp1.width(), 4);
    assert_eq!(IoReg::Cdrom0.width(), 1);
}

#[test]
fn primitives_at_offsets() {
    let mut buf = vec![0u8; 6];
    write_at(&mut buf, 4, 0x1122_3344u32);
    assert_eq!(buf, vec![0, 0, 0, 0, 0x44, 0x33]);
    assert_eq!(read_at::<u32>(&buf, 4), 0x3344);
    assert_eq!(read_at::<i16>(&buf, 4), 0x3344);
    assert_eq!(reg_write(0xAABB_CCDD, 1, 0x11u8), 0xAABB_11DD);
    assert_eq!(reg_read::<u16>(0xAABB_CCDD, 2), 0xAABB);
    assert_eq!(reg_read::<u32>(0xAABB_CCDD, 3), 0xAA);
}

#[test]
fn bios_too_large_is_refused() {
    let bios = vec![0u8; 0x40_0001];
    let err = Memory::with_bios(bios).unwrap_err();
    assert_eq!(err.len(), 0x40_0001);
    let memory = Memory::with_bios(vec![1, 2, 3]).unwrap();
    assert_eq!(memory.bios.len(), 0x40_0000);
    assert_eq!(&memory.bios[..4], &[1, 2, 3, 0]);
}

fn exe_bytes(program: &[u8]) -> Vec<u8> {
    let mut b = vec![0u8; 0x800];
    b[..8].copy_from_slice(b"PS-X EXE");
    b[0x10..0x14].copy_from_slice(&0x8001_0000u32.to_le_bytes());
    b[0x18..0x1C].copy_from_slice(&0x8001_0000u32.to_le_bytes());
    b[0x1C..0x20].copy_from_slice(&(program.len() as u32).to_le_bytes());
    b[0x4C..0x50].copy_from_slice(b"Sony");
    b.extend_from_slice(program);
    b
}

#[test]
fn executable_is_parsed() {
    let exe = Executable::parse(&exe_bytes(&[1, 2, 3, 4])).unwrap();
    assert_eq!(exe.header.initial_pc, Address(0x8001_0000));
    assert_eq!(exe.header.length, 4);
    assert_eq!(exe.program, vec![1, 2, 3, 4]);
    assert_eq!(exe.header.marker, b"Sony".to_vec());
}

#[test]
fn executable_errors() {
    assert_eq!(Executable::parse(&[0u8; 8]).unwrap_err(), ParseError::Truncated);
    let mut bad = exe_bytes(&[]);
    bad[0] = b'X';
    assert_eq!(Executable::parse(&bad).unwrap_err(), ParseError::BadMagic);
    let mut unterminated = exe_bytes(&[]);
    for byte in &mut unterminated[0x4C..0x800] {
        *byte = b'A';
    }
    assert_eq!(Executable::parse(&unterminated).unwrap_err(), ParseError::UnterminatedMarker);
    let mut short = exe_bytes(&[1, 2]);
    short[0x1C] = 8;
    assert_eq!(Executable::parse(&short).unwrap_err(), ParseError::Truncated);
}

#[test]
fn kernel_functions_by_code() {
    assert_eq!(Function::a0(0x3F), Some(Function::Printf));
    assert_eq!(Function::a0(0x3C), None);
    assert_eq!(Function::a0(0x3F).unwrap().args(), 4);
}

#[test]
fn dma_enabled_channels_in_priority_order() {
    // GPU (2) enabled with priority 3, OTC (6) enabled with priority 1
    let control = Control((0b1011 << 8) | (0b1001 << 24));
    let channels = control.enabled_channels();
    let list: Vec<(Channel, u8)> = channels.iter().copied().collect();
    assert_eq!(list, vec![(Channel::GPU, 3), (Channel::OTC, 1)]);
    assert_eq!(Control(0).enabled_channels().len(), 0);
}

#[test]
fn sector_index_and_advance() {
    let mut sector = Sector::new(1, 59, 74);
    assert_eq!(sector.index(), Some(60 * 75 + 57 * 75 + 74));
    sector.advance();
    assert_eq!((sector.minutes(), sector.seconds(), sector.frames()), (2, 0, 0));
    assert_eq!(sector.index(), None);
    assert_eq!(Sector::new(0, 2, 0).index(), Some(0));
}

#[test]
fn kernel_output_collects_characters() {
    let mut memory = Memory::with_bios(vec![0; 4]).expect("the BIOS fits");
    memory.put_char('P' as u32);
    memory.put_char('S' as u32);
    memory.put_char(0x0D);
    memory.put_char(0xD800);
    memory.put_char(0x1F600);
    assert_eq!(memory.kernel_stdout, "PS\n\u{1F600}");
}

#[test]
fn cpu_instruction_effects_by_name() {
    let mut regs = Registers::default();
    regs.write(Reg::R1, 0x0000_00F0);
    let instr = Instruction((0x0D << 26) | (1 << 21) | (2 << 16) | 0x000F);
    assert!(matches!(
        Interpreter::ori(instr, &regs),
        shimmer::cpu::interpreter::RegEffect::Write(Reg::R2, 0xFF)
    ));
    let instr = Instruction((0x0F << 26) | (3 << 16) | 0x1234);
    assert!(matches!(
        Interpreter::lui(instr, &regs),
        shimmer::cpu::interpreter::RegEffect::Write(Reg::R3, 0x1234_0000)
    ));
}

#[test]
fn alt_names_are_two_characters_and_distinct() {
    assert_eq!(Reg::R0.alt_name(), "00");
    assert_eq!(Reg::R29.alt_name(), "SP");
    assert_eq!(Reg::R31.alt_name(), "RA");
    let names: Vec<&str> = (0..32).map(|i| Reg::from_index(i).alt_name()).collect();
    for (i, a) in names.iter().enumerate() {
        assert_eq!(a.len(), 2);
        for b in &names[i + 1..] {
            assert_ne!(a, b);
        }
    }
}
