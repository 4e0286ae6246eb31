//! The state of the PSX and its bus: where each memory access of the CPU goes, and what it reads
//! or changes there.
use crate::cdrom::{self, Cdrom, RegWrite as CdromRegWrite};
use crate::cpu::Cpu;
use crate::dma;
use crate::gpu::Gpu;
use crate::gte::Gte;
use crate::interrupts;
use crate::mem::io::{spec_first_match, law_reg_and_offset_sound, Reg};
use crate::mem::primitive::{
    read_at, read_at_spec, reg_read, reg_read_spec, reg_write, reg_write_spec, write_at,
    write_le_at, Primitive, law_read_at_after_write_at, le_value, window,
    le_bytes, byte_or_zero,
};
use crate::mem::{spec_region, spec_segment, Address, Memory, Region, Segment};
use crate::scheduler::{Event, ScheduledEvent, Scheduler};
use crate::sio0;
use crate::timers::Timers;
use vstd::prelude::*;

verus! {

/// A memory access at an address that is not aligned to the size of the accessed primitive.
#[derive(Debug, Clone, Copy, PartialEq, Eq, Structural)]
pub struct MisalignedAddressErr {
    pub addr: Address,
    pub alignment: u32,
}

/// The state of the PSX. The emulator and its systems operate on this struct.
pub struct PSX {
    /// The event scheduler.
    pub scheduler: Scheduler,
    pub memory: Memory,
    pub timers: Timers,
    pub dma: dma::Controller,
    pub cpu: Cpu,
    pub cop0: crate::cpu::cop0::Cop0,
    pub gte: Gte,
    pub interrupts: interrupts::Controller,
    pub gpu: Gpu,
    pub cdrom: Cdrom,
    pub sio0: sio0::Registers,
}

/// Where a memory access goes.
#[derive(Debug, Clone, Copy, PartialEq, Eq, Structural)]
pub enum Access {
    /// `KSEG2`: the cache control register.
    CacheControl,
    /// A physical address in no region.
    Unmapped,
    /// The IO ports.
    IoPorts,
    /// A byte of a memory buffer: that of the region, at the given offset in it.
    Memory { region: Region, offset: u32 },
}

/// Where an access at the virtual address `addr` goes. Accesses to the RAM mirror go to RAM,
/// wrapped to its size.
pub open spec fn spec_access(addr: u32) -> Access {
    if spec_segment(addr) == Segment::KSEG2 {
        Access::CacheControl
    } else {
        let p = addr % 0x2000_0000;
        match spec_region(p) {
            None => Access::Unmapped,
            Some(Region::IOPorts) => Access::IoPorts,
            Some(Region::RamMirror) => Access::Memory {
                region: Region::RamMirror,
                offset: ((p - Region::RamMirror.spec_start()) % 0x20_0000) as u32,
            },
            Some(region) => Access::Memory {
                region,
                offset: (p - region.spec_start()) as u32,
            },
        }
    }
}

/// The buffer of `memory` that holds the bytes of `region`.
pub open spec fn region_bytes(memory: Memory, region: Region) -> Seq<u8> {
    match region {
        Region::Ram | Region::RamMirror => memory.ram@,
        Region::Expansion1 => memory.expansion_1@,
        Region::ScratchPad => memory.scratchpad@,
        Region::IOPorts => memory.io_stubs@,
        Region::Expansion2 => memory.expansion_2@,
        Region::Expansion3 => memory.expansion_3@,
        Region::BIOS => memory.bios@,
    }
}

/// `new` is `old` with `value` written at `offset` of the buffer of `region`, and nothing else
/// changed.
pub open spec fn memory_written<P: Primitive>(
    old: Memory,
    new: Memory,
    region: Region,
    offset: int,
    value: P,
) -> bool {
    let written = write_le_at(region_bytes(old, region), offset, value.bits(), P::size());
    match region {
        Region::Ram | Region::RamMirror => new == Memory { ram: new.ram, ..old } && new.ram@
            == written,
        Region::Expansion1 => new == Memory { expansion_1: new.expansion_1, ..old }
            && new.expansion_1@ == written,
        Region::ScratchPad => new == Memory { scratchpad: new.scratchpad, ..old }
            && new.scratchpad@ == written,
        Region::IOPorts => new == Memory { io_stubs: new.io_stubs, ..old } && new.io_stubs@
            == written,
        Region::Expansion2 => new == Memory { expansion_2: new.expansion_2, ..old }
            && new.expansion_2@ == written,
        Region::Expansion3 => new == Memory { expansion_3: new.expansion_3, ..old }
            && new.expansion_3@ == written,
        Region::BIOS => new == Memory { bios: new.bios, ..old } && new.bios@ == written,
    }
}

/// The offset of the physical address of `addr` in the IO ports region.
pub open spec fn io_offset(addr: u32) -> int {
    addr % 0x2000_0000 - Region::IOPorts.spec_start()
}

/// `new` is `old` with `event` scheduled to be due now.
pub open spec fn scheduled_now(old: Scheduler, new: Scheduler, event: Event) -> bool {
    &&& new.spec_elapsed() == old.spec_elapsed()
    &&& new.spec_last_scheduled_time() == old.spec_elapsed()
    &&& new.events() == old.events().push(ScheduledEvent { time: old.spec_elapsed(), event })
}

impl PSX {
    /// Every memory buffer has the size of its region.
    pub open spec fn wf(&self) -> bool {
        &&& self.memory.ram@.len() == Region::Ram.spec_len()
        &&& self.memory.expansion_1@.len() == Region::Expansion1.spec_len()
        &&& self.memory.scratchpad@.len() == Region::ScratchPad.spec_len()
        &&& self.memory.io_stubs@.len() == Region::IOPorts.spec_len()
        &&& self.memory.expansion_2@.len() == Region::Expansion2.spec_len()
        &&& self.memory.expansion_3@.len() == Region::Expansion3.spec_len()
        &&& self.memory.bios@.len() == Region::BIOS.spec_len()
    }

    /// What a read of `addr` gives where it does not reach the IO ports: the bytes of the cache
    /// control register, zero for an address in no region, or the bytes of the memory buffer.
    pub open spec fn memory_value<P: Primitive>(&self, addr: u32) -> P {
        match spec_access(addr) {
            Access::CacheControl => reg_read_spec::<P>(self.cpu.cache_control, 0),
            Access::Memory { region, offset } => read_at_spec::<P>(
                region_bytes(self.memory, region),
                offset as int,
            ),
            _ => P::from_bits(0),
        }
    }
}


/// The bytes a read of the serial port data register gives: the received byte, or `0xFF`, then
/// three `0xFF`.
pub open spec fn joy_data_bytes(rx: Option<u8>) -> Seq<u8> {
    seq![
        match rx {
            Some(b) => b,
            None => 0xFFu8,
        },
        0xFFu8,
        0xFFu8,
        0xFFu8,
    ]
}

/// The word at the front of `queue`, or zero where it is empty.
pub open spec fn front_or_zero(queue: Seq<u32>) -> u32 {
    if queue.len() > 0 {
        queue[0]
    } else {
        0
    }
}

impl PSX {
    /// The number of the DMA channel of a DMA register.
    pub open spec fn channel_of(reg: Reg) -> int {
        reg.spec_dma_channel().unwrap().spec_index() as int
    }

    /// Whether a read of the IO ports at `addr` is possible: the CDROM data register 2 cannot be
    /// read, nor register 1 with an empty result queue, nor the last byte of a timer register.
    pub open spec fn io_read_allowed(&self, addr: u32) -> bool {
        match spec_first_match(addr, 0) {
            Some((reg, offset)) => match reg {
                Reg::Cdrom2 => false,
                Reg::Cdrom1 => self.cdrom.result_queue@.len() > 0,
                Reg::Timer1Value | Reg::Timer1Mode | Reg::Timer1Target | Reg::Timer2Value
                | Reg::Timer2Mode | Reg::Timer2Target => offset < 3,
                _ => true,
            },
            None => true,
        }
    }

    /// The value a read of the IO ports at `addr` gives: the bytes of the register the address
    /// falls in, from its offset on, or those of the stub buffer for registers without state.
    pub open spec fn io_read_value<P: Primitive>(&self, addr: u32) -> P {
        match spec_first_match(addr, 0) {
            Some((reg, offset)) => {
                let off = offset as int;
                match reg {
                    Reg::InterruptStatus => reg_read_spec::<P>(self.interrupts.status.0, off),
                    Reg::InterruptMask => reg_read_spec::<P>(self.interrupts.mask.0, off),
                    Reg::Dma0Base | Reg::Dma1Base | Reg::Dma2Base | Reg::Dma3Base | Reg::Dma4Base
                    | Reg::Dma5Base | Reg::Dma6Base => reg_read_spec::<P>(
                        self.dma.channels[Self::channel_of(reg)].base.0,
                        off,
                    ),
                    Reg::Dma0BlockControl | Reg::Dma1BlockControl | Reg::Dma2BlockControl
                    | Reg::Dma3BlockControl | Reg::Dma4BlockControl | Reg::Dma5BlockControl
                    | Reg::Dma6BlockControl => reg_read_spec::<P>(
                        self.dma.channels[Self::channel_of(reg)].block_control.0,
                        off,
                    ),
                    Reg::Dma0Control | Reg::Dma1Control | Reg::Dma2Control | Reg::Dma3Control
                    | Reg::Dma4Control | Reg::Dma5Control | Reg::Dma6Control => reg_read_spec::<P>(
                        self.dma.channels[Self::channel_of(reg)].control.0,
                        off,
                    ),
                    Reg::DmaControl => reg_read_spec::<P>(self.dma.control.0, off),
                    Reg::DmaInterrupt => reg_read_spec::<P>(self.dma.interrupt_control.0, off),
                    Reg::Gp0 => reg_read_spec::<P>(front_or_zero(self.gpu.response_queue@), off),
                    Reg::Gp1 => reg_read_spec::<P>(self.gpu.status.0, off),
                    Reg::Cdrom0 | Reg::Cdrom1 | Reg::Cdrom2 | Reg::Cdrom3 => read_at_spec::<P>(
                        seq![self.cdrom.spec_read_value(reg.spec_cdrom_reg().unwrap())],
                        0,
                    ),
                    Reg::Timer2Value => reg_read_spec::<P>(self.timers.timer2.value as u32, off),
                    Reg::Timer2Mode => reg_read_spec::<P>(self.timers.timer2.mode as u32, off),
                    Reg::Timer2Target => reg_read_spec::<P>(self.timers.timer2.target as u32, off),
                    Reg::JoyData => read_at_spec::<P>(joy_data_bytes(self.sio0.rx), off),
                    Reg::JoyStat => reg_read_spec::<P>(self.sio0.spec_status_bits(), off),
                    Reg::JoyMode => reg_read_spec::<P>(self.sio0.mode as u32, off),
                    Reg::JoyControl => reg_read_spec::<P>(self.sio0.spec_control_bits() as u32, off),
                    _ => read_at_spec::<P>(self.memory.io_stubs@, io_offset(addr)),
                }
            },
            None => read_at_spec::<P>(self.memory.io_stubs@, io_offset(addr)),
        }
    }

    /// The state after a read of the IO ports at `addr`: reading the GPU data register pops the
    /// response queue; reading a CDROM register updates its command status (and register 1 pops
    /// the result queue) and schedules a CDROM update; reading the serial port data register
    /// takes the received byte; reading any serial port register but the baud rate schedules a
    /// serial port update. Nothing else changes.
    pub open spec fn io_read_state(old: PSX, new: PSX, addr: u32) -> bool {
        match spec_first_match(addr, 0) {
            Some((reg, _offset)) => match reg {
                Reg::Gp0 => {
                    &&& new == PSX { gpu: new.gpu, ..old }
                    &&& new.gpu == Gpu { response_queue: new.gpu.response_queue, ..old.gpu }
                    &&& new.gpu.response_queue@ == if old.gpu.response_queue@.len() > 0 {
                        old.gpu.response_queue@.drop_first()
                    } else {
                        old.gpu.response_queue@
                    }
                },
                Reg::Cdrom0 | Reg::Cdrom1 | Reg::Cdrom2 | Reg::Cdrom3 => {
                    &&& new == PSX { cdrom: new.cdrom, scheduler: new.scheduler, ..old }
                    &&& scheduled_now(
                        old.scheduler,
                        new.scheduler,
                        Event::Cdrom(cdrom::Event::Update),
                    )
                    &&& new.cdrom == Cdrom {
                        command_status: cdrom::CommandStatus(old.cdrom.spec_updated_status()),
                        result_queue: new.cdrom.result_queue,
                        ..old.cdrom
                    }
                    &&& new.cdrom.result_queue@ == if reg == Reg::Cdrom1 {
                        old.cdrom.result_queue@.drop_first()
                    } else {
                        old.cdrom.result_queue@
                    }
                },
                Reg::JoyData => {
                    &&& new == PSX {
                        sio0: sio0::Registers { rx: None, rx_ready: false, ..old.sio0 },
                        scheduler: new.scheduler,
                        ..old
                    }
                    &&& scheduled_now(old.scheduler, new.scheduler, Event::Sio(sio0::Event::Update))
                },
                Reg::JoyStat | Reg::JoyMode | Reg::JoyControl => {
                    &&& new == PSX { scheduler: new.scheduler, ..old }
                    &&& scheduled_now(old.scheduler, new.scheduler, Event::Sio(sio0::Event::Update))
                },
                _ => new == old,
            },
            None => new == old,
        }
    }
}


/// Proof that the physical address of an access to the IO ports lies in their region.
proof fn lemma_io_offset(addr: u32)
    requires
        spec_access(addr) == Access::IoPorts,
    ensures
        spec_segment(addr) != Segment::KSEG2,
        0 <= io_offset(addr) < Region::IOPorts.spec_len(),
{
}

impl PSX {
    /// Reads a primitive from the IO ports.
    fn read_io_ports<P: Primitive>(&mut self, addr: Address) -> (r: P)
        requires
            old(self).wf(),
            spec_access(addr.0) == Access::IoPorts,
            old(self).io_read_allowed(addr.0),
        ensures
            r == old(self).io_read_value::<P>(addr.0),
            Self::io_read_state(*old(self), *final(self), addr.0),
    {
        proof {
            lemma_io_offset(addr.0);
            law_reg_and_offset_sound(addr.0);
        }
        let physical = addr.physical().unwrap().value();
        let stub_offset = (physical - Region::IOPorts.start().value()) as usize;
        match Reg::reg_and_offset(addr) {
            Some((reg, offset)) => match reg {
                Reg::InterruptStatus => reg_read(self.interrupts.status.0, offset),
                Reg::InterruptMask => reg_read(self.interrupts.mask.0, offset),
                Reg::Dma0Base | Reg::Dma1Base | Reg::Dma2Base | Reg::Dma3Base | Reg::Dma4Base
                | Reg::Dma5Base | Reg::Dma6Base => {
                    let channel = reg.dma_channel().unwrap().index() as usize;
                    reg_read(self.dma.channels[channel].base.0, offset)
                },
                Reg::Dma0BlockControl | Reg::Dma1BlockControl | Reg::Dma2BlockControl
                | Reg::Dma3BlockControl | Reg::Dma4BlockControl | Reg::Dma5BlockControl
                | Reg::Dma6BlockControl => {
                    let channel = reg.dma_channel().unwrap().index() as usize;
                    reg_read(self.dma.channels[channel].block_control.0, offset)
                },
                Reg::Dma0Control | Reg::Dma1Control | Reg::Dma2Control | Reg::Dma3Control
                | Reg::Dma4Control | Reg::Dma5Control | Reg::Dma6Control => {
                    let channel = reg.dma_channel().unwrap().index() as usize;
                    reg_read(self.dma.channels[channel].control.0, offset)
                },
                Reg::DmaControl => reg_read(self.dma.control.0, offset),
                Reg::DmaInterrupt => reg_read(self.dma.interrupt_control.0, offset),
                Reg::Gp0 => {
                    let value = match self.gpu.response_queue.pop_front() {
                        Some(value) => value,
                        None => 0,
                    };
                    reg_read(value, offset)
                },
                Reg::Gp1 => reg_read(self.gpu.status.0, offset),
                Reg::Cdrom0 | Reg::Cdrom1 | Reg::Cdrom2 | Reg::Cdrom3 => {
                    let cdrom_reg = reg.cdrom_reg().unwrap();
                    self.scheduler.schedule(Event::Cdrom(cdrom::Event::Update), 0);
                    let byte = self.cdrom.read(cdrom_reg);
                    let bytes = vec![byte];
                    read_at(bytes.as_slice(), 0)
                },
                Reg::Timer2Value => reg_read(self.timers.timer2.value as u32, offset),
                Reg::Timer2Mode => reg_read(self.timers.timer2.mode as u32, offset),
                Reg::Timer2Target => reg_read(self.timers.timer2.target as u32, offset),
                Reg::JoyData => {
                    let rx = self.sio0.read_rx();
                    let data = vec![rx, 0xFF, 0xFF, 0xFF];
                    self.scheduler.schedule(Event::Sio(sio0::Event::Update), 0);
                    read_at(data.as_slice(), offset)
                },
                Reg::JoyStat => {
                    let bits = self.sio0.status_bits();
                    self.scheduler.schedule(Event::Sio(sio0::Event::Update), 0);
                    reg_read(bits, offset)
                },
                Reg::JoyMode => {
                    let bits = self.sio0.mode as u32;
                    self.scheduler.schedule(Event::Sio(sio0::Event::Update), 0);
                    reg_read(bits, offset)
                },
                Reg::JoyControl => {
                    let bits = self.sio0.control_bits() as u32;
                    self.scheduler.schedule(Event::Sio(sio0::Event::Update), 0);
                    reg_read(bits, offset)
                },
                _ => read_at(self.memory.io_stubs.as_slice(), stub_offset),
            },
            None => read_at(self.memory.io_stubs.as_slice(), stub_offset),
        }
    }
}


/// `new` is `old` with `first`, then `second`, scheduled to be due now.
pub open spec fn scheduled_now2(old: Scheduler, new: Scheduler, first: Event, second: Event) -> bool {
    &&& new.spec_elapsed() == old.spec_elapsed()
    &&& new.spec_last_scheduled_time() == old.spec_elapsed()
    &&& new.events() == old.events().push(ScheduledEvent { time: old.spec_elapsed(), event: first }).push(
        ScheduledEvent { time: old.spec_elapsed(), event: second },
    )
}

/// The register value `current` with `value` written at `offset`, where the bits of `mask`
/// take the written bits and the others keep theirs.
pub open spec fn masked_write_spec<P: Primitive>(current: u32, offset: int, value: P, mask: u32) -> u32 {
    (current & !mask) | (reg_write_spec::<P>(current, offset, value) & mask)
}

/// Writes `value` at `offset` of the register value `current`, where `mask` allows it.
fn write_masked<P: Primitive>(value: P, offset: usize, mask: u32, current: u32) -> (r: u32)
    requires
        offset < 4,
    ensures
        r == masked_write_spec::<P>(current, offset as int, value, mask),
{
    let written = reg_write(current, offset, value);
    (current & !mask) | (written & mask)
}

/// The interrupt control register after a write of `value` at `offset` to `current`: the
/// writable bits take the written ones, except that the channel flags written as one are
/// cleared and the others kept.
pub open spec fn interrupt_control_write_spec<P: Primitive>(current: u32, offset: int, value: P) -> u32 {
    let result = masked_write_spec::<P>(current, offset, value, dma::InterruptControl::WRITE_MASK);
    (result & !0x7F00_0000u32) | ((current & 0x7F00_0000u32) & !(result & 0x7F00_0000u32))
}

impl PSX {
    /// Whether a write to the IO ports at `addr` is possible: not to the last byte of a timer
    /// register.
    pub open spec fn io_write_allowed(addr: u32) -> bool {
        match spec_first_match(addr, 0) {
            Some((reg, offset)) => match reg {
                Reg::Timer1Value | Reg::Timer1Mode | Reg::Timer1Target | Reg::Timer2Value
                | Reg::Timer2Mode | Reg::Timer2Target => offset < 3,
                _ => true,
            },
            None => true,
        }
    }

    /// The state after a write of `value` to the IO ports at `addr`.
    ///
    /// Writing the interrupt status acknowledges (clears) the interrupts whose bits are written as
    /// zero; the interrupt mask, DMA and timer registers take the written bytes (the OTC channel
    /// control and the DMA interrupt control only where writable, the written channel flags of
    /// the latter being cleared); writing a timer mode resets its value, and writing a timer
    /// target sets its value. DMA writes schedule a DMA update. The GPU registers queue the
    /// written word and schedule a GPU then a DMA update; the CDROM registers queue the written
    /// byte and schedule a CDROM update. The serial port data register takes the byte to send, its
    /// mode and control registers the written bytes, each scheduling a serial port update; its
    /// status register ignores writes. Other addresses write the stub buffer.
    pub open spec fn io_write_state<P: Primitive>(old: PSX, new: PSX, addr: u32, value: P) -> bool {
        match spec_first_match(addr, 0) {
            Some((reg, offset)) => Self::io_write_reg(old, new, addr, reg, offset as int, value),
            None => Self::stub_written(old, new, addr, value),
        }
    }

    /// `new` is `old` with `value` written to the stub buffer at the offset of `addr`.
    pub open spec fn stub_written<P: Primitive>(old: PSX, new: PSX, addr: u32, value: P) -> bool {
        &&& new == PSX { memory: new.memory, ..old }
        &&& memory_written(old.memory, new.memory, Region::IOPorts, io_offset(addr), value)
    }

    /// The state after a write of `value` to the register `reg`, at `off`, by the address
    /// `addr`.
    pub open spec fn io_write_reg<P: Primitive>(
        old: PSX,
        new: PSX,
        addr: u32,
        reg: Reg,
        off: int,
        value: P,
    ) -> bool {
        match reg {
            Reg::InterruptStatus | Reg::InterruptMask => Self::interrupts_written(old, new, reg, off, value),
            Reg::Dma0Base | Reg::Dma1Base | Reg::Dma2Base | Reg::Dma3Base | Reg::Dma4Base
            | Reg::Dma5Base | Reg::Dma6Base | Reg::Dma0BlockControl | Reg::Dma1BlockControl
            | Reg::Dma2BlockControl | Reg::Dma3BlockControl | Reg::Dma4BlockControl
            | Reg::Dma5BlockControl | Reg::Dma6BlockControl | Reg::Dma0Control
            | Reg::Dma1Control | Reg::Dma2Control | Reg::Dma3Control | Reg::Dma4Control
            | Reg::Dma5Control | Reg::Dma6Control | Reg::DmaControl | Reg::DmaInterrupt => {
                Self::dma_written(old, new, reg, off, value)
            },
            Reg::Gp0 | Reg::Gp1 | Reg::Cdrom0 | Reg::Cdrom1 | Reg::Cdrom2 | Reg::Cdrom3 => {
                Self::gpu_cdrom_written(old, new, reg, off, value)
            },
            Reg::Timer1Value | Reg::Timer1Mode | Reg::Timer1Target | Reg::Timer2Value
            | Reg::Timer2Mode | Reg::Timer2Target => Self::timers_written(old, new, reg, off, value),
            Reg::JoyData | Reg::JoyStat | Reg::JoyMode | Reg::JoyControl => {
                Self::sio_written(old, new, reg, off, value)
            },
            _ => Self::stub_written(old, new, addr, value),
        }
    }

    /// The state after a write of `value` at `off` to `reg`, a register of the interrupt controller.
    pub open spec fn interrupts_written<P: Primitive>(old: PSX, new: PSX, reg: Reg, off: int, value: P) -> bool {
        match reg {
            Reg::InterruptStatus => new == PSX {
                interrupts: interrupts::Controller {
                    status: interrupts::Status(
                        old.interrupts.status.0 & reg_write_spec::<P>(0xFFFF_FFFF, off, value),
                    ),
                    ..old.interrupts
                },
                ..old
            },
            Reg::InterruptMask => new == PSX {
                interrupts: interrupts::Controller {
                    mask: interrupts::Mask(
                        reg_write_spec::<P>(old.interrupts.mask.0, off, value),
                    ),
                    ..old.interrupts
                },
                ..old
            },
            _ => false,
        }
    }

    /// The state after a write of `value` at `off` to `reg`, a register of the DMA controller.
    pub open spec fn dma_written<P: Primitive>(old: PSX, new: PSX, reg: Reg, off: int, value: P) -> bool {
        let dma_update = scheduled_now(old.scheduler, new.scheduler, Event::DmaUpdate);
        match reg {
            Reg::Dma0Base | Reg::Dma1Base | Reg::Dma2Base | Reg::Dma3Base | Reg::Dma4Base
            | Reg::Dma5Base | Reg::Dma6Base => {
                let ch = Self::channel_of(reg);
                &&& new == PSX { dma: new.dma, scheduler: new.scheduler, ..old }
                &&& new.dma == dma::Controller { channels: new.dma.channels, ..old.dma }
                &&& new.dma.channels@ == old.dma.channels@.update(
                    ch,
                    dma::ChannelState {
                        base: dma::ChannelBase(
                            reg_write_spec::<P>(old.dma.channels[ch].base.0, off, value),
                        ),
                        ..old.dma.channels[ch]
                    },
                )
                &&& dma_update
            },
            Reg::Dma0BlockControl | Reg::Dma1BlockControl | Reg::Dma2BlockControl
            | Reg::Dma3BlockControl | Reg::Dma4BlockControl | Reg::Dma5BlockControl
            | Reg::Dma6BlockControl => {
                let ch = Self::channel_of(reg);
                &&& new == PSX { dma: new.dma, scheduler: new.scheduler, ..old }
                &&& new.dma == dma::Controller { channels: new.dma.channels, ..old.dma }
                &&& new.dma.channels@ == old.dma.channels@.update(
                    ch,
                    dma::ChannelState {
                        block_control: dma::ChannelBlockControl(
                            reg_write_spec::<P>(
                                old.dma.channels[ch].block_control.0,
                                off,
                                value,
                            ),
                        ),
                        ..old.dma.channels[ch]
                    },
                )
                &&& dma_update
            },
            Reg::Dma0Control | Reg::Dma1Control | Reg::Dma2Control | Reg::Dma3Control
            | Reg::Dma4Control | Reg::Dma5Control => {
                let ch = Self::channel_of(reg);
                &&& new == PSX { dma: new.dma, scheduler: new.scheduler, ..old }
                &&& new.dma == dma::Controller { channels: new.dma.channels, ..old.dma }
                &&& new.dma.channels@ == old.dma.channels@.update(
                    ch,
                    dma::ChannelState {
                        control: dma::ChannelControl(
                            reg_write_spec::<P>(old.dma.channels[ch].control.0, off, value),
                        ),
                        ..old.dma.channels[ch]
                    },
                )
                &&& dma_update
            },
            Reg::Dma6Control => {
                &&& new == PSX { dma: new.dma, scheduler: new.scheduler, ..old }
                &&& new.dma == dma::Controller { channels: new.dma.channels, ..old.dma }
                &&& new.dma.channels@ == old.dma.channels@.update(
                    6,
                    dma::ChannelState {
                        control: dma::ChannelControl(
                            masked_write_spec::<P>(
                                old.dma.channels[6].control.0,
                                off,
                                value,
                                dma::ChannelControl::DMA6_WRITE_MASK,
                            ),
                        ),
                        ..old.dma.channels[6]
                    },
                )
                &&& dma_update
            },
            Reg::DmaControl => {
                &&& new == PSX {
                    dma: dma::Controller {
                        control: dma::Control(
                            reg_write_spec::<P>(old.dma.control.0, off, value),
                        ),
                        ..old.dma
                    },
                    scheduler: new.scheduler,
                    ..old
                }
                &&& dma_update
            },
            Reg::DmaInterrupt => {
                &&& new == PSX {
                    dma: dma::Controller {
                        interrupt_control: dma::InterruptControl(
                            interrupt_control_write_spec::<P>(
                                old.dma.interrupt_control.0,
                                off,
                                value,
                            ),
                        ),
                        ..old.dma
                    },
                    scheduler: new.scheduler,
                    ..old
                }
                &&& dma_update
            },
            _ => false,
        }
    }

    /// The state after a write of `value` at `off` to `reg`, a register of the GPU or the CDROM controller.
    pub open spec fn gpu_cdrom_written<P: Primitive>(old: PSX, new: PSX, reg: Reg, off: int, value: P) -> bool {
        match reg {
            Reg::Gp0 => {
                &&& new == PSX { gpu: new.gpu, scheduler: new.scheduler, ..old }
                &&& new.gpu == Gpu { render_queue: new.gpu.render_queue, ..old.gpu }
                &&& new.gpu.render_queue@ == old.gpu.render_queue@.push(
                    reg_write_spec::<P>(0, off, value),
                )
                &&& scheduled_now2(old.scheduler, new.scheduler, Event::Gpu, Event::DmaUpdate)
            },
            Reg::Gp1 => {
                &&& new == PSX { gpu: new.gpu, scheduler: new.scheduler, ..old }
                &&& new.gpu == Gpu { display_queue: new.gpu.display_queue, ..old.gpu }
                &&& new.gpu.display_queue@ == old.gpu.display_queue@.push(
                    reg_write_spec::<P>(0, off, value),
                )
                &&& scheduled_now2(old.scheduler, new.scheduler, Event::Gpu, Event::DmaUpdate)
            },
            Reg::Cdrom0 | Reg::Cdrom1 | Reg::Cdrom2 | Reg::Cdrom3 => {
                &&& new == PSX { cdrom: new.cdrom, scheduler: new.scheduler, ..old }
                &&& new.cdrom == Cdrom { write_queue: new.cdrom.write_queue, ..old.cdrom }
                &&& new.cdrom.write_queue@ == old.cdrom.write_queue@.push(
                    CdromRegWrite {
                        reg: reg.spec_cdrom_reg().unwrap(),
                        value: reg_write_spec::<P>(0, 0, value) as u8,
                    },
                )
                &&& scheduled_now(
                    old.scheduler,
                    new.scheduler,
                    Event::Cdrom(cdrom::Event::Update),
                )
            },
            _ => false,
        }
    }

    /// The state after a write of `value` at `off` to `reg`, a register of the timers.
    pub open spec fn timers_written<P: Primitive>(old: PSX, new: PSX, reg: Reg, off: int, value: P) -> bool {
        match reg {
            Reg::Timer1Value => new == PSX {
                timers: Timers {
                    timer1: crate::timers::Timer {
                        value: reg_write_spec::<P>(old.timers.timer1.value as u32, off, value) as u16,
                        ..old.timers.timer1
                    },
                    ..old.timers
                },
                ..old
            },
            Reg::Timer1Mode => new == PSX {
                timers: Timers {
                    timer1: crate::timers::Timer {
                        value: 0,
                        mode: reg_write_spec::<P>(old.timers.timer1.mode as u32, off, value) as u16,
                        ..old.timers.timer1
                    },
                    ..old.timers
                },
                ..old
            },
            Reg::Timer1Target => new == PSX {
                timers: Timers {
                    timer1: crate::timers::Timer {
                        value: reg_write_spec::<P>(old.timers.timer1.value as u32, off, value) as u16,
                        ..old.timers.timer1
                    },
                    ..old.timers
                },
                ..old
            },
            Reg::Timer2Value => new == PSX {
                timers: Timers {
                    timer2: crate::timers::Timer {
                        value: reg_write_spec::<P>(old.timers.timer2.value as u32, off, value) as u16,
                        ..old.timers.timer2
                    },
                    ..old.timers
                },
                ..old
            },
            Reg::Timer2Mode => new == PSX {
                timers: Timers {
                    timer2: crate::timers::Timer {
                        value: 0,
                        mode: reg_write_spec::<P>(old.timers.timer2.mode as u32, off, value) as u16,
                        ..old.timers.timer2
                    },
                    ..old.timers
                },
                ..old
            },
            Reg::Timer2Target => new == PSX {
                timers: Timers {
                    timer2: crate::timers::Timer {
                        value: reg_write_spec::<P>(old.timers.timer2.value as u32, off, value) as u16,
                        ..old.timers.timer2
                    },
                    ..old.timers
                },
                ..old
            },
            _ => false,
        }
    }

    /// The state after a write of `value` at `off` to `reg`, a register of the serial port.
    pub open spec fn sio_written<P: Primitive>(old: PSX, new: PSX, reg: Reg, off: int, value: P) -> bool {
        let sio_update = scheduled_now(
            old.scheduler,
            new.scheduler,
            Event::Sio(sio0::Event::Update),
        );
        match reg {
            Reg::JoyData => {
                &&& new == PSX {
                    sio0: sio0::Registers {
                        tx: Some(reg_write_spec::<P>(0, off, value) as u8),
                        ..old.sio0
                    },
                    scheduler: new.scheduler,
                    ..old
                }
                &&& sio_update
            },
            Reg::JoyStat => new == old,
            Reg::JoyMode => {
                &&& new == PSX {
                    sio0: sio0::Registers {
                        mode: reg_write_spec::<P>(old.sio0.mode as u32, off, value) as u16,
                        ..old.sio0
                    },
                    scheduler: new.scheduler,
                    ..old
                }
                &&& sio_update
            },
            Reg::JoyControl => {
                &&& new == PSX {
                    sio0: old.sio0.spec_with_control_bits(
                        reg_write_spec::<P>(old.sio0.spec_control_bits() as u32, off, value) as u16,
                    ),
                    scheduler: new.scheduler,
                    ..old
                }
                &&& sio_update
            },

            _ => false,
        }
    }

}


impl PSX {
    /// Writes a primitive to the IO ports.
    fn write_io_ports<P: Primitive>(&mut self, addr: Address, value: P)
        requires
            old(self).wf(),
            spec_access(addr.0) == Access::IoPorts,
            Self::io_write_allowed(addr.0),
        ensures
            Self::io_write_state(*old(self), *final(self), addr.0, value),
            final(self).wf(),
    {
        proof {
            lemma_io_offset(addr.0);
            law_reg_and_offset_sound(addr.0);
        }
        let physical = addr.physical().unwrap().value();
        let stub_offset = (physical - Region::IOPorts.start().value()) as usize;
        match Reg::reg_and_offset(addr) {
            Some((reg, offset)) => match reg {
                Reg::InterruptStatus | Reg::InterruptMask => self.write_interrupts(reg, offset, value),
                Reg::Dma0Base | Reg::Dma1Base | Reg::Dma2Base | Reg::Dma3Base | Reg::Dma4Base
                | Reg::Dma5Base | Reg::Dma6Base | Reg::Dma0BlockControl | Reg::Dma1BlockControl
                | Reg::Dma2BlockControl | Reg::Dma3BlockControl | Reg::Dma4BlockControl
                | Reg::Dma5BlockControl | Reg::Dma6BlockControl | Reg::Dma0Control
                | Reg::Dma1Control | Reg::Dma2Control | Reg::Dma3Control | Reg::Dma4Control
                | Reg::Dma5Control | Reg::Dma6Control | Reg::DmaControl | Reg::DmaInterrupt => {
                    self.write_dma(reg, offset, value)
                },
                Reg::Gp0 | Reg::Gp1 | Reg::Cdrom0 | Reg::Cdrom1 | Reg::Cdrom2 | Reg::Cdrom3 => {
                    self.write_gpu_cdrom(reg, offset, value)
                },
                Reg::Timer1Value | Reg::Timer1Mode | Reg::Timer1Target | Reg::Timer2Value
                | Reg::Timer2Mode | Reg::Timer2Target => self.write_timers(reg, offset, value),
                Reg::JoyData | Reg::JoyStat | Reg::JoyMode | Reg::JoyControl => {
                    self.write_sio(reg, offset, value)
                },
                _ => write_at(&mut self.memory.io_stubs, stub_offset, value),
            },
            None => write_at(&mut self.memory.io_stubs, stub_offset, value),
        }
    }

    /// Writes a primitive to a register of the interrupt controller.
    fn write_interrupts<P: Primitive>(&mut self, reg: Reg, offset: usize, value: P)
        requires
            offset < 4,
            reg == Reg::InterruptStatus || reg == Reg::InterruptMask,
        ensures
            Self::interrupts_written(*old(self), *final(self), reg, offset as int, value),
            final(self).memory == old(self).memory,
    {
        match reg {
            Reg::InterruptStatus => {
                let written = reg_write(0xFFFF_FFFFu32, offset, value);
                self.interrupts.status = interrupts::Status(self.interrupts.status.0 & written);
            },
            Reg::InterruptMask => {
                self.interrupts.mask = interrupts::Mask(
                    reg_write(self.interrupts.mask.0, offset, value),
                );
            },
            _ => {},
        }
    }

    /// Writes a primitive to a register of the DMA controller.
    fn write_dma<P: Primitive>(&mut self, reg: Reg, offset: usize, value: P)
        requires
            offset < 4,
            reg.spec_dma_channel() is Some || reg == Reg::DmaControl || reg == Reg::DmaInterrupt,
        ensures
            Self::dma_written(*old(self), *final(self), reg, offset as int, value),
            final(self).memory == old(self).memory,
    {
        match reg {
            Reg::Dma0Base | Reg::Dma1Base | Reg::Dma2Base | Reg::Dma3Base | Reg::Dma4Base
            | Reg::Dma5Base | Reg::Dma6Base => {
                let channel = reg.dma_channel().unwrap().index() as usize;
                let mut state = self.dma.channels[channel];
                state.base = dma::ChannelBase(reg_write(state.base.0, offset, value));
                self.dma.channels[channel] = state;
                self.scheduler.schedule(Event::DmaUpdate, 0);
            },
            Reg::Dma0BlockControl | Reg::Dma1BlockControl | Reg::Dma2BlockControl
            | Reg::Dma3BlockControl | Reg::Dma4BlockControl | Reg::Dma5BlockControl
            | Reg::Dma6BlockControl => {
                let channel = reg.dma_channel().unwrap().index() as usize;
                let mut state = self.dma.channels[channel];
                state.block_control = dma::ChannelBlockControl(
                    reg_write(state.block_control.0, offset, value),
                );
                self.dma.channels[channel] = state;
                self.scheduler.schedule(Event::DmaUpdate, 0);
            },
            Reg::Dma0Control | Reg::Dma1Control | Reg::Dma2Control | Reg::Dma3Control
            | Reg::Dma4Control | Reg::Dma5Control => {
                let channel = reg.dma_channel().unwrap().index() as usize;
                let mut state = self.dma.channels[channel];
                state.control = dma::ChannelControl(reg_write(state.control.0, offset, value));
                self.dma.channels[channel] = state;
                self.scheduler.schedule(Event::DmaUpdate, 0);
            },
            Reg::Dma6Control => {
                let mut state = self.dma.channels[6];
                state.control = dma::ChannelControl(
                    write_masked(
                        value,
                        offset,
                        dma::ChannelControl::DMA6_WRITE_MASK,
                        state.control.0,
                    ),
                );
                self.dma.channels[6] = state;
                self.scheduler.schedule(Event::DmaUpdate, 0);
            },
            Reg::DmaControl => {
                self.dma.control = dma::Control(reg_write(self.dma.control.0, offset, value));
                self.scheduler.schedule(Event::DmaUpdate, 0);
            },
            Reg::DmaInterrupt => {
                let current = self.dma.interrupt_control.0;
                let result = write_masked(
                    value,
                    offset,
                    dma::InterruptControl::WRITE_MASK,
                    current,
                );
                // written channel flags acknowledge: they clear the flag
                let reset = (current & 0x7F00_0000u32) & !(result & 0x7F00_0000u32);
                self.dma.interrupt_control = dma::InterruptControl(
                    (result & !0x7F00_0000u32) | reset,
                );
                self.scheduler.schedule(Event::DmaUpdate, 0);
            },
            _ => {},
        }
    }

    /// Writes a primitive to a register of the GPU or the CDROM controller.
    fn write_gpu_cdrom<P: Primitive>(&mut self, reg: Reg, offset: usize, value: P)
        requires
            offset < 4,
            reg == Reg::Gp0 || reg == Reg::Gp1 || reg.spec_cdrom_reg() is Some,
        ensures
            Self::gpu_cdrom_written(*old(self), *final(self), reg, offset as int, value),
            final(self).memory == old(self).memory,
    {
        match reg {
            Reg::Gp0 => {
                let raw = reg_write(0u32, offset, value);
                self.gpu.render_queue.push_back(raw);
                self.scheduler.schedule(Event::Gpu, 0);
                self.scheduler.schedule(Event::DmaUpdate, 0);
            },
            Reg::Gp1 => {
                let raw = reg_write(0u32, offset, value);
                self.gpu.display_queue.push_back(raw);
                self.scheduler.schedule(Event::Gpu, 0);
                self.scheduler.schedule(Event::DmaUpdate, 0);
            },
            Reg::Cdrom0 | Reg::Cdrom1 | Reg::Cdrom2 | Reg::Cdrom3 => {
                let data = reg_write(0u32, 0, value) as u8;
                let cdrom_reg = reg.cdrom_reg().unwrap();
                self.cdrom.write_queue.push_back(CdromRegWrite { reg: cdrom_reg, value: data });
                self.scheduler.schedule(Event::Cdrom(cdrom::Event::Update), 0);
            },
            _ => {},
        }
    }

    /// Writes a primitive to a register of the timers.
    fn write_timers<P: Primitive>(&mut self, reg: Reg, offset: usize, value: P)
        requires
            offset < 4,
            offset < 3,
            reg == Reg::Timer1Value || reg == Reg::Timer1Mode || reg == Reg::Timer1Target || reg == Reg::Timer2Value || reg == Reg::Timer2Mode || reg == Reg::Timer2Target,
        ensures
            Self::timers_written(*old(self), *final(self), reg, offset as int, value),
            final(self).memory == old(self).memory,
    {
        match reg {
            Reg::Timer1Value => {
                self.timers.timer1.value = reg_write(self.timers.timer1.value as u32, offset, value) as u16;
            },
            Reg::Timer1Mode => {
                self.timers.timer1.value = 0;
                self.timers.timer1.mode = reg_write(self.timers.timer1.mode as u32, offset, value) as u16;
            },
            Reg::Timer1Target => {
                self.timers.timer1.value = reg_write(self.timers.timer1.value as u32, offset, value) as u16;
            },
            Reg::Timer2Value => {
                self.timers.timer2.value = reg_write(self.timers.timer2.value as u32, offset, value) as u16;
            },
            Reg::Timer2Mode => {
                self.timers.timer2.value = 0;
                self.timers.timer2.mode = reg_write(self.timers.timer2.mode as u32, offset, value) as u16;
            },
            Reg::Timer2Target => {
                self.timers.timer2.value = reg_write(self.timers.timer2.value as u32, offset, value) as u16;
            },
            _ => {},
        }
    }

    /// Writes a primitive to a register of the serial port.
    fn write_sio<P: Primitive>(&mut self, reg: Reg, offset: usize, value: P)
        requires
            offset < 4,
            reg == Reg::JoyData || reg == Reg::JoyStat || reg == Reg::JoyMode || reg == Reg::JoyControl,
        ensures
            Self::sio_written(*old(self), *final(self), reg, offset as int, value),
            final(self).memory == old(self).memory,
    {
        match reg {
            Reg::JoyData => {
                let data = reg_write(0u32, offset, value) as u8;
                self.sio0.tx = Some(data);
                self.scheduler.schedule(Event::Sio(sio0::Event::Update), 0);
            },
            Reg::JoyStat => {},
            Reg::JoyMode => {
                self.sio0.mode = reg_write(self.sio0.mode as u32, offset, value) as u16;
                self.scheduler.schedule(Event::Sio(sio0::Event::Update), 0);
            },
            Reg::JoyControl => {
                let bits = reg_write(self.sio0.control_bits() as u32, offset, value) as u16;
                self.sio0.set_control_bits(bits);
                self.scheduler.schedule(Event::Sio(sio0::Event::Update), 0);
            },

            _ => {},
        }
    }

}


impl PSX {
    /// Whether an access at `addr` is possible: the IO ports restrict reads and writes of some
    /// registers.
    pub open spec fn read_allowed(&self, addr: u32) -> bool {
        spec_access(addr) == Access::IoPorts ==> self.io_read_allowed(addr)
    }

    /// Whether a write at `addr` is possible.
    pub open spec fn write_allowed(addr: u32) -> bool {
        spec_access(addr) == Access::IoPorts ==> Self::io_write_allowed(addr)
    }

    /// What a read at `addr` of `old` gives (`r`) and leaves (`new`): the IO ports as
    /// [`io_read_value`](Self::io_read_value) and [`io_read_state`](Self::io_read_state) say,
    /// any other address its [`memory_value`](Self::memory_value), changing nothing.
    pub open spec fn read_post<P: Primitive>(old: PSX, new: PSX, addr: u32, r: P) -> bool {
        if spec_access(addr) == Access::IoPorts {
            r == old.io_read_value::<P>(addr) && Self::io_read_state(old, new, addr)
        } else {
            r == old.memory_value::<P>(addr) && new == old
        }
    }

    /// What a write of `value` at `addr` leaves: the cache control register takes the bytes of
    /// the value, an address in no region changes nothing, the IO ports change as
    /// [`io_write_state`](Self::io_write_state) says, and any other address writes the bytes of
    /// the value into its memory buffer, at its offset.
    pub open spec fn write_post<P: Primitive>(old: PSX, new: PSX, addr: u32, value: P) -> bool {
        match spec_access(addr) {
            Access::CacheControl => new == PSX {
                cpu: Cpu { cache_control: reg_write_spec::<P>(old.cpu.cache_control, 0, value), ..old.cpu },
                ..old
            },
            Access::Unmapped => new == old,
            Access::IoPorts => Self::io_write_state(old, new, addr, value),
            Access::Memory { region, offset } => {
                &&& new == PSX { memory: new.memory, ..old }
                &&& memory_written(old.memory, new.memory, region, offset as int, value)
            },
        }
    }

    /// Reads a primitive at the given address, whatever its alignment. Where the bytes of the
    /// primitive run past the end of a memory buffer, they read as zero.
    pub fn read_unaligned<P: Primitive>(&mut self, addr: Address) -> (r: P)
        requires
            old(self).wf(),
            old(self).read_allowed(addr.0),
        ensures
            Self::read_post(*old(self), *final(self), addr.0, r),
            final(self).wf(),
    {
        match addr.physical() {
            Some(phys) => {
                let region = match phys.region() {
                    Some(region) => region,
                    None => {
                        let zeros = vec![0u8, 0u8, 0u8, 0u8];
                        let r = read_at(zeros.as_slice(), 0);
                        assert(le_value(window(zeros@, 0), P::size()) == 0);
                        return r;
                    },
                };
                let offset = phys.value() - region.start().value();
                match region {
                    Region::Ram => read_at(self.memory.ram.as_slice(), offset as usize),
                    Region::RamMirror => {
                        assert(offset & 0x001F_FFFF == offset % 0x20_0000) by (bit_vector);
                        read_at(self.memory.ram.as_slice(), (offset & 0x001F_FFFF) as usize)
                    },
                    Region::Expansion1 => read_at(self.memory.expansion_1.as_slice(), offset as usize),
                    Region::ScratchPad => read_at(self.memory.scratchpad.as_slice(), offset as usize),
                    Region::IOPorts => self.read_io_ports(addr),
                    Region::Expansion2 => read_at(self.memory.expansion_2.as_slice(), offset as usize),
                    Region::Expansion3 => read_at(self.memory.expansion_3.as_slice(), offset as usize),
                    Region::BIOS => read_at(self.memory.bios.as_slice(), offset as usize),
                }
            },
            None => reg_read(self.cpu.cache_control, 0),
        }
    }

    /// Reads a primitive at the given address, which must be aligned to its size.
    ///
    /// # Errors
    /// A misaligned address gives [`MisalignedAddressErr`], with the address and the alignment
    /// expected, and changes nothing.
    pub fn read<P: Primitive>(&mut self, addr: Address) -> (r: Result<P, MisalignedAddressErr>)
        requires
            old(self).wf(),
            old(self).read_allowed(addr.0),
        ensures
            r is Err <==> (addr.0 as nat) % P::size() != 0,
            r matches Err(e) ==> e == (MisalignedAddressErr { addr, alignment: P::size() as u32 })
                && *final(self) == *old(self),
            r matches Ok(v) ==> Self::read_post(*old(self), *final(self), addr.0, v),
            final(self).wf(),
    {
        proof {
            P::lemma_size();
        }
        let alignment = P::alignment();
        if addr.is_aligned(alignment) {
            Ok(self.read_unaligned(addr))
        } else {
            Err(MisalignedAddressErr { addr, alignment })
        }
    }

    /// Writes a primitive at the given address, whatever its alignment. Where the bytes of the
    /// primitive run past the end of a memory buffer, they are dropped.
    pub fn write_unaligned<P: Primitive>(&mut self, addr: Address, value: P)
        requires
            old(self).wf(),
            Self::write_allowed(addr.0),
        ensures
            Self::write_post(*old(self), *final(self), addr.0, value),
            final(self).wf(),
    {
        match addr.physical() {
            Some(phys) => {
                let region = match phys.region() {
                    Some(region) => region,
                    None => return,
                };
                let offset = phys.value() - region.start().value();
                match region {
                    Region::Ram => write_at(&mut self.memory.ram, offset as usize, value),
                    Region::RamMirror => {
                        assert(offset & 0x001F_FFFF == offset % 0x20_0000) by (bit_vector);
                        write_at(&mut self.memory.ram, (offset & 0x001F_FFFF) as usize, value)
                    },
                    Region::Expansion1 => write_at(&mut self.memory.expansion_1, offset as usize, value),
                    Region::ScratchPad => write_at(&mut self.memory.scratchpad, offset as usize, value),
                    Region::IOPorts => self.write_io_ports(addr, value),
                    Region::Expansion2 => write_at(&mut self.memory.expansion_2, offset as usize, value),
                    Region::Expansion3 => write_at(&mut self.memory.expansion_3, offset as usize, value),
                    Region::BIOS => write_at(&mut self.memory.bios, offset as usize, value),
                }
            },
            None => {
                self.cpu.cache_control = reg_write(self.cpu.cache_control, 0, value);
            },
        }
    }

    /// Writes a primitive at the given address, which must be aligned to its size.
    ///
    /// # Errors
    /// A misaligned address gives [`MisalignedAddressErr`], with the address and the alignment
    /// expected, and changes nothing.
    pub fn write<P: Primitive>(&mut self, addr: Address, value: P) -> (r: Result<(), MisalignedAddressErr>)
        requires
            old(self).wf(),
            Self::write_allowed(addr.0),
        ensures
            r is Err <==> (addr.0 as nat) % P::size() != 0,
            r matches Err(e) ==> e == (MisalignedAddressErr { addr, alignment: P::size() as u32 })
                && *final(self) == *old(self),
            r is Ok ==> Self::write_post(*old(self), *final(self), addr.0, value),
            final(self).wf(),
    {
        proof {
            P::lemma_size();
        }
        let alignment = P::alignment();
        if addr.is_aligned(alignment) {
            self.write_unaligned(addr, value);
            Ok(())
        } else {
            Err(MisalignedAddressErr { addr, alignment })
        }
    }
}


/// Whether `a` and `b` are held by the same memory buffer (the RAM mirror is held by RAM).
pub open spec fn same_buffer(a: Region, b: Region) -> bool {
    region_bytes_id(a) == region_bytes_id(b)
}

/// A number for each memory buffer.
pub open spec fn region_bytes_id(region: Region) -> int {
    match region {
        Region::Ram | Region::RamMirror => 0,
        Region::Expansion1 => 1,
        Region::ScratchPad => 2,
        Region::IOPorts => 3,
        Region::Expansion2 => 4,
        Region::Expansion3 => 5,
        Region::BIOS => 6,
    }
}

/// Proof that the offset of an aligned memory access leaves room for the whole primitive in its
/// buffer.
proof fn lemma_aligned_fits<P: Primitive>(s: PSX, addr: u32)
    requires
        s.wf(),
        spec_access(addr) is Memory,
        (addr as nat) % P::size() == 0,
    ensures
        spec_access(addr)->offset + P::size() <= region_bytes(s.memory, spec_access(addr)->region).len(),
        spec_access(addr)->region != Region::IOPorts,
{
    P::lemma_size();
    let p = addr % 0x2000_0000;
    let region = spec_access(addr)->region;
    let offset = spec_access(addr)->offset;
    let n = P::size();
    assert((p as int) % (n as int) == 0) by {
        assert(addr % 4 == 0 ==> (addr % 0x2000_0000) % 4 == 0) by (bit_vector);
        assert(addr % 2 == 0 ==> (addr % 0x2000_0000) % 2 == 0) by (bit_vector);
    }
    let len = region_bytes(s.memory, region).len();
    assert(offset < len);
    assert((offset as int) % (n as int) == 0) by {
        let q = p as u32;
        assert(q % 4 == 0 ==> ((q - 0x20_0000) % 0x20_0000) % 4 == 0) by (bit_vector);
        assert(q % 2 == 0 ==> ((q - 0x20_0000) % 0x20_0000) % 2 == 0) by (bit_vector);
    }
    assert(len % 4 == 0);
    let o = offset as u32;
    let l = len as u32;
    assert(o % 4 == 0 && l % 4 == 0 && o < l ==> o + 4 <= l) by (bit_vector);
    assert(o % 2 == 0 && l % 4 == 0 && o < l ==> o + 2 <= l) by (bit_vector);
}

/// Proof that the four bytes of the value of four bytes are those bytes.
proof fn lemma_le_bytes_of_value(b: Seq<u8>)
    requires
        b.len() == 4,
    ensures
        le_value(b, 4) < 0x1_0000_0000,
        le_bytes(le_value(b, 4) as u32) == b,
{
    let (b0, b1, b2, b3) = (b[0], b[1], b[2], b[3]);
    let v = (b0 as int + b1 as int * 0x100 + b2 as int * 0x1_0000 + b3 as int * 0x100_0000) as u32;
    assert(b0 as int + b1 as int * 0x100 + b2 as int * 0x1_0000 + b3 as int * 0x100_0000
        < 0x1_0000_0000) by (nonlinear_arith);
    assert(v as nat == le_value(b, 4));
    assert((v / 0x1) % 0x100 == b0 as u32 && (v / 0x100) % 0x100 == b1 as u32 && (v / 0x1_0000)
        % 0x100 == b2 as u32 && (v / 0x100_0000) % 0x100 == b3 as u32) by (bit_vector)
        requires
            v as int == b0 as int + b1 as int * 0x100 + b2 as int * 0x1_0000 + b3 as int * 0x100_0000,
    ;
    assert(le_bytes(v) =~= b);
}

/// Law: reading a primitive at an aligned address right after writing one of the same type
/// there gives the written value back, for the memory buffers and the cache control register.
pub proof fn law_read_after_write<P: Primitive>(old: PSX, new: PSX, addr: u32, value: P)
    requires
        old.wf(),
        spec_access(addr) is Memory || spec_access(addr) == Access::CacheControl,
        (addr as nat) % P::size() == 0,
        PSX::write_post(old, new, addr, value),
    ensures
        new.memory_value::<P>(addr) == value,
{
    P::lemma_size();
    if spec_access(addr) == Access::CacheControl {
        let bytes = le_bytes(old.cpu.cache_control);
        let written = write_le_at(bytes, 0, value.bits(), P::size());
        lemma_le_bytes_of_value(written);
        law_read_at_after_write_at::<P>(bytes, 0, value);
    } else {
        lemma_aligned_fits::<P>(old, addr);
        let region = spec_access(addr)->region;
        let offset = spec_access(addr)->offset;
        law_read_at_after_write_at::<P>(region_bytes(old.memory, region), offset as int, value);
    }
}

/// Law: a read through the RAM mirror gives what the same offset of RAM holds.
pub proof fn law_ram_mirror<P: Primitive>(s: PSX, addr: u32)
    requires
        spec_access(addr) matches Access::Memory { region, .. } && region == Region::RamMirror,
    ensures
        spec_access(spec_access(addr)->offset) == (Access::Memory {
            region: Region::Ram,
            offset: spec_access(addr)->offset,
        }),
        s.memory_value::<P>(addr) == s.memory_value::<P>(spec_access(addr)->offset),
{
}

/// Proof that the value of the first `n` bytes of two windows that agree on them is the same.
proof fn lemma_le_value_prefix(a: Seq<u8>, b: Seq<u8>, n: nat)
    requires
        a.len() == 4,
        b.len() == 4,
        n == 1 || n == 2 || n == 4,
        forall|k: int| 0 <= k < n ==> a[k] == b[k],
    ensures
        le_value(a, n) == le_value(b, n),
{
    assert(a[0] == b[0]);
    if n >= 2 {
        assert(a[1] == b[1]);
    }
    if n == 4 {
        assert(a[2] == b[2]);
        assert(a[3] == b[3]);
    }
}

/// Law: a write to a memory buffer leaves what a read elsewhere gives unchanged, where the read
/// is of another buffer or of bytes the write did not reach.
pub proof fn law_write_keeps_other_reads<P: Primitive, Q: Primitive>(
    old: PSX,
    new: PSX,
    addr: u32,
    value: P,
    other: u32,
)
    requires
        old.wf(),
        spec_access(addr) is Memory,
        spec_access(other) is Memory,
        PSX::write_post(old, new, addr, value),
        !same_buffer(spec_access(addr)->region, spec_access(other)->region) || spec_access(
            other,
        )->offset + Q::size() <= spec_access(addr)->offset || spec_access(addr)->offset
            + P::size() <= spec_access(other)->offset,
    ensures
        new.memory_value::<Q>(other) == old.memory_value::<Q>(other),
{
    P::lemma_size();
    Q::lemma_size();
    let wr = spec_access(addr)->region;
    let wo = spec_access(addr)->offset as int;
    let rr = spec_access(other)->region;
    let ro = spec_access(other)->offset as int;
    let before = region_bytes(old.memory, rr);
    let after = region_bytes(new.memory, rr);
    if same_buffer(wr, rr) {
        assert(after == write_le_at(region_bytes(old.memory, wr), wo, value.bits(), P::size()));
        assert(region_bytes(old.memory, wr) == before);
        assert forall|k: int| 0 <= k < Q::size() implies window(after, ro)[k] == window(
            before,
            ro,
        )[k] by {
            assert(byte_or_zero(after, ro + k) == byte_or_zero(before, ro + k));
        }
    } else {
        assert(after == before);
    }
    lemma_le_value_prefix(window(after, ro), window(before, ro), Q::size());
}


/// Whether writes to `reg` are kept whole: the interrupt mask, and the base, block control and
/// (but for the OTC channel, whose control register only takes some bits) control registers of
/// the DMA channels, and the DMA control register.
pub open spec fn keeps_writes(reg: Reg) -> bool {
    match reg {
        Reg::InterruptMask | Reg::DmaControl | Reg::Dma0Base | Reg::Dma1Base | Reg::Dma2Base
        | Reg::Dma3Base | Reg::Dma4Base | Reg::Dma5Base | Reg::Dma6Base | Reg::Dma0BlockControl
        | Reg::Dma1BlockControl | Reg::Dma2BlockControl | Reg::Dma3BlockControl
        | Reg::Dma4BlockControl | Reg::Dma5BlockControl | Reg::Dma6BlockControl
        | Reg::Dma0Control | Reg::Dma1Control | Reg::Dma2Control | Reg::Dma3Control
        | Reg::Dma4Control | Reg::Dma5Control => true,
        _ => false,
    }
}

/// Proof that the word written whole into a register reads back whole.
proof fn lemma_reg_word_roundtrip(reg: u32, value: u32)
    ensures
        reg_read_spec::<u32>(reg_write_spec::<u32>(reg, 0, value), 0) == value,
{
    u32::lemma_size();
    lemma_le_bytes_roundtrip_write(reg, value);
    assert(window(le_bytes(value), 0) =~= le_bytes(value));
    lemma_le_value_of_bytes(value);
}

/// Law: a word written at the start of a register of the IO ports that keeps writes whole reads
/// back as written.
pub proof fn law_io_register_read_after_write(old: PSX, new: PSX, addr: u32, value: u32)
    requires
        spec_first_match(addr, 0) matches Some((reg, offset)) && offset == 0 && keeps_writes(reg),
        PSX::io_write_state::<u32>(old, new, addr, value),
    ensures
        new.io_read_value::<u32>(addr) == value,
{
    let (reg, offset) = spec_first_match(addr, 0).unwrap();
    match reg {
        Reg::InterruptMask => lemma_reg_word_roundtrip(old.interrupts.mask.0, value),
        Reg::DmaControl => lemma_reg_word_roundtrip(old.dma.control.0, value),
        Reg::Dma0Base | Reg::Dma1Base | Reg::Dma2Base | Reg::Dma3Base | Reg::Dma4Base
        | Reg::Dma5Base | Reg::Dma6Base => {
            lemma_reg_word_roundtrip(old.dma.channels[PSX::channel_of(reg)].base.0, value)
        },
        Reg::Dma0BlockControl | Reg::Dma1BlockControl | Reg::Dma2BlockControl
        | Reg::Dma3BlockControl | Reg::Dma4BlockControl | Reg::Dma5BlockControl
        | Reg::Dma6BlockControl => {
            lemma_reg_word_roundtrip(old.dma.channels[PSX::channel_of(reg)].block_control.0, value)
        },
        _ => lemma_reg_word_roundtrip(old.dma.channels[PSX::channel_of(reg)].control.0, value),
    }
}

/// The memory buffers and the cache control register, which the accesses outside the IO ports
/// reach.
pub ghost struct MemModel {
    pub ram: Seq<u8>,
    pub expansion_1: Seq<u8>,
    pub scratchpad: Seq<u8>,
    pub expansion_2: Seq<u8>,
    pub expansion_3: Seq<u8>,
    pub bios: Seq<u8>,
    pub cache_control: u32,
}

/// The memory buffers and cache control register of `psx`.
pub open spec fn mem_of(psx: PSX) -> MemModel {
    MemModel {
        ram: psx.memory.ram@,
        expansion_1: psx.memory.expansion_1@,
        scratchpad: psx.memory.scratchpad@,
        expansion_2: psx.memory.expansion_2@,
        expansion_3: psx.memory.expansion_3@,
        bios: psx.memory.bios@,
        cache_control: psx.cpu.cache_control,
    }
}

/// The word a read at `addr`, outside the IO ports, gives.
pub open spec fn mem_read(m: MemModel, addr: u32) -> u32 {
    let written = |buf: Seq<u8>, offset: u32| read_at_spec::<u32>(buf, offset as int);
    match spec_access(addr) {
        Access::CacheControl => m.cache_control,
        Access::Memory { region, offset } => match region {
            Region::Ram | Region::RamMirror => written(m.ram, offset),
            Region::Expansion1 => written(m.expansion_1, offset),
            Region::ScratchPad => written(m.scratchpad, offset),
            Region::Expansion2 => written(m.expansion_2, offset),
            Region::Expansion3 => written(m.expansion_3, offset),
            Region::BIOS => written(m.bios, offset),
            Region::IOPorts => 0,
        },
        _ => 0,
    }
}

/// The memory after a write of the word `value` at `addr`, outside the IO ports.
pub open spec fn mem_write(m: MemModel, addr: u32, value: u32) -> MemModel {
    let w = |buf: Seq<u8>, offset: u32| write_le_at(buf, offset as int, value as nat, 4);
    match spec_access(addr) {
        Access::CacheControl => MemModel { cache_control: value, ..m },
        Access::Memory { region, offset } => match region {
            Region::Ram | Region::RamMirror => MemModel { ram: w(m.ram, offset), ..m },
            Region::Expansion1 => MemModel { expansion_1: w(m.expansion_1, offset), ..m },
            Region::ScratchPad => MemModel { scratchpad: w(m.scratchpad, offset), ..m },
            Region::Expansion2 => MemModel { expansion_2: w(m.expansion_2, offset), ..m },
            Region::Expansion3 => MemModel { expansion_3: w(m.expansion_3, offset), ..m },
            Region::BIOS => MemModel { bios: w(m.bios, offset), ..m },
            Region::IOPorts => m,
        },
        _ => m,
    }
}

/// Only the memory buffers and the cache control register differ between `old` and `new`.
pub open spec fn mem_frame(old: PSX, new: PSX) -> bool {
    &&& new == PSX { memory: new.memory, cpu: Cpu { cache_control: new.cpu.cache_control, ..old.cpu }, ..old }
    &&& new.memory == Memory {
        ram: new.memory.ram,
        expansion_1: new.memory.expansion_1,
        scratchpad: new.memory.scratchpad,
        expansion_2: new.memory.expansion_2,
        expansion_3: new.memory.expansion_3,
        bios: new.memory.bios,
        ..old.memory
    }
}

/// Proof that an address in the first 2 MiB reaches RAM at the same offset.
proof fn lemma_ram_access(a: u32)
    requires
        a < Region::Ram.spec_len(),
    ensures
        spec_access(a) == (Access::Memory { region: Region::Ram, offset: a }),
{
}

/// Law: in RAM, a read of an aligned word gives what the last write there wrote, and a write of
/// an aligned word leaves the other aligned words as they were.
pub proof fn law_ram_word_read_after_write(m: MemModel, a: u32, b: u32, v: u32)
    requires
        m.ram.len() == Region::Ram.spec_len(),
        a % 4 == 0,
        b % 4 == 0,
        a < Region::Ram.spec_len(),
        b < Region::Ram.spec_len(),
    ensures
        mem_read(mem_write(m, a, v), a) == v,
        a != b ==> mem_read(mem_write(m, a, v), b) == mem_read(m, b),
        mem_write(m, a, v).ram.len() == m.ram.len(),
{
    lemma_ram_access(a);
    lemma_ram_access(b);
    u32::lemma_size();
    let written = write_le_at(m.ram, a as int, v as nat, 4);
    assert(mem_write(m, a, v) == MemModel { ram: written, ..m });
    law_read_at_after_write_at::<u32>(m.ram, a as int, v);
    assert(mem_read(mem_write(m, a, v), a) == read_at_spec::<u32>(written, a as int));
    if a != b {
        assert(window(written, b as int) =~= window(m.ram, b as int));
        assert(mem_read(mem_write(m, a, v), b) == read_at_spec::<u32>(written, b as int));
        assert(mem_read(m, b) == read_at_spec::<u32>(m.ram, b as int));
    }
}

impl PSX {
    /// Reads a word at an aligned address outside the IO ports.
    pub fn read_word(&mut self, addr: u32) -> (r: u32)
        requires
            old(self).wf(),
            spec_access(addr) != Access::IoPorts,
            addr % 4 == 0,
        ensures
            r == mem_read(mem_of(*old(self)), addr),
            *final(self) == *old(self),
    {
        proof {
            u32::lemma_size();
        }
        match self.read::<u32>(Address(addr)) {
            Ok(v) => {
                proof {
                    assert(le_value(le_bytes(old(self).cpu.cache_control), 4) == old(self).cpu.cache_control) by {
                        lemma_le_value_of_bytes(old(self).cpu.cache_control);
                    }
                }
                v
            },
            Err(_) => 0,
        }
    }

    /// Writes a word at an aligned address outside the IO ports.
    pub fn write_word(&mut self, addr: u32, value: u32)
        requires
            old(self).wf(),
            spec_access(addr) != Access::IoPorts,
            addr % 4 == 0,
        ensures
            mem_of(*final(self)) == mem_write(mem_of(*old(self)), addr, value),
            mem_frame(*old(self), *final(self)),
            final(self).wf(),
    {
        proof {
            u32::lemma_size();
        }
        let _ = self.write::<u32>(Address(addr), value);
        proof {
            if spec_access(addr) == Access::CacheControl {
                lemma_le_bytes_roundtrip_write(old(self).cpu.cache_control, value);
            }
        }
    }
}

/// Proof that the value of the four bytes of a word is the word.
proof fn lemma_le_value_of_bytes(v: u32)
    ensures
        le_value(le_bytes(v), 4) == v,
{
    let b = le_bytes(v);
    assert(b[0] == (v % 0x100) as u8 && b[1] == ((v / 0x100) % 0x100) as u8 && b[2] == ((v
        / 0x1_0000) % 0x100) as u8 && b[3] == ((v / 0x100_0000) % 0x100) as u8);
    assert((v % 0x100) as u8 as u32 + ((v / 0x100) % 0x100) as u8 as u32 * 0x100 + ((v
        / 0x1_0000) % 0x100) as u8 as u32 * 0x1_0000 + ((v / 0x100_0000) % 0x100) as u8 as u32
        * 0x100_0000 == v) by (bit_vector);
}

/// Proof that writing a whole word into the bytes of a register gives the word.
proof fn lemma_le_bytes_roundtrip_write(reg: u32, value: u32)
    ensures
        reg_write_spec::<u32>(reg, 0, value) == value,
{
    let w = write_le_at(le_bytes(reg), 0, value as nat, 4);
    assert(w =~= le_bytes(value));
    lemma_le_value_of_bytes(value);
}

} // verus!
