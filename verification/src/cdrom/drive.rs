//! The CDROM drive: the state machine that processes the register writes of the CPU, acknowledges
//! and completes commands, and reads sectors from the disc.
use super::{
    bit8, get_bit, put_bit, with_bit8, Bank, Command, Event, InterruptKind, Mode, Reg, RegWrite,
    Sector,
};
use crate::interrupts::Interrupt;
use crate::psx::PSX;
use crate::scheduler::{self, ScheduledEvent};
use std::collections::VecDeque;
use vstd::prelude::*;

verus! {

/// The version the drive reports to the test command.
pub const CDROM_VERSION: [u8; 4] = [0x94, 0x09, 0x19, 0xc0];

/// The cycles between the acknowledge and the completion of the get ID command.
pub const COMPLETE_GETID_DELAY: u64 = 574 * crate::CYCLES_MICROS;

/// The cycles between the acknowledge and the completion of the pause command while reading.
pub const COMPLETE_PAUSE_DELAY: u64 = 64 * crate::CYCLES_MILLIS + 36 * crate::CYCLES_MICROS;

/// The cycles between the acknowledge and the completion of the pause command while not reading.
pub const COMPLETE_PAUSE_NOP_DELAY: u64 = 232 * crate::CYCLES_MICROS;

/// The cycles it takes to read a sector at normal speed.
pub const READ_DELAY: u64 = 13 * crate::CYCLES_MILLIS + 325 * crate::CYCLES_MICROS;

/// The cycles it takes to seek.
pub const SEEK_DELAY: u64 = 1 * crate::CYCLES_MILLIS;

/// The cycles between a command and its acknowledge.
pub const ACK_DEFAULT_DELAY: u64 = 50401;

/// The cycles between the init command and its acknowledge.
pub const ACK_INIT_DELAY: u64 = 81102;

/// The drive: whether a disc is in it, and the interrupts waiting to be raised.
#[derive(Debug)]
pub struct Cdrom {
    has_rom: bool,
    interrupt_queue: VecDeque<InterruptKind>,
}

/// A sector to read from the disc: `size` bytes from byte `position` of the image.
#[derive(Debug, Clone, Copy, PartialEq, Eq, Structural)]
pub struct SectorRead {
    pub position: u64,
    pub size: usize,
}

/// The state the drive works on: the controller registers and queues, the scheduled events, the
/// system interrupt status and the queued interrupts of the drive.
pub ghost struct DriveState {
    pub status: u8,
    pub command_status: u8,
    pub interrupt_status: u8,
    pub interrupt_mask: u8,
    pub mode: u8,
    pub minutes: u8,
    pub seconds: u8,
    pub frames: u8,
    pub lock_data_queue: bool,
    pub writes: Seq<RegWrite>,
    pub parameters: Seq<u8>,
    pub results: Seq<u8>,
    pub sector_data: Seq<u8>,
    pub elapsed: u64,
    pub events: Seq<ScheduledEvent>,
    pub last_scheduled: u64,
    pub system_interrupts: u32,
    pub interrupt_queue: Seq<InterruptKind>,
}

/// The state of `psx` and `drive` that the drive works on.
pub open spec fn state_of(psx: PSX, drive: Cdrom) -> DriveState {
    DriveState {
        status: psx.cdrom.status.0,
        command_status: psx.cdrom.command_status.0,
        interrupt_status: psx.cdrom.interrupt_status.0,
        interrupt_mask: psx.cdrom.interrupt_mask.0,
        mode: psx.cdrom.mode.0,
        minutes: psx.cdrom.location.spec_minutes(),
        seconds: psx.cdrom.location.spec_seconds(),
        frames: psx.cdrom.location.spec_frames(),
        lock_data_queue: psx.cdrom.lock_data_queue,
        writes: psx.cdrom.write_queue@,
        parameters: psx.cdrom.parameter_queue@,
        results: psx.cdrom.result_queue@,
        sector_data: psx.cdrom.sector_data@,
        elapsed: psx.scheduler.spec_elapsed(),
        events: psx.scheduler.events(),
        last_scheduled: psx.scheduler.spec_last_scheduled_time(),
        system_interrupts: psx.interrupts.status.0,
        interrupt_queue: drive.spec_interrupt_queue(),
    }
}

/// The parts of the machine the drive never touches are the same in `old` and `new`.
pub open spec fn untouched(old: PSX, new: PSX) -> bool {
    &&& new.memory == old.memory
    &&& new.timers == old.timers
    &&& new.dma == old.dma
    &&& new.cpu == old.cpu
    &&& new.gte == old.gte
    &&& new.gpu == old.gpu
    &&& new.sio0 == old.sio0
    &&& new.interrupts.mask == old.interrupts.mask
}

/// The command status with the flags of the queues updated.
pub open spec fn updated_status(s: DriveState) -> u8 {
    let c = with_bit8(s.command_status, 3, s.parameters.len() == 0);
    let c = with_bit8(c, 4, true);
    let c = with_bit8(c, 5, s.results.len() != 0);
    with_bit8(c, 6, s.sector_data.len() != 0)
}

/// `s` with `event` of the drive scheduled `delay` cycles from now.
pub open spec fn schedule(s: DriveState, event: Event, delay: u64) -> DriveState {
    DriveState {
        events: s.events.push(
            ScheduledEvent { time: (s.elapsed + delay) as u64, event: scheduler::Event::Cdrom(event) },
        ),
        last_scheduled: (s.elapsed + delay) as u64,
        ..s
    }
}

/// The drive receives the command `value`: it becomes busy and schedules its acknowledge.
pub open spec fn command_spec(s: DriveState, value: u8) -> DriveState {
    let cmd = Command::spec_new(value);
    let delay = if cmd == Command::Init {
        ACK_INIT_DELAY
    } else {
        ACK_DEFAULT_DELAY
    };
    schedule(
        DriveState { command_status: with_bit8(s.command_status, 7, true), ..s },
        Event::Acknowledge(cmd),
        delay,
    )
}

/// The bank the command status selects.
pub open spec fn bank_of(s: DriveState) -> Bank {
    Bank::spec_from_index(s.command_status % 4)
}

/// Whether the drive can process the write `w`: the command and sound registers of banks 1 and
/// 2, and the requests to clear the sound buffer or reset the decoder, are not handled.
pub open spec fn write_ok(s: DriveState, w: RegWrite) -> bool {
    let bank = bank_of(s);
    &&& !(w.reg == Reg::Reg1 && (bank == Bank::Bank1 || bank == Bank::Bank2))
    &&& !(w.reg == Reg::Reg3 && bank == Bank::Bank1 && (bit8(w.value, 5) || bit8(w.value, 7)))
}

/// The state after the write `w` to a register, in the current bank: register 0 selects the
/// bank; in bank 0, register 1 receives a command, register 2 a parameter and register 3 a
/// request (bit 7 unlocks the sector data); in bank 1, register 2 sets the interrupt mask and
/// register 3 acknowledges the interrupt status bits written as one (bit 6 also clears the
/// parameters); other writes are ignored.
pub open spec fn write_step(s: DriveState, w: RegWrite) -> DriveState {
    let bank = bank_of(s);
    match w.reg {
        Reg::Reg0 => DriveState {
            command_status: (s.command_status / 4 * 4 + w.value % 4) as u8,
            ..s
        },
        Reg::Reg1 => if bank == Bank::Bank0 {
            command_spec(s, w.value)
        } else {
            s
        },
        Reg::Reg2 => if bank == Bank::Bank0 {
            DriveState { parameters: s.parameters.push(w.value), ..s }
        } else if bank == Bank::Bank1 {
            DriveState { interrupt_mask: w.value, ..s }
        } else {
            s
        },
        Reg::Reg3 => if bank == Bank::Bank0 {
            DriveState { lock_data_queue: !bit8(w.value, 7), ..s }
        } else if bank == Bank::Bank1 {
            DriveState {
                interrupt_status: (s.interrupt_status & !w.value) | 0xE0,
                parameters: if bit8(w.value, 6) {
                    Seq::empty()
                } else {
                    s.parameters
                },
                ..s
            }
        } else {
            s
        },
    }
}

/// The state after the writes `writes`, in order.
pub open spec fn writes_result(s: DriveState, writes: Seq<RegWrite>) -> DriveState
    decreases writes.len(),
{
    if writes.len() == 0 {
        s
    } else {
        writes_result(write_step(s, writes[0]), writes.drop_first())
    }
}

/// Whether the drive can process each of `writes`, in order.
pub open spec fn writes_ok(s: DriveState, writes: Seq<RegWrite>) -> bool
    decreases writes.len(),
{
    writes.len() == 0 || (write_ok(s, writes[0]) && writes_ok(
        write_step(s, writes[0]),
        writes.drop_first(),
    ))
}

impl Cdrom {
    /// Whether a disc is in the drive.
    pub closed spec fn spec_has_rom(&self) -> bool {
        self.has_rom
    }

    /// The interrupts waiting to be raised, in order.
    pub closed spec fn spec_interrupt_queue(&self) -> Seq<InterruptKind> {
        self.interrupt_queue@
    }

    /// A drive with a disc in it or not, and no interrupt waiting.
    pub fn new(has_rom: bool) -> (r: Self)
        ensures
            r.spec_has_rom() == has_rom,
            r.spec_interrupt_queue() == Seq::<InterruptKind>::empty(),
    {
        Cdrom { has_rom, interrupt_queue: VecDeque::new() }
    }

    /// Puts a disc in the drive.
    pub fn insert_rom(&mut self)
        ensures
            final(self).spec_has_rom(),
            final(self).spec_interrupt_queue() == old(self).spec_interrupt_queue(),
    {
        self.has_rom = true;
    }

    /// Takes the disc out of the drive.
    pub fn remove_rom(&mut self)
        ensures
            !final(self).spec_has_rom(),
            final(self).spec_interrupt_queue() == old(self).spec_interrupt_queue(),
    {
        self.has_rom = false;
    }

    /// Queues a parameter of the next command.
    pub fn push_parameter(&mut self, psx: &mut PSX, value: u8)
        ensures
            state_of(*final(psx), *final(self)) == (DriveState {
                parameters: state_of(*old(psx), *old(self)).parameters.push(value),
                ..state_of(*old(psx), *old(self))
            }),
            untouched(*old(psx), *final(psx)),
            *final(self) == *old(self),
    {
        psx.cdrom.parameter_queue.push_back(value);
    }

    /// Receives a command: the controller becomes busy, and the acknowledge of the command is
    /// scheduled.
    pub fn command(&mut self, psx: &mut PSX, value: u8)
        requires
            old(psx).scheduler.spec_elapsed() + ACK_INIT_DELAY <= u64::MAX,
        ensures
            state_of(*final(psx), *final(self)) == command_spec(state_of(*old(psx), *old(self)), value),
            untouched(*old(psx), *final(psx)),
            *final(self) == *old(self),
    {
        psx.cdrom.command_status.set_bit(7, true);
        let cmd = Command::new(value);
        let delay = match cmd {
            Command::Init => ACK_INIT_DELAY,
            _ => ACK_DEFAULT_DELAY,
        };
        psx.scheduler.schedule(scheduler::Event::Cdrom(Event::Acknowledge(cmd)), delay);
    }

    /// Sets the interrupt mask.
    pub fn set_interrupt_mask(&mut self, psx: &mut PSX, value: u8)
        ensures
            state_of(*final(psx), *final(self)) == (DriveState {
                interrupt_mask: value,
                ..state_of(*old(psx), *old(self))
            }),
            untouched(*old(psx), *final(psx)),
            *final(self) == *old(self),
    {
        psx.cdrom.interrupt_mask = super::InterruptMask(value);
    }

    /// Acknowledges the interrupt status bits written as one; bit 6 also clears the parameters.
    pub fn ack_interrupt_status(&mut self, psx: &mut PSX, value: u8)
        requires
            !bit8(value, 5),
            !bit8(value, 7),
        ensures
            state_of(*final(psx), *final(self)) == (DriveState {
                interrupt_status: (state_of(*old(psx), *old(self)).interrupt_status & !value) | 0xE0,
                parameters: if bit8(value, 6) {
                    Seq::empty()
                } else {
                    state_of(*old(psx), *old(self)).parameters
                },
                ..state_of(*old(psx), *old(self))
            }),
            untouched(*old(psx), *final(psx)),
            *final(self) == *old(self),
    {
        let status = psx.cdrom.interrupt_status.0;
        psx.cdrom.interrupt_status = super::InterruptStatus((status & !value) | 0b1110_0000);
        if get_bit(value, 6) {
            psx.cdrom.parameter_queue.clear();
        }
    }

    /// Handles a control request: bit 7 requests reads of the sector data, unlocking it.
    pub fn control_request(&mut self, psx: &mut PSX, value: u8)
        ensures
            state_of(*final(psx), *final(self)) == (DriveState {
                lock_data_queue: !bit8(value, 7),
                ..state_of(*old(psx), *old(self))
            }),
            untouched(*old(psx), *final(psx)),
            *final(self) == *old(self),
    {
        psx.cdrom.lock_data_queue = !get_bit(value, 7);
    }
}


/// The state at the start of every update: the shell is open where there is no disc, and the
/// command status flags follow the queues.
pub open spec fn prelude(s: DriveState, has_rom: bool) -> DriveState {
    DriveState { status: with_bit8(s.status, 4, !has_rom), command_status: updated_status(s), ..s }
}

/// `s` with no writes queued.
pub open spec fn drained(s: DriveState) -> DriveState {
    DriveState { writes: Seq::empty(), ..s }
}

/// The scheduler can take the events of the drive: the largest delay fits after the elapsed
/// time.
pub open spec fn schedule_fits(s: DriveState) -> bool {
    s.elapsed + COMPLETE_PAUSE_DELAY <= u64::MAX
}

proof fn lemma_write_step_keeps(s: DriveState, w: RegWrite)
    ensures
        write_step(s, w).elapsed == s.elapsed,
        write_step(s, w).writes == s.writes,
        write_step(s, w).interrupt_queue == s.interrupt_queue,
{
}

impl Cdrom {
    /// Processes a write to a register of the controller, in the current bank.
    fn write_register(&mut self, psx: &mut PSX, write: RegWrite)
        requires
            write_ok(state_of(*old(psx), *old(self)), write),
            schedule_fits(state_of(*old(psx), *old(self))),
        ensures
            state_of(*final(psx), *final(self)) == write_step(state_of(*old(psx), *old(self)), write),
            untouched(*old(psx), *final(psx)),
            *final(self) == *old(self),
    {
        let bank = psx.cdrom.command_status.bank();
        let value = write.value;
        match write.reg {
            Reg::Reg0 => {
                let status = psx.cdrom.command_status.0;
                psx.cdrom.command_status = super::CommandStatus(status / 4 * 4 + value % 4);
            },
            Reg::Reg1 => {
                if bank == Bank::Bank0 {
                    self.command(psx, value);
                }
            },
            Reg::Reg2 => {
                if bank == Bank::Bank0 {
                    self.push_parameter(psx, value);
                } else if bank == Bank::Bank1 {
                    self.set_interrupt_mask(psx, value);
                }
            },
            Reg::Reg3 => {
                if bank == Bank::Bank0 {
                    self.control_request(psx, value);
                } else if bank == Bank::Bank1 {
                    self.ack_interrupt_status(psx, value);
                }
            },
        }
    }

    /// Processes the queued register writes, in order.
    fn process_writes(&mut self, psx: &mut PSX)
        requires
            writes_ok(drained(state_of(*old(psx), *old(self))), state_of(*old(psx), *old(self)).writes),
            schedule_fits(state_of(*old(psx), *old(self))),
        ensures
            state_of(*final(psx), *final(self)) == writes_result(
                drained(state_of(*old(psx), *old(self))),
                state_of(*old(psx), *old(self)).writes,
            ),
            untouched(*old(psx), *final(psx)),
            final(self).spec_has_rom() == old(self).spec_has_rom(),
    {
        let ghost start = state_of(*psx, *self);
        loop
            invariant
                writes_result(drained(state_of(*psx, *self)), state_of(*psx, *self).writes)
                    == writes_result(drained(start), start.writes),
                writes_ok(drained(state_of(*psx, *self)), state_of(*psx, *self).writes),
                state_of(*psx, *self).elapsed == start.elapsed,
                start == state_of(*old(psx), *old(self)),
                schedule_fits(start),
                untouched(*old(psx), *psx),
                self.spec_has_rom() == old(self).spec_has_rom(),
            ensures
                state_of(*psx, *self) == writes_result(drained(start), start.writes),
                untouched(*old(psx), *psx),
                self.spec_has_rom() == old(self).spec_has_rom(),
            decreases psx.cdrom.write_queue@.len(),
        {
            let ghost before = state_of(*psx, *self);
            match psx.cdrom.write_queue.pop_front() {
                Some(write) => {
                    proof {
                        assert(before.writes[0] == write);
                        assert(drained(state_of(*psx, *self)) == drained(before));
                        lemma_write_step_keeps(drained(before), write);
                    }
                    self.write_register(psx, write);
                    proof {
                        let after = state_of(*psx, *self);
                        assert(drained(after) == write_step(drained(before), write));
                        assert(after.writes == before.writes.drop_first());
                    }
                },
                None => {
                    proof {
                        assert(before.writes =~= Seq::<RegWrite>::empty());
                        assert(state_of(*psx, *self) == drained(before));
                    }
                    break;
                },
            }
        }
    }
}


/// The number a binary coded decimal byte stands for.
pub open spec fn decode_bcd(value: u8) -> u8 {
    ((value & 0x0F) + 10 * ((value & 0xF0) >> 4u8)) as u8
}

/// The byte reported for a number of the location: `10 * (value / 10) + value % 10`.
pub open spec fn encode_bcd(value: u8) -> u8 {
    (10 * (value / 10) + (value % 10)) as u8
}

/// How many times faster than normal the drive reads in `mode`.
pub open spec fn speed_factor(mode: u8) -> u64 {
    if bit8(mode, 7) {
        2
    } else {
        1
    }
}

/// Whether the drive can acknowledge `cmd`: it must be busy; the test command takes the
/// parameter `0x20`; reading needs the drive not to be seeking; setting the location takes three
/// parameters (a valid position), setting the mode one and setting the filter two.
pub open spec fn ack_ok(s: DriveState, cmd: Command) -> bool {
    &&& bit8(s.command_status, 7)
    &&& match cmd {
        Command::Test => s.parameters.len() > 0 && s.parameters[0] == 0x20,
        Command::ReadN | Command::ReadS => !bit8(s.status, 6),
        Command::SetLocation => s.parameters.len() >= 3 && decode_bcd(s.parameters[1]) < 60
            && decode_bcd(s.parameters[2]) < 75,
        Command::SetMode => s.parameters.len() >= 1,
        Command::SetFilter => s.parameters.len() >= 2,
        _ => true,
    }
}

/// The effect of acknowledging `cmd`, before the status is reported, and whether the status is
/// reported.
pub open spec fn ack_effect(s: DriveState, cmd: Command) -> (DriveState, bool) {
    match cmd {
        Command::Init => (schedule(s, Event::Complete(Command::Init), READ_DELAY), true),
        Command::Test => (
            DriveState {
                parameters: s.parameters.drop_first(),
                results: s.results + seq![0x94u8, 0x09u8, 0x19u8, 0xc0u8],
                ..s
            },
            false,
        ),
        Command::GetID => (schedule(s, Event::Complete(Command::GetID), COMPLETE_GETID_DELAY), true),
        Command::ReadN | Command::ReadS => (
            schedule(
                DriveState { status: with_bit8(s.status, 5, true), ..s },
                Event::Read,
                READ_DELAY / speed_factor(s.mode),
            ),
            true,
        ),
        Command::Pause => (
            schedule(
                s,
                Event::Complete(Command::Pause),
                if bit8(s.status, 5) {
                    COMPLETE_PAUSE_DELAY
                } else {
                    COMPLETE_PAUSE_NOP_DELAY
                },
            ),
            true,
        ),
        Command::SeekL => (
            schedule(
                DriveState { status: with_bit8(with_bit8(s.status, 5, false), 6, true), ..s },
                Event::Complete(Command::SeekL),
                SEEK_DELAY,
            ),
            true,
        ),
        Command::SetLocation => (
            DriveState {
                minutes: decode_bcd(s.parameters[0]),
                seconds: decode_bcd(s.parameters[1]),
                frames: decode_bcd(s.parameters[2]),
                parameters: s.parameters.subrange(3, s.parameters.len() as int),
                ..s
            },
            true,
        ),
        Command::SetMode => (
            DriveState { mode: s.parameters[0], parameters: s.parameters.drop_first(), ..s },
            true,
        ),
        Command::SetFilter => (
            DriveState { parameters: s.parameters.subrange(2, s.parameters.len() as int), ..s },
            true,
        ),
        Command::GetLocationP => (
            DriveState {
                results: s.results + seq![
                    0x01u8,
                    0x01u8,
                    encode_bcd(s.minutes),
                    encode_bcd(s.seconds),
                    encode_bcd(s.frames),
                    encode_bcd(s.minutes),
                    encode_bcd(s.seconds),
                    encode_bcd(s.frames),
                ],
                ..s
            },
            true,
        ),
        Command::GetTN | Command::GetTD => (
            DriveState { results: s.results + seq![1u8, 1u8], ..s },
            true,
        ),
        _ => (s, true),
    }
}

/// The state after acknowledging `cmd`: the controller is no longer busy, the command takes
/// effect, the status goes to the front of the results (except for the test command), and an
/// acknowledge interrupt is queued.
pub open spec fn ack_spec(s: DriveState, cmd: Command) -> DriveState {
    let s0 = DriveState { command_status: with_bit8(s.command_status, 7, false), ..s };
    let (s1, push_stat) = ack_effect(s0, cmd);
    let s2 = if push_stat {
        DriveState { results: seq![s1.status] + s1.results, ..s1 }
    } else {
        s1
    };
    DriveState { interrupt_queue: s2.interrupt_queue.push(InterruptKind::Acknowledge), ..s2 }
}

/// Whether the drive can complete `cmd`: only init, get ID, pause and seek complete.
pub open spec fn complete_ok(cmd: Command) -> bool {
    cmd == Command::Init || cmd == Command::GetID || cmd == Command::Pause || cmd == Command::SeekL
}

/// The state after completing `cmd`: init sets the mode to `0x20`, get ID reports the disc,
/// pause stops reading and seek stops seeking; the status goes to the back of the results (but
/// for get ID), and a complete interrupt goes to the front of the queue.
pub open spec fn complete_spec(s: DriveState, cmd: Command) -> DriveState {
    let (s1, push_stat) = match cmd {
        Command::Init => (DriveState { mode: 0x20, ..s }, true),
        Command::GetID => (
            DriveState {
                results: s.results + seq![0x02u8, 0x00u8, 0x20u8, 0x00u8, 0x53u8, 0x43u8, 0x45u8, 0x41u8],
                ..s
            },
            false,
        ),
        Command::Pause => (DriveState { status: with_bit8(s.status, 5, false), ..s }, true),
        _ => (DriveState { status: with_bit8(s.status, 6, false), ..s }, true),
    };
    let s2 = if push_stat {
        DriveState { results: s1.results.push(s1.status), ..s1 }
    } else {
        s1
    };
    DriveState { interrupt_queue: seq![InterruptKind::Complete] + s2.interrupt_queue, ..s2 }
}

/// The number of bytes of a sector read in `mode`.
pub open spec fn sector_size(mode: u8) -> usize {
    if bit8(mode, 5) {
        0x924
    } else {
        0x800
    }
}

/// The offset in a raw sector of the bytes read in `mode`.
pub open spec fn sector_offset(mode: u8) -> usize {
    if bit8(mode, 5) {
        0xC
    } else {
        0x18
    }
}

/// The number of the sector at the location, if it is not in the two second pregap.
pub open spec fn sector_index(s: DriveState) -> Option<u64> {
    if s.seconds >= 2 {
        Some((s.minutes * 60 * 75 + (s.seconds - 2) * 75 + s.frames) as u64)
    } else {
        None
    }
}

/// The bytes of the disc image the sector at the location is read from.
pub open spec fn read_request(s: DriveState) -> SectorRead {
    SectorRead {
        position: (sector_index(s).unwrap() * 0x930 + sector_offset(s.mode)) as u64,
        size: sector_size(s.mode),
    }
}

/// Whether the drive can read a sector: while reading, there must be a disc and a next position.
pub open spec fn read_ok(s: DriveState, has_rom: bool) -> bool {
    bit8(s.status, 5) ==> has_rom && !(s.minutes == 255 && s.seconds == 59 && s.frames == 74)
}

/// The state after reading the sector `data`: the data is queued, the location advances by a
/// frame, the next read is scheduled, the status goes to the back of the results and a data
/// ready interrupt is queued.
pub open spec fn read_rest(s: DriveState, data: Seq<u8>) -> DriveState {
    let frames = s.frames + 1;
    let (seconds, frames) = if frames == 75 {
        (s.seconds + 1, 0)
    } else {
        (s.seconds as int, frames)
    };
    let (minutes, seconds) = if seconds == 60 {
        (s.minutes + 1, 0)
    } else {
        (s.minutes as int, seconds)
    };
    let s1 = DriveState {
        sector_data: data,
        minutes: minutes as u8,
        seconds: seconds as u8,
        frames: frames as u8,
        ..s
    };
    let s2 = schedule(s1, Event::Read, READ_DELAY / speed_factor(s1.mode));
    DriveState {
        results: s2.results.push(s2.status),
        interrupt_queue: s2.interrupt_queue.push(InterruptKind::DataReady),
        ..s2
    }
}

/// The state at the end of every update (but a read while not reading): the next queued
/// interrupt is raised if none is pending, the CDROM system interrupt is requested if the
/// pending one is enabled, and the command status flags follow the queues.
pub open spec fn tail(s: DriveState) -> DriveState {
    let s1 = if s.interrupt_status % 8 == 0 && s.interrupt_queue.len() > 0 {
        DriveState {
            interrupt_status: (s.interrupt_status / 8 * 8 + s.interrupt_queue[0].spec_code()) as u8,
            interrupt_queue: s.interrupt_queue.drop_first(),
            ..s
        }
    } else {
        s
    };
    let s2 = if (s1.interrupt_status % 8) & (s1.interrupt_mask % 8) != 0 {
        DriveState {
            system_interrupts: s1.system_interrupts | (1u32 << Interrupt::CDROM.spec_index()),
            ..s1
        }
    } else {
        s1
    };
    DriveState { command_status: updated_status(s2), ..s2 }
}

/// Whether the drive can process `event` from `s`.
pub open spec fn update_ok(s: DriveState, event: Event, has_rom: bool) -> bool {
    let p = prelude(s, has_rom);
    &&& schedule_fits(s)
    &&& match event {
        Event::Update => writes_ok(drained(p), p.writes),
        Event::Acknowledge(cmd) => ack_ok(p, cmd),
        Event::Complete(cmd) => complete_ok(cmd),
        Event::Read => read_ok(p, has_rom),
    }
}

/// Whether processing `event` from `s` asks for a sector of the disc: a read while reading, at a
/// location past the pregap.
pub open spec fn asks_sector(s: DriveState, event: Event, has_rom: bool) -> bool {
    let p = prelude(s, has_rom);
    event == Event::Read && bit8(p.status, 5) && sector_index(p) is Some
}

/// The state after processing `event` from `s`. A read while not reading does nothing more than
/// the prelude; a read that asks for a sector stops after the prelude, until the sector comes.
pub open spec fn update_spec(s: DriveState, event: Event, has_rom: bool) -> DriveState {
    let p = prelude(s, has_rom);
    match event {
        Event::Update => tail(writes_result(drained(p), p.writes)),
        Event::Acknowledge(cmd) => tail(ack_spec(p, cmd)),
        Event::Complete(cmd) => tail(complete_spec(p, cmd)),
        Event::Read => if !bit8(p.status, 5) || sector_index(p) is Some {
            p
        } else {
            tail(read_rest(p, Seq::new(sector_size(p.mode) as nat, |_i: int| 0u8)))
        },
    }
}


/// Decodes a binary coded decimal byte.
fn decode_bcd_exec(value: u8) -> (r: u8)
    ensures
        r == decode_bcd(value),
{
    proof {
        lemma_decode_bcd(value);
    }
    (value & 0x0F) + 10u8 * ((value & 0xF0) >> 4u8)
}

/// Proof that a binary coded decimal byte stands for its high nibble times ten plus its low
/// nibble.
proof fn lemma_decode_bcd(value: u8)
    ensures
        decode_bcd(value) == value % 16 + 10 * (value / 16),
        (value & 0x0F) + 10 * ((value & 0xF0) >> 4u8) < 256,
{
    assert((value & 0x0F) == value % 16 && ((value & 0xF0) >> 4u8) == value / 16) by (bit_vector);
}

/// Law: set location takes its three parameters off the queue as binary coded decimal minutes,
/// seconds and frames (each the high nibble times ten plus the low nibble).
pub proof fn law_set_location(s: DriveState, has_rom: bool)
    requires
        s.parameters.len() >= 3,
    ensures
        ({
            let n = update_spec(s, Event::Acknowledge(Command::SetLocation), has_rom);
            let p = s.parameters;
            &&& n.minutes == p[0] % 16 + 10 * (p[0] / 16)
            &&& n.seconds == p[1] % 16 + 10 * (p[1] / 16)
            &&& n.frames == p[2] % 16 + 10 * (p[2] / 16)
            &&& n.parameters == p.subrange(3, p.len() as int)
        }),
{
    lemma_decode_bcd(s.parameters[0]);
    lemma_decode_bcd(s.parameters[1]);
    lemma_decode_bcd(s.parameters[2]);
}

/// Encodes a number of the location for the results.
fn encode_bcd_exec(value: u8) -> (r: u8)
    ensures
        r == encode_bcd(value),
{
    10 * (value / 10) + (value % 10)
}

impl Cdrom {
    /// Opens the shell where there is no disc, and updates the command status flags.
    fn prelude(&self, psx: &mut PSX)
        ensures
            state_of(*final(psx), *self) == prelude(state_of(*old(psx), *self), self.spec_has_rom()),
            untouched(*old(psx), *final(psx)),
    {
        psx.cdrom.status = super::Status(put_bit(psx.cdrom.status.0, 4, !self.has_rom));
        psx.cdrom.update_status();
    }

    /// Acknowledges a command.
    fn acknowledge(&mut self, psx: &mut PSX, cmd: Command)
        requires
            ack_ok(state_of(*old(psx), *old(self)), cmd),
            schedule_fits(state_of(*old(psx), *old(self))),
        ensures
            state_of(*final(psx), *final(self)) == ack_spec(state_of(*old(psx), *old(self)), cmd),
            untouched(*old(psx), *final(psx)),
            final(self).spec_has_rom() == old(self).spec_has_rom(),
    {
        psx.cdrom.command_status.set_bit(7, false);
        let mut push_stat = true;
        match cmd {
            Command::Init => {
                psx.scheduler.schedule(
                    scheduler::Event::Cdrom(Event::Complete(Command::Init)),
                    READ_DELAY,
                );
            },
            Command::Test => {
                // the parameter is the version request, `0x20`
                psx.cdrom.parameter_queue.pop_front();
                psx.cdrom.result_queue.push_back(CDROM_VERSION[0]);
                psx.cdrom.result_queue.push_back(CDROM_VERSION[1]);
                psx.cdrom.result_queue.push_back(CDROM_VERSION[2]);
                psx.cdrom.result_queue.push_back(CDROM_VERSION[3]);
                push_stat = false;
            },
            Command::GetID => {
                psx.scheduler.schedule(
                    scheduler::Event::Cdrom(Event::Complete(Command::GetID)),
                    COMPLETE_GETID_DELAY,
                );
            },
            Command::ReadN | Command::ReadS => {
                psx.cdrom.status = super::Status(put_bit(psx.cdrom.status.0, 5, true));
                let factor = psx.cdrom.mode.speed().factor();
                psx.scheduler.schedule(scheduler::Event::Cdrom(Event::Read), READ_DELAY / factor);
            },
            Command::Pause => {
                let delay = if psx.cdrom.status.read() {
                    COMPLETE_PAUSE_DELAY
                } else {
                    COMPLETE_PAUSE_NOP_DELAY
                };
                psx.scheduler.schedule(
                    scheduler::Event::Cdrom(Event::Complete(Command::Pause)),
                    delay,
                );
            },
            Command::SeekL => {
                let status = put_bit(psx.cdrom.status.0, 5, false);
                psx.cdrom.status = super::Status(put_bit(status, 6, true));
                psx.scheduler.schedule(
                    scheduler::Event::Cdrom(Event::Complete(Command::SeekL)),
                    SEEK_DELAY,
                );
            },
            Command::SetLocation => {
                let minutes = decode_bcd_exec(psx.cdrom.parameter_queue.pop_front().unwrap());
                let seconds = decode_bcd_exec(psx.cdrom.parameter_queue.pop_front().unwrap());
                let frames = decode_bcd_exec(psx.cdrom.parameter_queue.pop_front().unwrap());
                psx.cdrom.location = Sector::new(minutes, seconds, frames);
                proof {
                    let old_params = state_of(*old(psx), *old(self)).parameters;
                    assert(psx.cdrom.parameter_queue@ =~= old_params.subrange(
                        3,
                        old_params.len() as int,
                    ));
                }
            },
            Command::SetMode => {
                psx.cdrom.mode = Mode(psx.cdrom.parameter_queue.pop_front().unwrap());
            },
            Command::SetFilter => {
                psx.cdrom.parameter_queue.pop_front();
                psx.cdrom.parameter_queue.pop_front();
                proof {
                    let old_params = state_of(*old(psx), *old(self)).parameters;
                    assert(psx.cdrom.parameter_queue@ =~= old_params.subrange(
                        2,
                        old_params.len() as int,
                    ));
                }
            },
            Command::GetLocationP => {
                let minutes = encode_bcd_exec(psx.cdrom.location.minutes());
                let seconds = encode_bcd_exec(psx.cdrom.location.seconds());
                let frames = encode_bcd_exec(psx.cdrom.location.frames());
                psx.cdrom.result_queue.push_back(0x01);
                psx.cdrom.result_queue.push_back(0x01);
                psx.cdrom.result_queue.push_back(minutes);
                psx.cdrom.result_queue.push_back(seconds);
                psx.cdrom.result_queue.push_back(frames);
                psx.cdrom.result_queue.push_back(minutes);
                psx.cdrom.result_queue.push_back(seconds);
                psx.cdrom.result_queue.push_back(frames);
            },
            Command::GetTN | Command::GetTD => {
                psx.cdrom.result_queue.push_back(1);
                psx.cdrom.result_queue.push_back(1);
            },
            _ => {},
        }
        if push_stat {
            let status = psx.cdrom.status.0;
            psx.cdrom.result_queue.push_front(status);
        }
        self.interrupt_queue.push_back(InterruptKind::Acknowledge);
        proof {
            let s0 = DriveState {
                command_status: with_bit8(state_of(*old(psx), *old(self)).command_status, 7, false),
                ..state_of(*old(psx), *old(self))
            };
            let (s1, p) = ack_effect(s0, cmd);
            assert(p == push_stat);
            if push_stat {
                assert(psx.cdrom.result_queue@ =~= seq![s1.status] + s1.results);
            } else {
                assert(psx.cdrom.result_queue@ =~= s1.results);
            }
        }
    }
}


impl Cdrom {
    /// Completes a command.
    fn complete(&mut self, psx: &mut PSX, cmd: Command)
        requires
            complete_ok(cmd),
        ensures
            state_of(*final(psx), *final(self)) == complete_spec(state_of(*old(psx), *old(self)), cmd),
            untouched(*old(psx), *final(psx)),
            final(self).spec_has_rom() == old(self).spec_has_rom(),
    {
        let mut push_stat = true;
        match cmd {
            Command::Init => {
                psx.cdrom.mode = Mode(0x20);
            },
            Command::GetID => {
                psx.cdrom.result_queue.push_back(0x02);
                psx.cdrom.result_queue.push_back(0x00);
                psx.cdrom.result_queue.push_back(0x20);
                psx.cdrom.result_queue.push_back(0x00);
                psx.cdrom.result_queue.push_back(0x53);
                psx.cdrom.result_queue.push_back(0x43);
                psx.cdrom.result_queue.push_back(0x45);
                psx.cdrom.result_queue.push_back(0x41);
                push_stat = false;
            },
            Command::Pause => {
                psx.cdrom.status = super::Status(put_bit(psx.cdrom.status.0, 5, false));
            },
            _ => {
                psx.cdrom.status = super::Status(put_bit(psx.cdrom.status.0, 6, false));
            },
        }
        if push_stat {
            let status = psx.cdrom.status.0;
            psx.cdrom.result_queue.push_back(status);
        }
        self.interrupt_queue.push_front(InterruptKind::Complete);
        proof {
            let s = state_of(*old(psx), *old(self));
            assert(self.interrupt_queue@ =~= seq![InterruptKind::Complete] + s.interrupt_queue);
            if cmd == Command::GetID {
                assert(psx.cdrom.result_queue@ =~= s.results + seq![
                    0x02u8,
                    0x00u8,
                    0x20u8,
                    0x00u8,
                    0x53u8,
                    0x43u8,
                    0x45u8,
                    0x41u8,
                ]);
            }
        }
    }

    /// Raises the next queued interrupt if none is pending, requests the CDROM system interrupt
    /// if the pending one is enabled, and updates the command status flags.
    fn finish(&mut self, psx: &mut PSX)
        ensures
            state_of(*final(psx), *final(self)) == tail(state_of(*old(psx), *old(self))),
            untouched(*old(psx), *final(psx)),
            final(self).spec_has_rom() == old(self).spec_has_rom(),
    {
        if psx.cdrom.interrupt_status.0 % 8 == 0 {
            if let Some(kind) = self.interrupt_queue.pop_front() {
                psx.cdrom.set_interrupt_kind(kind);
            }
        }
        let masked = (psx.cdrom.interrupt_status.0 % 8) & psx.cdrom.interrupt_mask.mask();
        if masked != 0 {
            psx.interrupts.status.request(Interrupt::CDROM);
        }
        psx.cdrom.update_status();
    }

    /// Reads the sector `data`: queues it, advances the location, schedules the next read,
    /// reports the status and queues a data ready interrupt.
    fn read_rest(&mut self, psx: &mut PSX, data: Vec<u8>)
        requires
            schedule_fits(state_of(*old(psx), *old(self))),
            !(old(psx).cdrom.location.spec_minutes() == 255
                && old(psx).cdrom.location.spec_seconds() == 59
                && old(psx).cdrom.location.spec_frames() == 74),
        ensures
            state_of(*final(psx), *final(self)) == read_rest(state_of(*old(psx), *old(self)), data@),
            untouched(*old(psx), *final(psx)),
            final(self).spec_has_rom() == old(self).spec_has_rom(),
    {
        proof {
            use_type_invariant(&psx.cdrom.location);
        }
        let mut queue: VecDeque<u8> = VecDeque::new();
        let mut i: usize = 0;
        while i < data.len()
            invariant
                i <= data@.len(),
                queue@ == data@.subrange(0, i as int),
            decreases data@.len() - i,
        {
            queue.push_back(data[i]);
            i += 1;
            assert(queue@ =~= data@.subrange(0, i as int));
        }
        assert(queue@ =~= data@);
        psx.cdrom.sector_data = queue;
        psx.cdrom.location.advance();
        let factor = psx.cdrom.mode.speed().factor();
        psx.scheduler.schedule(scheduler::Event::Cdrom(Event::Read), READ_DELAY / factor);
        let status = psx.cdrom.status.0;
        psx.cdrom.result_queue.push_back(status);
        self.interrupt_queue.push_back(InterruptKind::DataReady);
    }

    /// Processes an event of the drive, and returns the sector of the disc to read, if the
    /// event asks for one: then the state stops after the prelude, and
    /// [`finish_read`](Self::finish_read) takes the sector once read.
    pub fn update(&mut self, psx: &mut PSX, event: Event) -> (r: Option<SectorRead>)
        requires
            update_ok(state_of(*old(psx), *old(self)), event, old(self).spec_has_rom()),
        ensures
            state_of(*final(psx), *final(self)) == update_spec(
                state_of(*old(psx), *old(self)),
                event,
                old(self).spec_has_rom(),
            ),
            r is Some <==> asks_sector(state_of(*old(psx), *old(self)), event, old(self).spec_has_rom()),
            r matches Some(read) ==> read == read_request(
                prelude(state_of(*old(psx), *old(self)), old(self).spec_has_rom()),
            ),
            untouched(*old(psx), *final(psx)),
            final(self).spec_has_rom() == old(self).spec_has_rom(),
    {
        self.prelude(psx);
        match event {
            Event::Update => {
                self.process_writes(psx);
            },
            Event::Acknowledge(cmd) => {
                self.acknowledge(psx, cmd);
            },
            Event::Complete(cmd) => {
                self.complete(psx, cmd);
            },
            Event::Read => {
                if !psx.cdrom.status.read() {
                    return None;
                }
                let mode = psx.cdrom.mode;
                let size = mode.sector_size().value();
                match psx.cdrom.location.index() {
                    Some(index) => {
                        let offset = mode.sector_size().offset() as u64;
                        assert(index < 0x1_0000_0000);
                        return Some(SectorRead { position: index * 0x930 + offset, size });
                    },
                    None => {
                        let data = vec![0u8; size];
                        assert(data@ =~= Seq::new(sector_size(mode.0) as nat, |_i: int| 0u8));
                        self.read_rest(psx, data);
                    },
                }
            },
        }
        self.finish(psx);
        None
    }

    /// Takes the sector of the disc that [`update`](Self::update) asked for: reads it and
    /// finishes the update.
    pub fn finish_read(&mut self, psx: &mut PSX, data: Vec<u8>)
        requires
            schedule_fits(state_of(*old(psx), *old(self))),
            !(old(psx).cdrom.location.spec_minutes() == 255
                && old(psx).cdrom.location.spec_seconds() == 59
                && old(psx).cdrom.location.spec_frames() == 74),
        ensures
            state_of(*final(psx), *final(self)) == tail(
                read_rest(state_of(*old(psx), *old(self)), data@),
            ),
            untouched(*old(psx), *final(psx)),
            final(self).spec_has_rom() == old(self).spec_has_rom(),
    {
        self.read_rest(psx, data);
        self.finish(psx);
    }
}


impl Cdrom {
    /// Returns whether the drive can process `event` on `psx` (see [`update_ok`]): the callers of
    /// [`Cdrom::update`] check it first.
    pub fn can_update(&self, psx: &PSX, event: Event) -> (r: bool)
        ensures
            r == update_ok(state_of(*psx, *self), event, self.spec_has_rom()),
    {
        let ghost s = state_of(*psx, *self);
        let ghost p = prelude(s, self.spec_has_rom());
        if psx.scheduler.elapsed() > u64::MAX - COMPLETE_PAUSE_DELAY {
            return false;
        }
        let cdrom = &psx.cdrom;
        let mut c = put_bit(cdrom.command_status.0, 3, cdrom.parameter_queue.len() == 0);
        c = put_bit(c, 4, true);
        c = put_bit(c, 5, cdrom.result_queue.len() != 0);
        c = put_bit(c, 6, cdrom.sector_data.len() != 0);
        assert(c == p.command_status);
        let status = put_bit(cdrom.status.0, 4, !self.has_rom);
        match event {
            Event::Update => {
                let mut cs = c;
                let ghost mut st = drained(p);
                let n = cdrom.write_queue.len();
                let mut k: usize = 0;
                assert(p.writes.skip(0) =~= p.writes);
                while k < n
                    invariant
                        n == cdrom.write_queue@.len(),
                        s == state_of(*psx, *self),
                        p == prelude(s, self.spec_has_rom()),
                        schedule_fits(s),
                        event == Event::Update,
                        cdrom == &psx.cdrom,
                        p.writes == cdrom.write_queue@,
                        k <= n,
                        st.command_status == cs,
                        writes_ok(drained(p), p.writes) == writes_ok(st, p.writes.skip(k as int)),
                    decreases n - k,
                {
                    let w = cdrom.write_queue[k];
                    proof {
                        let rest = p.writes.skip(k as int);
                        assert(rest[0] == w);
                        assert(rest.drop_first() =~= p.writes.skip(k + 1));
                    }
                    let bank = cs % 4;
                    let ok = match w.reg {
                        Reg::Reg1 => !(bank == 1 || bank == 2),
                        Reg::Reg3 => !(bank == 1 && (get_bit(w.value, 5) || get_bit(w.value, 7))),
                        _ => true,
                    };
                    proof {
                        let rest = p.writes.skip(k as int);
                        assert(ok == write_ok(st, w));
                        assert(writes_ok(st, rest) == (write_ok(st, rest[0]) && writes_ok(
                            write_step(st, rest[0]),
                            rest.drop_first(),
                        )));
                    }
                    if !ok {
                        return false;
                    }
                    proof {
                        st = write_step(st, w);
                    }
                    match w.reg {
                        Reg::Reg0 => {
                            assert(cs / 4 * 4 <= 252) by (nonlinear_arith);
                            cs = cs / 4 * 4 + w.value % 4;
                        },
                        Reg::Reg1 => {
                            if bank == 0 {
                                cs = put_bit(cs, 7, true);
                            }
                        },
                        _ => {},
                    }
                    k += 1;
                }
                proof {
                    assert(p.writes.skip(n as int) =~= Seq::<RegWrite>::empty());
                }
                true
            },
            Event::Acknowledge(cmd) => {
                if !get_bit(c, 7) {
                    return false;
                }
                let params = &cdrom.parameter_queue;
                match cmd {
                    Command::Test => params.len() > 0 && params[0] == 0x20,
                    Command::ReadN | Command::ReadS => !get_bit(status, 6),
                    Command::SetLocation => params.len() >= 3 && decode_bcd_exec(params[1]) < 60
                        && decode_bcd_exec(params[2]) < 75,
                    Command::SetMode => params.len() >= 1,
                    Command::SetFilter => params.len() >= 2,
                    _ => true,
                }
            },
            Event::Complete(cmd) => match cmd {
                Command::Init | Command::GetID | Command::Pause | Command::SeekL => true,
                _ => false,
            },
            Event::Read => {
                let loc = &cdrom.location;
                !get_bit(status, 5) || (self.has_rom && !(loc.minutes() == 255 && loc.seconds()
                    == 59 && loc.frames() == 74))
            },
        }
    }
}

/// Law: once a pause completes, the drive is not reading (status bit 5 is clear): the next read
/// event asks for no sector and schedules no further read.
pub proof fn law_pause_stops_reading(s: DriveState, has_rom: bool)
    ensures
        ({
            let n = update_spec(s, Event::Complete(Command::Pause), has_rom);
            &&& !bit8(n.status, 5)
            &&& !asks_sector(n, Event::Read, has_rom)
            &&& update_spec(n, Event::Read, has_rom).events == n.events
        }),
{
    let p = prelude(s, has_rom);
    super::lemma_with_bit8(p.status, 5, 5);
    let n = update_spec(s, Event::Complete(Command::Pause), has_rom);
    assert(n.status == with_bit8(p.status, 5, false));
    super::lemma_with_bit8(n.status, 4, 5);
    assert(prelude(n, has_rom).status == with_bit8(n.status, 4, !has_rom));
}

/// Law: the status bits of the drive follow its commands: acknowledging a read sets the reading
/// bit (5) and schedules the first sector read; acknowledging a seek clears the reading bit and
/// sets the seeking bit (6), and its completion clears the seeking bit; completing init sets the
/// mode to `0x20`; acknowledging set mode takes the mode from the first parameter.
pub proof fn law_command_status_bits(s: DriveState, has_rom: bool)
    ensures
        ({
            let n = update_spec(s, Event::Acknowledge(Command::ReadN), has_rom);
            &&& bit8(n.status, 5)
            &&& n.events.len() == s.events.len() + 1
            &&& n.events.last().event == scheduler::Event::Cdrom(Event::Read)
        }),
        bit8(update_spec(s, Event::Acknowledge(Command::ReadS), has_rom).status, 5),
        ({
            let n = update_spec(s, Event::Acknowledge(Command::SeekL), has_rom);
            &&& !bit8(n.status, 5)
            &&& bit8(n.status, 6)
        }),
        !bit8(update_spec(s, Event::Complete(Command::SeekL), has_rom).status, 6),
        update_spec(s, Event::Complete(Command::Init), has_rom).mode == 0x20,
        s.parameters.len() > 0 ==> update_spec(s, Event::Acknowledge(Command::SetMode), has_rom).mode
            == s.parameters[0],
{
    let p = prelude(s, has_rom);
    super::lemma_with_bit8(p.status, 5, 5);
    super::lemma_with_bit8(p.status, 6, 6);
    super::lemma_with_bit8(p.status, 5, 6);
    super::lemma_with_bit8(with_bit8(p.status, 5, false), 6, 5);
    super::lemma_with_bit8(with_bit8(p.status, 5, false), 6, 6);
}

/// Law: what commands report: the test command takes its parameter and reports the version
/// `94 09 19 C0` after the results already queued; get ID completes reporting `02 00 20 00` and
/// `SCEA`; other acknowledged commands put the status at the front of the results.
pub proof fn law_command_results(s: DriveState, has_rom: bool)
    ensures
        ({
            let n = update_spec(s, Event::Acknowledge(Command::Test), has_rom);
            &&& n.results == s.results + seq![0x94u8, 0x09u8, 0x19u8, 0xC0u8]
            &&& s.parameters.len() > 0 ==> n.parameters == s.parameters.drop_first()
        }),
        update_spec(s, Event::Complete(Command::GetID), has_rom).results == s.results + seq![
            0x02u8,
            0x00u8,
            0x20u8,
            0x00u8,
            0x53u8,
            0x43u8,
            0x45u8,
            0x41u8,
        ],
        ({
            let n = update_spec(s, Event::Acknowledge(Command::Nop), has_rom);
            &&& n.results == seq![prelude(s, has_rom).status] + s.results
            &&& n.results[0] == prelude(s, has_rom).status
        }),
{
}

/// Proof that the updated command status flags tell of the queues.
proof fn lemma_updated_status(s: DriveState)
    ensures
        bit8(updated_status(s), 3) == (s.parameters.len() == 0),
        bit8(updated_status(s), 4),
        bit8(updated_status(s), 5) == (s.results.len() != 0),
        bit8(updated_status(s), 6) == (s.sector_data.len() != 0),
{
    let (p, r, d) = (s.parameters.len() == 0, s.results.len() != 0, s.sector_data.len() != 0);
    let c = s.command_status;
    assert(bit8(with_bit8(with_bit8(with_bit8(with_bit8(c, 3, p), 4, true), 5, r), 6, d), 3) == p
        && bit8(with_bit8(with_bit8(with_bit8(with_bit8(c, 3, p), 4, true), 5, r), 6, d), 4)
        && bit8(with_bit8(with_bit8(with_bit8(with_bit8(c, 3, p), 4, true), 5, r), 6, d), 5) == r
        && bit8(with_bit8(with_bit8(with_bit8(with_bit8(c, 3, p), 4, true), 5, r), 6, d), 6) == d)
        by (bit_vector);
}

/// Law: after any update of the drive, the command status flags tell whether the parameter
/// queue is empty, the result queue holds a byte and sector data is ready.
pub proof fn law_status_follows_queues(s: DriveState, event: Event, has_rom: bool)
    ensures
        ({
            let n = update_spec(s, event, has_rom);
            &&& bit8(n.command_status, 3) == (n.parameters.len() == 0)
            &&& bit8(n.command_status, 4)
            &&& bit8(n.command_status, 5) == (n.results.len() != 0)
            &&& bit8(n.command_status, 6) == (n.sector_data.len() != 0)
        }),
{
    let p = prelude(s, has_rom);
    lemma_updated_status(s);
    match event {
        Event::Update => lemma_tail_status(writes_result(drained(p), p.writes)),
        Event::Acknowledge(cmd) => lemma_tail_status(ack_spec(p, cmd)),
        Event::Complete(cmd) => lemma_tail_status(complete_spec(p, cmd)),
        Event::Read => {
            if !(!bit8(p.status, 5) || sector_index(p) is Some) {
                lemma_tail_status(read_rest(p, Seq::new(sector_size(p.mode) as nat, |_i: int| 0u8)));
            }
        },
    }
}

/// Proof that the end of an update leaves the command status flags telling of the queues.
proof fn lemma_tail_status(s: DriveState)
    ensures
        ({
            let n = tail(s);
            &&& bit8(n.command_status, 3) == (n.parameters.len() == 0)
            &&& bit8(n.command_status, 4)
            &&& bit8(n.command_status, 5) == (n.results.len() != 0)
            &&& bit8(n.command_status, 6) == (n.sector_data.len() != 0)
        }),
{
    let s1 = if s.interrupt_status % 8 == 0 && s.interrupt_queue.len() > 0 {
        DriveState {
            interrupt_status: (s.interrupt_status / 8 * 8 + s.interrupt_queue[0].spec_code()) as u8,
            interrupt_queue: s.interrupt_queue.drop_first(),
            ..s
        }
    } else {
        s
    };
    lemma_updated_status(s1);
    lemma_updated_status(
        DriveState { system_interrupts: s1.system_interrupts | (1u32 << Interrupt::CDROM.spec_index()), ..s1 },
    );
}

} // verus!
