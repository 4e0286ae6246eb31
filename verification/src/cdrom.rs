//! Items related to the CDROM drive of the PSX.
pub mod drive;

use std::collections::VecDeque;
use vstd::prelude::*;

verus! {

/// A CDROM register, as seen by the CPU.
#[derive(Debug, Clone, Copy, PartialEq, Eq, Structural)]
pub enum Reg {
    Reg0,
    Reg1,
    Reg2,
    Reg3,
}

/// A command of the CDROM controller.
#[derive(Debug, Clone, Copy, PartialEq, Eq, Structural)]
pub enum Command {
    UnusedA,
    Nop,
    SetLocation,
    Play,
    Forward,
    Backward,
    ReadN,
    Standby,
    Stop,
    Pause,
    Init,
    Mute,
    Demute,
    SetFilter,
    SetMode,
    GetParam,
    GetLocationL,
    GetLocationP,
    SetSession,
    GetTN,
    GetTD,
    SeekL,
    SeekP,
    Test,
    GetID,
    ReadS,
    Reset,
    GetQ,
    ReadTOC,
    VideoCD,
    Unlock0,
    Unlock1,
    Unlock2,
    Unlock3,
    Unlock4,
    Unlock5,
    Unlock6,
    Lock,
    UnusedB,
}

impl Command {
    /// The command with the given code.
    pub open spec fn spec_new(value: u8) -> Command {
        if value == 0x00 { Command::UnusedA } else if value == 0x01 { Command::Nop } else if value == 0x02 { Command::SetLocation } else if value == 0x03 { Command::Play } else if value == 0x04 { Command::Forward } else if value == 0x05 { Command::Backward } else if value == 0x06 { Command::ReadN } else if value == 0x07 { Command::Standby } else if value == 0x08 { Command::Stop } else if value == 0x09 { Command::Pause } else if value == 0x0a { Command::Init } else if value == 0x0b { Command::Mute } else if value == 0x0c { Command::Demute } else if value == 0x0d { Command::SetFilter } else if value == 0x0e { Command::SetMode } else if value == 0x0f { Command::GetParam } else if value == 0x10 { Command::GetLocationL } else if value == 0x11 { Command::GetLocationP } else if value == 0x12 { Command::SetSession } else if value == 0x13 { Command::GetTN } else if value == 0x14 { Command::GetTD } else if value == 0x15 { Command::SeekL } else if value == 0x16 { Command::SeekP } else if value == 0x17 { Command::UnusedA } else if value == 0x18 { Command::UnusedA } else if value == 0x19 { Command::Test } else if value == 0x1a { Command::GetID } else if value == 0x1b { Command::ReadS } else if value == 0x1c { Command::Reset } else if value == 0x1d { Command::GetQ } else if value == 0x1e { Command::ReadTOC } else if value == 0x1f { Command::VideoCD } else if 0x20 <= value <= 0x4f { Command::UnusedA } else if value == 0x50 { Command::Unlock0 } else if value == 0x51 { Command::Unlock1 } else if value == 0x52 { Command::Unlock2 } else if value == 0x53 { Command::Unlock3 } else if value == 0x54 { Command::Unlock4 } else if value == 0x55 { Command::Unlock5 } else if value == 0x56 { Command::Unlock6 } else if value == 0x57 { Command::Lock } else if 0x58 <= value <= 0x5f { Command::UnusedB } else { Command::UnusedA }
    }

    /// Returns the command with the given code.
    pub fn new(value: u8) -> (r: Self)
        ensures
            r == Self::spec_new(value),
    {
        match value {
            0x00 => Self::UnusedA,
            0x01 => Self::Nop,
            0x02 => Self::SetLocation,
            0x03 => Self::Play,
            0x04 => Self::Forward,
            0x05 => Self::Backward,
            0x06 => Self::ReadN,
            0x07 => Self::Standby,
            0x08 => Self::Stop,
            0x09 => Self::Pause,
            0x0a => Self::Init,
            0x0b => Self::Mute,
            0x0c => Self::Demute,
            0x0d => Self::SetFilter,
            0x0e => Self::SetMode,
            0x0f => Self::GetParam,
            0x10 => Self::GetLocationL,
            0x11 => Self::GetLocationP,
            0x12 => Self::SetSession,
            0x13 => Self::GetTN,
            0x14 => Self::GetTD,
            0x15 => Self::SeekL,
            0x16 => Self::SeekP,
            0x17 => Self::UnusedA,
            0x18 => Self::UnusedA,
            0x19 => Self::Test,
            0x1a => Self::GetID,
            0x1b => Self::ReadS,
            0x1c => Self::Reset,
            0x1d => Self::GetQ,
            0x1e => Self::ReadTOC,
            0x1f => Self::VideoCD,
            0x20..=0x4f => Self::UnusedA,
            0x50 => Self::Unlock0,
            0x51 => Self::Unlock1,
            0x52 => Self::Unlock2,
            0x53 => Self::Unlock3,
            0x54 => Self::Unlock4,
            0x55 => Self::Unlock5,
            0x56 => Self::Unlock6,
            0x57 => Self::Lock,
            0x58..=0x5f => Self::UnusedB,
            0x60..=0xFF => Self::UnusedA,
        }
    }
}

/// Bit `i` of `v`.
pub open spec fn bit8(v: u8, i: u8) -> bool {
    (v >> i) & 1 == 1
}

/// `v` with bit `i` set to `b`.
pub open spec fn with_bit8(v: u8, i: u8, b: bool) -> u8 {
    if b {
        v | (1u8 << i)
    } else {
        v & !(1u8 << i)
    }
}

/// Proof that setting or clearing bit `i` of `v` gives that bit the value set, and keeps the
/// others.
pub proof fn lemma_with_bit8(v: u8, i: u8, j: u8)
    requires
        i < 8,
        j < 8,
    ensures
        bit8(with_bit8(v, i, true), i),
        !bit8(with_bit8(v, i, false), i),
        i != j ==> bit8(with_bit8(v, i, true), j) == bit8(v, j),
        i != j ==> bit8(with_bit8(v, i, false), j) == bit8(v, j),
{
    assert(((v | (1u8 << i)) >> i) & 1 == 1 && ((v & !(1u8 << i)) >> i) & 1 != 1 && (i != j ==> (((v
        | (1u8 << i)) >> j) & 1 == 1) == ((v >> j) & 1 == 1) && (((v & !(1u8 << i)) >> j) & 1 == 1)
        == ((v >> j) & 1 == 1))) by (bit_vector)
        requires
            i < 8,
            j < 8,
    ;
}

/// Reads bit `i` of `v`.
fn get_bit(v: u8, i: u8) -> (r: bool)
    requires
        i < 8,
    ensures
        r == bit8(v, i),
{
    (v >> i) & 1 == 1
}

/// Returns `v` with bit `i` set to `b`.
fn put_bit(v: u8, i: u8, b: bool) -> (r: u8)
    requires
        i < 8,
    ensures
        r == with_bit8(v, i, b),
{
    if b {
        v | (1u8 << i)
    } else {
        v & !(1u8 << i)
    }
}

/// The status register of the drive.
#[derive(Debug, Clone, Copy, Default, PartialEq, Eq, Structural)]
pub struct Status(pub u8);

impl Status {
    /// Bit 0: an error occurred.
    pub fn error(&self) -> (r: bool)
        ensures
            r == bit8(self.0, 0),
    {
        get_bit(self.0, 0)
    }

    /// Bit 1: the motor is on.
    pub fn motor_on(&self) -> (r: bool)
        ensures
            r == bit8(self.0, 1),
    {
        get_bit(self.0, 1)
    }

    /// Bit 2: a seek failed.
    pub fn seek_error(&self) -> (r: bool)
        ensures
            r == bit8(self.0, 2),
    {
        get_bit(self.0, 2)
    }

    /// Bit 3: the disc ID check failed.
    pub fn id_error(&self) -> (r: bool)
        ensures
            r == bit8(self.0, 3),
    {
        get_bit(self.0, 3)
    }

    /// Bit 4: the shell is open.
    pub fn shell_open(&self) -> (r: bool)
        ensures
            r == bit8(self.0, 4),
    {
        get_bit(self.0, 4)
    }

    /// Bit 5: the drive is reading.
    pub fn read(&self) -> (r: bool)
        ensures
            r == bit8(self.0, 5),
    {
        get_bit(self.0, 5)
    }

    /// Bit 6: the drive is seeking.
    pub fn seek(&self) -> (r: bool)
        ensures
            r == bit8(self.0, 6),
    {
        get_bit(self.0, 6)
    }

    /// Bit 7: the drive is playing.
    pub fn play(&self) -> (r: bool)
        ensures
            r == bit8(self.0, 7),
    {
        get_bit(self.0, 7)
    }

    /// This status with the motor flag set to `value`.
    pub fn with_motor_on(self, value: bool) -> (r: Self)
        ensures
            r.0 == with_bit8(self.0, 1, value),
    {
        Status(put_bit(self.0, 1, value))
    }

    /// This status with the shell open flag set to `value`.
    pub fn with_shell_open(self, value: bool) -> (r: Self)
        ensures
            r.0 == with_bit8(self.0, 4, value),
    {
        Status(put_bit(self.0, 4, value))
    }
}

/// A register bank of the controller.
#[derive(Debug, Clone, Copy, PartialEq, Eq, Structural)]
pub enum Bank {
    Bank0,
    Bank1,
    Bank2,
    Bank3,
}

impl Bank {
    /// The bank with the given number (`0..4`).
    pub open spec fn spec_from_index(i: u8) -> Bank {
        if i == 0 {
            Bank::Bank0
        } else if i == 1 {
            Bank::Bank1
        } else if i == 2 {
            Bank::Bank2
        } else {
            Bank::Bank3
        }
    }

    /// Returns the bank with the given number (`0..4`).
    pub fn from_index(i: u8) -> (r: Bank)
        ensures
            r == Self::spec_from_index(i),
    {
        if i == 0 {
            Bank::Bank0
        } else if i == 1 {
            Bank::Bank1
        } else if i == 2 {
            Bank::Bank2
        } else {
            Bank::Bank3
        }
    }
}

impl Default for Bank {
    fn default() -> (r: Self)
        ensures
            r == Bank::Bank0,
    {
        Bank::Bank0
    }
}

/// The command status register of the controller.
#[derive(Debug, Clone, Copy, Default, PartialEq, Eq, Structural)]
pub struct CommandStatus(pub u8);

impl CommandStatus {
    /// Bits 0..2: the current register bank.
    pub open spec fn spec_bank(self) -> Bank {
        Bank::spec_from_index(self.0 % 4)
    }

    /// Returns the current register bank (bits 0..2).
    pub fn bank(&self) -> (r: Bank)
        ensures
            r == self.spec_bank(),
    {
        Bank::from_index(self.0 % 4)
    }

    /// Bit 2: ADPCM is busy playing XA-ADPCM.
    pub fn adpcm_busy(&self) -> (r: bool)
        ensures
            r == bit8(self.0, 2),
    {
        get_bit(self.0, 2)
    }

    /// Bit 3: the parameter FIFO is empty.
    pub fn parameter_fifo_empty(&self) -> (r: bool)
        ensures
            r == bit8(self.0, 3),
    {
        get_bit(self.0, 3)
    }

    /// Bit 4: the parameter FIFO is not full.
    pub fn parameter_fifo_not_full(&self) -> (r: bool)
        ensures
            r == bit8(self.0, 4),
    {
        get_bit(self.0, 4)
    }

    /// Bit 5: the result FIFO is not empty.
    pub fn result_fifo_not_empty(&self) -> (r: bool)
        ensures
            r == bit8(self.0, 5),
    {
        get_bit(self.0, 5)
    }

    /// Bit 6: data is requested.
    pub fn data_request(&self) -> (r: bool)
        ensures
            r == bit8(self.0, 6),
    {
        get_bit(self.0, 6)
    }

    /// Bit 7: the controller is busy acknowledging a command.
    pub fn busy(&self) -> (r: bool)
        ensures
            r == bit8(self.0, 7),
    {
        get_bit(self.0, 7)
    }

    /// Sets bit `i` to `value`.
    pub fn set_bit(&mut self, i: u8, value: bool)
        requires
            i < 8,
        ensures
            final(self).0 == with_bit8(old(self).0, i, value),
    {
        self.0 = put_bit(self.0, i, value);
    }
}

/// The kind of an interrupt of the controller.
#[derive(Debug, Clone, Copy, PartialEq, Eq, Structural)]
pub enum InterruptKind {
    NoInterrupt,
    DataReady,
    Complete,
    Acknowledge,
    DataEnd,
    DiskError,
    Unknown6,
    Unknown7,
}

impl InterruptKind {
    /// The code of this kind (bits 0..3 of the interrupt status).
    pub open spec fn spec_code(self) -> u8 {
        match self {
            InterruptKind::NoInterrupt => 0,
            InterruptKind::DataReady => 1,
            InterruptKind::Complete => 2,
            InterruptKind::Acknowledge => 3,
            InterruptKind::DataEnd => 4,
            InterruptKind::DiskError => 5,
            InterruptKind::Unknown6 => 6,
            InterruptKind::Unknown7 => 7,
        }
    }

    /// Returns the code of this kind.
    pub fn code(self) -> (r: u8)
        ensures
            r == self.spec_code(),
    {
        match self {
            InterruptKind::NoInterrupt => 0,
            InterruptKind::DataReady => 1,
            InterruptKind::Complete => 2,
            InterruptKind::Acknowledge => 3,
            InterruptKind::DataEnd => 4,
            InterruptKind::DiskError => 5,
            InterruptKind::Unknown6 => 6,
            InterruptKind::Unknown7 => 7,
        }
    }
}

impl Default for InterruptKind {
    fn default() -> (r: Self)
        ensures
            r == InterruptKind::NoInterrupt,
    {
        InterruptKind::NoInterrupt
    }
}

/// The interrupt status register of the controller.
#[derive(Debug, Clone, Copy, PartialEq, Eq, Structural)]
pub struct InterruptStatus(pub u8);

impl InterruptStatus {
    /// Bit 3: the sound buffer is empty.
    pub fn sound_buffer_empty(&self) -> (r: bool)
        ensures
            r == bit8(self.0, 3),
    {
        get_bit(self.0, 3)
    }

    /// Bit 4: the sound buffer is ready for writes.
    pub fn sound_buffer_write_ready(&self) -> (r: bool)
        ensures
            r == bit8(self.0, 4),
    {
        get_bit(self.0, 4)
    }

    /// Sets the kind of the pending interrupt (bits 0..3), keeping the other bits.
    pub fn set_kind(&mut self, kind: InterruptKind)
        ensures
            final(self).0 == old(self).0 / 8 * 8 + kind.spec_code(),
    {
        self.0 = self.0 / 8 * 8 + kind.code();
    }
}

impl Default for InterruptStatus {
    /// No interrupt, with the sound buffer empty and ready for writes.
    fn default() -> (r: Self)
        ensures
            r.0 == 0x18,
    {
        InterruptStatus(0x18)
    }
}

/// The interrupt mask register of the controller.
#[derive(Debug, Clone, Copy, PartialEq, Eq, Structural)]
pub struct InterruptMask(pub u8);

impl InterruptMask {
    /// The enabled interrupt kinds (bits 0..3).
    pub fn mask(&self) -> (r: u8)
        ensures
            r == self.0 % 8,
    {
        self.0 % 8
    }
}

impl Default for InterruptMask {
    /// All interrupt kinds enabled.
    fn default() -> (r: Self)
        ensures
            r.0 == 0x7,
    {
        InterruptMask(0x7)
    }
}

/// The size of the sectors read.
#[derive(Debug, Clone, Copy, PartialEq, Eq, Structural)]
pub enum SectorSize {
    DataOnly,
    Whole,
}

impl SectorSize {
    /// The number of bytes of a sector read.
    pub open spec fn spec_value(self) -> usize {
        match self {
            SectorSize::DataOnly => 0x800,
            SectorSize::Whole => 0x924,
        }
    }

    /// Returns the number of bytes of a sector read.
    pub fn value(self) -> (r: usize)
        ensures
            r == self.spec_value(),
    {
        match self {
            SectorSize::DataOnly => 0x800,
            SectorSize::Whole => 0x924,
        }
    }

    /// The offset in the raw sector of the bytes read.
    pub open spec fn spec_offset(self) -> usize {
        match self {
            SectorSize::DataOnly => 0x18,
            SectorSize::Whole => 0xC,
        }
    }

    /// Returns the offset in the raw sector of the bytes read.
    pub fn offset(self) -> (r: usize)
        ensures
            r == self.spec_offset(),
    {
        match self {
            SectorSize::DataOnly => 0x18,
            SectorSize::Whole => 0xC,
        }
    }
}

impl Default for SectorSize {
    fn default() -> (r: Self)
        ensures
            r == SectorSize::DataOnly,
    {
        SectorSize::DataOnly
    }
}

/// The speed of the drive.
#[derive(Debug, Clone, Copy, PartialEq, Eq, Structural)]
pub enum Speed {
    Normal,
    Double,
}

impl Speed {
    /// How many times faster than normal the drive reads.
    pub open spec fn spec_factor(self) -> u64 {
        match self {
            Speed::Normal => 1,
            Speed::Double => 2,
        }
    }

    /// Returns how many times faster than normal the drive reads.
    pub fn factor(self) -> (r: u64)
        ensures
            r == self.spec_factor(),
    {
        match self {
            Speed::Normal => 1,
            Speed::Double => 2,
        }
    }
}

impl Default for Speed {
    fn default() -> (r: Self)
        ensures
            r == Speed::Normal,
    {
        Speed::Normal
    }
}

/// The mode register of the drive.
#[derive(Debug, Clone, Copy, Default, PartialEq, Eq, Structural)]
pub struct Mode(pub u8);

impl Mode {
    /// Bit 0: CD-DA mode.
    pub fn cdda(&self) -> (r: bool)
        ensures
            r == bit8(self.0, 0),
    {
        get_bit(self.0, 0)
    }

    /// Bit 1: pause at the end of a track.
    pub fn auto_pause(&self) -> (r: bool)
        ensures
            r == bit8(self.0, 1),
    {
        get_bit(self.0, 1)
    }

    /// Bit 2: report interrupts while playing.
    pub fn report(&self) -> (r: bool)
        ensures
            r == bit8(self.0, 2),
    {
        get_bit(self.0, 2)
    }

    /// Bit 3: filter XA sectors.
    pub fn xa_filter(&self) -> (r: bool)
        ensures
            r == bit8(self.0, 3),
    {
        get_bit(self.0, 3)
    }

    /// Bit 4: ignore the sector size bit.
    pub fn ignore(&self) -> (r: bool)
        ensures
            r == bit8(self.0, 4),
    {
        get_bit(self.0, 4)
    }

    /// Bit 5: the size of the sectors read.
    pub fn sector_size(&self) -> (r: SectorSize)
        ensures
            r == (if bit8(self.0, 5) {
                SectorSize::Whole
            } else {
                SectorSize::DataOnly
            }),
    {
        if get_bit(self.0, 5) {
            SectorSize::Whole
        } else {
            SectorSize::DataOnly
        }
    }

    /// Bit 6: play XA-ADPCM sectors.
    pub fn xa_adpcm(&self) -> (r: bool)
        ensures
            r == bit8(self.0, 6),
    {
        get_bit(self.0, 6)
    }

    /// Bit 7: the speed of the drive.
    pub fn speed(&self) -> (r: Speed)
        ensures
            r == (if bit8(self.0, 7) {
                Speed::Double
            } else {
                Speed::Normal
            }),
    {
        if get_bit(self.0, 7) {
            Speed::Double
        } else {
            Speed::Normal
        }
    }
}

/// A position on the disc, in minutes, seconds (below 60) and frames (below 75).
#[derive(Debug, Clone, Copy, Default, PartialEq, Eq, Structural)]
pub struct Sector {
    minutes: u8,
    seconds: u8,
    frames: u8,
}

/// The number of frames in a second.
pub const FRAMES_PER_SECOND: u64 = 75;

impl Sector {
    /// A position has fewer than 60 seconds and 75 frames.
    #[verifier::type_invariant]
    spec fn inv(self) -> bool {
        self.seconds < 60 && self.frames < 75
    }

    /// The minutes of this position.
    pub closed spec fn spec_minutes(self) -> u8 {
        self.minutes
    }

    /// The seconds of this position.
    pub closed spec fn spec_seconds(self) -> u8 {
        self.seconds
    }

    /// The frames of this position.
    pub closed spec fn spec_frames(self) -> u8 {
        self.frames
    }

    /// The number of frames from the start of the disc, counting from two seconds in.
    pub open spec fn spec_index(self) -> Option<u64> {
        if self.spec_seconds() >= 2 {
            Some(
                (self.spec_minutes() * 60 * 75 + (self.spec_seconds() - 2) * 75
                    + self.spec_frames()) as u64,
            )
        } else {
            None
        }
    }

    /// The position with the given minutes, seconds and frames.
    pub fn new(minutes: u8, seconds: u8, frames: u8) -> (r: Self)
        requires
            seconds < 60,
            frames < 75,
        ensures
            r.spec_minutes() == minutes,
            r.spec_seconds() == seconds,
            r.spec_frames() == frames,
    {
        Self { minutes, seconds, frames }
    }

    /// Returns the number of frames from the start of the disc, counting from two seconds in; a
    /// position before that has none.
    pub fn index(&self) -> (r: Option<u64>)
        ensures
            r == self.spec_index(),
    {
        if self.seconds >= 2 {
            Some(
                self.minutes as u64 * 60 * 75 + (self.seconds - 2) as u64 * 75 + self.frames as u64,
            )
        } else {
            None
        }
    }

    /// Advances to the next frame.
    pub fn advance(&mut self)
        requires
            !(old(self).spec_minutes() == 255 && old(self).spec_seconds() == 59
                && old(self).spec_frames() == 74),
        ensures
            old(self).spec_frames() < 74 ==> final(self).spec_frames() == old(self).spec_frames()
                + 1 && final(self).spec_seconds() == old(self).spec_seconds()
                && final(self).spec_minutes() == old(self).spec_minutes(),
            old(self).spec_frames() == 74 && old(self).spec_seconds() < 59 ==> final(self).spec_frames() == 0 && final(self).spec_seconds() == old(self).spec_seconds() + 1
                && final(self).spec_minutes() == old(self).spec_minutes(),
            old(self).spec_frames() == 74 && old(self).spec_seconds() == 59 ==> final(self).spec_frames() == 0 && final(self).spec_seconds() == 0 && final(self).spec_minutes()
                == old(self).spec_minutes() + 1,
    {
        proof {
            use_type_invariant(&*self);
        }
        let (mut minutes, mut seconds, mut frames) = (self.minutes, self.seconds, self.frames + 1);
        if frames == 75 {
            frames = 0;
            seconds += 1;
        }
        if seconds == 60 {
            seconds = 0;
            minutes += 1;
        }
        *self = Sector { minutes, seconds, frames };
    }

    /// Returns the minutes of this position.
    pub fn minutes(&self) -> (r: u8)
        ensures
            r == self.spec_minutes(),
    {
        self.minutes
    }

    /// Returns the seconds of this position.
    pub fn seconds(&self) -> (r: u8)
        ensures
            r == self.spec_seconds(),
            r < 60,
    {
        proof {
            use_type_invariant(self);
        }
        self.seconds
    }

    /// Returns the frames of this position.
    pub fn frames(&self) -> (r: u8)
        ensures
            r == self.spec_frames(),
            r < 75,
    {
        proof {
            use_type_invariant(self);
        }
        self.frames
    }
}

/// Law: advancing a position two seconds or more into the disc moves its index forward by one
/// frame.
pub proof fn law_advance_index(before: Sector, after: Sector)
    requires
        before.spec_seconds() < 60,
        before.spec_frames() < 75,
        before.spec_seconds() >= 2,
        !(before.spec_minutes() == 255 && before.spec_seconds() == 59 && before.spec_frames() == 74),
        before.spec_frames() < 74 ==> after.spec_frames() == before.spec_frames() + 1
            && after.spec_seconds() == before.spec_seconds() && after.spec_minutes()
            == before.spec_minutes(),
        before.spec_frames() == 74 && before.spec_seconds() < 59 ==> after.spec_frames() == 0
            && after.spec_seconds() == before.spec_seconds() + 1 && after.spec_minutes()
            == before.spec_minutes(),
        before.spec_frames() == 74 && before.spec_seconds() == 59 ==> after.spec_frames() == 0
            && after.spec_seconds() == 0 && after.spec_minutes() == before.spec_minutes() + 1,
    ensures
        after.spec_seconds() >= 2 ==> after.spec_index() == Some(
            (before.spec_index().unwrap() + 1) as u64,
        ),
{
}

/// A write to a register of the controller, queued for processing.
#[derive(Debug, Clone, Copy, PartialEq, Eq, Structural)]
pub struct RegWrite {
    pub reg: Reg,
    pub value: u8,
}

/// The state of the CDROM controller.
#[derive(Debug)]
pub struct Cdrom {
    pub status: Status,
    pub command_status: CommandStatus,
    pub interrupt_status: InterruptStatus,
    pub interrupt_mask: InterruptMask,
    pub mode: Mode,
    pub location: Sector,
    pub lock_data_queue: bool,
    pub write_queue: VecDeque<RegWrite>,
    pub parameter_queue: VecDeque<u8>,
    pub result_queue: VecDeque<u8>,
    pub sector_data: VecDeque<u8>,
}

impl Cdrom {
    /// A controller with the shell open and the motor on, its queues empty and its data queue
    /// locked.
    pub fn new() -> (r: Self)
        ensures
            r.status.0 == 0x12,
            r.command_status.0 == 0,
            r.interrupt_status.0 == 0x18,
            r.interrupt_mask.0 == 0x7,
            r.mode.0 == 0,
            r.location.spec_minutes() == 0 && r.location.spec_seconds() == 0
                && r.location.spec_frames() == 0,
            r.lock_data_queue,
            r.write_queue@.len() == 0,
            r.parameter_queue@.len() == 0,
            r.result_queue@.len() == 0,
            r.sector_data@.len() == 0,
    {
        let status = Status(0).with_shell_open(true).with_motor_on(true);
        assert(with_bit8(with_bit8(0, 4, true), 1, true) == 0x12) by (bit_vector);
        Cdrom {
            status,
            command_status: CommandStatus(0),
            interrupt_status: InterruptStatus::default(),
            interrupt_mask: InterruptMask::default(),
            mode: Mode(0),
            location: Sector::new(0, 0, 0),
            lock_data_queue: true,
            write_queue: VecDeque::new(),
            parameter_queue: VecDeque::new(),
            result_queue: VecDeque::new(),
            sector_data: VecDeque::new(),
        }
    }

    /// Sets the kind of the pending interrupt.
    pub fn set_interrupt_kind(&mut self, kind: InterruptKind)
        ensures
            final(self).interrupt_status.0 == old(self).interrupt_status.0 / 8 * 8
                + kind.spec_code(),
            *final(self) == (Cdrom {
                interrupt_status: InterruptStatus(
                    (old(self).interrupt_status.0 / 8 * 8 + kind.spec_code()) as u8,
                ),
                ..*old(self)
            }),
    {
        self.interrupt_status.set_kind(kind);
    }

    /// The command status once updated from the queues.
    pub open spec fn spec_updated_status(&self) -> u8 {
        let s = self.command_status.0;
        let s = with_bit8(s, 3, self.parameter_queue@.len() == 0);
        let s = with_bit8(s, 4, true);
        let s = with_bit8(s, 5, self.result_queue@.len() != 0);
        with_bit8(s, 6, self.sector_data@.len() != 0)
    }

    /// The byte a read of `reg` gives: the updated command status for register 0, the front of
    /// the result queue for register 1, and for register 3 the interrupt mask in banks 0 and 2
    /// and the interrupt status in banks 1 and 3.
    pub open spec fn spec_read_value(&self, reg: Reg) -> u8 {
        match reg {
            Reg::Reg0 => self.spec_updated_status(),
            Reg::Reg1 => self.result_queue@[0],
            Reg::Reg2 => 0,
            Reg::Reg3 => if self.spec_updated_status() % 2 == 0 {
                self.interrupt_mask.0
            } else {
                self.interrupt_status.0
            },
        }
    }

    /// Updates the FIFO flags of the command status from the queues.
    pub fn update_status(&mut self)
        ensures
            final(self).command_status.0 == old(self).spec_updated_status(),
            *final(self) == (Cdrom {
                command_status: CommandStatus(old(self).spec_updated_status()),
                ..*old(self)
            }),
            final(self).parameter_queue@ == old(self).parameter_queue@,
            final(self).result_queue@ == old(self).result_queue@,
            final(self).sector_data@ == old(self).sector_data@,
            final(self).interrupt_status == old(self).interrupt_status,
            final(self).interrupt_mask == old(self).interrupt_mask,
            final(self).lock_data_queue == old(self).lock_data_queue,
    {
        let parameter_empty = self.parameter_queue.len() == 0;
        let result_not_empty = self.result_queue.len() != 0;
        let data_request = self.sector_data.len() != 0;
        self.command_status.set_bit(3, parameter_empty);
        self.command_status.set_bit(4, true);
        self.command_status.set_bit(5, result_not_empty);
        self.command_status.set_bit(6, data_request);
    }

    /// Reads a register of the controller, after updating the command status: register 0 gives
    /// the command status, register 1 pops the result queue, and register 3 gives the interrupt
    /// mask in banks 0 and 2 and the interrupt status in banks 1 and 3. Register 2 cannot be
    /// read, nor register 1 with an empty result queue.
    pub fn read(&mut self, reg: Reg) -> (r: u8)
        requires
            reg != Reg::Reg2,
            reg == Reg::Reg1 ==> old(self).result_queue@.len() > 0,
        ensures
            final(self).command_status.0 == old(self).spec_updated_status(),
            reg == Reg::Reg0 ==> r == old(self).spec_updated_status(),
            reg == Reg::Reg1 ==> r == old(self).result_queue@[0] && final(self).result_queue@
                == old(self).result_queue@.drop_first(),
            reg != Reg::Reg1 ==> final(self).result_queue@ == old(self).result_queue@,
            reg == Reg::Reg3 ==> r == if old(self).spec_updated_status() % 2 == 0 {
                old(self).interrupt_mask.0
            } else {
                old(self).interrupt_status.0
            },
            final(self).sector_data@ == old(self).sector_data@,
            final(self).parameter_queue@ == old(self).parameter_queue@,
            r == old(self).spec_read_value(reg),
            *final(self) == (Cdrom {
                command_status: CommandStatus(old(self).spec_updated_status()),
                result_queue: final(self).result_queue,
                ..*old(self)
            }),
    {
        self.update_status();
        match reg {
            Reg::Reg0 => self.command_status.0,
            Reg::Reg1 => self.result_queue.pop_front().unwrap(),
            Reg::Reg2 => 0,
            Reg::Reg3 => {
                let bank = self.command_status.bank();
                if bank == Bank::Bank0 || bank == Bank::Bank2 {
                    self.interrupt_mask.0
                } else {
                    self.interrupt_status.0
                }
            },
        }
    }

    /// Reads the next byte of sector data: zero while the data queue is locked or empty.
    pub fn read_from_sector(&mut self) -> (r: u8)
        ensures
            old(self).lock_data_queue || old(self).sector_data@.len() == 0 ==> r == 0
                && final(self).sector_data@ == old(self).sector_data@,
            !old(self).lock_data_queue && old(self).sector_data@.len() > 0 ==> r == old(self).sector_data@[0] && final(self).sector_data@ == old(self).sector_data@.drop_first(),
            *final(self) == (Cdrom { sector_data: final(self).sector_data, ..*old(self) }),
    {
        if self.lock_data_queue {
            return 0;
        }
        match self.sector_data.pop_front() {
            Some(value) => value,
            None => 0,
        }
    }
}

/// An event of the CDROM state machine.
#[derive(Debug, Clone, Copy, PartialEq, Eq, Structural)]
pub enum Event {
    /// Process the queued register writes.
    Update,
    /// Acknowledge a command.
    Acknowledge(Command),
    /// Complete a command.
    Complete(Command),
    /// Read the next sector.
    Read,
}

} // verus!
