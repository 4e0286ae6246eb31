//! Items related to the memory of the PSX.
pub mod io;
pub mod primitive;

use crate::cpu::{Reg, Registers};
use crate::exe::Executable;
use vstd::prelude::*;

verus! {

/// A memory segment refers to a specific range of memory addresses, each with its own purpose and
/// properties.
#[derive(Debug, Clone, Copy, PartialEq, Eq, Structural)]
pub enum Segment {
    /// Kernel User SEGment
    ///
    /// Intended to be used as user virtual memory. In user mode, this is the only accessible
    /// segment. The PSX, however, does not have a MMU, and so does not use it for virtual memory.
    /// It is instead a simple mirror of the KSEG0/KSEG1 in the first 512MiB.
    KUSEG,
    /// Kernel SEGment 0
    ///
    /// Maps to the physical memory directly, utilizing the cache. Only accessible in kernel mode.
    KSEG0,
    /// Kernel SEGment 1
    ///
    /// Maps to the physical memory directly and does not utilize the cache. Only accessible in
    /// kernel mode.
    KSEG1,
    /// Kernel SEGment 2
    ///
    /// Intended to be used as kernel virtual memory. The PSX, however, does not have a MMU, and so
    /// uses it for internal, memory mapped CPU control registers.
    KSEG2,
}

impl Segment {
    /// The first address of this segment.
    pub open spec fn spec_start(self) -> u32 {
        match self {
            Segment::KUSEG => 0x0000_0000,
            Segment::KSEG0 => 0x8000_0000,
            Segment::KSEG1 => 0xA000_0000,
            Segment::KSEG2 => 0xC000_0000,
        }
    }

    /// Returns the first address of this segment.
    #[inline(always)]
    pub fn start(&self) -> (r: Address)
        ensures
            r.0 == self.spec_start(),
    {
        match self {
            Segment::KUSEG => Address(0x0000_0000),
            Segment::KSEG0 => Address(0x8000_0000),
            Segment::KSEG1 => Address(0xA000_0000),
            Segment::KSEG2 => Address(0xC000_0000),
        }
    }
}

/// A memory region.
#[derive(Debug, Clone, Copy, PartialEq, Eq, Structural)]
pub enum Region {
    Ram,
    RamMirror,
    Expansion1,
    ScratchPad,
    IOPorts,
    Expansion2,
    Expansion3,
    BIOS,
}

impl Region {
    /// The physical address this region starts at.
    pub open spec fn spec_start(self) -> u32 {
        match self {
            Region::Ram => 0x0000_0000,
            Region::RamMirror => 0x0020_0000,
            Region::Expansion1 => 0x1F00_0000,
            Region::ScratchPad => 0x1F80_0000,
            Region::IOPorts => 0x1F80_1000,
            Region::Expansion2 => 0x1F80_2000,
            Region::Expansion3 => 0x1FA0_0000,
            Region::BIOS => 0x1FC0_0000,
        }
    }

    /// The length of this region, in bytes: 2 MiB of RAM, mirrored over the next 6 MiB, 1 KiB of
    /// scratchpad, 8 KiB of IO ports and 4 MiB of BIOS.
    pub open spec fn spec_len(self) -> u32 {
        match self {
            Region::Ram => 0x20_0000,
            Region::RamMirror => 0x60_0000,
            Region::Expansion1 => 0x80_0000,
            Region::ScratchPad => 0x400,
            Region::IOPorts => 0x2000,
            Region::Expansion2 => 0x2000,
            Region::Expansion3 => 0x20_0000,
            Region::BIOS => 0x40_0000,
        }
    }

    /// Whether the physical address `addr` lies in this region.
    pub open spec fn contains(self, addr: u32) -> bool {
        self.spec_start() <= addr < self.spec_start() + self.spec_len()
    }

    /// Returns the physical address this region starts at.
    #[inline(always)]
    pub fn start(&self) -> (r: PhysicalAddress)
        ensures
            r@ == self.spec_start(),
    {
        PhysicalAddress(
            match self {
                Region::Ram => 0x0000_0000,
                Region::RamMirror => 0x0020_0000,
                Region::Expansion1 => 0x1F00_0000,
                Region::ScratchPad => 0x1F80_0000,
                Region::IOPorts => 0x1F80_1000,
                Region::Expansion2 => 0x1F80_2000,
                Region::Expansion3 => 0x1FA0_0000,
                Region::BIOS => 0x1FC0_0000,
            },
        )
    }

    /// Returns the length of this region, in bytes.
    #[inline(always)]
    pub fn len(&self) -> (r: u32)
        ensures
            r == self.spec_len(),
    {
        match self {
            Region::Ram => 0x20_0000,
            Region::RamMirror => 0x60_0000,
            Region::Expansion1 => 0x80_0000,
            Region::ScratchPad => 0x400,
            Region::IOPorts => 0x2000,
            Region::Expansion2 => 0x2000,
            Region::Expansion3 => 0x20_0000,
            Region::BIOS => 0x40_0000,
        }
    }
}

/// The region the physical address `addr` lies in: the first, in the order of [`Region`], whose
/// range holds it (`IOPorts` and `Expansion2` overlap; the overlap belongs to `IOPorts`).
pub open spec fn spec_region(addr: u32) -> Option<Region> {
    if Region::Ram.contains(addr) {
        Some(Region::Ram)
    } else if Region::RamMirror.contains(addr) {
        Some(Region::RamMirror)
    } else if Region::Expansion1.contains(addr) {
        Some(Region::Expansion1)
    } else if Region::ScratchPad.contains(addr) {
        Some(Region::ScratchPad)
    } else if Region::IOPorts.contains(addr) {
        Some(Region::IOPorts)
    } else if Region::Expansion2.contains(addr) {
        Some(Region::Expansion2)
    } else if Region::Expansion3.contains(addr) {
        Some(Region::Expansion3)
    } else if Region::BIOS.contains(addr) {
        Some(Region::BIOS)
    } else {
        None
    }
}

/// A physical memory address. This is a thin wrapper around a [`u32`], with the extra guarantee
/// that it's in the `0x0000_0000..0x2000_0000` range (512 MiB).
#[derive(Debug, Clone, Copy, PartialEq, Eq, Structural)]
pub struct PhysicalAddress(u32);

impl View for PhysicalAddress {
    type V = u32;

    closed spec fn view(&self) -> u32 {
        self.0
    }
}

impl PhysicalAddress {
    /// A physical address lies below `0x2000_0000`.
    #[verifier::type_invariant]
    spec fn inv(self) -> bool {
        self.0 < 0x2000_0000
    }

    /// Creates a new [`PhysicalAddress`] from an absolute address, if it is in the physical range.
    #[inline(always)]
    pub fn new(address: u32) -> (r: Option<Self>)
        ensures
            r is Some <==> address < 0x2000_0000,
            r matches Some(p) ==> p@ == address,
    {
        if address < 0x2000_0000 {
            Some(Self(address))
        } else {
            None
        }
    }

    /// Returns the value of this address.
    #[inline(always)]
    pub fn value(&self) -> (r: u32)
        ensures
            r == self@,
            r < 0x2000_0000,
    {
        proof {
            use_type_invariant(self);
        }
        self.0
    }

    /// Returns the region this address lies in, if any.
    pub fn region(&self) -> (r: Option<Region>)
        ensures
            r == spec_region(self@),
    {
        let value = self.value();
        if value < 0x0020_0000 {
            Some(Region::Ram)
        } else if value < 0x0080_0000 {
            Some(Region::RamMirror)
        } else if value < 0x1F00_0000 {
            None
        } else if value < 0x1F80_0000 {
            Some(Region::Expansion1)
        } else if value < 0x1F80_0400 {
            Some(Region::ScratchPad)
        } else if value < 0x1F80_1000 {
            None
        } else if value < 0x1F80_3000 {
            Some(Region::IOPorts)
        } else if value < 0x1F80_4000 {
            Some(Region::Expansion2)
        } else if value < 0x1FA0_0000 {
            None
        } else if value < 0x1FC0_0000 {
            Some(Region::Expansion3)
        } else {
            Some(Region::BIOS)
        }
    }
}

/// The segment the virtual address `addr` lies in.
pub open spec fn spec_segment(addr: u32) -> Segment {
    if addr < 0x8000_0000 {
        Segment::KUSEG
    } else if addr < 0xA000_0000 {
        Segment::KSEG0
    } else if addr < 0xC000_0000 {
        Segment::KSEG1
    } else {
        Segment::KSEG2
    }
}

/// A virtual memory address. This is a thin wrapper around a [`u32`].
#[derive(Debug, Clone, Copy, PartialEq, Eq, Structural, PartialOrd, Ord, Default, Hash)]
pub struct Address(pub u32);

impl Address {
    /// Returns the value of this address. Equivalent to `self.0`.
    #[inline(always)]
    pub fn value(self) -> (r: u32)
        ensures
            r == self.0,
    {
        self.0
    }

    /// Returns `true` if this address is aligned to the given alignment.
    #[inline(always)]
    pub fn is_aligned(self, alignment: u32) -> (r: bool)
        requires
            alignment != 0,
        ensures
            r == (self.0 % alignment == 0),
    {
        self.0 % alignment == 0
    }

    /// Returns the segment of this address.
    #[inline(always)]
    pub fn segment(self) -> (r: Segment)
        ensures
            r == spec_segment(self.0),
            self.0 >= r.spec_start(),
    {
        if self.0 < 0x8000_0000 {
            Segment::KUSEG
        } else if self.0 < 0xA000_0000 {
            Segment::KSEG0
        } else if self.0 < 0xC000_0000 {
            Segment::KSEG1
        } else {
            Segment::KSEG2
        }
    }

    /// Returns the physical address that this virtual address maps to.
    ///
    /// If the [`segment`](Self::segment) of this address is `KUSEG | KSEG0 | KSEG1`, this is
    /// somewhere in `0000_0000..0x2000_0000`. Otherwise, it's in `KSEG2` and does not map to a
    /// physical address.
    #[inline(always)]
    pub fn physical(self) -> (r: Option<PhysicalAddress>)
        ensures
            r is Some <==> spec_segment(self.0) != Segment::KSEG2,
            r matches Some(p) ==> p@ == self.0 % 0x2000_0000,
    {
        let value = self.0;
        let mapped = if self.segment() == Segment::KSEG2 {
            value
        } else {
            assert(value & 0x1FFF_FFFF == value % 0x2000_0000) by (bit_vector);
            value & 0x1FFF_FFFF
        };
        PhysicalAddress::new(mapped)
    }
}

impl vstd::std_specs::ops::AddSpecImpl<u32> for Address {
    open spec fn obeys_add_spec() -> bool {
        true
    }

    open spec fn add_req(self, rhs: u32) -> bool {
        true
    }

    open spec fn add_spec(self, rhs: u32) -> Address {
        Address(((self.0 + rhs) % 0x1_0000_0000) as u32)
    }
}

impl std::ops::Add<u32> for Address {
    type Output = Self;

    /// The address `rhs` bytes after this one, wrapping around.
    fn add(self, rhs: u32) -> (r: Self) {
        Self(self.0.wrapping_add(rhs))
    }
}

impl vstd::std_specs::ops::AddSpecImpl<i32> for Address {
    open spec fn obeys_add_spec() -> bool {
        true
    }

    open spec fn add_req(self, rhs: i32) -> bool {
        true
    }

    open spec fn add_spec(self, rhs: i32) -> Address {
        Address(((self.0 + rhs) % 0x1_0000_0000) as u32)
    }
}

impl std::ops::Add<i32> for Address {
    type Output = Self;

    /// The address `rhs` bytes after (or, if negative, before) this one, wrapping around.
    fn add(self, rhs: i32) -> (r: Self) {
        Self(self.0.wrapping_add_signed(rhs))
    }
}

impl vstd::std_specs::ops::SubSpecImpl<u32> for Address {
    open spec fn obeys_sub_spec() -> bool {
        true
    }

    open spec fn sub_req(self, rhs: u32) -> bool {
        true
    }

    open spec fn sub_spec(self, rhs: u32) -> Address {
        Address(((self.0 - rhs + 0x1_0000_0000) % 0x1_0000_0000) as u32)
    }
}

impl std::ops::Sub<u32> for Address {
    type Output = Self;

    /// The address `rhs` bytes before this one, wrapping around.
    fn sub(self, rhs: u32) -> (r: Self) {
        Self(self.0.wrapping_sub(rhs))
    }
}

impl vstd::std_specs::ops::SubSpecImpl<i32> for Address {
    open spec fn obeys_sub_spec() -> bool {
        true
    }

    open spec fn sub_req(self, rhs: i32) -> bool {
        rhs != i32::MIN
    }

    open spec fn sub_spec(self, rhs: i32) -> Address {
        Address(((self.0 - rhs + 0x1_0000_0000) % 0x1_0000_0000) as u32)
    }
}

impl std::ops::Sub<i32> for Address {
    type Output = Self;

    /// The address `rhs` bytes before (or, if negative, after) this one, wrapping around.
    fn sub(self, rhs: i32) -> (r: Self) {
        Self(self.0.wrapping_add_signed(-rhs))
    }
}

impl vstd::std_specs::convert::FromSpecImpl<u32> for Address {
    open spec fn obeys_from_spec() -> bool {
        true
    }

    open spec fn from_spec(v: u32) -> Address {
        Address(v)
    }
}

impl From<u32> for Address {
    fn from(value: u32) -> (r: Self) {
        Self(value)
    }
}

/// Collection of memory components, e.g. RAM, BIOS and the Scratchpad.
#[derive(Debug)]
pub struct Memory {
    /// Main RAM (the first 2 MB).
    pub ram: Vec<u8>,
    /// Expansion 1
    pub expansion_1: Vec<u8>,
    /// Scratchpad or Fast RAM.
    pub scratchpad: Vec<u8>,
    /// Expansion region 2
    pub expansion_2: Vec<u8>,
    /// Expansion region 3
    pub expansion_3: Vec<u8>,
    /// BIOS ROM.
    pub bios: Vec<u8>,
    /// Some IO Ports are stubbed to write and read from this buffer.
    pub io_stubs: Vec<u8>,
    /// Executable to side load, if any.
    pub sideload: Option<Executable>,
    /// Kernel STDOUT.
    pub kernel_stdout: String,
}

/// A buffer of `len` zero bytes.
fn zeroed(len: usize) -> (r: Vec<u8>)
    ensures
        r@ == Seq::new(len as nat, |_i: int| 0u8),
{
    let r = vec![0u8; len];
    assert(r@ =~= Seq::new(len as nat, |_i: int| 0u8));
    r
}

impl Memory {
    /// Creates a new [`Memory`] with zeroed contents and the given BIOS ROM, completed with zero
    /// bytes to the size of the BIOS region.
    ///
    /// # Errors
    /// If the bios is larger than 4096 KB, it's too big to fit and so [`Err`]
    /// is returned with the given bios.
    pub fn with_bios(bios: Vec<u8>) -> (r: Result<Self, Vec<u8>>)
        ensures
            bios@.len() > Region::BIOS.spec_len() <==> r is Err,
            r matches Err(b) ==> b@ == bios@,
            r matches Ok(m) ==> {
                &&& m.bios@.len() == Region::BIOS.spec_len()
                &&& m.bios@.subrange(0, bios@.len() as int) == bios@
                &&& forall|i: int| bios@.len() <= i < m.bios@.len() ==> #[trigger] m.bios@[i] == 0
                &&& m.ram@ == Seq::new(Region::Ram.spec_len() as nat, |_i: int| 0u8)
                &&& m.expansion_1@ == Seq::new(Region::Expansion1.spec_len() as nat, |_i: int| 0u8)
                &&& m.scratchpad@ == Seq::new(Region::ScratchPad.spec_len() as nat, |_i: int| 0u8)
                &&& m.expansion_2@ == Seq::new(Region::Expansion2.spec_len() as nat, |_i: int| 0u8)
                &&& m.expansion_3@ == Seq::new(Region::Expansion3.spec_len() as nat, |_i: int| 0u8)
                &&& m.io_stubs@ == Seq::new(Region::IOPorts.spec_len() as nat, |_i: int| 0u8)
                &&& m.sideload is None
                &&& m.kernel_stdout@ == Seq::<char>::empty()
            },
    {
        let size = Region::BIOS.len() as usize;
        if bios.len() > size {
            return Err(bios);
        }
        let mut bios = bios;
        let ghost original = bios@;
        while bios.len() < size
            invariant
                original.len() <= bios@.len() <= size,
                size == Region::BIOS.spec_len(),
                bios@.subrange(0, original.len() as int) == original,
                forall|i: int| original.len() <= i < bios@.len() ==> #[trigger] bios@[i] == 0,
            decreases size - bios@.len(),
        {
            bios.push(0);
            assert(bios@.subrange(0, original.len() as int) =~= original);
        }
        Ok(Memory {
            ram: zeroed(Region::Ram.len() as usize),
            expansion_1: zeroed(Region::Expansion1.len() as usize),
            scratchpad: zeroed(Region::ScratchPad.len() as usize),
            expansion_2: zeroed(Region::Expansion2.len() as usize),
            expansion_3: zeroed(Region::Expansion3.len() as usize),
            bios,
            io_stubs: zeroed(Region::IOPorts.len() as usize),
            sideload: None,
            kernel_stdout: String::new(),
        })
    }

    /// Loads the executable to side load, if any: its program is copied to RAM at its
    /// destination, the program counter and `GP` take its initial values, and `SP` its initial
    /// stack pointer when it gives one. Returns the initial program counter, if there was an
    /// executable. The program must fit RAM where it goes.
    pub fn sideload_into(&mut self, regs: &mut Registers) -> (r: Option<Address>)
        requires
            old(self).ram@.len() == Region::Ram.spec_len(),
            old(self).sideload matches Some(exe) ==> {
                &&& spec_segment(exe.header.destination.0) != Segment::KSEG2
                &&& exe.header.destination.0 % 0x2000_0000 + exe.header.length <= old(
                    self,
                ).ram@.len()
                &&& exe.program@.len() == exe.header.length
            },
        ensures
            old(self).sideload is None ==> r is None && final(self).ram@ == old(self).ram@,
            old(self).sideload matches Some(exe) ==> {
                let dest = exe.header.destination.0 % 0x2000_0000;
                &&& r == Some(exe.header.initial_pc)
                &&& final(self).ram@ == old(self).ram@.subrange(0, dest as int) + exe.program@
                    + old(self).ram@.subrange(dest + exe.header.length, old(self).ram@.len() as int)
                &&& final(regs).pc() == exe.header.initial_pc.0
                &&& final(regs).spec_read(Reg::R28) == exe.header.initial_gp
                &&& exe.header.initial_sp_base != 0 ==> final(regs).spec_read(Reg::R29) == (
                    exe.header.initial_sp_base + exe.header.initial_sp_offset) % 0x1_0000_0000
                &&& final(regs).gp() == if exe.header.initial_sp_base != 0 {
                    Registers::written(
                        Registers::written(old(regs).gp(), Reg::R28, exe.header.initial_gp),
                        Reg::R29,
                        ((exe.header.initial_sp_base + exe.header.initial_sp_offset)
                            % 0x1_0000_0000) as u32,
                    )
                } else {
                    Registers::written(old(regs).gp(), Reg::R28, exe.header.initial_gp)
                }
                &&& final(regs).hi() == old(regs).hi()
                &&& final(regs).lo() == old(regs).lo()
            },
            old(self).sideload is None ==> *final(regs) == *old(regs),
            *final(self) == (Memory { ram: final(self).ram, ..*old(self) }),
            final(self).sideload == old(self).sideload,
    {
        let exe = match self.sideload.take() {
            Some(exe) => exe,
            None => return None,
        };
        regs.write_pc(exe.header.initial_pc.value());
        proof {
            regs.lemma_gp();
        }
        regs.write(Reg::GP, exe.header.initial_gp);
        assert(regs.spec_read(Reg::R28) == exe.header.initial_gp);
        let dest = exe.header.destination.physical().unwrap().value() - Region::Ram.start().value();
        let len = exe.header.length as usize;
        let dest = dest as usize;
        let ghost before = self.ram@;
        let ghost taken = *self;
        assert(before.len() == self.ram.len());
        let mut i: usize = 0;
        while i < len
            invariant
                i <= len,
                len == exe.program@.len(),
                dest + len <= before.len(),
                before.len() <= usize::MAX,
                self.ram@.len() == before.len(),
                forall|j: int| 0 <= j < dest ==> #[trigger] self.ram@[j] == before[j],
                forall|j: int| dest + len <= j < before.len() ==> #[trigger] self.ram@[j] == before[j],
                forall|j: int| 0 <= j < i ==> #[trigger] self.ram@[dest + j] == exe.program@[j],
                *self == (Memory { ram: self.ram, ..taken }),
            decreases len - i,
        {
            self.ram.set(dest + i, exe.program[i]);
            i += 1;
        }
        assert(self.ram@ =~= before.subrange(0, dest as int) + exe.program@ + before.subrange(
            dest + len,
            before.len() as int,
        )) by {
            assert forall|j: int| 0 <= j < before.len() implies #[trigger] self.ram@[j] == (
            before.subrange(0, dest as int) + exe.program@ + before.subrange(
                dest + len,
                before.len() as int,
            ))[j] by {
                if dest <= j < dest + len {
                    assert(self.ram@[dest + (j - dest)] == exe.program@[j - dest]);
                }
            }
        }
        if exe.header.initial_sp_base != 0 {
            let initial_sp = exe.header.initial_sp_base.wrapping_add(exe.header.initial_sp_offset);
            regs.write(Reg::SP, initial_sp);
            assert(regs.spec_read(Reg::R28) == exe.header.initial_gp);
        }
        let pc = exe.header.initial_pc;
        self.sideload = Some(exe);
        Some(pc)
    }
}

/// Whether `value` is a Unicode scalar value: below `0xD800`, or from `0xE000` to `0x10FFFF`.
pub open spec fn is_scalar(value: u32) -> bool {
    value < 0xD800 || (0xE000 <= value <= 0x10FFFF)
}

/// The character with the code `value`, if it is a Unicode scalar value (`char::from_u32`).
#[verifier::external_body]
fn char_from_u32(value: u32) -> (r: Option<char>)
    ensures
        r is Some <==> is_scalar(value),
        r matches Some(c) ==> c as u32 == value,
{
    char::from_u32(value)
}

/// Appends a character to a string (`String::push`).
#[verifier::external_body]
fn push_char(s: &mut String, c: char)
    ensures
        final(s)@ == old(s)@.push(c),
{
    s.push(c)
}

/// Whether the text `new` is `old` once the character with the code `value` is put: a carriage
/// return puts a line feed, a code that is no character puts nothing.
pub open spec fn char_put(old: Seq<char>, new: Seq<char>, value: u32) -> bool {
    &&& is_scalar(value) && value != 0x0D ==> {
        &&& new.len() == old.len() + 1
        &&& new.drop_last() =~= old
        &&& new.last() as u32 == value
    }
    &&& value == 0x0D ==> new =~= old.push('\n')
    &&& !is_scalar(value) ==> new =~= old
}

impl Memory {
    /// Writes the character with the code `value` to the kernel output, a carriage return as a
    /// line feed; a code that is no character is dropped.
    pub fn put_char(&mut self, value: u32)
        ensures
            char_put(old(self).kernel_stdout@, final(self).kernel_stdout@, value),
            *final(self) == (Memory { kernel_stdout: final(self).kernel_stdout, ..*old(self) }),
    {
        if let Some(c) = char_from_u32(value) {
            if value == 0x0D {
                push_char(&mut self.kernel_stdout, '\n');
            } else {
                push_char(&mut self.kernel_stdout, c);
            }
        }
    }
}

} // verus!
