//! Items related to the executable format of the PSX.
use crate::mem::Address;
use vstd::prelude::*;

verus! {

/// The size of the header of an executable; the program follows it.
pub const HEADER_SIZE: usize = 0x800;

/// Where the marker text starts in the header.
pub const MARKER_START: usize = 0x4C;

/// Header of a PSX executable.
#[derive(Debug, Clone)]
pub struct Header {
    pub initial_pc: Address,
    pub initial_gp: u32,
    pub destination: Address,
    pub length: u32,
    pub data_start: Address,
    pub data_length: u32,
    pub bss_start: Address,
    pub bss_length: u32,
    pub initial_sp_base: u32,
    pub initial_sp_offset: u32,
    /// The marker text, up to (not including) its terminating zero byte.
    pub marker: Vec<u8>,
}

/// A PSX executable.
#[derive(Debug, Clone)]
pub struct Executable {
    pub header: Header,
    pub program: Vec<u8>,
}

/// Why bytes are not an executable.
#[derive(Debug, Clone, Copy, PartialEq, Eq, Structural)]
pub enum ParseError {
    /// The bytes end before the header or the program does.
    Truncated,
    /// The bytes do not start with the magic text of an executable.
    BadMagic,
    /// The marker text has no terminating zero byte within the header.
    UnterminatedMarker,
}

/// The magic text an executable starts with: `PS-X EXE` and eight zero bytes.
pub open spec fn magic() -> Seq<u8> {
    seq![0x50u8, 0x53, 0x2D, 0x58, 0x20, 0x45, 0x58, 0x45, 0, 0, 0, 0, 0, 0, 0, 0]
}

/// The little endian word at `off` in `b`.
pub open spec fn le_u32_at(b: Seq<u8>, off: int) -> u32 {
    (b[off] + b[off + 1] * 0x100 + b[off + 2] * 0x1_0000 + b[off + 3] * 0x100_0000) as u32
}

/// The position of the first zero byte of `b` in `i..end`, if any.
pub open spec fn first_nul(b: Seq<u8>, i: int, end: int) -> Option<int>
    decreases end - i,
{
    if i >= end {
        None
    } else if b[i] == 0 {
        Some(i)
    } else {
        first_nul(b, i + 1, end)
    }
}

/// Whether `b` starts with the magic text.
pub open spec fn has_magic(b: Seq<u8>) -> bool {
    b.len() >= 16 && b.subrange(0, 16) == magic()
}

/// The outcome of parsing `b`: which error, if any.
pub open spec fn parse_error(b: Seq<u8>) -> Option<ParseError> {
    if b.len() < 16 {
        Some(ParseError::Truncated)
    } else if !has_magic(b) {
        Some(ParseError::BadMagic)
    } else if b.len() < HEADER_SIZE {
        Some(ParseError::Truncated)
    } else if first_nul(b, MARKER_START as int, HEADER_SIZE as int) is None {
        Some(ParseError::UnterminatedMarker)
    } else if b.len() < HEADER_SIZE + le_u32_at(b, 28) {
        Some(ParseError::Truncated)
    } else {
        None
    }
}

/// Whether `exe` is what the bytes `b`, which parse without error, hold: the header words in
/// order from offset 16, the marker up to its zero byte, and the program of the header's length
/// right after the header.
pub open spec fn parsed_from(exe: Executable, b: Seq<u8>) -> bool {
    let h = exe.header;
    &&& h.initial_pc.0 == le_u32_at(b, 16)
    &&& h.initial_gp == le_u32_at(b, 20)
    &&& h.destination.0 == le_u32_at(b, 24)
    &&& h.length == le_u32_at(b, 28)
    &&& h.data_start.0 == le_u32_at(b, 32)
    &&& h.data_length == le_u32_at(b, 36)
    &&& h.bss_start.0 == le_u32_at(b, 40)
    &&& h.bss_length == le_u32_at(b, 44)
    &&& h.initial_sp_base == le_u32_at(b, 48)
    &&& h.initial_sp_offset == le_u32_at(b, 52)
    &&& h.marker@ == b.subrange(
        MARKER_START as int,
        first_nul(b, MARKER_START as int, HEADER_SIZE as int).unwrap(),
    )
    &&& exe.program@ == b.subrange(HEADER_SIZE as int, HEADER_SIZE + h.length)
}

/// Reads the little endian word at `off`.
fn read_u32(b: &[u8], off: usize) -> (r: u32)
    requires
        off + 4 <= b@.len(),
    ensures
        r == le_u32_at(b@, off as int),
{
    b[off] as u32 + b[off + 1] as u32 * 0x100 + b[off + 2] as u32 * 0x1_0000 + b[off + 3] as u32
        * 0x100_0000
}

/// Copies `b[start..end]`.
fn copy_range(b: &[u8], start: usize, end: usize) -> (r: Vec<u8>)
    requires
        start <= end <= b@.len(),
    ensures
        r@ == b@.subrange(start as int, end as int),
{
    let mut out: Vec<u8> = Vec::new();
    let mut i = start;
    while i < end
        invariant
            start <= i <= end <= b@.len(),
            out@ == b@.subrange(start as int, i as int),
        decreases end - i,
    {
        out.push(b[i]);
        i += 1;
    }
    out
}

impl Executable {
    /// Parses an executable from its bytes.
    pub fn parse(b: &[u8]) -> (r: Result<Executable, ParseError>)
        ensures
            match r {
                Ok(exe) => parse_error(b@) is None && parsed_from(exe, b@),
                Err(e) => parse_error(b@) == Some(e),
            },
    {
        if b.len() < 16 {
            return Err(ParseError::Truncated);
        }
        let expected: [u8; 16] = [0x50, 0x53, 0x2D, 0x58, 0x20, 0x45, 0x58, 0x45, 0, 0, 0, 0, 0, 0, 0, 0];
        let mut i: usize = 0;
        while i < 16
            invariant
                i <= 16,
                b@.len() >= 16,
                expected@ == magic(),
                b@.subrange(0, i as int) == magic().subrange(0, i as int),
            decreases 16 - i,
        {
            if b[i] != expected[i] {
                assert(b@.subrange(0, 16)[i as int] != magic()[i as int]);
                return Err(ParseError::BadMagic);
            }
            assert(b@.subrange(0, i as int + 1) =~= b@.subrange(0, i as int).push(b@[i as int]));
            assert(magic().subrange(0, i as int + 1) =~= magic().subrange(0, i as int).push(
                magic()[i as int],
            ));
            i += 1;
        }
        assert(b@.subrange(0, 16) =~= magic());
        if b.len() < HEADER_SIZE {
            return Err(ParseError::Truncated);
        }
        let mut nul = MARKER_START;
        while nul < HEADER_SIZE && b[nul] != 0
            invariant
                MARKER_START <= nul <= HEADER_SIZE <= b@.len(),
                first_nul(b@, MARKER_START as int, HEADER_SIZE as int) == first_nul(
                    b@,
                    nul as int,
                    HEADER_SIZE as int,
                ),
            decreases HEADER_SIZE - nul,
        {
            nul += 1;
        }
        if nul == HEADER_SIZE {
            return Err(ParseError::UnterminatedMarker);
        }
        let length = read_u32(b, 28);
        if b.len() - HEADER_SIZE < length as usize {
            return Err(ParseError::Truncated);
        }
        let header = Header {
            initial_pc: Address(read_u32(b, 16)),
            initial_gp: read_u32(b, 20),
            destination: Address(read_u32(b, 24)),
            length,
            data_start: Address(read_u32(b, 32)),
            data_length: read_u32(b, 36),
            bss_start: Address(read_u32(b, 40)),
            bss_length: read_u32(b, 44),
            initial_sp_base: read_u32(b, 48),
            initial_sp_offset: read_u32(b, 52),
            marker: copy_range(b, MARKER_START, nul),
        };
        let program = copy_range(b, HEADER_SIZE, HEADER_SIZE + length as usize);
        Ok(Executable { header, program })
    }
}

} // verus!
