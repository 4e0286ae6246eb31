//! [`Instruction`], which represents a single GTE instruction, and related items.
use vstd::prelude::*;

verus! {

/// The opcode of an [`Instruction`].
#[derive(Debug, Clone, Copy, PartialEq, Eq, Structural)]
pub enum Opcode {
    /// Perspective transformation single
    RTPS,
    /// Normal clipping
    NCLIP,
    /// Cross product of two vectors
    OP,
    /// Depth cueing
    DPCS,
    /// Interpolation of vector and far color
    INTPL,
    /// Multiply vector by matrix and add offset
    MVMVA,
    /// Normal color depth cue single vector
    NCDS,
    /// Average three Z values
    AVSZ3,
    /// Average four Z values
    AVSZ4,
    /// Perspective transformation triple
    RTPT,
}

impl Opcode {
    /// The 6 bit code of this opcode.
    pub open spec fn spec_code(self) -> u32 {
        match self {
            Opcode::RTPS => 0x01,
            Opcode::NCLIP => 0x06,
            Opcode::OP => 0x0C,
            Opcode::DPCS => 0x10,
            Opcode::INTPL => 0x11,
            Opcode::MVMVA => 0x12,
            Opcode::NCDS => 0x13,
            Opcode::AVSZ3 => 0x2D,
            Opcode::AVSZ4 => 0x2E,
            Opcode::RTPT => 0x30,
        }
    }

    /// The opcode with the given 6 bit code, if any.
    pub open spec fn spec_from_code(code: u32) -> Option<Self> {
        if code == 0x01 {
            Some(Opcode::RTPS)
        } else if code == 0x06 {
            Some(Opcode::NCLIP)
        } else if code == 0x0C {
            Some(Opcode::OP)
        } else if code == 0x10 {
            Some(Opcode::DPCS)
        } else if code == 0x11 {
            Some(Opcode::INTPL)
        } else if code == 0x12 {
            Some(Opcode::MVMVA)
        } else if code == 0x13 {
            Some(Opcode::NCDS)
        } else if code == 0x2D {
            Some(Opcode::AVSZ3)
        } else if code == 0x2E {
            Some(Opcode::AVSZ4)
        } else if code == 0x30 {
            Some(Opcode::RTPT)
        } else {
            None
        }
    }

    /// Returns the opcode with the given 6 bit code, if any.
    pub fn from_code(code: u32) -> (r: Option<Self>)
        ensures
            r == Self::spec_from_code(code),
            r matches Some(op) ==> op.spec_code() == code,
    {
        match code {
            0x01 => Some(Opcode::RTPS),
            0x06 => Some(Opcode::NCLIP),
            0x0C => Some(Opcode::OP),
            0x10 => Some(Opcode::DPCS),
            0x11 => Some(Opcode::INTPL),
            0x12 => Some(Opcode::MVMVA),
            0x13 => Some(Opcode::NCDS),
            0x2D => Some(Opcode::AVSZ3),
            0x2E => Some(Opcode::AVSZ4),
            0x30 => Some(Opcode::RTPT),
            _ => None,
        }
    }
}

/// The matrix an `MVMVA` instruction multiplies by.
#[derive(Debug, Clone, Copy, PartialEq, Eq, Structural)]
pub enum MulMatrix {
    Rotation,
    Light,
    Color,
    Reserved,
}

/// The vector an `MVMVA` instruction multiplies.
#[derive(Debug, Clone, Copy, PartialEq, Eq, Structural)]
pub enum MulVector {
    Vector0,
    Vector1,
    Vector2,
    IR,
}

/// The vector an `MVMVA` instruction adds.
#[derive(Debug, Clone, Copy, PartialEq, Eq, Structural)]
pub enum OffVector {
    Translation,
    BackgroundColor,
    FarColor,
    NoOffset,
}

/// A GTE instruction.
#[derive(Debug, Clone, Copy, PartialEq, Eq, Structural, Hash)]
pub struct Instruction(pub u32);

impl Instruction {
    /// The instruction with the given bits.
    pub fn from_bits(bits: u32) -> (r: Self)
        ensures
            r.0 == bits,
    {
        Instruction(bits)
    }

    /// The bits of this instruction.
    pub fn to_bits(&self) -> (r: u32)
        ensures
            r == self.0,
    {
        self.0
    }

    /// The raw opcode, bits 0..6.
    pub open spec fn spec_op_raw(self) -> u32 {
        self.0 & 0x3F
    }

    /// Returns the raw opcode, bits 0..6.
    pub fn op_raw(&self) -> (r: u32)
        ensures
            r == self.spec_op_raw(),
            r < 0x40,
    {
        let v = self.0;
        assert(v & 0x3F < 0x40) by (bit_vector);
        v & 0x3F
    }

    /// Returns the operation executed by this instruction, if its opcode is known.
    pub fn op(&self) -> (r: Option<Opcode>)
        ensures
            r == Opcode::spec_from_code(self.spec_op_raw()),
    {
        Opcode::from_code(self.op_raw())
    }

    /// Whether the results are clamped to non-negative values, bit 10.
    pub open spec fn spec_no_neg(self) -> bool {
        (self.0 >> 10u32) & 1 == 1
    }

    /// Returns whether the results are clamped to non-negative values (bit 10).
    pub fn no_neg(&self) -> (r: bool)
        ensures
            r == self.spec_no_neg(),
    {
        (self.0 >> 10u32) & 1 == 1
    }

    /// The vector an `MVMVA` adds, bits 13..15.
    pub open spec fn spec_offset_vector(self) -> OffVector {
        let v = (self.0 >> 13u32) & 3;
        if v == 0 {
            OffVector::Translation
        } else if v == 1 {
            OffVector::BackgroundColor
        } else if v == 2 {
            OffVector::FarColor
        } else {
            OffVector::NoOffset
        }
    }

    /// Returns the vector an `MVMVA` adds (bits 13..15).
    pub fn offset_vector(&self) -> (r: OffVector)
        ensures
            r == self.spec_offset_vector(),
    {
        let v = (self.0 >> 13u32) & 3;
        if v == 0 {
            OffVector::Translation
        } else if v == 1 {
            OffVector::BackgroundColor
        } else if v == 2 {
            OffVector::FarColor
        } else {
            OffVector::NoOffset
        }
    }

    /// The vector an `MVMVA` multiplies, bits 15..17.
    pub open spec fn spec_multiply_vector(self) -> MulVector {
        let v = (self.0 >> 15u32) & 3;
        if v == 0 {
            MulVector::Vector0
        } else if v == 1 {
            MulVector::Vector1
        } else if v == 2 {
            MulVector::Vector2
        } else {
            MulVector::IR
        }
    }

    /// Returns the vector an `MVMVA` multiplies (bits 15..17).
    pub fn multiply_vector(&self) -> (r: MulVector)
        ensures
            r == self.spec_multiply_vector(),
    {
        let v = (self.0 >> 15u32) & 3;
        if v == 0 {
            MulVector::Vector0
        } else if v == 1 {
            MulVector::Vector1
        } else if v == 2 {
            MulVector::Vector2
        } else {
            MulVector::IR
        }
    }

    /// The matrix an `MVMVA` multiplies by, bits 17..19.
    pub open spec fn spec_multiply_matrix(self) -> MulMatrix {
        let v = (self.0 >> 17u32) & 3;
        if v == 0 {
            MulMatrix::Rotation
        } else if v == 1 {
            MulMatrix::Light
        } else if v == 2 {
            MulMatrix::Color
        } else {
            MulMatrix::Reserved
        }
    }

    /// Returns the matrix an `MVMVA` multiplies by (bits 17..19).
    pub fn multiply_matrix(&self) -> (r: MulMatrix)
        ensures
            r == self.spec_multiply_matrix(),
    {
        let v = (self.0 >> 17u32) & 3;
        if v == 0 {
            MulMatrix::Rotation
        } else if v == 1 {
            MulMatrix::Light
        } else if v == 2 {
            MulMatrix::Color
        } else {
            MulMatrix::Reserved
        }
    }

    /// Whether results drop their 12 bit fraction, bit 19.
    pub open spec fn spec_shift(self) -> bool {
        (self.0 >> 19u32) & 1 == 1
    }

    /// Returns whether results drop their 12 bit fraction (bit 19).
    pub fn shift(&self) -> (r: bool)
        ensures
            r == self.spec_shift(),
    {
        (self.0 >> 19u32) & 1 == 1
    }
}

} // verus!
