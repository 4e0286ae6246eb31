//! [`Instruction`], which represents a single MIPS I instruction, and related items.
use super::{Reg, COP};
use crate::bits::{bits_of, field};
use crate::gte::{ControlReg, DataReg};
use vstd::prelude::*;

verus! {

/// The opcode of an [`Instruction`].
#[derive(Debug, Clone, Copy, PartialEq, Eq, Structural)]
pub enum Opcode {
    SPECIAL,
    BZ,
    JMP,
    JAL,
    BEQ,
    BNE,
    BLEZ,
    BGTZ,
    ADDI,
    ADDIU,
    SLTI,
    SLTIU,
    ANDI,
    ORI,
    XORI,
    LUI,
    COP0,
    COP1,
    COP2,
    COP3,
    LB,
    LH,
    LWL,
    LW,
    LBU,
    LHU,
    LWR,
    SB,
    SH,
    SWL,
    SW,
    SWR,
    LWC0,
    LWC1,
    LWC2,
    LWC3,
    SWC0,
    SWC1,
    SWC2,
    SWC3,
}

impl Opcode {
    /// The code of this operation.
    pub open spec fn spec_code(self) -> u32 {
        match self {
            Opcode::SPECIAL => 0x00,
            Opcode::BZ => 0x01,
            Opcode::JMP => 0x02,
            Opcode::JAL => 0x03,
            Opcode::BEQ => 0x04,
            Opcode::BNE => 0x05,
            Opcode::BLEZ => 0x06,
            Opcode::BGTZ => 0x07,
            Opcode::ADDI => 0x08,
            Opcode::ADDIU => 0x09,
            Opcode::SLTI => 0x0A,
            Opcode::SLTIU => 0x0B,
            Opcode::ANDI => 0x0C,
            Opcode::ORI => 0x0D,
            Opcode::XORI => 0x0E,
            Opcode::LUI => 0x0F,
            Opcode::COP0 => 0x10,
            Opcode::COP1 => 0x11,
            Opcode::COP2 => 0x12,
            Opcode::COP3 => 0x13,
            Opcode::LB => 0x20,
            Opcode::LH => 0x21,
            Opcode::LWL => 0x22,
            Opcode::LW => 0x23,
            Opcode::LBU => 0x24,
            Opcode::LHU => 0x25,
            Opcode::LWR => 0x26,
            Opcode::SB => 0x28,
            Opcode::SH => 0x29,
            Opcode::SWL => 0x2A,
            Opcode::SW => 0x2B,
            Opcode::SWR => 0x2E,
            Opcode::LWC0 => 0x30,
            Opcode::LWC1 => 0x31,
            Opcode::LWC2 => 0x32,
            Opcode::LWC3 => 0x33,
            Opcode::SWC0 => 0x38,
            Opcode::SWC1 => 0x39,
            Opcode::SWC2 => 0x3A,
            Opcode::SWC3 => 0x3B,
        }
    }

    /// The operation with the given code, if there is one.
    pub open spec fn spec_from_code(code: u32) -> Option<Opcode> {
        if code == 0x00 { Some(Opcode::SPECIAL) } else if code == 0x01 { Some(Opcode::BZ) } else if code == 0x02 { Some(Opcode::JMP) } else if code == 0x03 { Some(Opcode::JAL) } else if code == 0x04 { Some(Opcode::BEQ) } else if code == 0x05 { Some(Opcode::BNE) } else if code == 0x06 { Some(Opcode::BLEZ) } else if code == 0x07 { Some(Opcode::BGTZ) } else if code == 0x08 { Some(Opcode::ADDI) } else if code == 0x09 { Some(Opcode::ADDIU) } else if code == 0x0A { Some(Opcode::SLTI) } else if code == 0x0B { Some(Opcode::SLTIU) } else if code == 0x0C { Some(Opcode::ANDI) } else if code == 0x0D { Some(Opcode::ORI) } else if code == 0x0E { Some(Opcode::XORI) } else if code == 0x0F { Some(Opcode::LUI) } else if code == 0x10 { Some(Opcode::COP0) } else if code == 0x11 { Some(Opcode::COP1) } else if code == 0x12 { Some(Opcode::COP2) } else if code == 0x13 { Some(Opcode::COP3) } else if code == 0x20 { Some(Opcode::LB) } else if code == 0x21 { Some(Opcode::LH) } else if code == 0x22 { Some(Opcode::LWL) } else if code == 0x23 { Some(Opcode::LW) } else if code == 0x24 { Some(Opcode::LBU) } else if code == 0x25 { Some(Opcode::LHU) } else if code == 0x26 { Some(Opcode::LWR) } else if code == 0x28 { Some(Opcode::SB) } else if code == 0x29 { Some(Opcode::SH) } else if code == 0x2A { Some(Opcode::SWL) } else if code == 0x2B { Some(Opcode::SW) } else if code == 0x2E { Some(Opcode::SWR) } else if code == 0x30 { Some(Opcode::LWC0) } else if code == 0x31 { Some(Opcode::LWC1) } else if code == 0x32 { Some(Opcode::LWC2) } else if code == 0x33 { Some(Opcode::LWC3) } else if code == 0x38 { Some(Opcode::SWC0) } else if code == 0x39 { Some(Opcode::SWC1) } else if code == 0x3A { Some(Opcode::SWC2) } else if code == 0x3B { Some(Opcode::SWC3) } else { None }
    }

    /// Returns the operation with the given code, if there is one.
    pub fn from_code(code: u32) -> (r: Option<Opcode>)
        ensures
            r == Self::spec_from_code(code),
            r matches Some(op) ==> op.spec_code() == code,
    {
        match code {
            0x00 => Some(Opcode::SPECIAL),
            0x01 => Some(Opcode::BZ),
            0x02 => Some(Opcode::JMP),
            0x03 => Some(Opcode::JAL),
            0x04 => Some(Opcode::BEQ),
            0x05 => Some(Opcode::BNE),
            0x06 => Some(Opcode::BLEZ),
            0x07 => Some(Opcode::BGTZ),
            0x08 => Some(Opcode::ADDI),
            0x09 => Some(Opcode::ADDIU),
            0x0A => Some(Opcode::SLTI),
            0x0B => Some(Opcode::SLTIU),
            0x0C => Some(Opcode::ANDI),
            0x0D => Some(Opcode::ORI),
            0x0E => Some(Opcode::XORI),
            0x0F => Some(Opcode::LUI),
            0x10 => Some(Opcode::COP0),
            0x11 => Some(Opcode::COP1),
            0x12 => Some(Opcode::COP2),
            0x13 => Some(Opcode::COP3),
            0x20 => Some(Opcode::LB),
            0x21 => Some(Opcode::LH),
            0x22 => Some(Opcode::LWL),
            0x23 => Some(Opcode::LW),
            0x24 => Some(Opcode::LBU),
            0x25 => Some(Opcode::LHU),
            0x26 => Some(Opcode::LWR),
            0x28 => Some(Opcode::SB),
            0x29 => Some(Opcode::SH),
            0x2A => Some(Opcode::SWL),
            0x2B => Some(Opcode::SW),
            0x2E => Some(Opcode::SWR),
            0x30 => Some(Opcode::LWC0),
            0x31 => Some(Opcode::LWC1),
            0x32 => Some(Opcode::LWC2),
            0x33 => Some(Opcode::LWC3),
            0x38 => Some(Opcode::SWC0),
            0x39 => Some(Opcode::SWC1),
            0x3A => Some(Opcode::SWC2),
            0x3B => Some(Opcode::SWC3),
            _ => None,
        }
    }
}

/// The kind of a branch on the sign of a register.
#[derive(Debug, Clone, Copy, PartialEq, Eq, Structural)]
pub enum BZKind {
    BLTZ,
    BGEZ,
    BLTZAL,
    BGEZAL,
}

impl BZKind {
    /// The code of this operation.
    pub open spec fn spec_code(self) -> u32 {
        match self {
            BZKind::BLTZ => 0x0,
            BZKind::BGEZ => 0x1,
            BZKind::BLTZAL => 0x2,
            BZKind::BGEZAL => 0x3,
        }
    }

    /// The operation with the given code, if there is one.
    pub open spec fn spec_from_code(code: u32) -> Option<BZKind> {
        if code == 0x0 { Some(BZKind::BLTZ) } else if code == 0x1 { Some(BZKind::BGEZ) } else if code == 0x2 { Some(BZKind::BLTZAL) } else if code == 0x3 { Some(BZKind::BGEZAL) } else { None }
    }

    /// Returns the operation with the given code, if there is one.
    pub fn from_code(code: u32) -> (r: Option<BZKind>)
        ensures
            r == Self::spec_from_code(code),
            r matches Some(op) ==> op.spec_code() == code,
    {
        match code {
            0x0 => Some(BZKind::BLTZ),
            0x1 => Some(BZKind::BGEZ),
            0x2 => Some(BZKind::BLTZAL),
            0x3 => Some(BZKind::BGEZAL),
            _ => None,
        }
    }
}

/// The special opcode of an [`Instruction`] whose primary opcode is [`Opcode::SPECIAL`].
#[derive(Debug, Clone, Copy, PartialEq, Eq, Structural)]
pub enum SpecialOpcode {
    SLL,
    SRL,
    SRA,
    SLLV,
    SRLV,
    SRAV,
    JR,
    JALR,
    SYSCALL,
    BREAK,
    MFHI,
    MTHI,
    MFLO,
    MTLO,
    MULT,
    MULTU,
    DIV,
    DIVU,
    ADD,
    ADDU,
    SUB,
    SUBU,
    AND,
    OR,
    XOR,
    NOR,
    SLT,
    SLTU,
}

impl SpecialOpcode {
    /// The code of this operation.
    pub open spec fn spec_code(self) -> u32 {
        match self {
            SpecialOpcode::SLL => 0x00,
            SpecialOpcode::SRL => 0x02,
            SpecialOpcode::SRA => 0x03,
            SpecialOpcode::SLLV => 0x04,
            SpecialOpcode::SRLV => 0x06,
            SpecialOpcode::SRAV => 0x07,
            SpecialOpcode::JR => 0x08,
            SpecialOpcode::JALR => 0x09,
            SpecialOpcode::SYSCALL => 0x0C,
            SpecialOpcode::BREAK => 0x0D,
            SpecialOpcode::MFHI => 0x10,
            SpecialOpcode::MTHI => 0x11,
            SpecialOpcode::MFLO => 0x12,
            SpecialOpcode::MTLO => 0x13,
            SpecialOpcode::MULT => 0x18,
            SpecialOpcode::MULTU => 0x19,
            SpecialOpcode::DIV => 0x1A,
            SpecialOpcode::DIVU => 0x1B,
            SpecialOpcode::ADD => 0x20,
            SpecialOpcode::ADDU => 0x21,
            SpecialOpcode::SUB => 0x22,
            SpecialOpcode::SUBU => 0x23,
            SpecialOpcode::AND => 0x24,
            SpecialOpcode::OR => 0x25,
            SpecialOpcode::XOR => 0x26,
            SpecialOpcode::NOR => 0x27,
            SpecialOpcode::SLT => 0x2A,
            SpecialOpcode::SLTU => 0x2B,
        }
    }

    /// The operation with the given code, if there is one.
    pub open spec fn spec_from_code(code: u32) -> Option<SpecialOpcode> {
        if code == 0x00 { Some(SpecialOpcode::SLL) } else if code == 0x02 { Some(SpecialOpcode::SRL) } else if code == 0x03 { Some(SpecialOpcode::SRA) } else if code == 0x04 { Some(SpecialOpcode::SLLV) } else if code == 0x06 { Some(SpecialOpcode::SRLV) } else if code == 0x07 { Some(SpecialOpcode::SRAV) } else if code == 0x08 { Some(SpecialOpcode::JR) } else if code == 0x09 { Some(SpecialOpcode::JALR) } else if code == 0x0C { Some(SpecialOpcode::SYSCALL) } else if code == 0x0D { Some(SpecialOpcode::BREAK) } else if code == 0x10 { Some(SpecialOpcode::MFHI) } else if code == 0x11 { Some(SpecialOpcode::MTHI) } else if code == 0x12 { Some(SpecialOpcode::MFLO) } else if code == 0x13 { Some(SpecialOpcode::MTLO) } else if code == 0x18 { Some(SpecialOpcode::MULT) } else if code == 0x19 { Some(SpecialOpcode::MULTU) } else if code == 0x1A { Some(SpecialOpcode::DIV) } else if code == 0x1B { Some(SpecialOpcode::DIVU) } else if code == 0x20 { Some(SpecialOpcode::ADD) } else if code == 0x21 { Some(SpecialOpcode::ADDU) } else if code == 0x22 { Some(SpecialOpcode::SUB) } else if code == 0x23 { Some(SpecialOpcode::SUBU) } else if code == 0x24 { Some(SpecialOpcode::AND) } else if code == 0x25 { Some(SpecialOpcode::OR) } else if code == 0x26 { Some(SpecialOpcode::XOR) } else if code == 0x27 { Some(SpecialOpcode::NOR) } else if code == 0x2A { Some(SpecialOpcode::SLT) } else if code == 0x2B { Some(SpecialOpcode::SLTU) } else { None }
    }

    /// Returns the operation with the given code, if there is one.
    pub fn from_code(code: u32) -> (r: Option<SpecialOpcode>)
        ensures
            r == Self::spec_from_code(code),
            r matches Some(op) ==> op.spec_code() == code,
    {
        match code {
            0x00 => Some(SpecialOpcode::SLL),
            0x02 => Some(SpecialOpcode::SRL),
            0x03 => Some(SpecialOpcode::SRA),
            0x04 => Some(SpecialOpcode::SLLV),
            0x06 => Some(SpecialOpcode::SRLV),
            0x07 => Some(SpecialOpcode::SRAV),
            0x08 => Some(SpecialOpcode::JR),
            0x09 => Some(SpecialOpcode::JALR),
            0x0C => Some(SpecialOpcode::SYSCALL),
            0x0D => Some(SpecialOpcode::BREAK),
            0x10 => Some(SpecialOpcode::MFHI),
            0x11 => Some(SpecialOpcode::MTHI),
            0x12 => Some(SpecialOpcode::MFLO),
            0x13 => Some(SpecialOpcode::MTLO),
            0x18 => Some(SpecialOpcode::MULT),
            0x19 => Some(SpecialOpcode::MULTU),
            0x1A => Some(SpecialOpcode::DIV),
            0x1B => Some(SpecialOpcode::DIVU),
            0x20 => Some(SpecialOpcode::ADD),
            0x21 => Some(SpecialOpcode::ADDU),
            0x22 => Some(SpecialOpcode::SUB),
            0x23 => Some(SpecialOpcode::SUBU),
            0x24 => Some(SpecialOpcode::AND),
            0x25 => Some(SpecialOpcode::OR),
            0x26 => Some(SpecialOpcode::XOR),
            0x27 => Some(SpecialOpcode::NOR),
            0x2A => Some(SpecialOpcode::SLT),
            0x2B => Some(SpecialOpcode::SLTU),
            _ => None,
        }
    }
}

/// The operation of a coprocessor instruction.
#[derive(Debug, Clone, Copy, PartialEq, Eq, Structural)]
pub enum CopOpcode {
    MFC,
    CFC,
    MTC,
    CTC,
    BRANCH,
}

impl CopOpcode {
    /// The code of this operation.
    pub open spec fn spec_code(self) -> u32 {
        match self {
            CopOpcode::MFC => 0x00,
            CopOpcode::CFC => 0x02,
            CopOpcode::MTC => 0x04,
            CopOpcode::CTC => 0x06,
            CopOpcode::BRANCH => 0x08,
        }
    }

    /// The operation with the given code, if there is one.
    pub open spec fn spec_from_code(code: u32) -> Option<CopOpcode> {
        if code == 0x00 { Some(CopOpcode::MFC) } else if code == 0x02 { Some(CopOpcode::CFC) } else if code == 0x04 { Some(CopOpcode::MTC) } else if code == 0x06 { Some(CopOpcode::CTC) } else if code == 0x08 { Some(CopOpcode::BRANCH) } else { None }
    }

    /// Returns the operation with the given code, if there is one.
    pub fn from_code(code: u32) -> (r: Option<CopOpcode>)
        ensures
            r == Self::spec_from_code(code),
            r matches Some(op) ==> op.spec_code() == code,
    {
        match code {
            0x00 => Some(CopOpcode::MFC),
            0x02 => Some(CopOpcode::CFC),
            0x04 => Some(CopOpcode::MTC),
            0x06 => Some(CopOpcode::CTC),
            0x08 => Some(CopOpcode::BRANCH),
            _ => None,
        }
    }
}

/// The special operation of a `COP0` command.
#[derive(Debug, Clone, Copy, PartialEq, Eq, Structural)]
pub enum SpecialCop0Opcode {
    RFE,
}

impl SpecialCop0Opcode {
    /// The code of this operation.
    pub open spec fn spec_code(self) -> u32 {
        match self {
            SpecialCop0Opcode::RFE => 0x10,
        }
    }

    /// The operation with the given code, if there is one.
    pub open spec fn spec_from_code(code: u32) -> Option<SpecialCop0Opcode> {
        if code == 0x10 { Some(SpecialCop0Opcode::RFE) } else { None }
    }

    /// Returns the operation with the given code, if there is one.
    pub fn from_code(code: u32) -> (r: Option<SpecialCop0Opcode>)
        ensures
            r == Self::spec_from_code(code),
            r matches Some(op) ==> op.spec_code() == code,
    {
        match code {
            0x10 => Some(SpecialCop0Opcode::RFE),
            _ => None,
        }
    }
}
/// The kind of register an instruction argument names.
#[derive(Debug, Clone, Copy, PartialEq, Eq, Structural)]
pub enum RegSource {
    CPU,
    COP0,
    COP1,
    COP2,
    COP3,
}

/// The kind of immediate an instruction takes.
#[derive(Debug, Clone, Copy, PartialEq, Eq, Structural)]
pub enum ImmKind {
    U5,
    U16,
    I16,
    U20,
    U26,
}

/// The arguments an instruction takes: which registers, of which kind, and which immediate.
#[derive(Debug, Clone, Copy, PartialEq, Eq, Structural)]
pub struct Args {
    pub rd: Option<RegSource>,
    pub rs: Option<RegSource>,
    pub rt: Option<RegSource>,
    pub imm: Option<ImmKind>,
}

impl Default for Args {
    fn default() -> (r: Self)
        ensures
            r == (Args { rd: None, rs: None, rt: None, imm: None }),
    {
        Args { rd: None, rs: None, rt: None, imm: None }
    }
}

/// A MIPS I instruction.
#[derive(Debug, Clone, Copy, PartialEq, Eq, Structural, Hash)]
pub struct Instruction(pub u32);

impl Default for Instruction {
    /// The instruction that does nothing (`NOP`, all bits zero).
    fn default() -> (r: Self)
        ensures
            r.0 == 0,
    {
        Instruction(0)
    }
}

impl Instruction {
    /// The instruction with the given bits.
    pub fn from_bits(bits: u32) -> (r: Self)
        ensures
            r.0 == bits,
    {
        Instruction(bits)
    }

    /// The bits of this instruction.
    pub fn to_bits(&self) -> (r: u32)
        ensures
            r == self.0,
    {
        self.0
    }

    /// The primary opcode, bits 26..32.
    pub open spec fn spec_op(self) -> Option<Opcode> {
        Opcode::spec_from_code(bits_of(self.0, 26, 6))
    }

    /// Returns the operation executed by this instruction, if its opcode is known.
    pub fn op(&self) -> (r: Option<Opcode>)
        ensures
            r == self.spec_op(),
    {
        Opcode::from_code(field(self.0, 26, 6))
    }

    /// Bits 17..21, which tell whether a `BZ` links (`0b1000`).
    pub fn bz_link(&self) -> (r: u32)
        ensures
            r == bits_of(self.0, 17, 4),
            r < 16,
    {
        proof {
            vstd::arithmetic::power2::lemma2_to64();
        }
        field(self.0, 17, 4)
    }

    /// Bit 16, which tells whether a `BZ` branches on greater or equal.
    pub fn bz_ge(&self) -> (r: bool)
        ensures
            r == (bits_of(self.0, 16, 1) == 1),
    {
        field(self.0, 16, 1) == 1
    }

    /// The special opcode, bits 0..6.
    pub open spec fn spec_special_op(self) -> Option<SpecialOpcode> {
        SpecialOpcode::spec_from_code(bits_of(self.0, 0, 6))
    }

    /// Returns the operation of this instruction if its primary opcode is
    /// [`Opcode::SPECIAL`], if known.
    pub fn special_op(&self) -> (r: Option<SpecialOpcode>)
        ensures
            r == self.spec_special_op(),
    {
        SpecialOpcode::from_code(field(self.0, 0, 6))
    }

    /// The coprocessor, bits 26..28.
    pub open spec fn spec_cop(self) -> COP {
        COP::spec_from_index(bits_of(self.0, 26, 2))
    }

    /// Returns the coprocessor this instruction addresses (bits 26..28).
    pub fn cop(&self) -> (r: COP)
        ensures
            r == self.spec_cop(),
    {
        proof {
            vstd::arithmetic::power2::lemma2_to64();
        }
        COP::from_index(field(self.0, 26, 2))
    }

    /// Returns whether this coprocessor instruction is a command (bit 25).
    pub fn cop_cmd(&self) -> (r: bool)
        ensures
            r == (bits_of(self.0, 25, 1) == 1),
    {
        field(self.0, 25, 1) == 1
    }

    /// The coprocessor operation, bits 21..25.
    pub open spec fn spec_cop_op(self) -> Option<CopOpcode> {
        CopOpcode::spec_from_code(bits_of(self.0, 21, 4))
    }

    /// Returns the coprocessor operation (bits 21..25), if known.
    pub fn cop_op(&self) -> (r: Option<CopOpcode>)
        ensures
            r == self.spec_cop_op(),
    {
        CopOpcode::from_code(field(self.0, 21, 4))
    }

    /// Returns the special `COP0` operation (bits 0..6), if known.
    pub fn cop0_special_op(&self) -> (r: Option<SpecialCop0Opcode>)
        ensures
            r == SpecialCop0Opcode::spec_from_code(bits_of(self.0, 0, 6)),
    {
        SpecialCop0Opcode::from_code(field(self.0, 0, 6))
    }

    /// The destination register, bits 11..16.
    pub open spec fn spec_rd(self) -> Reg {
        Reg::spec_from_index(bits_of(self.0, 11, 5))
    }

    /// Returns the destination register of this instruction (bits 11..16).
    pub fn rd(&self) -> (r: Reg)
        ensures
            r == self.spec_rd(),
    {
        proof {
            vstd::arithmetic::power2::lemma2_to64();
        }
        Reg::from_index(field(self.0, 11, 5))
    }

    /// Returns the destination register as a GTE data register (bits 11..16).
    pub fn gte_data_rd(&self) -> (r: DataReg)
        ensures
            r.spec_index() == bits_of(self.0, 11, 5),
    {
        proof {
            vstd::arithmetic::power2::lemma2_to64();
        }
        DataReg::from_index(field(self.0, 11, 5) as usize).unwrap()
    }

    /// Returns the destination register as a GTE control register (bits 11..16).
    pub fn gte_control_rd(&self) -> (r: ControlReg)
        ensures
            r.spec_index() == bits_of(self.0, 11, 5),
    {
        proof {
            vstd::arithmetic::power2::lemma2_to64();
        }
        ControlReg::from_index(field(self.0, 11, 5) as usize).unwrap()
    }

    /// The target register, bits 16..21.
    pub open spec fn spec_rt(self) -> Reg {
        Reg::spec_from_index(bits_of(self.0, 16, 5))
    }

    /// Returns the target register of this instruction (bits 16..21).
    pub fn rt(&self) -> (r: Reg)
        ensures
            r == self.spec_rt(),
    {
        proof {
            vstd::arithmetic::power2::lemma2_to64();
        }
        Reg::from_index(field(self.0, 16, 5))
    }

    /// Returns the target register as a GTE data register (bits 16..21).
    pub fn gte_data_rt(&self) -> (r: DataReg)
        ensures
            r.spec_index() == bits_of(self.0, 16, 5),
    {
        proof {
            vstd::arithmetic::power2::lemma2_to64();
        }
        DataReg::from_index(field(self.0, 16, 5) as usize).unwrap()
    }

    /// The source register, bits 21..26.
    pub open spec fn spec_rs(self) -> Reg {
        Reg::spec_from_index(bits_of(self.0, 21, 5))
    }

    /// Returns the source register of this instruction (bits 21..26).
    pub fn rs(&self) -> (r: Reg)
        ensures
            r == self.spec_rs(),
    {
        proof {
            vstd::arithmetic::power2::lemma2_to64();
        }
        Reg::from_index(field(self.0, 21, 5))
    }

    /// Returns the 5 bit immediate (bits 6..11).
    pub fn imm5(&self) -> (r: u32)
        ensures
            r == bits_of(self.0, 6, 5),
            r < 32,
    {
        proof {
            vstd::arithmetic::power2::lemma2_to64();
        }
        field(self.0, 6, 5)
    }

    /// Returns the unsigned 16 bit immediate (bits 0..16).
    pub fn imm16(&self) -> (r: u16)
        ensures
            r == bits_of(self.0, 0, 16),
    {
        proof {
            vstd::arithmetic::power2::lemma2_to64();
        }
        field(self.0, 0, 16) as u16
    }

    /// The signed 16 bit immediate, bits 0..16 read as two's complement.
    pub open spec fn spec_signed_imm16(self) -> i16 {
        let v = bits_of(self.0, 0, 16);
        if v >= 0x8000 {
            (v - 0x1_0000) as i16
        } else {
            v as i16
        }
    }

    /// Returns the signed 16 bit immediate (bits 0..16).
    pub fn signed_imm16(&self) -> (r: i16)
        ensures
            r == self.spec_signed_imm16(),
    {
        proof {
            vstd::arithmetic::power2::lemma2_to64();
        }
        let v = field(self.0, 0, 16);
        if v >= 0x8000 {
            (v as i32 - 0x1_0000) as i16
        } else {
            v as i16
        }
    }

    /// Returns the 20 bit immediate (bits 6..26).
    pub fn imm20(&self) -> (r: u32)
        ensures
            r == bits_of(self.0, 6, 20),
    {
        field(self.0, 6, 20)
    }

    /// Returns the 25 bit immediate (bits 0..25), used by `COP2` commands.
    pub fn imm25(&self) -> (r: u32)
        ensures
            r == bits_of(self.0, 0, 25),
    {
        field(self.0, 0, 25)
    }

    /// The 26 bit immediate, bits 0..26.
    pub open spec fn spec_imm26(self) -> u32 {
        bits_of(self.0, 0, 26)
    }

    /// Returns the 26 bit immediate (bits 0..26).
    pub fn imm26(&self) -> (r: u32)
        ensures
            r == self.spec_imm26(),
            r < 0x400_0000,
    {
        proof {
            vstd::arithmetic::power2::lemma2_to64();
        }
        field(self.0, 0, 26)
    }

    /// The kind of a `BZ` branch: bit 16 chooses greater or equal, bits 17..21 equal to `0b1000`
    /// choose linking.
    pub open spec fn spec_bz_kind(self) -> BZKind {
        let ge = bits_of(self.0, 16, 1) == 1;
        let link = bits_of(self.0, 17, 4) == 0b1000;
        if ge && link {
            BZKind::BGEZAL
        } else if ge {
            BZKind::BGEZ
        } else if link {
            BZKind::BLTZAL
        } else {
            BZKind::BLTZ
        }
    }

    /// Returns the kind of this `BZ` branch.
    pub fn bz_kind(&self) -> (r: BZKind)
        ensures
            r == self.spec_bz_kind(),
    {
        let ge = self.bz_ge();
        let link = self.bz_link() == 0b1000;
        if ge && link {
            BZKind::BGEZAL
        } else if ge {
            BZKind::BGEZ
        } else if link {
            BZKind::BLTZAL
        } else {
            BZKind::BLTZ
        }
    }

    /// Whether this instruction is illegal: its opcode is unknown, it is `SPECIAL` with an
    /// unknown special opcode, or it is a `COP0` or `COP2` instruction with an unknown operation.
    pub open spec fn spec_is_illegal(self) -> bool {
        match self.spec_op() {
            None => true,
            Some(Opcode::SPECIAL) => self.spec_special_op() is None,
            Some(Opcode::COP0) | Some(Opcode::COP2) => self.spec_cop_op() is None,
            _ => false,
        }
    }

    /// Returns whether this instruction is illegal.
    pub fn is_illegal(&self) -> (r: bool)
        ensures
            r == self.spec_is_illegal(),
    {
        let op = self.op();
        if op.is_none() {
            true
        } else if op == Some(Opcode::SPECIAL) {
            self.special_op().is_none()
        } else if op == Some(Opcode::COP0) || op == Some(Opcode::COP2) {
            self.cop_op().is_none()
        } else {
            false
        }
    }

    /// The arguments of this instruction, if it is a legal one.
    pub open spec fn spec_args(self) -> Option<Args> {
        match self.spec_op() {
            None => None,
            Some(op) => match op {
                Opcode::SPECIAL => match self.spec_special_op() {
                    None => None,
                    Some(sop) => Some(match sop {
                        SpecialOpcode::SLL => Args { rd: Some(RegSource::CPU), rs: None, rt: Some(RegSource::CPU), imm: Some(ImmKind::U5) },
                        SpecialOpcode::SRL => Args { rd: Some(RegSource::CPU), rs: None, rt: Some(RegSource::CPU), imm: Some(ImmKind::U5) },
                        SpecialOpcode::SRA => Args { rd: Some(RegSource::CPU), rs: None, rt: Some(RegSource::CPU), imm: Some(ImmKind::U5) },
                        SpecialOpcode::SLLV => Args { rd: Some(RegSource::CPU), rs: Some(RegSource::CPU), rt: Some(RegSource::CPU), imm: None },
                        SpecialOpcode::SRLV => Args { rd: Some(RegSource::CPU), rs: Some(RegSource::CPU), rt: Some(RegSource::CPU), imm: None },
                        SpecialOpcode::SRAV => Args { rd: Some(RegSource::CPU), rs: Some(RegSource::CPU), rt: Some(RegSource::CPU), imm: None },
                        SpecialOpcode::JR => Args { rd: None, rs: Some(RegSource::CPU), rt: None, imm: None },
                        SpecialOpcode::JALR => Args { rd: Some(RegSource::CPU), rs: Some(RegSource::CPU), rt: None, imm: None },
                        SpecialOpcode::SYSCALL => Args { rd: None, rs: None, rt: None, imm: Some(ImmKind::U20) },
                        SpecialOpcode::BREAK => Args { rd: None, rs: None, rt: None, imm: Some(ImmKind::U20) },
                        SpecialOpcode::MFHI => Args { rd: Some(RegSource::CPU), rs: None, rt: None, imm: None },
                        SpecialOpcode::MTHI => Args { rd: None, rs: Some(RegSource::CPU), rt: None, imm: None },
                        SpecialOpcode::MFLO => Args { rd: Some(RegSource::CPU), rs: None, rt: None, imm: None },
                        SpecialOpcode::MTLO => Args { rd: None, rs: Some(RegSource::CPU), rt: None, imm: None },
                        SpecialOpcode::MULT => Args { rd: None, rs: Some(RegSource::CPU), rt: Some(RegSource::CPU), imm: None },
                        SpecialOpcode::MULTU => Args { rd: None, rs: Some(RegSource::CPU), rt: Some(RegSource::CPU), imm: None },
                        SpecialOpcode::DIV => Args { rd: None, rs: Some(RegSource::CPU), rt: Some(RegSource::CPU), imm: None },
                        SpecialOpcode::DIVU => Args { rd: None, rs: Some(RegSource::CPU), rt: Some(RegSource::CPU), imm: None },
                        SpecialOpcode::ADD => Args { rd: Some(RegSource::CPU), rs: Some(RegSource::CPU), rt: Some(RegSource::CPU), imm: None },
                        SpecialOpcode::ADDU => Args { rd: Some(RegSource::CPU), rs: Some(RegSource::CPU), rt: Some(RegSource::CPU), imm: None },
                        SpecialOpcode::SUB => Args { rd: Some(RegSource::CPU), rs: Some(RegSource::CPU), rt: Some(RegSource::CPU), imm: None },
                        SpecialOpcode::SUBU => Args { rd: Some(RegSource::CPU), rs: Some(RegSource::CPU), rt: Some(RegSource::CPU), imm: None },
                        SpecialOpcode::AND => Args { rd: Some(RegSource::CPU), rs: Some(RegSource::CPU), rt: Some(RegSource::CPU), imm: None },
                        SpecialOpcode::OR => Args { rd: Some(RegSource::CPU), rs: Some(RegSource::CPU), rt: Some(RegSource::CPU), imm: None },
                        SpecialOpcode::XOR => Args { rd: Some(RegSource::CPU), rs: Some(RegSource::CPU), rt: Some(RegSource::CPU), imm: None },
                        SpecialOpcode::NOR => Args { rd: Some(RegSource::CPU), rs: Some(RegSource::CPU), rt: Some(RegSource::CPU), imm: None },
                        SpecialOpcode::SLT => Args { rd: Some(RegSource::CPU), rs: Some(RegSource::CPU), rt: Some(RegSource::CPU), imm: None },
                        SpecialOpcode::SLTU => Args { rd: Some(RegSource::CPU), rs: Some(RegSource::CPU), rt: Some(RegSource::CPU), imm: None },
                    }),
                },
                Opcode::BZ => Some(Args { rd: None, rs: Some(RegSource::CPU), rt: None, imm: Some(ImmKind::I16) }),
                Opcode::JMP => Some(Args { rd: None, rs: None, rt: None, imm: Some(ImmKind::U26) }),
                Opcode::JAL => Some(Args { rd: None, rs: None, rt: None, imm: Some(ImmKind::U26) }),
                Opcode::BEQ => Some(Args { rd: None, rs: Some(RegSource::CPU), rt: Some(RegSource::CPU), imm: Some(ImmKind::U16) }),
                Opcode::BNE => Some(Args { rd: None, rs: Some(RegSource::CPU), rt: Some(RegSource::CPU), imm: Some(ImmKind::U16) }),
                Opcode::BLEZ => Some(Args { rd: None, rs: Some(RegSource::CPU), rt: None, imm: Some(ImmKind::U16) }),
                Opcode::BGTZ => Some(Args { rd: None, rs: Some(RegSource::CPU), rt: None, imm: Some(ImmKind::U16) }),
                Opcode::ADDI => Some(Args { rd: None, rs: Some(RegSource::CPU), rt: Some(RegSource::CPU), imm: Some(ImmKind::I16) }),
                Opcode::ADDIU => Some(Args { rd: None, rs: Some(RegSource::CPU), rt: Some(RegSource::CPU), imm: Some(ImmKind::U16) }),
                Opcode::SLTI => Some(Args { rd: None, rs: Some(RegSource::CPU), rt: Some(RegSource::CPU), imm: Some(ImmKind::I16) }),
                Opcode::SLTIU => Some(Args { rd: None, rs: Some(RegSource::CPU), rt: Some(RegSource::CPU), imm: Some(ImmKind::U16) }),
                Opcode::ANDI => Some(Args { rd: None, rs: Some(RegSource::CPU), rt: Some(RegSource::CPU), imm: Some(ImmKind::U16) }),
                Opcode::ORI => Some(Args { rd: None, rs: Some(RegSource::CPU), rt: Some(RegSource::CPU), imm: Some(ImmKind::U16) }),
                Opcode::XORI => Some(Args { rd: None, rs: Some(RegSource::CPU), rt: Some(RegSource::CPU), imm: Some(ImmKind::U16) }),
                Opcode::LUI => Some(Args { rd: None, rs: None, rt: Some(RegSource::CPU), imm: Some(ImmKind::U16) }),
                Opcode::LB => Some(Args { rd: None, rs: Some(RegSource::CPU), rt: Some(RegSource::CPU), imm: Some(ImmKind::U16) }),
                Opcode::LH => Some(Args { rd: None, rs: Some(RegSource::CPU), rt: Some(RegSource::CPU), imm: Some(ImmKind::U16) }),
                Opcode::LWL => Some(Args { rd: None, rs: Some(RegSource::CPU), rt: Some(RegSource::CPU), imm: Some(ImmKind::U16) }),
                Opcode::LW => Some(Args { rd: None, rs: Some(RegSource::CPU), rt: Some(RegSource::CPU), imm: Some(ImmKind::U16) }),
                Opcode::LBU => Some(Args { rd: None, rs: Some(RegSource::CPU), rt: Some(RegSource::CPU), imm: Some(ImmKind::U16) }),
                Opcode::LHU => Some(Args { rd: None, rs: Some(RegSource::CPU), rt: Some(RegSource::CPU), imm: Some(ImmKind::U16) }),
                Opcode::LWR => Some(Args { rd: None, rs: Some(RegSource::CPU), rt: Some(RegSource::CPU), imm: Some(ImmKind::U16) }),
                Opcode::SB => Some(Args { rd: None, rs: Some(RegSource::CPU), rt: Some(RegSource::CPU), imm: Some(ImmKind::U16) }),
                Opcode::SH => Some(Args { rd: None, rs: Some(RegSource::CPU), rt: Some(RegSource::CPU), imm: Some(ImmKind::U16) }),
                Opcode::SWL => Some(Args { rd: None, rs: Some(RegSource::CPU), rt: Some(RegSource::CPU), imm: Some(ImmKind::U16) }),
                Opcode::SW => Some(Args { rd: None, rs: Some(RegSource::CPU), rt: Some(RegSource::CPU), imm: Some(ImmKind::U16) }),
                Opcode::SWR => Some(Args { rd: None, rs: Some(RegSource::CPU), rt: Some(RegSource::CPU), imm: Some(ImmKind::U16) }),
                Opcode::LWC0 => Some(Args { rd: None, rs: Some(RegSource::CPU), rt: Some(RegSource::COP0), imm: Some(ImmKind::U16) }),
                Opcode::LWC1 => Some(Args { rd: None, rs: Some(RegSource::CPU), rt: Some(RegSource::COP0), imm: Some(ImmKind::U16) }),
                Opcode::LWC2 => Some(Args { rd: None, rs: Some(RegSource::CPU), rt: Some(RegSource::COP2), imm: Some(ImmKind::U16) }),
                Opcode::LWC3 => Some(Args { rd: None, rs: Some(RegSource::CPU), rt: Some(RegSource::COP0), imm: Some(ImmKind::U16) }),
                Opcode::SWC0 => Some(Args { rd: None, rs: Some(RegSource::CPU), rt: Some(RegSource::COP0), imm: Some(ImmKind::U16) }),
                Opcode::SWC1 => Some(Args { rd: None, rs: Some(RegSource::CPU), rt: Some(RegSource::COP1), imm: Some(ImmKind::U16) }),
                Opcode::SWC2 => Some(Args { rd: None, rs: Some(RegSource::CPU), rt: Some(RegSource::COP2), imm: Some(ImmKind::U16) }),
                Opcode::SWC3 => Some(Args { rd: None, rs: Some(RegSource::CPU), rt: Some(RegSource::COP3), imm: Some(ImmKind::U16) }),
                Opcode::COP0 => match self.spec_cop_op() {
                    None => None,
                    Some(cop_op) => Some(match cop_op {
                        CopOpcode::MFC => Args { rd: Some(RegSource::COP0), rs: None, rt: Some(RegSource::CPU), imm: None },
                        CopOpcode::CFC => Args { rd: Some(RegSource::COP0), rs: None, rt: Some(RegSource::CPU), imm: None },
                        CopOpcode::MTC => Args { rd: Some(RegSource::COP0), rs: None, rt: Some(RegSource::CPU), imm: None },
                        CopOpcode::CTC => Args { rd: Some(RegSource::COP0), rs: None, rt: Some(RegSource::CPU), imm: None },
                        CopOpcode::BRANCH => Args { rd: None, rs: None, rt: None, imm: None },
                    }),
                },
                Opcode::COP1 => match self.spec_cop_op() {
                    None => None,
                    Some(cop_op) => Some(match cop_op {
                        CopOpcode::MFC => Args { rd: Some(RegSource::COP1), rs: None, rt: Some(RegSource::CPU), imm: None },
                        CopOpcode::CFC => Args { rd: Some(RegSource::COP1), rs: None, rt: Some(RegSource::CPU), imm: None },
                        CopOpcode::MTC => Args { rd: Some(RegSource::COP1), rs: None, rt: Some(RegSource::CPU), imm: None },
                        CopOpcode::CTC => Args { rd: Some(RegSource::COP1), rs: None, rt: Some(RegSource::CPU), imm: None },
                        CopOpcode::BRANCH => Args { rd: None, rs: None, rt: None, imm: None },
                    }),
                },
                Opcode::COP2 => match self.spec_cop_op() {
                    None => None,
                    Some(cop_op) => Some(match cop_op {
                        CopOpcode::MFC => Args { rd: Some(RegSource::COP2), rs: None, rt: Some(RegSource::CPU), imm: None },
                        CopOpcode::CFC => Args { rd: Some(RegSource::COP2), rs: None, rt: Some(RegSource::CPU), imm: None },
                        CopOpcode::MTC => Args { rd: Some(RegSource::COP2), rs: None, rt: Some(RegSource::CPU), imm: None },
                        CopOpcode::CTC => Args { rd: Some(RegSource::COP2), rs: None, rt: Some(RegSource::CPU), imm: None },
                        CopOpcode::BRANCH => Args { rd: None, rs: None, rt: None, imm: None },
                    }),
                },
                Opcode::COP3 => match self.spec_cop_op() {
                    None => None,
                    Some(cop_op) => Some(match cop_op {
                        CopOpcode::MFC => Args { rd: Some(RegSource::COP3), rs: None, rt: Some(RegSource::CPU), imm: None },
                        CopOpcode::CFC => Args { rd: Some(RegSource::COP3), rs: None, rt: Some(RegSource::CPU), imm: None },
                        CopOpcode::MTC => Args { rd: Some(RegSource::COP3), rs: None, rt: Some(RegSource::CPU), imm: None },
                        CopOpcode::CTC => Args { rd: Some(RegSource::COP3), rs: None, rt: Some(RegSource::CPU), imm: None },
                        CopOpcode::BRANCH => Args { rd: None, rs: None, rt: None, imm: None },
                    }),
                },
            },
        }
    }

    /// Returns the arguments of this instruction, if it is a legal one.
    pub fn args(&self) -> (r: Option<Args>)
        ensures
            r == self.spec_args(),
    {
        match self.op() {
            None => None,
            Some(op) => match op {
                Opcode::SPECIAL => match self.special_op() {
                    None => None,
                    Some(sop) => Some(match sop {
                        SpecialOpcode::SLL => Args { rd: Some(RegSource::CPU), rs: None, rt: Some(RegSource::CPU), imm: Some(ImmKind::U5) },
                        SpecialOpcode::SRL => Args { rd: Some(RegSource::CPU), rs: None, rt: Some(RegSource::CPU), imm: Some(ImmKind::U5) },
                        SpecialOpcode::SRA => Args { rd: Some(RegSource::CPU), rs: None, rt: Some(RegSource::CPU), imm: Some(ImmKind::U5) },
                        SpecialOpcode::SLLV => Args { rd: Some(RegSource::CPU), rs: Some(RegSource::CPU), rt: Some(RegSource::CPU), imm: None },
                        SpecialOpcode::SRLV => Args { rd: Some(RegSource::CPU), rs: Some(RegSource::CPU), rt: Some(RegSource::CPU), imm: None },
                        SpecialOpcode::SRAV => Args { rd: Some(RegSource::CPU), rs: Some(RegSource::CPU), rt: Some(RegSource::CPU), imm: None },
                        SpecialOpcode::JR => Args { rd: None, rs: Some(RegSource::CPU), rt: None, imm: None },
                        SpecialOpcode::JALR => Args { rd: Some(RegSource::CPU), rs: Some(RegSource::CPU), rt: None, imm: None },
                        SpecialOpcode::SYSCALL => Args { rd: None, rs: None, rt: None, imm: Some(ImmKind::U20) },
                        SpecialOpcode::BREAK => Args { rd: None, rs: None, rt: None, imm: Some(ImmKind::U20) },
                        SpecialOpcode::MFHI => Args { rd: Some(RegSource::CPU), rs: None, rt: None, imm: None },
                        SpecialOpcode::MTHI => Args { rd: None, rs: Some(RegSource::CPU), rt: None, imm: None },
                        SpecialOpcode::MFLO => Args { rd: Some(RegSource::CPU), rs: None, rt: None, imm: None },
                        SpecialOpcode::MTLO => Args { rd: None, rs: Some(RegSource::CPU), rt: None, imm: None },
                        SpecialOpcode::MULT => Args { rd: None, rs: Some(RegSource::CPU), rt: Some(RegSource::CPU), imm: None },
                        SpecialOpcode::MULTU => Args { rd: None, rs: Some(RegSource::CPU), rt: Some(RegSource::CPU), imm: None },
                        SpecialOpcode::DIV => Args { rd: None, rs: Some(RegSource::CPU), rt: Some(RegSource::CPU), imm: None },
                        SpecialOpcode::DIVU => Args { rd: None, rs: Some(RegSource::CPU), rt: Some(RegSource::CPU), imm: None },
                        SpecialOpcode::ADD => Args { rd: Some(RegSource::CPU), rs: Some(RegSource::CPU), rt: Some(RegSource::CPU), imm: None },
                        SpecialOpcode::ADDU => Args { rd: Some(RegSource::CPU), rs: Some(RegSource::CPU), rt: Some(RegSource::CPU), imm: None },
                        SpecialOpcode::SUB => Args { rd: Some(RegSource::CPU), rs: Some(RegSource::CPU), rt: Some(RegSource::CPU), imm: None },
                        SpecialOpcode::SUBU => Args { rd: Some(RegSource::CPU), rs: Some(RegSource::CPU), rt: Some(RegSource::CPU), imm: None },
                        SpecialOpcode::AND => Args { rd: Some(RegSource::CPU), rs: Some(RegSource::CPU), rt: Some(RegSource::CPU), imm: None },
                        SpecialOpcode::OR => Args { rd: Some(RegSource::CPU), rs: Some(RegSource::CPU), rt: Some(RegSource::CPU), imm: None },
                        SpecialOpcode::XOR => Args { rd: Some(RegSource::CPU), rs: Some(RegSource::CPU), rt: Some(RegSource::CPU), imm: None },
                        SpecialOpcode::NOR => Args { rd: Some(RegSource::CPU), rs: Some(RegSource::CPU), rt: Some(RegSource::CPU), imm: None },
                        SpecialOpcode::SLT => Args { rd: Some(RegSource::CPU), rs: Some(RegSource::CPU), rt: Some(RegSource::CPU), imm: None },
                        SpecialOpcode::SLTU => Args { rd: Some(RegSource::CPU), rs: Some(RegSource::CPU), rt: Some(RegSource::CPU), imm: None },
                    }),
                },
                Opcode::BZ => Some(Args { rd: None, rs: Some(RegSource::CPU), rt: None, imm: Some(ImmKind::I16) }),
                Opcode::JMP => Some(Args { rd: None, rs: None, rt: None, imm: Some(ImmKind::U26) }),
                Opcode::JAL => Some(Args { rd: None, rs: None, rt: None, imm: Some(ImmKind::U26) }),
                Opcode::BEQ => Some(Args { rd: None, rs: Some(RegSource::CPU), rt: Some(RegSource::CPU), imm: Some(ImmKind::U16) }),
                Opcode::BNE => Some(Args { rd: None, rs: Some(RegSource::CPU), rt: Some(RegSource::CPU), imm: Some(ImmKind::U16) }),
                Opcode::BLEZ => Some(Args { rd: None, rs: Some(RegSource::CPU), rt: None, imm: Some(ImmKind::U16) }),
                Opcode::BGTZ => Some(Args { rd: None, rs: Some(RegSource::CPU), rt: None, imm: Some(ImmKind::U16) }),
                Opcode::ADDI => Some(Args { rd: None, rs: Some(RegSource::CPU), rt: Some(RegSource::CPU), imm: Some(ImmKind::I16) }),
                Opcode::ADDIU => Some(Args { rd: None, rs: Some(RegSource::CPU), rt: Some(RegSource::CPU), imm: Some(ImmKind::U16) }),
                Opcode::SLTI => Some(Args { rd: None, rs: Some(RegSource::CPU), rt: Some(RegSource::CPU), imm: Some(ImmKind::I16) }),
                Opcode::SLTIU => Some(Args { rd: None, rs: Some(RegSource::CPU), rt: Some(RegSource::CPU), imm: Some(ImmKind::U16) }),
                Opcode::ANDI => Some(Args { rd: None, rs: Some(RegSource::CPU), rt: Some(RegSource::CPU), imm: Some(ImmKind::U16) }),
                Opcode::ORI => Some(Args { rd: None, rs: Some(RegSource::CPU), rt: Some(RegSource::CPU), imm: Some(ImmKind::U16) }),
                Opcode::XORI => Some(Args { rd: None, rs: Some(RegSource::CPU), rt: Some(RegSource::CPU), imm: Some(ImmKind::U16) }),
                Opcode::LUI => Some(Args { rd: None, rs: None, rt: Some(RegSource::CPU), imm: Some(ImmKind::U16) }),
                Opcode::LB => Some(Args { rd: None, rs: Some(RegSource::CPU), rt: Some(RegSource::CPU), imm: Some(ImmKind::U16) }),
                Opcode::LH => Some(Args { rd: None, rs: Some(RegSource::CPU), rt: Some(RegSource::CPU), imm: Some(ImmKind::U16) }),
                Opcode::LWL => Some(Args { rd: None, rs: Some(RegSource::CPU), rt: Some(RegSource::CPU), imm: Some(ImmKind::U16) }),
                Opcode::LW => Some(Args { rd: None, rs: Some(RegSource::CPU), rt: Some(RegSource::CPU), imm: Some(ImmKind::U16) }),
                Opcode::LBU => Some(Args { rd: None, rs: Some(RegSource::CPU), rt: Some(RegSource::CPU), imm: Some(ImmKind::U16) }),
                Opcode::LHU => Some(Args { rd: None, rs: Some(RegSource::CPU), rt: Some(RegSource::CPU), imm: Some(ImmKind::U16) }),
                Opcode::LWR => Some(Args { rd: None, rs: Some(RegSource::CPU), rt: Some(RegSource::CPU), imm: Some(ImmKind::U16) }),
                Opcode::SB => Some(Args { rd: None, rs: Some(RegSource::CPU), rt: Some(RegSource::CPU), imm: Some(ImmKind::U16) }),
                Opcode::SH => Some(Args { rd: None, rs: Some(RegSource::CPU), rt: Some(RegSource::CPU), imm: Some(ImmKind::U16) }),
                Opcode::SWL => Some(Args { rd: None, rs: Some(RegSource::CPU), rt: Some(RegSource::CPU), imm: Some(ImmKind::U16) }),
                Opcode::SW => Some(Args { rd: None, rs: Some(RegSource::CPU), rt: Some(RegSource::CPU), imm: Some(ImmKind::U16) }),
                Opcode::SWR => Some(Args { rd: None, rs: Some(RegSource::CPU), rt: Some(RegSource::CPU), imm: Some(ImmKind::U16) }),
                Opcode::LWC0 => Some(Args { rd: None, rs: Some(RegSource::CPU), rt: Some(RegSource::COP0), imm: Some(ImmKind::U16) }),
                Opcode::LWC1 => Some(Args { rd: None, rs: Some(RegSource::CPU), rt: Some(RegSource::COP0), imm: Some(ImmKind::U16) }),
                Opcode::LWC2 => Some(Args { rd: None, rs: Some(RegSource::CPU), rt: Some(RegSource::COP2), imm: Some(ImmKind::U16) }),
                Opcode::LWC3 => Some(Args { rd: None, rs: Some(RegSource::CPU), rt: Some(RegSource::COP0), imm: Some(ImmKind::U16) }),
                Opcode::SWC0 => Some(Args { rd: None, rs: Some(RegSource::CPU), rt: Some(RegSource::COP0), imm: Some(ImmKind::U16) }),
                Opcode::SWC1 => Some(Args { rd: None, rs: Some(RegSource::CPU), rt: Some(RegSource::COP1), imm: Some(ImmKind::U16) }),
                Opcode::SWC2 => Some(Args { rd: None, rs: Some(RegSource::CPU), rt: Some(RegSource::COP2), imm: Some(ImmKind::U16) }),
                Opcode::SWC3 => Some(Args { rd: None, rs: Some(RegSource::CPU), rt: Some(RegSource::COP3), imm: Some(ImmKind::U16) }),
                Opcode::COP0 => match self.cop_op() {
                    None => None,
                    Some(cop_op) => Some(match cop_op {
                        CopOpcode::MFC => Args { rd: Some(RegSource::COP0), rs: None, rt: Some(RegSource::CPU), imm: None },
                        CopOpcode::CFC => Args { rd: Some(RegSource::COP0), rs: None, rt: Some(RegSource::CPU), imm: None },
                        CopOpcode::MTC => Args { rd: Some(RegSource::COP0), rs: None, rt: Some(RegSource::CPU), imm: None },
                        CopOpcode::CTC => Args { rd: Some(RegSource::COP0), rs: None, rt: Some(RegSource::CPU), imm: None },
                        CopOpcode::BRANCH => Args { rd: None, rs: None, rt: None, imm: None },
                    }),
                },
                Opcode::COP1 => match self.cop_op() {
                    None => None,
                    Some(cop_op) => Some(match cop_op {
                        CopOpcode::MFC => Args { rd: Some(RegSource::COP1), rs: None, rt: Some(RegSource::CPU), imm: None },
                        CopOpcode::CFC => Args { rd: Some(RegSource::COP1), rs: None, rt: Some(RegSource::CPU), imm: None },
                        CopOpcode::MTC => Args { rd: Some(RegSource::COP1), rs: None, rt: Some(RegSource::CPU), imm: None },
                        CopOpcode::CTC => Args { rd: Some(RegSource::COP1), rs: None, rt: Some(RegSource::CPU), imm: None },
                        CopOpcode::BRANCH => Args { rd: None, rs: None, rt: None, imm: None },
                    }),
                },
                Opcode::COP2 => match self.cop_op() {
                    None => None,
                    Some(cop_op) => Some(match cop_op {
                        CopOpcode::MFC => Args { rd: Some(RegSource::COP2), rs: None, rt: Some(RegSource::CPU), imm: None },
                        CopOpcode::CFC => Args { rd: Some(RegSource::COP2), rs: None, rt: Some(RegSource::CPU), imm: None },
                        CopOpcode::MTC => Args { rd: Some(RegSource::COP2), rs: None, rt: Some(RegSource::CPU), imm: None },
                        CopOpcode::CTC => Args { rd: Some(RegSource::COP2), rs: None, rt: Some(RegSource::CPU), imm: None },
                        CopOpcode::BRANCH => Args { rd: None, rs: None, rt: None, imm: None },
                    }),
                },
                Opcode::COP3 => match self.cop_op() {
                    None => None,
                    Some(cop_op) => Some(match cop_op {
                        CopOpcode::MFC => Args { rd: Some(RegSource::COP3), rs: None, rt: Some(RegSource::CPU), imm: None },
                        CopOpcode::CFC => Args { rd: Some(RegSource::COP3), rs: None, rt: Some(RegSource::CPU), imm: None },
                        CopOpcode::MTC => Args { rd: Some(RegSource::COP3), rs: None, rt: Some(RegSource::CPU), imm: None },
                        CopOpcode::CTC => Args { rd: Some(RegSource::COP3), rs: None, rt: Some(RegSource::CPU), imm: None },
                        CopOpcode::BRANCH => Args { rd: None, rs: None, rt: None, imm: None },
                    }),
                },
            },
        }
    }
}

} // verus!
