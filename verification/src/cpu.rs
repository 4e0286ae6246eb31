//! Items related to the CPU of the PSX, the R3000.
pub mod cop0;
pub mod cycle;
pub mod gte;
pub mod instr;
pub mod interpreter;

use crate::mem;
use vstd::prelude::*;

verus! {

/// The frequency of the CPU, in Hz.
pub const FREQUENCY: u32 = 33_870_000;

/// A CPU coprocessor kind.
#[derive(Debug, Clone, Copy, PartialEq, Eq, Structural)]
pub enum COP {
    /// System Coprocessor
    COP0,
    /// Floating Point Unit, absent in the PSX
    COP1,
    /// GTE
    COP2,
    /// Absent in the PSX
    COP3,
}

impl COP {
    /// The opcode of the instructions of this coprocessor.
    pub open spec fn spec_opcode(self) -> instr::Opcode {
        match self {
            COP::COP0 => instr::Opcode::COP0,
            COP::COP1 => instr::Opcode::COP1,
            COP::COP2 => instr::Opcode::COP2,
            COP::COP3 => instr::Opcode::COP3,
        }
    }

    /// Returns the opcode of the instructions of this coprocessor.
    pub fn opcode(&self) -> (r: instr::Opcode)
        ensures
            r == self.spec_opcode(),
    {
        match self {
            COP::COP0 => instr::Opcode::COP0,
            COP::COP1 => instr::Opcode::COP1,
            COP::COP2 => instr::Opcode::COP2,
            COP::COP3 => instr::Opcode::COP3,
        }
    }

    /// The coprocessor with the given number (`0..4`).
    pub open spec fn spec_from_index(i: u32) -> COP {
        if i == 0 {
            COP::COP0
        } else if i == 1 {
            COP::COP1
        } else if i == 2 {
            COP::COP2
        } else {
            COP::COP3
        }
    }

    /// Returns the coprocessor with the given number (`0..4`).
    pub fn from_index(i: u32) -> (r: COP)
        requires
            i < 4,
        ensures
            r == Self::spec_from_index(i),
    {
        if i == 0 {
            COP::COP0
        } else if i == 1 {
            COP::COP1
        } else if i == 2 {
            COP::COP2
        } else {
            COP::COP3
        }
    }
}

/// A general purpose register of the CPU.
#[derive(Debug, Clone, Copy, PartialEq, Eq, Structural)]
pub enum Reg {
    /// `R0`, the only register with a constant value: it always evaluates to zero.
    R0,
    /// `R1`, also called `AT`, is the Assembler Temporary register. It is reserved for assemblers
    /// and is usually left untouched otherwise.
    R1,
    /// `R2`, also called `V0`, is a register used as a subroutine return value.
    R2,
    /// `R3`, also called `V1`, is a register used as a subroutine return value.
    R3,
    /// `R4`, also called `A0`, is a register used as a subroutine argument.
    R4,
    /// `R5`, also called `A1`, is a register used as a subroutine argument.
    R5,
    /// `R6`, also called `A2`, is a register used as a subroutine argument.
    R6,
    /// `R7`, also called `A3`, is a register used as a subroutine argument.
    R7,
    /// `R8`, also called `T0`, is a register used as a subroutine temporary. It may be used by
    /// subroutines without preserving it for the calling routine.
    R8,
    /// `R9`, also called `T1`, is a register used as a subroutine temporary. It may be used by
    /// subroutines without preserving it for the calling routine.
    R9,
    /// `R10`, also called `T2`, is a register used as a subroutine temporary. It may be used by
    /// subroutines without preserving it for the calling routine.
    R10,
    /// `R11`, also called `T3`, is a register used as a subroutine temporary. It may be used by
    /// subroutines without preserving it for the calling routine.
    R11,
    /// `R12`, also called `T4`, is a register used as a subroutine temporary. It may be used by
    /// subroutines without preserving it for the calling routine.
    R12,
    /// `R13`, also called `T5`, is a register used as a subroutine temporary. It may be used by
    /// subroutines without preserving it for the calling routine.
    R13,
    /// `R14`, also called `T6`, is a register used as a subroutine temporary. It may be used by
    /// subroutines without preserving it for the calling routine.
    R14,
    /// `R15`, also called `T7`, is a register used as a subroutine temporary. It may be used by
    /// subroutines without preserving it for the calling routine.
    R15,
    /// `R16`, also called `S0`, is a register used as a subroutine register variable. It's value
    /// must be saved and restored before the subroutine exits.
    R16,
    /// `R17`, also called `S1`, is a register used as a subroutine register variable. It's value
    /// must be saved and restored before the subroutine exits.
    R17,
    /// `R18`, also called `S2`, is a register used as a subroutine register variable. It's value
    /// must be saved and restored before the subroutine exits.
    R18,
    /// `R19`, also called `S3`, is a register used as a subroutine register variable. It's value
    /// must be saved and restored before the subroutine exits.
    R19,
    /// `R20`, also called `S4`, is a register used as a subroutine register variable. It's value
    /// must be saved and restored before the subroutine exits.
    R20,
    /// `R21`, also called `S5`, is a register used as a subroutine register variable. It's value
    /// must be saved and restored before the subroutine exits.
    R21,
    /// `R22`, also called `S6`, is a register used as a subroutine register variable. It's value
    /// must be saved and restored before the subroutine exits.
    R22,
    /// `R23`, also called `S7`, is a register used as a subroutine register variable. It's value
    /// must be saved and restored before the subroutine exits.
    R23,
    /// `R24`, also called `T8`, is a register used as a subroutine temporary. It may be used by
    /// subroutines without preserving it for the calling routine.
    R24,
    /// `R25`, also called `T9`, is a register used as a subroutine temporary. It may be used by
    /// subroutines without preserving it for the calling routine.
    R25,
    /// `R26`, also called `K0`, is a register reserved for the Kernel. It may be destroyed by
    /// interrupt handlers.
    R26,
    /// `R27`, also called `K1`, is a register reserved for the Kernel. It may be destroyed by
    /// interrupt handlers.
    R27,
    /// `R28`, also called `GP`, is a register usually used by some runtime systems as a global
    /// pointer to some static data.
    R28,
    /// `R29`, also called `SP`, is a register used as a stack pointer. It points to the top of the
    /// stack.
    R29,
    /// `R30`, also called `FP`, is a register used as a frame pointer. It points to the start of
    /// the current stack frame and must be saved and restored before a subroutine exits.
    R30,
    /// `R31`, also called `RA`, is a register used as a return address for subroutines. It is
    /// modified by instructions of the `AL` family, like `JAL`.
    R31,
}

impl Reg {
    pub const ZERO: Reg = Reg::R0;
    pub const AT: Reg = Reg::R1;
    pub const V0: Reg = Reg::R2;
    pub const V1: Reg = Reg::R3;
    pub const A0: Reg = Reg::R4;
    pub const A1: Reg = Reg::R5;
    pub const A2: Reg = Reg::R6;
    pub const A3: Reg = Reg::R7;
    pub const T0: Reg = Reg::R8;
    pub const T1: Reg = Reg::R9;
    pub const T2: Reg = Reg::R10;
    pub const T3: Reg = Reg::R11;
    pub const T4: Reg = Reg::R12;
    pub const T5: Reg = Reg::R13;
    pub const T6: Reg = Reg::R14;
    pub const T7: Reg = Reg::R15;
    pub const S0: Reg = Reg::R16;
    pub const S1: Reg = Reg::R17;
    pub const S2: Reg = Reg::R18;
    pub const S3: Reg = Reg::R19;
    pub const S4: Reg = Reg::R20;
    pub const S5: Reg = Reg::R21;
    pub const S6: Reg = Reg::R22;
    pub const S7: Reg = Reg::R23;
    pub const T8: Reg = Reg::R24;
    pub const T9: Reg = Reg::R25;
    pub const K0: Reg = Reg::R26;
    pub const K1: Reg = Reg::R27;
    pub const GP: Reg = Reg::R28;
    pub const SP: Reg = Reg::R29;
    pub const FP: Reg = Reg::R30;
    pub const RA: Reg = Reg::R31;

    /// The number of this register.
    pub open spec fn spec_index(self) -> nat {
        match self {
            Reg::R0 => 0,
            Reg::R1 => 1,
            Reg::R2 => 2,
            Reg::R3 => 3,
            Reg::R4 => 4,
            Reg::R5 => 5,
            Reg::R6 => 6,
            Reg::R7 => 7,
            Reg::R8 => 8,
            Reg::R9 => 9,
            Reg::R10 => 10,
            Reg::R11 => 11,
            Reg::R12 => 12,
            Reg::R13 => 13,
            Reg::R14 => 14,
            Reg::R15 => 15,
            Reg::R16 => 16,
            Reg::R17 => 17,
            Reg::R18 => 18,
            Reg::R19 => 19,
            Reg::R20 => 20,
            Reg::R21 => 21,
            Reg::R22 => 22,
            Reg::R23 => 23,
            Reg::R24 => 24,
            Reg::R25 => 25,
            Reg::R26 => 26,
            Reg::R27 => 27,
            Reg::R28 => 28,
            Reg::R29 => 29,
            Reg::R30 => 30,
            Reg::R31 => 31,
        }
    }

    /// Returns the number of this register.
    pub fn index(self) -> (r: usize)
        ensures
            r == self.spec_index(),
            r < 32,
    {
        match self {
            Reg::R0 => 0,
            Reg::R1 => 1,
            Reg::R2 => 2,
            Reg::R3 => 3,
            Reg::R4 => 4,
            Reg::R5 => 5,
            Reg::R6 => 6,
            Reg::R7 => 7,
            Reg::R8 => 8,
            Reg::R9 => 9,
            Reg::R10 => 10,
            Reg::R11 => 11,
            Reg::R12 => 12,
            Reg::R13 => 13,
            Reg::R14 => 14,
            Reg::R15 => 15,
            Reg::R16 => 16,
            Reg::R17 => 17,
            Reg::R18 => 18,
            Reg::R19 => 19,
            Reg::R20 => 20,
            Reg::R21 => 21,
            Reg::R22 => 22,
            Reg::R23 => 23,
            Reg::R24 => 24,
            Reg::R25 => 25,
            Reg::R26 => 26,
            Reg::R27 => 27,
            Reg::R28 => 28,
            Reg::R29 => 29,
            Reg::R30 => 30,
            Reg::R31 => 31,
        }
    }

    /// The register with the given number (`0..32`).
    pub open spec fn spec_from_index(i: u32) -> Reg {
        if i == 0 { Reg::R0 } else if i == 1 { Reg::R1 } else if i == 2 { Reg::R2 } else if i == 3 { Reg::R3 } else if i == 4 { Reg::R4 } else if i == 5 { Reg::R5 } else if i == 6 { Reg::R6 } else if i == 7 { Reg::R7 } else if i == 8 { Reg::R8 } else if i == 9 { Reg::R9 } else if i == 10 { Reg::R10 } else if i == 11 { Reg::R11 } else if i == 12 { Reg::R12 } else if i == 13 { Reg::R13 } else if i == 14 { Reg::R14 } else if i == 15 { Reg::R15 } else if i == 16 { Reg::R16 } else if i == 17 { Reg::R17 } else if i == 18 { Reg::R18 } else if i == 19 { Reg::R19 } else if i == 20 { Reg::R20 } else if i == 21 { Reg::R21 } else if i == 22 { Reg::R22 } else if i == 23 { Reg::R23 } else if i == 24 { Reg::R24 } else if i == 25 { Reg::R25 } else if i == 26 { Reg::R26 } else if i == 27 { Reg::R27 } else if i == 28 { Reg::R28 } else if i == 29 { Reg::R29 } else if i == 30 { Reg::R30 } else { Reg::R31 }
    }

    /// Returns the register with the given number (`0..32`).
    pub fn from_index(i: u32) -> (r: Reg)
        requires
            i < 32,
        ensures
            r == Self::spec_from_index(i),
            r.spec_index() == i,
    {
        match i {
            0 => Reg::R0,
            1 => Reg::R1,
            2 => Reg::R2,
            3 => Reg::R3,
            4 => Reg::R4,
            5 => Reg::R5,
            6 => Reg::R6,
            7 => Reg::R7,
            8 => Reg::R8,
            9 => Reg::R9,
            10 => Reg::R10,
            11 => Reg::R11,
            12 => Reg::R12,
            13 => Reg::R13,
            14 => Reg::R14,
            15 => Reg::R15,
            16 => Reg::R16,
            17 => Reg::R17,
            18 => Reg::R18,
            19 => Reg::R19,
            20 => Reg::R20,
            21 => Reg::R21,
            22 => Reg::R22,
            23 => Reg::R23,
            24 => Reg::R24,
            25 => Reg::R25,
            26 => Reg::R26,
            27 => Reg::R27,
            28 => Reg::R28,
            29 => Reg::R29,
            30 => Reg::R30,
            _ => Reg::R31,
        }
    }

    /// The conventional name of this register.
    pub open spec fn spec_alt_name(self) -> &'static str {
        match self {
            Reg::R0 => "00",
            Reg::R1 => "AT",
            Reg::R2 => "V0",
            Reg::R3 => "V1",
            Reg::R4 => "A0",
            Reg::R5 => "A1",
            Reg::R6 => "A2",
            Reg::R7 => "A3",
            Reg::R8 => "T0",
            Reg::R9 => "T1",
            Reg::R10 => "T2",
            Reg::R11 => "T3",
            Reg::R12 => "T4",
            Reg::R13 => "T5",
            Reg::R14 => "T6",
            Reg::R15 => "T7",
            Reg::R16 => "S0",
            Reg::R17 => "S1",
            Reg::R18 => "S2",
            Reg::R19 => "S3",
            Reg::R20 => "S4",
            Reg::R21 => "S5",
            Reg::R22 => "S6",
            Reg::R23 => "S7",
            Reg::R24 => "T8",
            Reg::R25 => "T9",
            Reg::R26 => "K0",
            Reg::R27 => "K1",
            Reg::R28 => "GP",
            Reg::R29 => "SP",
            Reg::R30 => "FP",
            Reg::R31 => "RA",
        }
    }

    /// Returns the conventional name of this register.
    pub fn alt_name(&self) -> (r: &'static str)
        ensures
            r == self.spec_alt_name(),
    {
        match self {
            Reg::R0 => "00",
            Reg::R1 => "AT",
            Reg::R2 => "V0",
            Reg::R3 => "V1",
            Reg::R4 => "A0",
            Reg::R5 => "A1",
            Reg::R6 => "A2",
            Reg::R7 => "A3",
            Reg::R8 => "T0",
            Reg::R9 => "T1",
            Reg::R10 => "T2",
            Reg::R11 => "T3",
            Reg::R12 => "T4",
            Reg::R13 => "T5",
            Reg::R14 => "T6",
            Reg::R15 => "T7",
            Reg::R16 => "S0",
            Reg::R17 => "S1",
            Reg::R18 => "S2",
            Reg::R19 => "S3",
            Reg::R20 => "S4",
            Reg::R21 => "S5",
            Reg::R22 => "S6",
            Reg::R23 => "S7",
            Reg::R24 => "T8",
            Reg::R25 => "T9",
            Reg::R26 => "K0",
            Reg::R27 => "K1",
            Reg::R28 => "GP",
            Reg::R29 => "SP",
            Reg::R30 => "FP",
            Reg::R31 => "RA",
        }
    }

    /// What this register is for.
    pub open spec fn spec_description(self) -> &'static str {
        match self {
            Reg::R0 => "`R0`, the only register with a constant value: it always evaluates to zero.",
            Reg::R1 => "`R1`, also called `AT`, is the Assembler Temporary register. It is reserved for assemblers\nand is usually left untouched otherwise.\n",
            Reg::R2 => "`R2`, also called `V0`, is a register used as a subroutine return value.",
            Reg::R3 => "`R3`, also called `V1`, is a register used as a subroutine return value.",
            Reg::R4 => "`R4`, also called `A0`, is a register used as a subroutine argument.",
            Reg::R5 => "`R5`, also called `A1`, is a register used as a subroutine argument.",
            Reg::R6 => "`R6`, also called `A2`, is a register used as a subroutine argument.",
            Reg::R7 => "`R7`, also called `A3`, is a register used as a subroutine argument.",
            Reg::R8 => "`R8`, also called `T0`, is a register used as a subroutine temporary. It may be used by\nsubroutines without preserving it for the calling routine.\n",
            Reg::R9 => "`R9`, also called `T1`, is a register used as a subroutine temporary. It may be used by\nsubroutines without preserving it for the calling routine.\n",
            Reg::R10 => "`R10`, also called `T2`, is a register used as a subroutine temporary. It may be used by\nsubroutines without preserving it for the calling routine.\n",
            Reg::R11 => "`R11`, also called `T3`, is a register used as a subroutine temporary. It may be used by\nsubroutines without preserving it for the calling routine.\n",
            Reg::R12 => "`R12`, also called `T4`, is a register used as a subroutine temporary. It may be used by\nsubroutines without preserving it for the calling routine.\n",
            Reg::R13 => "`R13`, also called `T5`, is a register used as a subroutine temporary. It may be used by\nsubroutines without preserving it for the calling routine.\n",
            Reg::R14 => "`R14`, also called `T6`, is a register used as a subroutine temporary. It may be used by\nsubroutines without preserving it for the calling routine.\n",
            Reg::R15 => "`R15`, also called `T7`, is a register used as a subroutine temporary. It may be used by\nsubroutines without preserving it for the calling routine.\n",
            Reg::R16 => "`R16`, also called `S0`, is a register used as a subroutine register variable. It's value\nmust be saved and restored before the subroutine exits.\n",
            Reg::R17 => "`R17`, also called `S1`, is a register used as a subroutine register variable. It's value\nmust be saved and restored before the subroutine exits.\n",
            Reg::R18 => "`R18`, also called `S2`, is a register used as a subroutine register variable. It's value\nmust be saved and restored before the subroutine exits.\n",
            Reg::R19 => "`R19`, also called `S3`, is a register used as a subroutine register variable. It's value\nmust be saved and restored before the subroutine exits.\n",
            Reg::R20 => "`R20`, also called `S4`, is a register used as a subroutine register variable. It's value\nmust be saved and restored before the subroutine exits.\n",
            Reg::R21 => "`R21`, also called `S5`, is a register used as a subroutine register variable. It's value\nmust be saved and restored before the subroutine exits.\n",
            Reg::R22 => "`R22`, also called `S6`, is a register used as a subroutine register variable. It's value\nmust be saved and restored before the subroutine exits.\n",
            Reg::R23 => "`R23`, also called `S7`, is a register used as a subroutine register variable. It's value\nmust be saved and restored before the subroutine exits.\n",
            Reg::R24 => "`R24`, also called `T8`, is a register used as a subroutine temporary. It may be used by\nsubroutines without preserving it for the calling routine.\n",
            Reg::R25 => "`R25`, also called `T9`, is a register used as a subroutine temporary. It may be used by\nsubroutines without preserving it for the calling routine.\n",
            Reg::R26 => "`R26`, also called `K0`, is a register reserved for the Kernel. It may be destroyed by\ninterrupt handlers.\n",
            Reg::R27 => "`R27`, also called `K1`, is a register reserved for the Kernel. It may be destroyed by\ninterrupt handlers.\n",
            Reg::R28 => "`R28`, also called `GP`, is a register usually used by some runtime systems as a global\npointer to some static data.\n",
            Reg::R29 => "`R29`, also called `SP`, is a register used as a stack pointer. It points to the top of the\nstack.\n",
            Reg::R30 => "`R30`, also called `FP`, is a register used as a frame pointer. It points to the start of\nthe current stack frame and must be saved and restored before a subroutine exits.\n",
            Reg::R31 => "`R31`, also called `RA`, is a register used as a return address for subroutines. It is\nmodified by instructions of the `AL` family, like `JAL`.\n",
        }
    }

    /// Returns what this register is for.
    pub fn description(&self) -> (r: &'static str)
        ensures
            r == self.spec_description(),
    {
        match self {
            Reg::R0 => "`R0`, the only register with a constant value: it always evaluates to zero.",
            Reg::R1 => "`R1`, also called `AT`, is the Assembler Temporary register. It is reserved for assemblers\nand is usually left untouched otherwise.\n",
            Reg::R2 => "`R2`, also called `V0`, is a register used as a subroutine return value.",
            Reg::R3 => "`R3`, also called `V1`, is a register used as a subroutine return value.",
            Reg::R4 => "`R4`, also called `A0`, is a register used as a subroutine argument.",
            Reg::R5 => "`R5`, also called `A1`, is a register used as a subroutine argument.",
            Reg::R6 => "`R6`, also called `A2`, is a register used as a subroutine argument.",
            Reg::R7 => "`R7`, also called `A3`, is a register used as a subroutine argument.",
            Reg::R8 => "`R8`, also called `T0`, is a register used as a subroutine temporary. It may be used by\nsubroutines without preserving it for the calling routine.\n",
            Reg::R9 => "`R9`, also called `T1`, is a register used as a subroutine temporary. It may be used by\nsubroutines without preserving it for the calling routine.\n",
            Reg::R10 => "`R10`, also called `T2`, is a register used as a subroutine temporary. It may be used by\nsubroutines without preserving it for the calling routine.\n",
            Reg::R11 => "`R11`, also called `T3`, is a register used as a subroutine temporary. It may be used by\nsubroutines without preserving it for the calling routine.\n",
            Reg::R12 => "`R12`, also called `T4`, is a register used as a subroutine temporary. It may be used by\nsubroutines without preserving it for the calling routine.\n",
            Reg::R13 => "`R13`, also called `T5`, is a register used as a subroutine temporary. It may be used by\nsubroutines without preserving it for the calling routine.\n",
            Reg::R14 => "`R14`, also called `T6`, is a register used as a subroutine temporary. It may be used by\nsubroutines without preserving it for the calling routine.\n",
            Reg::R15 => "`R15`, also called `T7`, is a register used as a subroutine temporary. It may be used by\nsubroutines without preserving it for the calling routine.\n",
            Reg::R16 => "`R16`, also called `S0`, is a register used as a subroutine register variable. It's value\nmust be saved and restored before the subroutine exits.\n",
            Reg::R17 => "`R17`, also called `S1`, is a register used as a subroutine register variable. It's value\nmust be saved and restored before the subroutine exits.\n",
            Reg::R18 => "`R18`, also called `S2`, is a register used as a subroutine register variable. It's value\nmust be saved and restored before the subroutine exits.\n",
            Reg::R19 => "`R19`, also called `S3`, is a register used as a subroutine register variable. It's value\nmust be saved and restored before the subroutine exits.\n",
            Reg::R20 => "`R20`, also called `S4`, is a register used as a subroutine register variable. It's value\nmust be saved and restored before the subroutine exits.\n",
            Reg::R21 => "`R21`, also called `S5`, is a register used as a subroutine register variable. It's value\nmust be saved and restored before the subroutine exits.\n",
            Reg::R22 => "`R22`, also called `S6`, is a register used as a subroutine register variable. It's value\nmust be saved and restored before the subroutine exits.\n",
            Reg::R23 => "`R23`, also called `S7`, is a register used as a subroutine register variable. It's value\nmust be saved and restored before the subroutine exits.\n",
            Reg::R24 => "`R24`, also called `T8`, is a register used as a subroutine temporary. It may be used by\nsubroutines without preserving it for the calling routine.\n",
            Reg::R25 => "`R25`, also called `T9`, is a register used as a subroutine temporary. It may be used by\nsubroutines without preserving it for the calling routine.\n",
            Reg::R26 => "`R26`, also called `K0`, is a register reserved for the Kernel. It may be destroyed by\ninterrupt handlers.\n",
            Reg::R27 => "`R27`, also called `K1`, is a register reserved for the Kernel. It may be destroyed by\ninterrupt handlers.\n",
            Reg::R28 => "`R28`, also called `GP`, is a register usually used by some runtime systems as a global\npointer to some static data.\n",
            Reg::R29 => "`R29`, also called `SP`, is a register used as a stack pointer. It points to the top of the\nstack.\n",
            Reg::R30 => "`R30`, also called `FP`, is a register used as a frame pointer. It points to the start of\nthe current stack frame and must be saved and restored before a subroutine exits.\n",
            Reg::R31 => "`R31`, also called `RA`, is a register used as a return address for subroutines. It is\nmodified by instructions of the `AL` family, like `JAL`.\n",
        }
    }
}

/// The registers of the CPU.
#[derive(Debug)]
pub struct Registers {
    gp: [u32; 32],
    hi: u32,
    lo: u32,
    pc: u32,
}

impl Registers {
    /// `R0` always holds zero.
    #[verifier::type_invariant]
    spec fn inv(self) -> bool {
        self.gp[0] == 0
    }

    /// The values of the general purpose registers, by number (`R0` reads as zero).
    pub closed spec fn gp(&self) -> Seq<u32> {
        self.gp@.update(0, 0)
    }

    /// The value of `HI`.
    pub closed spec fn hi(&self) -> u32 {
        self.hi
    }

    /// The value of `LO`.
    pub closed spec fn lo(&self) -> u32 {
        self.lo
    }

    /// The value of the program counter.
    pub closed spec fn pc(&self) -> u32 {
        self.pc
    }

    /// The value a read of `reg` gives.
    pub open spec fn spec_read(&self, reg: Reg) -> u32 {
        self.gp()[reg.spec_index() as int]
    }

    /// The general purpose registers after writing `value` to `reg` (writes to `R0` are dropped).
    pub open spec fn written(gp: Seq<u32>, reg: Reg, value: u32) -> Seq<u32> {
        if reg == Reg::R0 {
            gp
        } else {
            gp.update(reg.spec_index() as int, value)
        }
    }

    /// There are 32 general purpose registers, and `R0` holds zero.
    pub proof fn lemma_gp(&self)
        ensures
            self.gp().len() == 32,
            self.gp()[0] == 0,
    {
    }

    /// Reads a general purpose register.
    #[inline(always)]
    pub fn read(&self, reg: Reg) -> (r: u32)
        ensures
            r == self.spec_read(reg),
            reg == Reg::R0 ==> r == 0,
    {
        proof {
            use_type_invariant(self);
        }
        self.gp[reg.index()]
    }

    /// Writes a general purpose register; writes to `R0` are ignored.
    #[inline(always)]
    pub fn write(&mut self, reg: Reg, value: u32)
        ensures
            final(self).gp() == Self::written(old(self).gp(), reg, value),
            final(self).hi() == old(self).hi(),
            final(self).lo() == old(self).lo(),
            final(self).pc() == old(self).pc(),
    {
        proof {
            use_type_invariant(&*self);
        }
        if reg != Reg::R0 {
            self.gp[reg.index()] = value;
            assert(self.gp@.update(0, 0) =~= old(self).gp@.update(0, 0).update(
                reg.spec_index() as int,
                value,
            ));
        }
    }

    /// Reads the program counter.
    #[inline(always)]
    pub fn read_pc(&self) -> (r: u32)
        ensures
            r == self.pc(),
    {
        self.pc
    }

    /// Writes the program counter.
    #[inline(always)]
    pub fn write_pc(&mut self, value: u32)
        ensures
            final(self).pc() == value,
            final(self).gp() == old(self).gp(),
            final(self).hi() == old(self).hi(),
            final(self).lo() == old(self).lo(),
    {
        proof {
            use_type_invariant(&*self);
        }
        self.pc = value;
    }

    /// Reads `LO`.
    #[inline(always)]
    pub fn read_lo(&self) -> (r: u32)
        ensures
            r == self.lo(),
    {
        self.lo
    }

    /// Writes `LO`.
    #[inline(always)]
    pub fn write_lo(&mut self, value: u32)
        ensures
            final(self).lo() == value,
            final(self).gp() == old(self).gp(),
            final(self).hi() == old(self).hi(),
            final(self).pc() == old(self).pc(),
    {
        proof {
            use_type_invariant(&*self);
        }
        self.lo = value;
    }

    /// Reads `HI`.
    #[inline(always)]
    pub fn read_hi(&self) -> (r: u32)
        ensures
            r == self.hi(),
    {
        self.hi
    }

    /// Writes `HI`.
    #[inline(always)]
    pub fn write_hi(&mut self, value: u32)
        ensures
            final(self).hi() == value,
            final(self).gp() == old(self).gp(),
            final(self).lo() == old(self).lo(),
            final(self).pc() == old(self).pc(),
    {
        proof {
            use_type_invariant(&*self);
        }
        self.hi = value;
    }
}

impl Clone for Registers {
    fn clone(&self) -> (r: Self)
        ensures
            r.gp() == self.gp(),
            r.hi() == self.hi(),
            r.lo() == self.lo(),
            r.pc() == self.pc(),
    {
        proof {
            use_type_invariant(self);
        }
        Registers { gp: self.gp, hi: self.hi, lo: self.lo, pc: self.pc }
    }
}

impl Default for Registers {
    /// All registers zero, and the program counter at the start of the BIOS, seen through
    /// `KSEG1`.
    fn default() -> (r: Self)
        ensures
            r.gp() == Seq::new(32, |_i: int| 0u32),
            r.hi() == 0,
            r.lo() == 0,
            r.pc() == 0xBFC0_0000,
    {
        let gp = [0u32; 32];
        assert(gp@ =~= Seq::new(32, |_i: int| 0u32));
        Registers {
            gp,
            hi: 0,
            lo: 0,
            pc: mem::Region::BIOS.start().value() + mem::Segment::KSEG1.start().value(),
        }
    }
}

/// A pending load operation, usually in the delay slot.
#[derive(Debug, Clone, Copy, PartialEq, Eq, Structural)]
pub struct RegLoad {
    pub reg: Reg,
    pub value: u32,
}

/// The state of the CPU.
#[derive(Debug)]
pub struct Cpu {
    pub regs: Registers,
    pub cache_control: u32,
    /// The instruction fetched into the delay slot, which executes next.
    pub delay_instr: instr::Instruction,
}

impl Default for Cpu {
    fn default() -> (r: Self)
        ensures
            r.regs.gp() == Seq::new(32, |_i: int| 0u32),
            r.regs.hi() == 0,
            r.regs.lo() == 0,
            r.regs.pc() == 0xBFC0_0000,
            r.cache_control == 0,
            r.delay_instr.0 == 0,
    {
        Cpu { regs: Registers::default(), cache_control: 0, delay_instr: instr::Instruction(0) }
    }
}

/// The register whose conventional name is the two characters `c0`, `c1`, if any.
spec fn named(c0: char, c1: char) -> Option<Reg> {
    if c0 == '0' && c1 == '0' {
        Some(Reg::R0)
    } else if c0 == 'A' && c1 == 'T' {
        Some(Reg::R1)
    } else if c0 == 'V' && c1 == '0' {
        Some(Reg::R2)
    } else if c0 == 'V' && c1 == '1' {
        Some(Reg::R3)
    } else if c0 == 'A' && c1 == '0' {
        Some(Reg::R4)
    } else if c0 == 'A' && c1 == '1' {
        Some(Reg::R5)
    } else if c0 == 'A' && c1 == '2' {
        Some(Reg::R6)
    } else if c0 == 'A' && c1 == '3' {
        Some(Reg::R7)
    } else if c0 == 'T' && c1 == '0' {
        Some(Reg::R8)
    } else if c0 == 'T' && c1 == '1' {
        Some(Reg::R9)
    } else if c0 == 'T' && c1 == '2' {
        Some(Reg::R10)
    } else if c0 == 'T' && c1 == '3' {
        Some(Reg::R11)
    } else if c0 == 'T' && c1 == '4' {
        Some(Reg::R12)
    } else if c0 == 'T' && c1 == '5' {
        Some(Reg::R13)
    } else if c0 == 'T' && c1 == '6' {
        Some(Reg::R14)
    } else if c0 == 'T' && c1 == '7' {
        Some(Reg::R15)
    } else if c0 == 'S' && c1 == '0' {
        Some(Reg::R16)
    } else if c0 == 'S' && c1 == '1' {
        Some(Reg::R17)
    } else if c0 == 'S' && c1 == '2' {
        Some(Reg::R18)
    } else if c0 == 'S' && c1 == '3' {
        Some(Reg::R19)
    } else if c0 == 'S' && c1 == '4' {
        Some(Reg::R20)
    } else if c0 == 'S' && c1 == '5' {
        Some(Reg::R21)
    } else if c0 == 'S' && c1 == '6' {
        Some(Reg::R22)
    } else if c0 == 'S' && c1 == '7' {
        Some(Reg::R23)
    } else if c0 == 'T' && c1 == '8' {
        Some(Reg::R24)
    } else if c0 == 'T' && c1 == '9' {
        Some(Reg::R25)
    } else if c0 == 'K' && c1 == '0' {
        Some(Reg::R26)
    } else if c0 == 'K' && c1 == '1' {
        Some(Reg::R27)
    } else if c0 == 'G' && c1 == 'P' {
        Some(Reg::R28)
    } else if c0 == 'S' && c1 == 'P' {
        Some(Reg::R29)
    } else if c0 == 'F' && c1 == 'P' {
        Some(Reg::R30)
    } else if c0 == 'R' && c1 == 'A' {
        Some(Reg::R31)
    } else {
        None
    }
}

/// Proof that the conventional name of `r` is two characters that name `r` alone.
proof fn lemma_alt_name_names(r: Reg)
    ensures
        r.spec_alt_name()@.len() == 2,
        named(r.spec_alt_name()@[0], r.spec_alt_name()@[1]) == Some(r),
{
    match r {
        Reg::R0 => reveal_strlit("00"),
        Reg::R1 => reveal_strlit("AT"),
        Reg::R2 => reveal_strlit("V0"),
        Reg::R3 => reveal_strlit("V1"),
        Reg::R4 => reveal_strlit("A0"),
        Reg::R5 => reveal_strlit("A1"),
        Reg::R6 => reveal_strlit("A2"),
        Reg::R7 => reveal_strlit("A3"),
        Reg::R8 => reveal_strlit("T0"),
        Reg::R9 => reveal_strlit("T1"),
        Reg::R10 => reveal_strlit("T2"),
        Reg::R11 => reveal_strlit("T3"),
        Reg::R12 => reveal_strlit("T4"),
        Reg::R13 => reveal_strlit("T5"),
        Reg::R14 => reveal_strlit("T6"),
        Reg::R15 => reveal_strlit("T7"),
        Reg::R16 => reveal_strlit("S0"),
        Reg::R17 => reveal_strlit("S1"),
        Reg::R18 => reveal_strlit("S2"),
        Reg::R19 => reveal_strlit("S3"),
        Reg::R20 => reveal_strlit("S4"),
        Reg::R21 => reveal_strlit("S5"),
        Reg::R22 => reveal_strlit("S6"),
        Reg::R23 => reveal_strlit("S7"),
        Reg::R24 => reveal_strlit("T8"),
        Reg::R25 => reveal_strlit("T9"),
        Reg::R26 => reveal_strlit("K0"),
        Reg::R27 => reveal_strlit("K1"),
        Reg::R28 => reveal_strlit("GP"),
        Reg::R29 => reveal_strlit("SP"),
        Reg::R30 => reveal_strlit("FP"),
        Reg::R31 => reveal_strlit("RA"),
    }
}

/// Law: the conventional name of every register is two characters long, and no two registers
/// share one.
pub proof fn law_alt_names_distinct(r1: Reg, r2: Reg)
    ensures
        r1.spec_alt_name()@.len() == 2,
        r1 != r2 ==> r1.spec_alt_name()@ != r2.spec_alt_name()@,
{
    lemma_alt_name_names(r1);
    lemma_alt_name_names(r2);
}

/// Law: reading `R0` always gives zero, whatever was written to it.
pub proof fn law_r0_is_zero(regs: &Registers)
    ensures
        regs.spec_read(Reg::R0) == 0,
{
    regs.lemma_gp();
}

/// Law: a read of a register other than `R0` gives back the last value written to it, and a
/// write changes no other register.
pub proof fn law_read_after_write(gp: Seq<u32>, reg: Reg, other: Reg, value: u32)
    requires
        gp.len() == 32,
    ensures
        reg != Reg::R0 ==> Registers::written(gp, reg, value)[reg.spec_index() as int] == value,
        other != reg ==> Registers::written(gp, reg, value)[other.spec_index() as int]
            == gp[other.spec_index() as int],
{
    assert(reg != other ==> reg.spec_index() != other.spec_index());
}

} // verus!
