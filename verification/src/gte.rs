//! Items related to the GTE (Geometry Transformation Engine), the coprocessor 2 of the CPU.

pub mod fixed;
pub mod instr;

use vstd::prelude::*;

verus! {

/// A 44 bit signed integer, the width of the GTE's intermediate results.
pub type Int44 = fixed::Integer<44>;

/// The value of `value` clamped to `min..=max`, and whether it had to be clamped.
pub open spec fn spec_clamp(value: int, min: int, max: int) -> (int, bool) {
    if value < min {
        (min, true)
    } else if value > max {
        (max, true)
    } else {
        (value, false)
    }
}

/// Clamps `value` to `min..=max`, returning whether it had to be clamped.
pub fn clamp(value: i32, min: i32, max: i32) -> (r: (i32, bool))
    ensures
        (r.0 as int, r.1) == spec_clamp(value as int, min as int, max as int),
{
    if value < min {
        (min, true)
    } else if value > max {
        (max, true)
    } else {
        (value, false)
    }
}

/// A data register of the GTE (registers 0 to 31).
#[derive(Debug, Clone, Copy, PartialEq, Eq, Structural)]
pub enum DataReg {
    R0,
    R1,
    R2,
    R3,
    R4,
    R5,
    R6,
    R7,
    R8,
    R9,
    R10,
    R11,
    R12,
    R13,
    R14,
    R15,
    R16,
    R17,
    R18,
    R19,
    R20,
    R21,
    R22,
    R23,
    R24,
    R25,
    R26,
    R27,
    R28,
    R29,
    R30,
    R31,
}

impl DataReg {
    /// The number of this register.
    pub open spec fn spec_index(self) -> int {
        match self {
            DataReg::R0 => 0,
            DataReg::R1 => 1,
            DataReg::R2 => 2,
            DataReg::R3 => 3,
            DataReg::R4 => 4,
            DataReg::R5 => 5,
            DataReg::R6 => 6,
            DataReg::R7 => 7,
            DataReg::R8 => 8,
            DataReg::R9 => 9,
            DataReg::R10 => 10,
            DataReg::R11 => 11,
            DataReg::R12 => 12,
            DataReg::R13 => 13,
            DataReg::R14 => 14,
            DataReg::R15 => 15,
            DataReg::R16 => 16,
            DataReg::R17 => 17,
            DataReg::R18 => 18,
            DataReg::R19 => 19,
            DataReg::R20 => 20,
            DataReg::R21 => 21,
            DataReg::R22 => 22,
            DataReg::R23 => 23,
            DataReg::R24 => 24,
            DataReg::R25 => 25,
            DataReg::R26 => 26,
            DataReg::R27 => 27,
            DataReg::R28 => 28,
            DataReg::R29 => 29,
            DataReg::R30 => 30,
            DataReg::R31 => 31,
        }
    }

    /// Returns the number of this register.
    pub fn index(self) -> (r: usize)
        ensures
            r == self.spec_index(),
    {
        match self {
            DataReg::R0 => 0,
            DataReg::R1 => 1,
            DataReg::R2 => 2,
            DataReg::R3 => 3,
            DataReg::R4 => 4,
            DataReg::R5 => 5,
            DataReg::R6 => 6,
            DataReg::R7 => 7,
            DataReg::R8 => 8,
            DataReg::R9 => 9,
            DataReg::R10 => 10,
            DataReg::R11 => 11,
            DataReg::R12 => 12,
            DataReg::R13 => 13,
            DataReg::R14 => 14,
            DataReg::R15 => 15,
            DataReg::R16 => 16,
            DataReg::R17 => 17,
            DataReg::R18 => 18,
            DataReg::R19 => 19,
            DataReg::R20 => 20,
            DataReg::R21 => 21,
            DataReg::R22 => 22,
            DataReg::R23 => 23,
            DataReg::R24 => 24,
            DataReg::R25 => 25,
            DataReg::R26 => 26,
            DataReg::R27 => 27,
            DataReg::R28 => 28,
            DataReg::R29 => 29,
            DataReg::R30 => 30,
            DataReg::R31 => 31,
        }
    }

    /// The register with the given number, if any.
    pub fn from_index(index: usize) -> (r: Option<Self>)
        ensures
            0 <= index < 32 <==> r.is_some(),
            r matches Some(reg) ==> reg.spec_index() == index,
    {
        match index {
            0 => Some(DataReg::R0),
            1 => Some(DataReg::R1),
            2 => Some(DataReg::R2),
            3 => Some(DataReg::R3),
            4 => Some(DataReg::R4),
            5 => Some(DataReg::R5),
            6 => Some(DataReg::R6),
            7 => Some(DataReg::R7),
            8 => Some(DataReg::R8),
            9 => Some(DataReg::R9),
            10 => Some(DataReg::R10),
            11 => Some(DataReg::R11),
            12 => Some(DataReg::R12),
            13 => Some(DataReg::R13),
            14 => Some(DataReg::R14),
            15 => Some(DataReg::R15),
            16 => Some(DataReg::R16),
            17 => Some(DataReg::R17),
            18 => Some(DataReg::R18),
            19 => Some(DataReg::R19),
            20 => Some(DataReg::R20),
            21 => Some(DataReg::R21),
            22 => Some(DataReg::R22),
            23 => Some(DataReg::R23),
            24 => Some(DataReg::R24),
            25 => Some(DataReg::R25),
            26 => Some(DataReg::R26),
            27 => Some(DataReg::R27),
            28 => Some(DataReg::R28),
            29 => Some(DataReg::R29),
            30 => Some(DataReg::R30),
            31 => Some(DataReg::R31),
            _ => None,
        }
    }
}

/// A control register of the GTE (registers 32 to 63), numbered from 0.
#[derive(Debug, Clone, Copy, PartialEq, Eq, Structural)]
pub enum ControlReg {
    R32,
    R33,
    R34,
    R35,
    R36,
    R37,
    R38,
    R39,
    R40,
    R41,
    R42,
    R43,
    R44,
    R45,
    R46,
    R47,
    R48,
    R49,
    R50,
    R51,
    R52,
    R53,
    R54,
    R55,
    R56,
    R57,
    R58,
    R59,
    R60,
    R61,
    R62,
    R63,
}

impl ControlReg {
    /// The number of this register.
    pub open spec fn spec_index(self) -> int {
        match self {
            ControlReg::R32 => 0,
            ControlReg::R33 => 1,
            ControlReg::R34 => 2,
            ControlReg::R35 => 3,
            ControlReg::R36 => 4,
            ControlReg::R37 => 5,
            ControlReg::R38 => 6,
            ControlReg::R39 => 7,
            ControlReg::R40 => 8,
            ControlReg::R41 => 9,
            ControlReg::R42 => 10,
            ControlReg::R43 => 11,
            ControlReg::R44 => 12,
            ControlReg::R45 => 13,
            ControlReg::R46 => 14,
            ControlReg::R47 => 15,
            ControlReg::R48 => 16,
            ControlReg::R49 => 17,
            ControlReg::R50 => 18,
            ControlReg::R51 => 19,
            ControlReg::R52 => 20,
            ControlReg::R53 => 21,
            ControlReg::R54 => 22,
            ControlReg::R55 => 23,
            ControlReg::R56 => 24,
            ControlReg::R57 => 25,
            ControlReg::R58 => 26,
            ControlReg::R59 => 27,
            ControlReg::R60 => 28,
            ControlReg::R61 => 29,
            ControlReg::R62 => 30,
            ControlReg::R63 => 31,
        }
    }

    /// Returns the number of this register.
    pub fn index(self) -> (r: usize)
        ensures
            r == self.spec_index(),
    {
        match self {
            ControlReg::R32 => 0,
            ControlReg::R33 => 1,
            ControlReg::R34 => 2,
            ControlReg::R35 => 3,
            ControlReg::R36 => 4,
            ControlReg::R37 => 5,
            ControlReg::R38 => 6,
            ControlReg::R39 => 7,
            ControlReg::R40 => 8,
            ControlReg::R41 => 9,
            ControlReg::R42 => 10,
            ControlReg::R43 => 11,
            ControlReg::R44 => 12,
            ControlReg::R45 => 13,
            ControlReg::R46 => 14,
            ControlReg::R47 => 15,
            ControlReg::R48 => 16,
            ControlReg::R49 => 17,
            ControlReg::R50 => 18,
            ControlReg::R51 => 19,
            ControlReg::R52 => 20,
            ControlReg::R53 => 21,
            ControlReg::R54 => 22,
            ControlReg::R55 => 23,
            ControlReg::R56 => 24,
            ControlReg::R57 => 25,
            ControlReg::R58 => 26,
            ControlReg::R59 => 27,
            ControlReg::R60 => 28,
            ControlReg::R61 => 29,
            ControlReg::R62 => 30,
            ControlReg::R63 => 31,
        }
    }

    /// The register with the given number, if any.
    pub fn from_index(index: usize) -> (r: Option<Self>)
        ensures
            0 <= index < 32 <==> r.is_some(),
            r matches Some(reg) ==> reg.spec_index() == index,
    {
        match index {
            0 => Some(ControlReg::R32),
            1 => Some(ControlReg::R33),
            2 => Some(ControlReg::R34),
            3 => Some(ControlReg::R35),
            4 => Some(ControlReg::R36),
            5 => Some(ControlReg::R37),
            6 => Some(ControlReg::R38),
            7 => Some(ControlReg::R39),
            8 => Some(ControlReg::R40),
            9 => Some(ControlReg::R41),
            10 => Some(ControlReg::R42),
            11 => Some(ControlReg::R43),
            12 => Some(ControlReg::R44),
            13 => Some(ControlReg::R45),
            14 => Some(ControlReg::R46),
            15 => Some(ControlReg::R47),
            16 => Some(ControlReg::R48),
            17 => Some(ControlReg::R49),
            18 => Some(ControlReg::R50),
            19 => Some(ControlReg::R51),
            20 => Some(ControlReg::R52),
            21 => Some(ControlReg::R53),
            22 => Some(ControlReg::R54),
            23 => Some(ControlReg::R55),
            24 => Some(ControlReg::R56),
            25 => Some(ControlReg::R57),
            26 => Some(ControlReg::R58),
            27 => Some(ControlReg::R59),
            28 => Some(ControlReg::R60),
            29 => Some(ControlReg::R61),
            30 => Some(ControlReg::R62),
            31 => Some(ControlReg::R63),
            _ => None,
        }
    }
}

/// A register of the GTE.
#[derive(Debug, Clone, Copy, PartialEq, Eq, Structural)]
pub enum Reg {
    R0,
    R1,
    R2,
    R3,
    R4,
    R5,
    R6,
    R7,
    R8,
    R9,
    R10,
    R11,
    R12,
    R13,
    R14,
    R15,
    R16,
    R17,
    R18,
    R19,
    R20,
    R21,
    R22,
    R23,
    R24,
    R25,
    R26,
    R27,
    R28,
    R29,
    R30,
    R31,
    R32,
    R33,
    R34,
    R35,
    R36,
    R37,
    R38,
    R39,
    R40,
    R41,
    R42,
    R43,
    R44,
    R45,
    R46,
    R47,
    R48,
    R49,
    R50,
    R51,
    R52,
    R53,
    R54,
    R55,
    R56,
    R57,
    R58,
    R59,
    R60,
    R61,
    R62,
    R63,
}

impl Reg {
    /// The number of this register.
    pub open spec fn spec_index(self) -> int {
        match self {
            Reg::R0 => 0,
            Reg::R1 => 1,
            Reg::R2 => 2,
            Reg::R3 => 3,
            Reg::R4 => 4,
            Reg::R5 => 5,
            Reg::R6 => 6,
            Reg::R7 => 7,
            Reg::R8 => 8,
            Reg::R9 => 9,
            Reg::R10 => 10,
            Reg::R11 => 11,
            Reg::R12 => 12,
            Reg::R13 => 13,
            Reg::R14 => 14,
            Reg::R15 => 15,
            Reg::R16 => 16,
            Reg::R17 => 17,
            Reg::R18 => 18,
            Reg::R19 => 19,
            Reg::R20 => 20,
            Reg::R21 => 21,
            Reg::R22 => 22,
            Reg::R23 => 23,
            Reg::R24 => 24,
            Reg::R25 => 25,
            Reg::R26 => 26,
            Reg::R27 => 27,
            Reg::R28 => 28,
            Reg::R29 => 29,
            Reg::R30 => 30,
            Reg::R31 => 31,
            Reg::R32 => 32,
            Reg::R33 => 33,
            Reg::R34 => 34,
            Reg::R35 => 35,
            Reg::R36 => 36,
            Reg::R37 => 37,
            Reg::R38 => 38,
            Reg::R39 => 39,
            Reg::R40 => 40,
            Reg::R41 => 41,
            Reg::R42 => 42,
            Reg::R43 => 43,
            Reg::R44 => 44,
            Reg::R45 => 45,
            Reg::R46 => 46,
            Reg::R47 => 47,
            Reg::R48 => 48,
            Reg::R49 => 49,
            Reg::R50 => 50,
            Reg::R51 => 51,
            Reg::R52 => 52,
            Reg::R53 => 53,
            Reg::R54 => 54,
            Reg::R55 => 55,
            Reg::R56 => 56,
            Reg::R57 => 57,
            Reg::R58 => 58,
            Reg::R59 => 59,
            Reg::R60 => 60,
            Reg::R61 => 61,
            Reg::R62 => 62,
            Reg::R63 => 63,
        }
    }

    /// Returns the number of this register.
    pub fn index(self) -> (r: usize)
        ensures
            r == self.spec_index(),
    {
        match self {
            Reg::R0 => 0,
            Reg::R1 => 1,
            Reg::R2 => 2,
            Reg::R3 => 3,
            Reg::R4 => 4,
            Reg::R5 => 5,
            Reg::R6 => 6,
            Reg::R7 => 7,
            Reg::R8 => 8,
            Reg::R9 => 9,
            Reg::R10 => 10,
            Reg::R11 => 11,
            Reg::R12 => 12,
            Reg::R13 => 13,
            Reg::R14 => 14,
            Reg::R15 => 15,
            Reg::R16 => 16,
            Reg::R17 => 17,
            Reg::R18 => 18,
            Reg::R19 => 19,
            Reg::R20 => 20,
            Reg::R21 => 21,
            Reg::R22 => 22,
            Reg::R23 => 23,
            Reg::R24 => 24,
            Reg::R25 => 25,
            Reg::R26 => 26,
            Reg::R27 => 27,
            Reg::R28 => 28,
            Reg::R29 => 29,
            Reg::R30 => 30,
            Reg::R31 => 31,
            Reg::R32 => 32,
            Reg::R33 => 33,
            Reg::R34 => 34,
            Reg::R35 => 35,
            Reg::R36 => 36,
            Reg::R37 => 37,
            Reg::R38 => 38,
            Reg::R39 => 39,
            Reg::R40 => 40,
            Reg::R41 => 41,
            Reg::R42 => 42,
            Reg::R43 => 43,
            Reg::R44 => 44,
            Reg::R45 => 45,
            Reg::R46 => 46,
            Reg::R47 => 47,
            Reg::R48 => 48,
            Reg::R49 => 49,
            Reg::R50 => 50,
            Reg::R51 => 51,
            Reg::R52 => 52,
            Reg::R53 => 53,
            Reg::R54 => 54,
            Reg::R55 => 55,
            Reg::R56 => 56,
            Reg::R57 => 57,
            Reg::R58 => 58,
            Reg::R59 => 59,
            Reg::R60 => 60,
            Reg::R61 => 61,
            Reg::R62 => 62,
            Reg::R63 => 63,
        }
    }

    /// The register with the given number, if any.
    pub fn from_index(index: usize) -> (r: Option<Self>)
        ensures
            0 <= index < 64 <==> r.is_some(),
            r matches Some(reg) ==> reg.spec_index() == index,
    {
        match index {
            0 => Some(Reg::R0),
            1 => Some(Reg::R1),
            2 => Some(Reg::R2),
            3 => Some(Reg::R3),
            4 => Some(Reg::R4),
            5 => Some(Reg::R5),
            6 => Some(Reg::R6),
            7 => Some(Reg::R7),
            8 => Some(Reg::R8),
            9 => Some(Reg::R9),
            10 => Some(Reg::R10),
            11 => Some(Reg::R11),
            12 => Some(Reg::R12),
            13 => Some(Reg::R13),
            14 => Some(Reg::R14),
            15 => Some(Reg::R15),
            16 => Some(Reg::R16),
            17 => Some(Reg::R17),
            18 => Some(Reg::R18),
            19 => Some(Reg::R19),
            20 => Some(Reg::R20),
            21 => Some(Reg::R21),
            22 => Some(Reg::R22),
            23 => Some(Reg::R23),
            24 => Some(Reg::R24),
            25 => Some(Reg::R25),
            26 => Some(Reg::R26),
            27 => Some(Reg::R27),
            28 => Some(Reg::R28),
            29 => Some(Reg::R29),
            30 => Some(Reg::R30),
            31 => Some(Reg::R31),
            32 => Some(Reg::R32),
            33 => Some(Reg::R33),
            34 => Some(Reg::R34),
            35 => Some(Reg::R35),
            36 => Some(Reg::R36),
            37 => Some(Reg::R37),
            38 => Some(Reg::R38),
            39 => Some(Reg::R39),
            40 => Some(Reg::R40),
            41 => Some(Reg::R41),
            42 => Some(Reg::R42),
            43 => Some(Reg::R43),
            44 => Some(Reg::R44),
            45 => Some(Reg::R45),
            46 => Some(Reg::R46),
            47 => Some(Reg::R47),
            48 => Some(Reg::R48),
            49 => Some(Reg::R49),
            50 => Some(Reg::R50),
            51 => Some(Reg::R51),
            52 => Some(Reg::R52),
            53 => Some(Reg::R53),
            54 => Some(Reg::R54),
            55 => Some(Reg::R55),
            56 => Some(Reg::R56),
            57 => Some(Reg::R57),
            58 => Some(Reg::R58),
            59 => Some(Reg::R59),
            60 => Some(Reg::R60),
            61 => Some(Reg::R61),
            62 => Some(Reg::R62),
            63 => Some(Reg::R63),
            _ => None,
        }
    }
}

impl Reg {
    pub const VXY0: Reg = Reg::R0;
    pub const VZ0: Reg = Reg::R1;
    pub const VXY1: Reg = Reg::R2;
    pub const VZ1: Reg = Reg::R3;
    pub const VXY2: Reg = Reg::R4;
    pub const VZ2: Reg = Reg::R5;

    pub const RGBC: Reg = Reg::R6;

    pub const OTZ: Reg = Reg::R7;
    pub const IR0: Reg = Reg::R8;
    pub const IR1: Reg = Reg::R9;
    pub const IR2: Reg = Reg::R10;
    pub const IR3: Reg = Reg::R11;

    pub const SXY0: Reg = Reg::R12;
    pub const SXY1: Reg = Reg::R13;
    pub const SXY2: Reg = Reg::R14;
    pub const SXYP: Reg = Reg::R15;

    pub const SZ0: Reg = Reg::R16;
    pub const SZ1: Reg = Reg::R17;
    pub const SZ2: Reg = Reg::R18;
    pub const SZ3: Reg = Reg::R19;

    pub const RGB0: Reg = Reg::R20;
    pub const RGB1: Reg = Reg::R21;
    pub const RGB2: Reg = Reg::R22;

    pub const MAC0: Reg = Reg::R24;
    pub const MAC1: Reg = Reg::R25;
    pub const MAC2: Reg = Reg::R26;
    pub const MAC3: Reg = Reg::R27;

    pub const IRGB: Reg = Reg::R28;
    pub const ORGB: Reg = Reg::R29;

    pub const LZCS: Reg = Reg::R30;
    pub const LZCR: Reg = Reg::R31;

    pub const RT_11_12: Reg = Reg::R32;
    pub const RT_13_21: Reg = Reg::R33;
    pub const RT_22_23: Reg = Reg::R34;
    pub const RT_31_32: Reg = Reg::R35;
    pub const RT_33_SS: Reg = Reg::R36;

    pub const TRX: Reg = Reg::R37;
    pub const TRY: Reg = Reg::R38;
    pub const TRZ: Reg = Reg::R39;

    pub const L_11_12: Reg = Reg::R40;
    pub const L_13_21: Reg = Reg::R41;
    pub const L_22_23: Reg = Reg::R42;
    pub const L_31_32: Reg = Reg::R43;
    pub const L_33_SS: Reg = Reg::R44;

    pub const BCR: Reg = Reg::R45;
    pub const BCG: Reg = Reg::R46;
    pub const BCB: Reg = Reg::R47;

    pub const L_R1_R2: Reg = Reg::R48;
    pub const L_R3_G1: Reg = Reg::R49;
    pub const L_G2_G3: Reg = Reg::R50;
    pub const L_B1_B2: Reg = Reg::R51;
    pub const L_B3_SS: Reg = Reg::R52;

    pub const FCR: Reg = Reg::R53;
    pub const FCG: Reg = Reg::R54;
    pub const FCB: Reg = Reg::R55;

    pub const OFX: Reg = Reg::R56;
    pub const OFY: Reg = Reg::R57;
    pub const H: Reg = Reg::R58;
    pub const DQA: Reg = Reg::R59;
    pub const DQB: Reg = Reg::R60;

    pub const ZSF3: Reg = Reg::R61;
    pub const ZSF4: Reg = Reg::R62;

    pub const FLAG: Reg = Reg::R63;
}

impl vstd::std_specs::convert::FromSpecImpl<DataReg> for Reg {
    open spec fn obeys_from_spec() -> bool {
        true
    }

    open spec fn from_spec(value: DataReg) -> Reg {
        reg_at(value.spec_index())
    }
}

impl From<DataReg> for Reg {
    fn from(value: DataReg) -> (r: Self) {
        let index = value.index();
        match Reg::from_index(index) {
            Some(reg) => reg,
            None => Reg::R0,
        }
    }
}

impl vstd::std_specs::convert::FromSpecImpl<ControlReg> for Reg {
    open spec fn obeys_from_spec() -> bool {
        true
    }

    open spec fn from_spec(value: ControlReg) -> Reg {
        reg_at(value.spec_index() + 32)
    }
}

impl From<ControlReg> for Reg {
    fn from(value: ControlReg) -> (r: Self) {
        let index = value.index() + 32;
        match Reg::from_index(index) {
            Some(reg) => reg,
            None => Reg::R0,
        }
    }
}

/// The register with the given number, which must be below 64.
pub open spec fn reg_at(index: int) -> Reg {
    choose|reg: Reg| reg.spec_index() == index
}

/// Proof that every register number below 64 names exactly the register `reg_at` gives.
pub proof fn lemma_reg_at(reg: Reg)
    ensures
        0 <= reg.spec_index() < 64,
        reg_at(reg.spec_index()) == reg,
{
    assert(reg.spec_index() == reg.spec_index());
    let other = reg_at(reg.spec_index());
    assert(other.spec_index() == reg.spec_index());
}

/// A flag of the `FLAG` register of the GTE.
#[derive(Debug, Clone, Copy, PartialEq, Eq, Structural)]
pub enum Flag {
    ClampedIR0,
    ClampedSY2,
    ClampedSX2,
    UnderflowedMAC0,
    OverflowedMAC0,
    DivideOverflow,
    ClampedZ,
    ClampedB,
    ClampedG,
    ClampedR,
    ClampedIR3,
    ClampedIR2,
    ClampedIR1,
    UnderflowedMAC3,
    UnderflowedMAC2,
    UnderflowedMAC1,
    OverflowedMAC3,
    OverflowedMAC2,
    OverflowedMAC1,
}

impl Flag {
    /// The bit of the `FLAG` register that holds this flag.
    pub open spec fn spec_bit(self) -> u32 {
        match self {
            Flag::ClampedIR0 => 12,
            Flag::ClampedSY2 => 13,
            Flag::ClampedSX2 => 14,
            Flag::UnderflowedMAC0 => 15,
            Flag::OverflowedMAC0 => 16,
            Flag::DivideOverflow => 17,
            Flag::ClampedZ => 18,
            Flag::ClampedB => 19,
            Flag::ClampedG => 20,
            Flag::ClampedR => 21,
            Flag::ClampedIR3 => 22,
            Flag::ClampedIR2 => 23,
            Flag::ClampedIR1 => 24,
            Flag::UnderflowedMAC3 => 25,
            Flag::UnderflowedMAC2 => 26,
            Flag::UnderflowedMAC1 => 27,
            Flag::OverflowedMAC3 => 28,
            Flag::OverflowedMAC2 => 29,
            Flag::OverflowedMAC1 => 30,
        }
    }

    /// Returns the bit of the `FLAG` register that holds this flag.
    pub fn bit(self) -> (r: u32)
        ensures
            r == self.spec_bit(),
            12 <= r <= 30,
    {
        match self {
            Flag::ClampedIR0 => 12,
            Flag::ClampedSY2 => 13,
            Flag::ClampedSX2 => 14,
            Flag::UnderflowedMAC0 => 15,
            Flag::OverflowedMAC0 => 16,
            Flag::DivideOverflow => 17,
            Flag::ClampedZ => 18,
            Flag::ClampedB => 19,
            Flag::ClampedG => 20,
            Flag::ClampedR => 21,
            Flag::ClampedIR3 => 22,
            Flag::ClampedIR2 => 23,
            Flag::ClampedIR1 => 24,
            Flag::UnderflowedMAC3 => 25,
            Flag::UnderflowedMAC2 => 26,
            Flag::UnderflowedMAC1 => 27,
            Flag::OverflowedMAC3 => 28,
            Flag::OverflowedMAC2 => 29,
            Flag::OverflowedMAC1 => 30,
        }
    }
}

/// `v` with bit `bit` set to `value`.
pub open spec fn with_bit(v: u32, bit: u32, value: bool) -> u32 {
    if value {
        v | (1u32 << bit)
    } else {
        v & !(1u32 << bit)
    }
}

/// The low 16 bits of `v`, sign extended to 32 bits.
pub open spec fn sext16(v: u32) -> u32 {
    if v & 0x8000 != 0 {
        v | 0xFFFF_0000
    } else {
        v & 0xFFFF
    }
}

/// Sign extends the low 16 bits of `v` to 32 bits.
pub fn sign_extend16(v: u32) -> (r: u32)
    ensures
        r == sext16(v),
        r as i32 == v as i16 as i32,
{
    let r = if v & 0x8000 != 0 {
        v | 0xFFFF_0000
    } else {
        v & 0xFFFF
    };
    assert(r as i32 == v as i16 as i32) by (bit_vector)
        requires
            r == (if v & 0x8000 != 0 { v | 0xFFFF_0000 } else { v & 0xFFFF });
    r
}

/// What reading `reg` gives when the register file holds `regs`. Reading `FLAG` also gives its
/// error bit (bit 31), the OR of bits 30..=23 and 18..=13.
pub open spec fn spec_read(regs: Seq<u32>, reg: Reg) -> u32 {
    let v = regs[reg.spec_index()];
    if reg == Reg::R58 {
        sext16(v)
    } else if reg == Reg::R63 {
        if v & 0x7F87_E000 != 0 {
            v | 0x8000_0000
        } else {
            v
        }
    } else {
        v
    }
}

/// One 5 bit color component of `IRGB`, taken from an `IR` register: `IR / 0x80` clamped to
/// `0..=0x1F`.
pub open spec fn irgb_component(ir: u32) -> u32 {
    if ir >= 0x8000_0000 {
        0
    } else if ir / 0x80 > 0x1F {
        0x1F
    } else {
        ir / 0x80
    }
}

/// The value of `IRGB` (and `ORGB`) that the registers `IR1`, `IR2` and `IR3` of `regs` give.
pub open spec fn irgb_of(regs: Seq<u32>) -> u32 {
    irgb_component(regs[9]) | (irgb_component(regs[10]) << 5u32) | (irgb_component(regs[11])
        << 10u32)
}

/// `regs` with `IRGB` and `ORGB` recomputed from `IR1`, `IR2` and `IR3`.
pub open spec fn with_irgb(regs: Seq<u32>) -> Seq<u32> {
    regs.update(28, irgb_of(regs)).update(29, irgb_of(regs))
}

/// Computes one 5 bit color component of `IRGB` from an `IR` register.
fn irgb_component_of(ir: u32) -> (r: u32)
    ensures
        r == irgb_component(ir),
{
    if ir >= 0x8000_0000 {
        0
    } else if ir / 0x80 > 0x1F {
        0x1F
    } else {
        ir / 0x80
    }
}

/// The register file after writing `value` to `reg`.
pub open spec fn spec_write(regs: Seq<u32>, reg: Reg, value: u32) -> Seq<u32> {
    let i = reg.spec_index();
    if reg == Reg::R1 || reg == Reg::R3 || reg == Reg::R5 {
        regs.update(i, sext16(value))
    } else if reg == Reg::R7 {
        regs.update(i, value as u16 as u32)
    } else if reg == Reg::R8 || reg == Reg::R9 || reg == Reg::R10 || reg == Reg::R11 {
        with_irgb(regs.update(i, sext16(value)))
    } else if reg == Reg::R14 {
        regs.update(14, value).update(15, value)
    } else if reg == Reg::R15 {
        regs.update(12, regs[13]).update(13, regs[14]).update(14, value).update(15, value)
    } else if reg == Reg::R16 || reg == Reg::R17 || reg == Reg::R18 || reg == Reg::R19 {
        regs.update(i, value as u16 as u32)
    } else if reg == Reg::R28 {
        with_irgb(
            regs.update(9, (value & 0x1F) << 7u32).update(10, ((value >> 5u32) & 0x1F) << 7u32).update(
                11,
                ((value >> 10u32) & 0x1F) << 7u32,
            ),
        )
    } else if reg == Reg::R29 || reg == Reg::R31 {
        regs
    } else if reg == Reg::R30 {
        regs.update(30, value).update(
            31,
            if value < 0x8000_0000 {
                value.leading_zeros()
            } else {
                value.leading_ones()
            },
        )
    } else if reg == Reg::R36 || reg == Reg::R44 || reg == Reg::R52 || reg == Reg::R59 || reg
        == Reg::R61 || reg == Reg::R62 {
        regs.update(i, sext16(value))
    } else if reg == Reg::R63 {
        regs.update(i, value & !0x8000_0FFFu32)
    } else {
        regs.update(i, value)
    }
}

/// The register file after setting `flag` to `value`.
pub open spec fn spec_set_flag(regs: Seq<u32>, flag: Flag, value: bool) -> Seq<u32> {
    spec_write(regs, Reg::R63, with_bit(spec_read(regs, Reg::R63), flag.spec_bit(), value))
}

/// The register file after raising `flag` if `value` holds (a flag already raised stays).
pub open spec fn spec_merge_flag(regs: Seq<u32>, flag: Flag, value: bool) -> Seq<u32> {
    let reg = spec_read(regs, Reg::R63);
    spec_write(regs, Reg::R63, reg | with_bit(reg, flag.spec_bit(), value))
}

/// The `IR` register with the given number (0 to 3).
pub open spec fn ir_reg(n: int) -> Reg {
    if n == 0 {
        Reg::R8
    } else if n == 1 {
        Reg::R9
    } else if n == 2 {
        Reg::R10
    } else {
        Reg::R11
    }
}

/// The flag raised when the `IR` register with the given number (0 to 3) is clamped.
pub open spec fn ir_flag(n: int) -> Flag {
    if n == 0 {
        Flag::ClampedIR0
    } else if n == 1 {
        Flag::ClampedIR1
    } else if n == 2 {
        Flag::ClampedIR2
    } else {
        Flag::ClampedIR3
    }
}

/// The range an `IR` register is clamped to: its lower bound is `0` when negative values are not
/// allowed, and its upper bound is `0x1000` for `IR0`.
pub open spec fn ir_bounds(n: int, no_neg: bool) -> (int, int) {
    (if no_neg { 0 } else { -0x8000 }, if n == 0 { 0x1000 } else { 0x7FFF })
}

/// The value written to the `IR` register with the given number, and whether it was clamped.
pub open spec fn spec_ir(n: int, value: int, no_neg: bool) -> (int, bool) {
    spec_clamp(value, ir_bounds(n, no_neg).0, ir_bounds(n, no_neg).1)
}

/// The register file after setting the `IR` register with the given number to `value`.
pub open spec fn spec_set_ir(regs: Seq<u32>, n: int, value: i32, no_neg: bool) -> Seq<u32> {
    let (clamped_value, clamped) = spec_ir(n, value as int, no_neg);
    spec_merge_flag(spec_write(regs, ir_reg(n), clamped_value as i32 as u32), ir_flag(n), clamped)
}

/// The `MAC` register with the given number (1 to 3).
pub open spec fn mac_reg(n: int) -> Reg {
    if n == 1 {
        Reg::R25
    } else if n == 2 {
        Reg::R26
    } else {
        Reg::R27
    }
}

/// The flags raised when the `MAC` register with the given number (1 to 3) under- or overflows.
pub open spec fn mac_flags(n: int) -> (Flag, Flag) {
    if n == 1 {
        (Flag::UnderflowedMAC1, Flag::OverflowedMAC1)
    } else if n == 2 {
        (Flag::UnderflowedMAC2, Flag::OverflowedMAC2)
    } else {
        (Flag::UnderflowedMAC3, Flag::OverflowedMAC3)
    }
}

/// The value of a `MAC` register given the result it is set from: shifted right by 12 (dropping
/// the fraction) when asked to.
pub open spec fn mac_value(value: Int44, shift: bool) -> i64 {
    if shift {
        (value.val() as i64) >> 12i64
    } else {
        value.val() as i64
    }
}

/// The register file after setting the `MAC` register with the given number (1 to 3) from `value`.
pub open spec fn spec_set_mac(regs: Seq<u32>, n: int, value: Int44, shift: bool) -> Seq<u32> {
    spec_merge_flag(
        spec_merge_flag(
            spec_write(regs, mac_reg(n), mac_value(value, shift) as u32),
            mac_flags(n).0,
            value.unf(),
        ),
        mac_flags(n).1,
        value.ovf(),
    )
}

/// The register file after setting the `MAC` register with number `n` (1 to 3) from `value` and
/// then the `IR` register with the same number from the value written.
pub open spec fn spec_set_mac_ir(regs: Seq<u32>, n: int, value: Int44, shift: bool, no_neg: bool) -> Seq<u32> {
    spec_set_ir(spec_set_mac(regs, n, value, shift), n, mac_value(value, shift) as i32, no_neg)
}

/// The register file after setting `MAC0` from `value`.
pub open spec fn spec_set_mac0(regs: Seq<u32>, value: Int44) -> Seq<u32> {
    let v = value.val();
    spec_merge_flag(
        spec_merge_flag(
            spec_write(regs, Reg::R24, v as i64 as u32),
            Flag::UnderflowedMAC0,
            v < -0x8000_0000,
        ),
        Flag::OverflowedMAC0,
        v > 0x8000_0000,
    )
}

/// The 16 bit two's complement encoding of `v`, which must lie in `-0x8000..0x8000`.
pub open spec fn spec_half_word(v: int) -> u32 {
    if v < 0 {
        (v + 0x1_0000) as u32
    } else {
        v as u32
    }
}

/// Encodes `v` as a 16 bit two's complement half-word.
fn half_word(v: i32) -> (r: u32)
    requires
        -0x8000 <= v < 0x8000,
    ensures
        r == spec_half_word(v as int),
        r < 0x1_0000,
{
    if v < 0 {
        (v + 0x1_0000) as u32
    } else {
        v as u32
    }
}

/// The register file after pushing the screen coordinate `(x, y)`.
pub open spec fn spec_push_xy(regs: Seq<u32>, x: int, y: int) -> Seq<u32> {
    let (cx, clamped_x) = spec_clamp(x, -0x400, 0x3FF);
    let (cy, clamped_y) = spec_clamp(y, -0x400, 0x3FF);
    let sxy = spec_half_word(cx) + spec_half_word(cy) * 0x1_0000;
    let shifted = regs.update(12, regs[13]).update(13, regs[14]).update(14, sxy as u32);
    let flagged = spec_merge_flag(
        spec_merge_flag(shifted, Flag::ClampedSX2, clamped_x),
        Flag::ClampedSY2,
        clamped_y,
    );
    flagged.update(15, sxy as u32)
}

/// The register file after pushing the depth `value`.
pub open spec fn spec_push_z(regs: Seq<u32>, value: Int44) -> Seq<u32> {
    let z = (value.val() as i64) >> 12i64;
    let (clamped_z, saturated) = spec_clamp(z as int, 0, 0xFFFF);
    let shifted = regs.update(16, regs[17]).update(17, regs[18]).update(18, regs[19]).update(
        19,
        clamped_z as u32,
    );
    spec_merge_flag(shifted, Flag::ClampedZ, saturated)
}

/// The register file after pushing the color `(r, g, b)`.
pub open spec fn spec_push_color(regs: Seq<u32>, r: int, g: int, b: int) -> Seq<u32> {
    let (cr, clamped_r) = spec_clamp(r, 0, 0xFF);
    let (cg, clamped_g) = spec_clamp(g, 0, 0xFF);
    let (cb, clamped_b) = spec_clamp(b, 0, 0xFF);
    let code = regs[6] / 0x0100_0000;
    let rgb = cr + cg * 0x100 + cb * 0x1_0000 + code * 0x0100_0000;
    let shifted = regs.update(20, regs[21]).update(21, regs[22]);
    spec_set_flag(
        spec_set_flag(
            spec_set_flag(spec_write(shifted, Reg::R22, rgb as u32), Flag::ClampedR, clamped_r),
            Flag::ClampedG,
            clamped_g,
        ),
        Flag::ClampedB,
        clamped_b,
    )
}

/// Whether the register file holds each register in the form its writes give it: the registers
/// written as signed half-words (`VZ0`-`VZ2`, `IR0`-`IR3`, `RT33`, `L33`, `LB3`, `DQA`, `ZSF3`,
/// `ZSF4`) hold sign extended values, `OTZ` and `SZ0`-`SZ3` hold unsigned half-words, and the
/// read-only bits of `FLAG` are clear.
pub open spec fn canonical(regs: Seq<u32>) -> bool {
    &&& regs.len() == 64
    &&& regs[1] == sext16(regs[1])
    &&& regs[3] == sext16(regs[3])
    &&& regs[5] == sext16(regs[5])
    &&& regs[8] == sext16(regs[8])
    &&& regs[9] == sext16(regs[9])
    &&& regs[10] == sext16(regs[10])
    &&& regs[11] == sext16(regs[11])
    &&& regs[36] == sext16(regs[36])
    &&& regs[44] == sext16(regs[44])
    &&& regs[52] == sext16(regs[52])
    &&& regs[59] == sext16(regs[59])
    &&& regs[61] == sext16(regs[61])
    &&& regs[62] == sext16(regs[62])
    &&& regs[7] < 0x1_0000
    &&& regs[16] < 0x1_0000
    &&& regs[17] < 0x1_0000
    &&& regs[18] < 0x1_0000
    &&& regs[19] < 0x1_0000
    &&& regs[63] & 0x8000_0FFF == 0
}

/// Proof that a sign extended half-word lies either at most `0x7FFF` or at least `0xFFFF_8000`.
pub proof fn lemma_sext16_range(v: u32)
    ensures
        sext16(v) <= 0x7FFF || sext16(v) >= 0xFFFF_8000,
{
    assert(sext16(v) <= 0x7FFF || sext16(v) >= 0xFFFF_8000) by (bit_vector);
}

/// Facts about sign extension: it is idempotent, and its result read as an `i32` lies in
/// `-0x8000..0x8000`.
pub proof fn lemma_sext16(v: u32)
    ensures
        sext16(sext16(v)) == sext16(v),
        -0x8000 <= sext16(v) as i32 <= 0x7FFF,
        v as i32 == v as i16 as i32 ==> sext16(v) == v,
{
    assert(sext16(sext16(v)) == sext16(v)) by (bit_vector);
    assert(-0x8000 <= sext16(v) as i32 <= 0x7FFF) by (bit_vector);
    assert(v as i32 == v as i16 as i32 ==> sext16(v) == v) by (bit_vector);
}

/// The registers of the GTE.
pub struct Registers([u32; 64]);

impl Clone for Registers {
    fn clone(&self) -> (r: Self)
        ensures
            r@ == self@,
    {
        proof {
            use_type_invariant(self);
        }
        Self(self.0)
    }
}

impl View for Registers {
    type V = Seq<u32>;

    closed spec fn view(&self) -> Seq<u32> {
        self.0@
    }
}

impl Default for Registers {
    fn default() -> (r: Self)
        ensures
            r@ == Seq::new(64, |_i: int| 0u32),
    {
        assert(sext16(0) == 0 && 0u32 & 0x8000_0FFF == 0) by (bit_vector);
        let zeros = [0u32; 64];
        assert(zeros@ =~= Seq::new(64, |_i: int| 0u32));
        let r = Self(zeros);
        assert(r@ =~= Seq::new(64, |_i: int| 0u32));
        r
    }
}

impl Registers {
    /// Each register holds the form its writes give it.
    #[verifier::type_invariant]
    spec fn inv(self) -> bool {
        canonical(self.0@)
    }

    /// Returns whether the register file is canonical; it always is.
    pub fn is_canonical(&self) -> (r: bool)
        ensures
            r,
            canonical(self@),
    {
        proof {
            use_type_invariant(self);
        }
        true
    }

    /// Reads the given register.
    #[inline(always)]
    pub fn read(&self, reg: Reg) -> (r: u32)
        ensures
            r == spec_read(self@, reg),
            canonical(self@),
    {
        proof {
            use_type_invariant(self);
        }
        let index = reg.index();
        let value = self.0[index];
        if reg == Reg::R58 {
            sign_extend16(value)
        } else if reg == Reg::R63 {
            let err_flag = value & 0x7F87_E000 != 0;
            if err_flag {
                value | 0x8000_0000
            } else {
                value
            }
        } else {
            value
        }
    }

    /// Writes `value` to the given register, with the side effects the GTE gives each register.
    #[inline(always)]
    pub fn write(&mut self, reg: Reg, value: u32)
        ensures
            final(self)@ == spec_write(old(self)@, reg, value),
    {
        proof {
            use_type_invariant(&*self);
        }
        let i = reg.index();
        proof {
            lemma_sext16(value);
            lemma_reg_at(reg);
        }
        if reg == Reg::R1 || reg == Reg::R3 || reg == Reg::R5 {
            self.0[i] = sign_extend16(value);
        } else if reg == Reg::R7 {
            self.0[i] = value as u16 as u32;
        } else if reg == Reg::R8 || reg == Reg::R9 || reg == Reg::R10 || reg == Reg::R11 {
            self.0[i] = sign_extend16(value);
            self.update_irgb();
        } else if reg == Reg::R14 {
            self.0[14] = value;
            self.0[15] = value;
        } else if reg == Reg::R15 {
            self.0[12] = self.0[13];
            self.0[13] = self.0[14];
            self.0[14] = value;
            self.0[15] = value;
        } else if reg == Reg::R16 || reg == Reg::R17 || reg == Reg::R18 || reg == Reg::R19 {
            self.0[i] = value as u16 as u32;
        } else if reg == Reg::R28 {
            let ir1 = (value & 0x1F) << 7u32;
            let ir2 = ((value >> 5u32) & 0x1F) << 7u32;
            let ir3 = ((value >> 10u32) & 0x1F) << 7u32;
            assert(sext16(ir1) == ir1 && sext16(ir2) == ir2 && sext16(ir3) == ir3) by (bit_vector)
                requires
                    ir1 == (value & 0x1F) << 7u32,
                    ir2 == ((value >> 5u32) & 0x1F) << 7u32,
                    ir3 == ((value >> 10u32) & 0x1F) << 7u32,
            ;
            self.0[9] = ir1;
            self.0[10] = ir2;
            self.0[11] = ir3;
            self.update_irgb();
        } else if reg == Reg::R29 || reg == Reg::R31 {
            // read only
        } else if reg == Reg::R30 {
            self.0[30] = value;
            self.0[31] = if value < 0x8000_0000 {
                value.leading_zeros()
            } else {
                value.leading_ones()
            };
        } else if reg == Reg::R36 || reg == Reg::R44 || reg == Reg::R52 || reg == Reg::R59 || reg
            == Reg::R61 || reg == Reg::R62 {
            self.0[i] = sign_extend16(value);
        } else if reg == Reg::R63 {
            assert((value & !0x8000_0FFFu32) & 0x8000_0FFF == 0) by (bit_vector);
            self.0[i] = value & !0x8000_0FFFu32;
        } else {
            self.0[i] = value;
        }
    }

    /// Recomputes `IRGB` and `ORGB` from `IR1`, `IR2` and `IR3`.
    pub fn update_irgb(&mut self)
        ensures
            final(self)@ == with_irgb(old(self)@),
    {
        proof {
            use_type_invariant(&*self);
        }
        let r = irgb_component_of(self.0[9]);
        let g = irgb_component_of(self.0[10]);
        let b = irgb_component_of(self.0[11]);
        let value = r | (g << 5u32) | (b << 10u32);

        self.0[28] = value;
        self.0[29] = value;
    }

    /// Sets `flag` to `value`.
    pub fn set_flag(&mut self, flag: Flag, value: bool)
        ensures
            final(self)@ == spec_set_flag(old(self)@, flag, value),
    {
        proof {
            use_type_invariant(&*self);
        }
        let reg = self.read(Reg::FLAG);
        let bit = flag.bit();
        let updated = if value {
            reg | (1u32 << bit)
        } else {
            reg & !(1u32 << bit)
        };
        self.write(Reg::FLAG, updated);
    }

    /// Raises `flag` if `value` holds; a flag already raised stays raised.
    pub fn merge_flag(&mut self, flag: Flag, value: bool)
        ensures
            final(self)@ == spec_merge_flag(old(self)@, flag, value),
    {
        proof {
            use_type_invariant(&*self);
        }
        let reg = self.read(Reg::FLAG);
        let bit = flag.bit();
        let updated = if value {
            reg | (1u32 << bit)
        } else {
            reg & !(1u32 << bit)
        };
        self.write(Reg::FLAG, reg | updated);
    }

    /// Sets the `IR` register with number `n` to `value` clamped to its range, raising its clamp
    /// flag if needed, and returns the clamped value.
    fn inner_set_ir(&mut self, n: usize, value: i32, no_neg: bool) -> (r: i32)
        requires
            n <= 3,
        ensures
            r as int == spec_ir(n as int, value as int, no_neg).0,
            final(self)@ == spec_set_ir(old(self)@, n as int, value, no_neg),
    {
        proof {
            use_type_invariant(&*self);
        }
        let lower = if no_neg {
            0
        } else {
            -0x8000
        };
        let higher = if n == 0 {
            0x1000
        } else {
            0x7FFF
        };

        let (clamped_value, clamped) = clamp(value, lower, higher);
        let (reg, flag) = if n == 0 {
            (Reg::IR0, Flag::ClampedIR0)
        } else if n == 1 {
            (Reg::IR1, Flag::ClampedIR1)
        } else if n == 2 {
            (Reg::IR2, Flag::ClampedIR2)
        } else {
            (Reg::IR3, Flag::ClampedIR3)
        };

        self.write(reg, clamped_value as u32);
        self.merge_flag(flag, clamped);

        clamped_value
    }

    /// Sets `IR0` to `value` clamped to `0..=0x1000`.
    pub fn set_ir0(&mut self, value: i32)
        ensures
            final(self)@ == spec_set_ir(old(self)@, 0, value, true),
    {
        proof {
            use_type_invariant(&*self);
        }
        self.inner_set_ir(0, value, true);
    }

    /// Sets `IR1` to `value` clamped to its range.
    pub fn set_ir1(&mut self, value: i32, no_neg: bool)
        ensures
            final(self)@ == spec_set_ir(old(self)@, 1, value, no_neg),
    {
        proof {
            use_type_invariant(&*self);
        }
        self.inner_set_ir(1, value, no_neg);
    }

    /// Sets `IR2` to `value` clamped to its range.
    pub fn set_ir2(&mut self, value: i32, no_neg: bool)
        ensures
            final(self)@ == spec_set_ir(old(self)@, 2, value, no_neg),
    {
        proof {
            use_type_invariant(&*self);
        }
        self.inner_set_ir(2, value, no_neg);
    }

    /// Sets `IR3` to `value` clamped to its range.
    pub fn set_ir3(&mut self, value: i32, no_neg: bool)
        ensures
            final(self)@ == spec_set_ir(old(self)@, 3, value, no_neg),
    {
        proof {
            use_type_invariant(&*self);
        }
        self.inner_set_ir(3, value, no_neg);
    }

    /// Sets the `MAC` register with number `n` (1 to 3) from `value`, shifting it right by 12 when
    /// asked to, and raises its flags if `value` under- or overflowed. Returns the value written.
    fn inner_set_mac(&mut self, n: usize, value: Int44, shift: bool) -> (r: i32)
        requires
            1 <= n <= 3,
        ensures
            r == mac_value(value, shift) as i32,
            final(self)@ == spec_set_mac(old(self)@, n as int, value, shift),
    {
        proof {
            use_type_invariant(&*self);
        }
        let shifted = if shift {
            value.value() >> 12i64
        } else {
            value.value()
        };

        let (reg, flag_underflow, flag_overflow) = if n == 1 {
            (Reg::MAC1, Flag::UnderflowedMAC1, Flag::OverflowedMAC1)
        } else if n == 2 {
            (Reg::MAC2, Flag::UnderflowedMAC2, Flag::OverflowedMAC2)
        } else {
            (Reg::MAC3, Flag::UnderflowedMAC3, Flag::OverflowedMAC3)
        };

        self.write(reg, shifted as u32);
        self.merge_flag(flag_underflow, value.underflowed());
        self.merge_flag(flag_overflow, value.overflowed());

        shifted as i32
    }

    /// Sets `MAC0` from `value`, raising its flags if `value` does not fit 32 bits. Returns the
    /// value written.
    pub fn set_mac0(&mut self, value: Int44) -> (r: i32)
        ensures
            r == value.val() as i64 as i32,
            final(self)@ == spec_set_mac0(old(self)@, value),
    {
        proof {
            use_type_invariant(&*self);
        }
        let value = value.value();
        self.write(Reg::MAC0, value as u32);
        self.merge_flag(Flag::UnderflowedMAC0, value < -0x8000_0000i64);
        self.merge_flag(Flag::OverflowedMAC0, value > 0x8000_0000i64);

        value as i32
    }

    /// Sets `MAC1` from `value` and returns the value written.
    pub fn set_mac1(&mut self, value: Int44, shift: bool) -> (r: i32)
        ensures
            r == mac_value(value, shift) as i32,
            final(self)@ == spec_set_mac(old(self)@, 1, value, shift),
    {
        proof {
            use_type_invariant(&*self);
        }
        self.inner_set_mac(1, value, shift)
    }

    /// Sets `MAC2` from `value` and returns the value written.
    pub fn set_mac2(&mut self, value: Int44, shift: bool) -> (r: i32)
        ensures
            r == mac_value(value, shift) as i32,
            final(self)@ == spec_set_mac(old(self)@, 2, value, shift),
    {
        proof {
            use_type_invariant(&*self);
        }
        self.inner_set_mac(2, value, shift)
    }

    /// Sets `MAC3` from `value` and returns the value written.
    pub fn set_mac3(&mut self, value: Int44, shift: bool) -> (r: i32)
        ensures
            r == mac_value(value, shift) as i32,
            final(self)@ == spec_set_mac(old(self)@, 3, value, shift),
    {
        proof {
            use_type_invariant(&*self);
        }
        self.inner_set_mac(3, value, shift)
    }

    /// Sets `MAC0` from `value` and then `IR0` from the value written. Returns the `MAC0` value.
    pub fn set_mac_ir0(&mut self, value: Int44) -> (r: i32)
        ensures
            r == value.val() as i64 as i32,
            final(self)@ == spec_set_ir(spec_set_mac0(old(self)@, value), 0, r, true),
    {
        proof {
            use_type_invariant(&*self);
        }
        let mac = self.set_mac0(value);
        self.set_ir0(mac);
        mac
    }

    /// Sets `MAC1` from `value` and then `IR1` from the value written. Returns the `MAC1` value.
    pub fn set_mac_ir1(&mut self, value: Int44, shift: bool, no_neg: bool) -> (r: i32)
        ensures
            r == mac_value(value, shift) as i32,
            final(self)@ == spec_set_ir(spec_set_mac(old(self)@, 1, value, shift), 1, r, no_neg),
    {
        proof {
            use_type_invariant(&*self);
        }
        let mac = self.inner_set_mac(1, value, shift);
        self.set_ir1(mac, no_neg);
        mac
    }

    /// Sets `MAC2` from `value` and then `IR2` from the value written. Returns the `MAC2` value.
    pub fn set_mac_ir2(&mut self, value: Int44, shift: bool, no_neg: bool) -> (r: i32)
        ensures
            r == mac_value(value, shift) as i32,
            final(self)@ == spec_set_ir(spec_set_mac(old(self)@, 2, value, shift), 2, r, no_neg),
    {
        proof {
            use_type_invariant(&*self);
        }
        let mac = self.inner_set_mac(2, value, shift);
        self.set_ir2(mac, no_neg);
        mac
    }

    /// Sets `MAC3` from `value` and then `IR3` from the value written. Returns the `MAC3` value.
    pub fn set_mac_ir3(&mut self, value: Int44, shift: bool, no_neg: bool) -> (r: i32)
        ensures
            r == mac_value(value, shift) as i32,
            final(self)@ == spec_set_ir(spec_set_mac(old(self)@, 3, value, shift), 3, r, no_neg),
    {
        proof {
            use_type_invariant(&*self);
        }
        let mac = self.inner_set_mac(3, value, shift);
        self.set_ir3(mac, no_neg);
        mac
    }

    /// Pushes a screen coordinate: `SXY0` takes `SXY1`, `SXY1` takes `SXY2`, and `SXY2` and
    /// `SXYP` take `x` and `y` clamped to `-0x400..=0x3FF`, raising their clamp flags if needed.
    pub fn push_xy(&mut self, x: i32, y: i32)
        ensures
            final(self)@ == spec_push_xy(old(self)@, x as int, y as int),
    {
        proof {
            use_type_invariant(&*self);
        }
        self.0[12] = self.0[13];
        self.0[13] = self.0[14];

        let (x, clamped_x) = clamp(x, -0x400, 0x3FF);
        let (y, clamped_y) = clamp(y, -0x400, 0x3FF);
        self.0[14] = half_word(x) + half_word(y) * 0x1_0000;
        self.merge_flag(Flag::ClampedSX2, clamped_x);
        self.merge_flag(Flag::ClampedSY2, clamped_y);

        proof {
            use_type_invariant(&*self);
        }
        self.0[15] = self.0[14];
    }

    /// Pushes a depth: `SZ0` to `SZ2` take the next register's value and `SZ3` takes `value`
    /// shifted right by 12, clamped to `0..=0xFFFF`, raising `ClampedZ` if needed.
    pub fn push_z(&mut self, value: Int44)
        ensures
            final(self)@ == spec_push_z(old(self)@, value),
    {
        proof {
            use_type_invariant(&*self);
        }
        self.0[16] = self.0[17];
        self.0[17] = self.0[18];
        self.0[18] = self.0[19];

        let value = value.value() >> 12i64;
        let (value, saturated) = if value < 0 {
            (0, true)
        } else if value > 0xffff {
            (0xffff, true)
        } else {
            (value, false)
        };

        self.0[19] = value as u32;
        self.merge_flag(Flag::ClampedZ, saturated);
    }

    /// Pushes a color: `RGB0` takes `RGB1`, `RGB1` takes `RGB2`, and `RGB2` takes `r`, `g` and `b`
    /// clamped to `0..=0xFF` with the code byte of `RGBC`. The clamp flags are set to whether each
    /// component was clamped.
    pub fn push_color(&mut self, r: i32, g: i32, b: i32)
        ensures
            final(self)@ == spec_push_color(old(self)@, r as int, g as int, b as int),
    {
        proof {
            use_type_invariant(&*self);
        }
        self.0[20] = self.0[21];
        self.0[21] = self.0[22];

        let (r, clamped_r) = clamp(r, 0x00, 0xFF);
        let (g, clamped_g) = clamp(g, 0x00, 0xFF);
        let (b, clamped_b) = clamp(b, 0x00, 0xFF);
        let c = self.0[6] / 0x0100_0000;

        self.write(
            Reg::RGB2,
            r as u32 + (g as u32) * 0x100 + (b as u32) * 0x1_0000 + c * 0x0100_0000,
        );

        self.set_flag(Flag::ClampedR, clamped_r);
        self.set_flag(Flag::ClampedG, clamped_g);
        self.set_flag(Flag::ClampedB, clamped_b);
    }
}

/// The state of the GTE.
pub struct Gte {
    pub regs: Registers,
}

impl Default for Gte {
    fn default() -> (r: Self)
        ensures
            r.regs@ == Seq::new(64, |_i: int| 0u32),
    {
        Self { regs: Registers::default() }
    }
}

} // verus!
