//! Execution of GTE instructions.
use crate::gte::fixed::{half_range, wrap_signed, lemma_wrap_signed, Integer};
use crate::gte::instr::{Instruction, MulMatrix, MulVector, OffVector, Opcode};
use crate::gte::{
    spec_merge_flag, spec_push_color, spec_push_xy, spec_push_z, spec_read, spec_set_flag,
    spec_set_ir, spec_set_mac, spec_set_mac0, spec_set_mac_ir, spec_write,
    canonical, Flag, Int44, Reg,
    Registers,
};
use vstd::prelude::*;

verus! {

/// `v` read as a two's complement 32 bit value.
pub open spec fn as_i32(v: u32) -> int {
    if v >= 0x8000_0000 {
        v - 0x1_0000_0000
    } else {
        v as int
    }
}

/// The low half-word of `v`, read as a two's complement 16 bit value.
pub open spec fn lo16(v: u32) -> int {
    if v % 0x1_0000 >= 0x8000 {
        v % 0x1_0000 - 0x1_0000
    } else {
        (v % 0x1_0000) as int
    }
}

/// The high half-word of `v`, read as a two's complement 16 bit value.
pub open spec fn hi16(v: u32) -> int {
    if v / 0x1_0000 >= 0x8000 {
        v / 0x1_0000 - 0x1_0000
    } else {
        (v / 0x1_0000) as int
    }
}

/// Reads `v` as a two's complement 32 bit value.
fn signed32(v: u32) -> (r: i64)
    ensures
        r == as_i32(v),
        -0x8000_0000 <= r < 0x8000_0000,
{
    if v >= 0x8000_0000 {
        v as i64 - 0x1_0000_0000
    } else {
        v as i64
    }
}

/// Reads the low half-word of `v` as a two's complement 16 bit value.
fn low_half(v: u32) -> (r: i64)
    ensures
        r == lo16(v),
        -0x8000 <= r < 0x8000,
{
    let l = (v % 0x1_0000) as i64;
    if l >= 0x8000 {
        l - 0x1_0000
    } else {
        l
    }
}

/// Reads the high half-word of `v` as a two's complement 16 bit value.
fn high_half(v: u32) -> (r: i64)
    ensures
        r == hi16(v),
        -0x8000 <= r < 0x8000,
{
    let h = (v / 0x1_0000) as i64;
    if h >= 0x8000 {
        h - 0x1_0000
    } else {
        h
    }
}

/// The 44 bit integer holding `v` with no flag raised.
pub open spec fn spec_i44(v: int) -> Int44 {
    Integer::make(v, false, false)
}

/// Proof that `2^43` is the range limit of a 44 bit integer, and that a value in range is kept.
pub proof fn lemma_i44(v: int)
    ensures
        half_range(44) == 0x800_0000_0000,
        spec_i44(v).val() == wrap_signed(v, 44),
        !spec_i44(v).ovf(),
        !spec_i44(v).unf(),
        -0x800_0000_0000 <= spec_i44(v).val() < 0x800_0000_0000,
        -0x800_0000_0000 <= v < 0x800_0000_0000 ==> spec_i44(v).val() == v,
{
    vstd::arithmetic::power2::lemma2_to64();
    vstd::arithmetic::power2::lemma_pow2_adds(32, 11);
    assert(vstd::arithmetic::power2::pow2(11) == 0x800);
    Int44::lemma_make(v, false, false);
    lemma_wrap_signed(v, 44);
}

/// Creates a 44 bit integer holding `value`.
#[inline(always)]
pub fn i44(value: i64) -> (r: Int44)
    ensures
        r == spec_i44(value as int),
        -0x800_0000_0000 <= value < 0x800_0000_0000 ==> r.val() == value,
        -0x800_0000_0000 <= r.val() < 0x800_0000_0000,
{
    proof {
        lemma_i44(value as int);
    }
    Int44::new(value)
}

/// Entry `index` of the table of reciprocal approximations the GTE divider starts from.
pub open spec fn spec_unr_entry(index: u32) -> u32 {
    if index == 0 {
        0xFF
    } else if index == 1 {
        0xFD
    } else if index == 2 {
        0xFB
    } else if index == 3 {
        0xF9
    } else if index == 4 {
        0xF7
    } else if index == 5 {
        0xF5
    } else if index == 6 {
        0xF3
    } else if index == 7 {
        0xF1
    } else if index == 8 {
        0xEF
    } else if index == 9 {
        0xEE
    } else if index == 10 {
        0xEC
    } else if index == 11 {
        0xEA
    } else if index == 12 {
        0xE8
    } else if index == 13 {
        0xE6
    } else if index == 14 {
        0xE4
    } else if index == 15 {
        0xE3
    } else if index == 16 {
        0xE1
    } else if index == 17 {
        0xDF
    } else if index == 18 {
        0xDD
    } else if index == 19 {
        0xDC
    } else if index == 20 {
        0xDA
    } else if index == 21 {
        0xD8
    } else if index == 22 {
        0xD6
    } else if index == 23 {
        0xD5
    } else if index == 24 {
        0xD3
    } else if index == 25 {
        0xD1
    } else if index == 26 {
        0xD0
    } else if index == 27 {
        0xCE
    } else if index == 28 {
        0xCD
    } else if index == 29 {
        0xCB
    } else if index == 30 {
        0xC9
    } else if index == 31 {
        0xC8
    } else if index == 32 {
        0xC6
    } else if index == 33 {
        0xC5
    } else if index == 34 {
        0xC3
    } else if index == 35 {
        0xC1
    } else if index == 36 {
        0xC0
    } else if index == 37 {
        0xBE
    } else if index == 38 {
        0xBD
    } else if index == 39 {
        0xBB
    } else if index == 40 {
        0xBA
    } else if index == 41 {
        0xB8
    } else if index == 42 {
        0xB7
    } else if index == 43 {
        0xB5
    } else if index == 44 {
        0xB4
    } else if index == 45 {
        0xB2
    } else if index == 46 {
        0xB1
    } else if index == 47 {
        0xB0
    } else if index == 48 {
        0xAE
    } else if index == 49 {
        0xAD
    } else if index == 50 {
        0xAB
    } else if index == 51 {
        0xAA
    } else if index == 52 {
        0xA9
    } else if index == 53 {
        0xA7
    } else if index == 54 {
        0xA6
    } else if index == 55 {
        0xA4
    } else if index == 56 {
        0xA3
    } else if index == 57 {
        0xA2
    } else if index == 58 {
        0xA0
    } else if index == 59 {
        0x9F
    } else if index == 60 {
        0x9E
    } else if index == 61 {
        0x9C
    } else if index == 62 {
        0x9B
    } else if index == 63 {
        0x9A
    } else if index == 64 {
        0x99
    } else if index == 65 {
        0x97
    } else if index == 66 {
        0x96
    } else if index == 67 {
        0x95
    } else if index == 68 {
        0x94
    } else if index == 69 {
        0x92
    } else if index == 70 {
        0x91
    } else if index == 71 {
        0x90
    } else if index == 72 {
        0x8F
    } else if index == 73 {
        0x8D
    } else if index == 74 {
        0x8C
    } else if index == 75 {
        0x8B
    } else if index == 76 {
        0x8A
    } else if index == 77 {
        0x89
    } else if index == 78 {
        0x87
    } else if index == 79 {
        0x86
    } else if index == 80 {
        0x85
    } else if index == 81 {
        0x84
    } else if index == 82 {
        0x83
    } else if index == 83 {
        0x82
    } else if index == 84 {
        0x81
    } else if index == 85 {
        0x7F
    } else if index == 86 {
        0x7E
    } else if index == 87 {
        0x7D
    } else if index == 88 {
        0x7C
    } else if index == 89 {
        0x7B
    } else if index == 90 {
        0x7A
    } else if index == 91 {
        0x79
    } else if index == 92 {
        0x78
    } else if index == 93 {
        0x77
    } else if index == 94 {
        0x75
    } else if index == 95 {
        0x74
    } else if index == 96 {
        0x73
    } else if index == 97 {
        0x72
    } else if index == 98 {
        0x71
    } else if index == 99 {
        0x70
    } else if index == 100 {
        0x6F
    } else if index == 101 {
        0x6E
    } else if index == 102 {
        0x6D
    } else if index == 103 {
        0x6C
    } else if index == 104 {
        0x6B
    } else if index == 105 {
        0x6A
    } else if index == 106 {
        0x69
    } else if index == 107 {
        0x68
    } else if index == 108 {
        0x67
    } else if index == 109 {
        0x66
    } else if index == 110 {
        0x65
    } else if index == 111 {
        0x64
    } else if index == 112 {
        0x63
    } else if index == 113 {
        0x62
    } else if index == 114 {
        0x61
    } else if index == 115 {
        0x60
    } else if index == 116 {
        0x5F
    } else if index == 117 {
        0x5E
    } else if index == 118 {
        0x5D
    } else if index == 119 {
        0x5D
    } else if index == 120 {
        0x5C
    } else if index == 121 {
        0x5B
    } else if index == 122 {
        0x5A
    } else if index == 123 {
        0x59
    } else if index == 124 {
        0x58
    } else if index == 125 {
        0x57
    } else if index == 126 {
        0x56
    } else if index == 127 {
        0x55
    } else if index == 128 {
        0x54
    } else if index == 129 {
        0x53
    } else if index == 130 {
        0x53
    } else if index == 131 {
        0x52
    } else if index == 132 {
        0x51
    } else if index == 133 {
        0x50
    } else if index == 134 {
        0x4F
    } else if index == 135 {
        0x4E
    } else if index == 136 {
        0x4D
    } else if index == 137 {
        0x4D
    } else if index == 138 {
        0x4C
    } else if index == 139 {
        0x4B
    } else if index == 140 {
        0x4A
    } else if index == 141 {
        0x49
    } else if index == 142 {
        0x48
    } else if index == 143 {
        0x48
    } else if index == 144 {
        0x47
    } else if index == 145 {
        0x46
    } else if index == 146 {
        0x45
    } else if index == 147 {
        0x44
    } else if index == 148 {
        0x43
    } else if index == 149 {
        0x43
    } else if index == 150 {
        0x42
    } else if index == 151 {
        0x41
    } else if index == 152 {
        0x40
    } else if index == 153 {
        0x3F
    } else if index == 154 {
        0x3F
    } else if index == 155 {
        0x3E
    } else if index == 156 {
        0x3D
    } else if index == 157 {
        0x3C
    } else if index == 158 {
        0x3C
    } else if index == 159 {
        0x3B
    } else if index == 160 {
        0x3A
    } else if index == 161 {
        0x39
    } else if index == 162 {
        0x39
    } else if index == 163 {
        0x38
    } else if index == 164 {
        0x37
    } else if index == 165 {
        0x36
    } else if index == 166 {
        0x36
    } else if index == 167 {
        0x35
    } else if index == 168 {
        0x34
    } else if index == 169 {
        0x33
    } else if index == 170 {
        0x33
    } else if index == 171 {
        0x32
    } else if index == 172 {
        0x31
    } else if index == 173 {
        0x31
    } else if index == 174 {
        0x30
    } else if index == 175 {
        0x2F
    } else if index == 176 {
        0x2E
    } else if index == 177 {
        0x2E
    } else if index == 178 {
        0x2D
    } else if index == 179 {
        0x2C
    } else if index == 180 {
        0x2C
    } else if index == 181 {
        0x2B
    } else if index == 182 {
        0x2A
    } else if index == 183 {
        0x2A
    } else if index == 184 {
        0x29
    } else if index == 185 {
        0x28
    } else if index == 186 {
        0x28
    } else if index == 187 {
        0x27
    } else if index == 188 {
        0x26
    } else if index == 189 {
        0x26
    } else if index == 190 {
        0x25
    } else if index == 191 {
        0x24
    } else if index == 192 {
        0x24
    } else if index == 193 {
        0x23
    } else if index == 194 {
        0x22
    } else if index == 195 {
        0x22
    } else if index == 196 {
        0x21
    } else if index == 197 {
        0x20
    } else if index == 198 {
        0x20
    } else if index == 199 {
        0x1F
    } else if index == 200 {
        0x1E
    } else if index == 201 {
        0x1E
    } else if index == 202 {
        0x1D
    } else if index == 203 {
        0x1D
    } else if index == 204 {
        0x1C
    } else if index == 205 {
        0x1B
    } else if index == 206 {
        0x1B
    } else if index == 207 {
        0x1A
    } else if index == 208 {
        0x19
    } else if index == 209 {
        0x19
    } else if index == 210 {
        0x18
    } else if index == 211 {
        0x18
    } else if index == 212 {
        0x17
    } else if index == 213 {
        0x16
    } else if index == 214 {
        0x16
    } else if index == 215 {
        0x15
    } else if index == 216 {
        0x15
    } else if index == 217 {
        0x14
    } else if index == 218 {
        0x14
    } else if index == 219 {
        0x13
    } else if index == 220 {
        0x12
    } else if index == 221 {
        0x12
    } else if index == 222 {
        0x11
    } else if index == 223 {
        0x11
    } else if index == 224 {
        0x10
    } else if index == 225 {
        0x0F
    } else if index == 226 {
        0x0F
    } else if index == 227 {
        0x0E
    } else if index == 228 {
        0x0E
    } else if index == 229 {
        0x0D
    } else if index == 230 {
        0x0D
    } else if index == 231 {
        0x0C
    } else if index == 232 {
        0x0C
    } else if index == 233 {
        0x0B
    } else if index == 234 {
        0x0A
    } else if index == 235 {
        0x0A
    } else if index == 236 {
        0x09
    } else if index == 237 {
        0x09
    } else if index == 238 {
        0x08
    } else if index == 239 {
        0x08
    } else if index == 240 {
        0x07
    } else if index == 241 {
        0x07
    } else if index == 242 {
        0x06
    } else if index == 243 {
        0x06
    } else if index == 244 {
        0x05
    } else if index == 245 {
        0x05
    } else if index == 246 {
        0x04
    } else if index == 247 {
        0x04
    } else if index == 248 {
        0x03
    } else if index == 249 {
        0x03
    } else if index == 250 {
        0x02
    } else if index == 251 {
        0x02
    } else if index == 252 {
        0x01
    } else if index == 253 {
        0x01
    } else if index == 254 {
        0x00
    } else if index == 255 {
        0x00
    } else if index == 256 {
        0x00
    } else {
        0
    }
}

/// Returns entry `index` of the table of reciprocal approximations the GTE divider starts from.
fn unr_entry(index: u32) -> (r: u32)
    requires
        index <= 256,
    ensures
        r == spec_unr_entry(index),
        r <= 0xFF,
{
    match index {
        0 => 0xFF,
        1 => 0xFD,
        2 => 0xFB,
        3 => 0xF9,
        4 => 0xF7,
        5 => 0xF5,
        6 => 0xF3,
        7 => 0xF1,
        8 => 0xEF,
        9 => 0xEE,
        10 => 0xEC,
        11 => 0xEA,
        12 => 0xE8,
        13 => 0xE6,
        14 => 0xE4,
        15 => 0xE3,
        16 => 0xE1,
        17 => 0xDF,
        18 => 0xDD,
        19 => 0xDC,
        20 => 0xDA,
        21 => 0xD8,
        22 => 0xD6,
        23 => 0xD5,
        24 => 0xD3,
        25 => 0xD1,
        26 => 0xD0,
        27 => 0xCE,
        28 => 0xCD,
        29 => 0xCB,
        30 => 0xC9,
        31 => 0xC8,
        32 => 0xC6,
        33 => 0xC5,
        34 => 0xC3,
        35 => 0xC1,
        36 => 0xC0,
        37 => 0xBE,
        38 => 0xBD,
        39 => 0xBB,
        40 => 0xBA,
        41 => 0xB8,
        42 => 0xB7,
        43 => 0xB5,
        44 => 0xB4,
        45 => 0xB2,
        46 => 0xB1,
        47 => 0xB0,
        48 => 0xAE,
        49 => 0xAD,
        50 => 0xAB,
        51 => 0xAA,
        52 => 0xA9,
        53 => 0xA7,
        54 => 0xA6,
        55 => 0xA4,
        56 => 0xA3,
        57 => 0xA2,
        58 => 0xA0,
        59 => 0x9F,
        60 => 0x9E,
        61 => 0x9C,
        62 => 0x9B,
        63 => 0x9A,
        64 => 0x99,
        65 => 0x97,
        66 => 0x96,
        67 => 0x95,
        68 => 0x94,
        69 => 0x92,
        70 => 0x91,
        71 => 0x90,
        72 => 0x8F,
        73 => 0x8D,
        74 => 0x8C,
        75 => 0x8B,
        76 => 0x8A,
        77 => 0x89,
        78 => 0x87,
        79 => 0x86,
        80 => 0x85,
        81 => 0x84,
        82 => 0x83,
        83 => 0x82,
        84 => 0x81,
        85 => 0x7F,
        86 => 0x7E,
        87 => 0x7D,
        88 => 0x7C,
        89 => 0x7B,
        90 => 0x7A,
        91 => 0x79,
        92 => 0x78,
        93 => 0x77,
        94 => 0x75,
        95 => 0x74,
        96 => 0x73,
        97 => 0x72,
        98 => 0x71,
        99 => 0x70,
        100 => 0x6F,
        101 => 0x6E,
        102 => 0x6D,
        103 => 0x6C,
        104 => 0x6B,
        105 => 0x6A,
        106 => 0x69,
        107 => 0x68,
        108 => 0x67,
        109 => 0x66,
        110 => 0x65,
        111 => 0x64,
        112 => 0x63,
        113 => 0x62,
        114 => 0x61,
        115 => 0x60,
        116 => 0x5F,
        117 => 0x5E,
        118 => 0x5D,
        119 => 0x5D,
        120 => 0x5C,
        121 => 0x5B,
        122 => 0x5A,
        123 => 0x59,
        124 => 0x58,
        125 => 0x57,
        126 => 0x56,
        127 => 0x55,
        128 => 0x54,
        129 => 0x53,
        130 => 0x53,
        131 => 0x52,
        132 => 0x51,
        133 => 0x50,
        134 => 0x4F,
        135 => 0x4E,
        136 => 0x4D,
        137 => 0x4D,
        138 => 0x4C,
        139 => 0x4B,
        140 => 0x4A,
        141 => 0x49,
        142 => 0x48,
        143 => 0x48,
        144 => 0x47,
        145 => 0x46,
        146 => 0x45,
        147 => 0x44,
        148 => 0x43,
        149 => 0x43,
        150 => 0x42,
        151 => 0x41,
        152 => 0x40,
        153 => 0x3F,
        154 => 0x3F,
        155 => 0x3E,
        156 => 0x3D,
        157 => 0x3C,
        158 => 0x3C,
        159 => 0x3B,
        160 => 0x3A,
        161 => 0x39,
        162 => 0x39,
        163 => 0x38,
        164 => 0x37,
        165 => 0x36,
        166 => 0x36,
        167 => 0x35,
        168 => 0x34,
        169 => 0x33,
        170 => 0x33,
        171 => 0x32,
        172 => 0x31,
        173 => 0x31,
        174 => 0x30,
        175 => 0x2F,
        176 => 0x2E,
        177 => 0x2E,
        178 => 0x2D,
        179 => 0x2C,
        180 => 0x2C,
        181 => 0x2B,
        182 => 0x2A,
        183 => 0x2A,
        184 => 0x29,
        185 => 0x28,
        186 => 0x28,
        187 => 0x27,
        188 => 0x26,
        189 => 0x26,
        190 => 0x25,
        191 => 0x24,
        192 => 0x24,
        193 => 0x23,
        194 => 0x22,
        195 => 0x22,
        196 => 0x21,
        197 => 0x20,
        198 => 0x20,
        199 => 0x1F,
        200 => 0x1E,
        201 => 0x1E,
        202 => 0x1D,
        203 => 0x1D,
        204 => 0x1C,
        205 => 0x1B,
        206 => 0x1B,
        207 => 0x1A,
        208 => 0x19,
        209 => 0x19,
        210 => 0x18,
        211 => 0x18,
        212 => 0x17,
        213 => 0x16,
        214 => 0x16,
        215 => 0x15,
        216 => 0x15,
        217 => 0x14,
        218 => 0x14,
        219 => 0x13,
        220 => 0x12,
        221 => 0x12,
        222 => 0x11,
        223 => 0x11,
        224 => 0x10,
        225 => 0x0F,
        226 => 0x0F,
        227 => 0x0E,
        228 => 0x0E,
        229 => 0x0D,
        230 => 0x0D,
        231 => 0x0C,
        232 => 0x0C,
        233 => 0x0B,
        234 => 0x0A,
        235 => 0x0A,
        236 => 0x09,
        237 => 0x09,
        238 => 0x08,
        239 => 0x08,
        240 => 0x07,
        241 => 0x07,
        242 => 0x06,
        243 => 0x06,
        244 => 0x05,
        245 => 0x05,
        246 => 0x04,
        247 => 0x04,
        248 => 0x03,
        249 => 0x03,
        250 => 0x02,
        251 => 0x02,
        252 => 0x01,
        253 => 0x01,
        254 => 0x00,
        255 => 0x00,
        256 => 0x00,
        _ => 0,
    }
}

/// The reciprocal approximation of `divisor` (whose bit 15 is set) the GTE divider computes
/// with two Newton-Raphson steps from its table.
pub open spec fn spec_reciprocal(divisor: u32) -> int {
    let index = ((divisor % 0x8000) + 0x40) / 0x80;
    let x = 0x101 + spec_unr_entry(index as u32);
    let iter1 = (0x80 - divisor * x) / 0x100;
    (x * (0x20000 + iter1) + 0x80) / 0x100
}

/// Computes the reciprocal approximation of `divisor`.
fn reciprocal(divisor: u32) -> (r: u32)
    requires
        0x8000 <= divisor <= 0xFFFF,
    ensures
        r == spec_reciprocal(divisor),
        r <= 0x4_0000,
{
    let index = ((divisor % 0x8000) + 0x40) / 0x80;
    let x = 0x101 + unr_entry(index) as i64;
    assert(0x8000 * 0x101 <= divisor * x <= 0xFFFF * 0x200) by (nonlinear_arith)
        requires 0x101 <= x <= 0x200, 0x8000 <= divisor <= 0xFFFF;
    let m = divisor as i64 * x - 0x80;
    let iter1 = -((m + 0xFF) / 0x100);
    proof {
        assert(0 <= m <= 0x1FF_FFFF) by (nonlinear_arith)
            requires m == divisor * x - 0x80, 0x101 <= x <= 0x200, 0x8000 <= divisor <= 0xFFFF;
        assert(iter1 == (0x80 - divisor * x) / 0x100) by (nonlinear_arith)
            requires iter1 == -((m + 0xFF) / 0x100), m == divisor * x - 0x80, m >= 0;
        assert(-0x2_0000 <= iter1 <= 0) by (nonlinear_arith)
            requires iter1 == -((m + 0xFF) / 0x100), 0 <= m <= 0x1FF_FFFF;
        assert(0 <= x * (0x20000 + iter1) + 0x80 <= 0x400_0080) by (nonlinear_arith)
            requires -0x2_0000 <= iter1 <= 0, 0x101 <= x <= 0x200;
    }
    let iter2 = (x * (0x20000 + iter1) + 0x80) / 0x100;
    iter2 as u32
}

/// The quotient `lhs / rhs` as a fixed point value with 16 fraction bits, computed the way the
/// GTE divider does, and whether the division overflowed (`lhs >= 2 * rhs`), in which case the
/// quotient is `0x1FFFF`.
pub open spec fn spec_newton_raphson_div(lhs: u32, rhs: u32) -> (u32, bool) {
    if !(2 * rhs > lhs) {
        (0x1FFFF, true)
    } else {
        let shift = (rhs as u16).leading_zeros();
        let l = lhs << shift;
        let r = rhs << shift;
        let rec = spec_reciprocal(((r | 0x8000) as u16) as u32);
        let result = (l * rec + 0x8000) / 0x1_0000;
        (
            if result < 0x1FFFF {
                result as u32
            } else {
                0x1FFFF
            },
            false,
        )
    }
}

/// Divides `lhs` by `rhs` the way the GTE divider does: the quotient has 16 fraction bits and is
/// at most `0x1FFFF`; the flag tells whether the division overflowed.
pub fn newton_raphson_div(lhs: u32, rhs: u32) -> (r: (u32, bool))
    requires
        rhs < 0x8000_0000,
    ensures
        r == spec_newton_raphson_div(lhs, rhs),
        r.0 <= 0x1FFFF,
        r.1 <==> 2 * rhs <= lhs,
{
    if !(2 * rhs > lhs) {
        return (0x1FFFF, true);
    }

    let shift = (rhs as u16).leading_zeros();
    proof {
        vstd::std_specs::bits::axiom_u16_leading_zeros(rhs as u16);
    }
    let (lhs, rhs) = (lhs << shift, rhs << shift);
    let divisor = ((rhs | 0x8000) as u16) as u32;
    assert(0x8000 <= ((rhs | 0x8000) as u16) as u32 <= 0xFFFF) by (bit_vector);
    let reciprocal = reciprocal(divisor);
    assert((lhs as u64) * (reciprocal as u64) <= 0xFFFF_FFFF * 0x4_0000) by (nonlinear_arith)
        requires lhs <= 0xFFFF_FFFF, reciprocal <= 0x4_0000;
    let result = ((lhs as u64) * (reciprocal as u64) + 0x8000) / 0x1_0000;

    (if result < 0x1FFFF {
        result as u32
    } else {
        0x1FFFF
    }, false)
}

/// A vector of three 44 bit integers.
#[derive(Debug, Clone, Copy)]
pub struct Vector {
    pub x: Int44,
    pub y: Int44,
    pub z: Int44,
}

/// A 3x3 matrix of 44 bit integers.
pub type Matrix = [[Int44; 3]; 3];

impl Vector {
    /// Creates a vector with the given components.
    pub fn new(x: Int44, y: Int44, z: Int44) -> (r: Self)
        ensures
            r.x == x,
            r.y == y,
            r.z == z,
    {
        Self { x, y, z }
    }

    /// The vector with three zero components.
    pub open spec fn spec_zero() -> Self {
        Vector { x: spec_i44(0), y: spec_i44(0), z: spec_i44(0) }
    }

    /// Creates the zero vector.
    pub fn zero() -> (r: Self)
        ensures
            r == Self::spec_zero(),
    {
        Self { x: i44(0), y: i44(0), z: i44(0) }
    }

    /// The componentwise sum of two vectors.
    pub open spec fn spec_add(self, rhs: Self) -> Self {
        Vector { x: self.x.spec_add(rhs.x), y: self.y.spec_add(rhs.y), z: self.z.spec_add(rhs.z) }
    }

    /// Whether every component lies in `-2^31..=2^31`, so that it can be multiplied by another
    /// such value.
    pub open spec fn small(self) -> bool {
        &&& -0x8000_0000 <= self.x.val() <= 0x8000_0000
        &&& -0x8000_0000 <= self.y.val() <= 0x8000_0000
        &&& -0x8000_0000 <= self.z.val() <= 0x8000_0000
    }
}

impl vstd::std_specs::ops::AddSpecImpl for Vector {
    open spec fn obeys_add_spec() -> bool {
        true
    }

    open spec fn add_req(self, rhs: Self) -> bool {
        true
    }

    open spec fn add_spec(self, rhs: Self) -> Self {
        Vector::spec_add(self, rhs)
    }
}

impl std::ops::Add for Vector {
    type Output = Self;

    #[inline(always)]
    fn add(self, rhs: Self) -> (r: Self) {
        Vector { x: self.x + rhs.x, y: self.y + rhs.y, z: self.z + rhs.z }
    }
}

/// Whether every entry of `m` lies in `-2^31..=2^31`.
pub open spec fn small_matrix(m: Matrix) -> bool {
    forall|i: int, j: int|
        0 <= i < 3 && 0 <= j < 3 ==> -0x8000_0000 <= #[trigger] m[i][j].val() <= 0x8000_0000
}

/// One row of `m` times `v`, summed left to right.
pub open spec fn spec_row(m: Matrix, i: int, v: Vector) -> Int44 {
    m[i][0].spec_mul(v.x).spec_add(m[i][1].spec_mul(v.y)).spec_add(m[i][2].spec_mul(v.z))
}

/// The product of `m` and `v`.
pub open spec fn spec_mul_mv(m: Matrix, v: Vector) -> Vector {
    Vector { x: spec_row(m, 0, v), y: spec_row(m, 1, v), z: spec_row(m, 2, v) }
}

/// Proof that the product of two values in `-2^31..=2^31` fits an `i64`.
proof fn lemma_small_product(a: int, b: int)
    requires
        -0x8000_0000 <= a <= 0x8000_0000,
        -0x8000_0000 <= b <= 0x8000_0000,
    ensures
        -0x4000_0000_0000_0000 <= a * b <= 0x4000_0000_0000_0000,
{
    assert(-0x4000_0000_0000_0000 <= a * b <= 0x4000_0000_0000_0000) by (nonlinear_arith)
        requires -0x8000_0000 <= a <= 0x8000_0000, -0x8000_0000 <= b <= 0x8000_0000;
}

/// Multiplies the matrix `m` by the vector `v`.
pub fn mul_matrix_vector(m: &Matrix, v: Vector) -> (r: Vector)
    requires
        small_matrix(*m),
        v.small(),
    ensures
        r == spec_mul_mv(*m, v),
{
    proof {
        assert(-0x8000_0000 <= m[0][0].val() <= 0x8000_0000);
        assert(-0x8000_0000 <= m[0][1].val() <= 0x8000_0000);
        assert(-0x8000_0000 <= m[0][2].val() <= 0x8000_0000);
        assert(-0x8000_0000 <= m[1][0].val() <= 0x8000_0000);
        assert(-0x8000_0000 <= m[1][1].val() <= 0x8000_0000);
        assert(-0x8000_0000 <= m[1][2].val() <= 0x8000_0000);
        assert(-0x8000_0000 <= m[2][0].val() <= 0x8000_0000);
        assert(-0x8000_0000 <= m[2][1].val() <= 0x8000_0000);
        assert(-0x8000_0000 <= m[2][2].val() <= 0x8000_0000);
        lemma_small_product(m[0][0].val(), v.x.val());
        lemma_small_product(m[0][1].val(), v.y.val());
        lemma_small_product(m[0][2].val(), v.z.val());
        lemma_small_product(m[1][0].val(), v.x.val());
        lemma_small_product(m[1][1].val(), v.y.val());
        lemma_small_product(m[1][2].val(), v.z.val());
        lemma_small_product(m[2][0].val(), v.x.val());
        lemma_small_product(m[2][1].val(), v.y.val());
        lemma_small_product(m[2][2].val(), v.z.val());
    }
    Vector {
        x: m[0][0] * v.x + m[0][1] * v.y + m[0][2] * v.z,
        y: m[1][0] * v.x + m[1][1] * v.y + m[1][2] * v.z,
        z: m[2][0] * v.x + m[2][1] * v.y + m[2][2] * v.z,
    }
}

/// The vector held by the register pair `xy`, `z`: x and y are the halves of `xy`, z the low half
/// of `z`.
pub open spec fn spec_vector_at(regs: Seq<u32>, xy: Reg, z: Reg) -> Vector {
    Vector {
        x: spec_i44(lo16(spec_read(regs, xy))),
        y: spec_i44(hi16(spec_read(regs, xy))),
        z: spec_i44(lo16(spec_read(regs, z))),
    }
}

/// Reads the vector held by the register pair `xy`, `z`.
fn vector_at(regs: &Registers, xy: Reg, z: Reg) -> (r: Vector)
    ensures
        r == spec_vector_at(regs@, xy, z),
        r.small(),
{
    let vxy = regs.read(xy);
    let vz = regs.read(z);
    Vector { x: i44(low_half(vxy)), y: i44(high_half(vxy)), z: i44(low_half(vz)) }
}

/// Reads vector 0 (`VXY0`, `VZ0`).
pub fn vector0(regs: &Registers) -> (r: Vector)
    ensures
        r == spec_vector_at(regs@, Reg::R0, Reg::R1),
        r.small(),
{
    vector_at(regs, Reg::VXY0, Reg::VZ0)
}

/// Reads vector 1 (`VXY1`, `VZ1`).
pub fn vector1(regs: &Registers) -> (r: Vector)
    ensures
        r == spec_vector_at(regs@, Reg::R2, Reg::R3),
        r.small(),
{
    vector_at(regs, Reg::VXY1, Reg::VZ1)
}

/// Reads vector 2 (`VXY2`, `VZ2`).
pub fn vector2(regs: &Registers) -> (r: Vector)
    ensures
        r == spec_vector_at(regs@, Reg::R4, Reg::R5),
        r.small(),
{
    vector_at(regs, Reg::VXY2, Reg::VZ2)
}

/// The vector held, with a 12 bit fraction, by the three registers `a`, `b`, `c` (read unsigned).
pub open spec fn spec_fraction_vector(regs: Seq<u32>, a: Reg, b: Reg, c: Reg) -> Vector {
    Vector {
        x: spec_i44(spec_read(regs, a) * 0x1000),
        y: spec_i44(spec_read(regs, b) * 0x1000),
        z: spec_i44(spec_read(regs, c) * 0x1000),
    }
}

/// Reads the vector held, with a 12 bit fraction, by three registers.
fn fraction_vector(regs: &Registers, a: Reg, b: Reg, c: Reg) -> (r: Vector)
    ensures
        r == spec_fraction_vector(regs@, a, b, c),
{
    Vector {
        x: i44(regs.read(a) as i64 * 0x1000),
        y: i44(regs.read(b) as i64 * 0x1000),
        z: i44(regs.read(c) as i64 * 0x1000),
    }
}

/// Reads the translation vector (`TRX`, `TRY`, `TRZ`).
pub fn translation_vector(regs: &Registers) -> (r: Vector)
    ensures
        r == spec_fraction_vector(regs@, Reg::R37, Reg::R38, Reg::R39),
{
    fraction_vector(regs, Reg::TRX, Reg::TRY, Reg::TRZ)
}

/// Reads the background color vector (`BCR`, `BCG`, `BCB`).
pub fn background_color_vector(regs: &Registers) -> (r: Vector)
    ensures
        r == spec_fraction_vector(regs@, Reg::R45, Reg::R46, Reg::R47),
{
    fraction_vector(regs, Reg::BCR, Reg::BCG, Reg::BCB)
}

/// Reads the far color vector (`FCR`, `FCG`, `FCB`).
pub fn far_color_vector(regs: &Registers) -> (r: Vector)
    ensures
        r == spec_fraction_vector(regs@, Reg::R53, Reg::R54, Reg::R55),
{
    fraction_vector(regs, Reg::FCR, Reg::FCG, Reg::FCB)
}

/// The matrix held by five consecutive registers, two half-word entries per register, row by row.
pub open spec fn spec_matrix_at(regs: Seq<u32>, a: Reg, b: Reg, c: Reg, d: Reg, e: Reg) -> Matrix {
    [
        [
            spec_i44(lo16(spec_read(regs, a))),
            spec_i44(hi16(spec_read(regs, a))),
            spec_i44(lo16(spec_read(regs, b))),
        ],
        [
            spec_i44(hi16(spec_read(regs, b))),
            spec_i44(lo16(spec_read(regs, c))),
            spec_i44(hi16(spec_read(regs, c))),
        ],
        [
            spec_i44(lo16(spec_read(regs, d))),
            spec_i44(hi16(spec_read(regs, d))),
            spec_i44(lo16(spec_read(regs, e))),
        ],
    ]
}

/// Whether every entry of `m` lies in `-0x8000..0x8000`.
pub open spec fn half_word_matrix(m: Matrix) -> bool {
    forall|i: int, j: int|
        0 <= i < 3 && 0 <= j < 3 ==> -0x8000 <= #[trigger] m[i][j].val() < 0x8000
}

/// Reads the matrix held by five consecutive registers.
fn matrix_at(regs: &Registers, a: Reg, b: Reg, c: Reg, d: Reg, e: Reg) -> (r: Matrix)
    ensures
        r == spec_matrix_at(regs@, a, b, c, d, e),
        half_word_matrix(r),
        small_matrix(r),
{
    let va = regs.read(a);
    let vb = regs.read(b);
    let vc = regs.read(c);
    let vd = regs.read(d);
    let ve = regs.read(e);
    let m = [
        [i44(low_half(va)), i44(high_half(va)), i44(low_half(vb))],
        [i44(high_half(vb)), i44(low_half(vc)), i44(high_half(vc))],
        [i44(low_half(vd)), i44(high_half(vd)), i44(low_half(ve))],
    ];
    assert(m == spec_matrix_at(regs@, a, b, c, d, e));
    m
}

/// Reads the rotation matrix (`RT11` to `RT33`).
pub fn rotation_matrix(regs: &Registers) -> (r: Matrix)
    ensures
        r == spec_matrix_at(regs@, Reg::R32, Reg::R33, Reg::R34, Reg::R35, Reg::R36),
        half_word_matrix(r),
        small_matrix(r),
{
    matrix_at(regs, Reg::RT_11_12, Reg::RT_13_21, Reg::RT_22_23, Reg::RT_31_32, Reg::RT_33_SS)
}

/// Reads the light matrix (`L11` to `L33`).
pub fn light_matrix(regs: &Registers) -> (r: Matrix)
    ensures
        r == spec_matrix_at(regs@, Reg::R40, Reg::R41, Reg::R42, Reg::R43, Reg::R44),
        half_word_matrix(r),
        small_matrix(r),
{
    matrix_at(regs, Reg::L_11_12, Reg::L_13_21, Reg::L_22_23, Reg::L_31_32, Reg::L_33_SS)
}

/// Reads the light color matrix (`LR1` to `LB3`).
pub fn color_matrix(regs: &Registers) -> (r: Matrix)
    ensures
        r == spec_matrix_at(regs@, Reg::R48, Reg::R49, Reg::R50, Reg::R51, Reg::R52),
        half_word_matrix(r),
        small_matrix(r),
{
    matrix_at(regs, Reg::L_R1_R2, Reg::L_R3_G1, Reg::L_G2_G3, Reg::L_B1_B2, Reg::L_B3_SS)
}

/// Reads a register as a signed 32 bit value, widened to a 44 bit integer.
fn signed_i44(regs: &Registers, reg: Reg) -> (r: Int44)
    ensures
        canonical(regs@),
        r == spec_i44(as_i32(spec_read(regs@, reg))),
        r.val() == as_i32(spec_read(regs@, reg)),
{
    i44(signed32(regs.read(reg)))
}

} // verus!

verus! {

/// The cross product term of `NCLIP` for the screen coordinates held in `SXY0`, `SXY1`, `SXY2`:
/// twice the signed area of the triangle they form.
pub open spec fn spec_nclip_value(regs: Seq<u32>) -> int {
    let (sx0, sy0) = (lo16(regs[12]), hi16(regs[12]));
    let (sx1, sy1) = (lo16(regs[13]), hi16(regs[13]));
    let (sx2, sy2) = (lo16(regs[14]), hi16(regs[14]));
    sx0 * sy1 + sx1 * sy2 + sx2 * sy0 - sx0 * sy2 - sx1 * sy0 - sx2 * sy1
}

/// Normal clipping: sets `MAC0` to the cross product of the triangle in `SXY0` to `SXY2`.
pub fn nclip(regs: &mut Registers, _instr: Instruction)
    ensures
        final(regs)@ == spec_set_mac0(old(regs)@, spec_i44(spec_nclip_value(old(regs)@))),
{
    let s0 = regs.read(Reg::SXY0);
    let s1 = regs.read(Reg::SXY1);
    let s2 = regs.read(Reg::SXY2);

    let (sx0, sy0) = (low_half(s0), high_half(s0));
    let (sx1, sy1) = (low_half(s1), high_half(s1));
    let (sx2, sy2) = (low_half(s2), high_half(s2));

    proof {
        assert(-0x4000_0000 <= sx0 * sy1 <= 0x4000_0000) by (nonlinear_arith)
            requires -0x8000 <= sx0 < 0x8000, -0x8000 <= sy1 < 0x8000;
        assert(-0x4000_0000 <= sx1 * sy2 <= 0x4000_0000) by (nonlinear_arith)
            requires -0x8000 <= sx1 < 0x8000, -0x8000 <= sy2 < 0x8000;
        assert(-0x4000_0000 <= sx2 * sy0 <= 0x4000_0000) by (nonlinear_arith)
            requires -0x8000 <= sx2 < 0x8000, -0x8000 <= sy0 < 0x8000;
        assert(-0x4000_0000 <= sx0 * sy2 <= 0x4000_0000) by (nonlinear_arith)
            requires -0x8000 <= sx0 < 0x8000, -0x8000 <= sy2 < 0x8000;
        assert(-0x4000_0000 <= sx1 * sy0 <= 0x4000_0000) by (nonlinear_arith)
            requires -0x8000 <= sx1 < 0x8000, -0x8000 <= sy0 < 0x8000;
        assert(-0x4000_0000 <= sx2 * sy1 <= 0x4000_0000) by (nonlinear_arith)
            requires -0x8000 <= sx2 < 0x8000, -0x8000 <= sy1 < 0x8000;
    }
    let result = sx0 * sy1 + sx1 * sy2 + sx2 * sy0 - sx0 * sy2 - sx1 * sy0 - sx2 * sy1;
    regs.set_mac0(i44(result));
}

/// `OTZ` from an average depth with a 12 bit fraction: its integer part clamped to `0..=0xFFFF`,
/// and whether it was clamped.
pub open spec fn spec_otz(avg: Int44) -> (int, bool) {
    let otz = (((avg.val() as i64) >> 12i64) as i32) as int;
    if otz > 0xFFFF {
        (0xFFFF, true)
    } else if otz < 0 {
        (0, true)
    } else {
        (otz, false)
    }
}

/// The register file after storing the average depth `avg` to `MAC0` and `OTZ`.
pub open spec fn spec_store_average(regs: Seq<u32>, avg: Int44) -> Seq<u32> {
    let s1 = spec_set_mac0(regs, avg);
    let (otz, clamped) = spec_otz(avg);
    spec_write(spec_merge_flag(s1, Flag::ClampedZ, clamped), Reg::R7, otz as u32)
}

/// Stores an average depth to `MAC0` and `OTZ`.
fn store_average(regs: &mut Registers, avg: Int44)
    ensures
        final(regs)@ == spec_store_average(old(regs)@, avg),
{
    regs.set_mac0(avg);

    let otz = (avg.value() >> 12i64) as i32;
    let (otz, clamped) = if otz > 0xFFFF {
        (0xFFFF, true)
    } else if otz < 0 {
        (0, true)
    } else {
        (otz, false)
    };

    regs.merge_flag(Flag::ClampedZ, clamped);
    regs.write(Reg::OTZ, otz as u32);
}

/// Proof that a canonical signed half-word register, read as a signed 32 bit value, lies in
/// `-0x8000..0x8000`.
proof fn lemma_half_word_reg(v: u32)
    requires
        v == crate::gte::sext16(v),
    ensures
        -0x8000 <= as_i32(v) < 0x8000,
{
    crate::gte::lemma_sext16_range(v);
}

/// Proof that a sum of two 44 bit integers that stays in range is exact.
proof fn lemma_add_exact(a: Int44, b: Int44)
    requires
        -0x800_0000_0000 <= a.val() + b.val() < 0x800_0000_0000,
    ensures
        a.spec_add(b).val() == a.val() + b.val(),
{
    lemma_i44(0);
    let sum = a.val() + b.val();
    Int44::lemma_make(
        sum,
        a.ovf() || b.ovf() || sum >= Int44::spec_max(),
        a.unf() || b.unf() || sum < Int44::spec_min(),
    );
    crate::gte::fixed::lemma_wrap_signed(sum, 44);
}

/// The average of `SZ1` to `SZ3` weighted by `ZSF3`, with a 12 bit fraction.
pub open spec fn spec_avsz3_value(regs: Seq<u32>) -> Int44 {
    let zsf3 = spec_i44(as_i32(regs[61]));
    let sz1 = spec_i44(as_i32(regs[17]));
    let sz2 = spec_i44(as_i32(regs[18]));
    let sz3 = spec_i44(as_i32(regs[19]));
    zsf3.spec_mul(sz1.spec_add(sz2).spec_add(sz3))
}

/// Averages three Z values: `MAC0` and `OTZ` take the average of `SZ1` to `SZ3` weighted by
/// `ZSF3`.
pub fn avsz3(regs: &mut Registers, _instr: Instruction)
    ensures
        final(regs)@ == spec_store_average(old(regs)@, spec_avsz3_value(old(regs)@)),
{
    let canonical = regs.is_canonical();
    let zsf3 = signed_i44(regs, Reg::ZSF3);
    let sz1 = signed_i44(regs, Reg::SZ1);
    let sz2 = signed_i44(regs, Reg::SZ2);
    let sz3 = signed_i44(regs, Reg::SZ3);
    proof {
        lemma_half_word_reg(regs@[61]);
        lemma_add_exact(sz1, sz2);
        lemma_add_exact(sz1.spec_add(sz2), sz3);
    }
    let sum = sz1 + sz2 + sz3;
    proof {
        assert(0 <= sum.val() < 0x3_0000);
        assert(-0x20_0000_0000 <= zsf3.val() * sum.val() <= 0x20_0000_0000) by (nonlinear_arith)
            requires -0x8000 <= zsf3.val() < 0x8000, 0 <= sum.val() < 0x3_0000;
    }
    let avg = zsf3 * sum;
    store_average(regs, avg);
}

/// Proof that an arithmetic right shift of `x` by 12 divides it by `2^12`, rounding down.
proof fn lemma_shr12(x: i64)
    requires
        -0x1000_0000_0000 <= x <= 0x1000_0000_0000,
    ensures
        (x >> 12i64) as int == (x as int) / 0x1000,
{
    assert((x >= 0 ==> x >> 12i64 == (x / 4096i64) as i64) && (x < 0 ==> !x == (-1i64 - x) as i64
        && x >> 12i64 == !(((!x) / 4096i64) as i64) && !(((!x) / 4096i64) as i64) == (-1i64 - (((
        !x) / 4096i64) as i64)) as i64)) by (bit_vector)
        requires
            -0x1000_0000_0000 <= x <= 0x1000_0000_0000,
    ;
    if x < 0 {
        let n = -(x as int) - 1;
        let q = n / 0x1000;
        let r = n % 0x1000;
        vstd::arithmetic::div_mod::lemma_fundamental_div_mod(n, 0x1000);
        assert(x as int == (-q - 1) * 0x1000 + (0x1000 - r - 1));
        vstd::arithmetic::div_mod::lemma_fundamental_div_mod_converse(
            x as int,
            0x1000,
            -q - 1,
            0x1000 - r - 1,
        );
    }
}

/// Proof of what storing an exact average `avg` leaves in `MAC0` and `OTZ`.
proof fn lemma_store_average(regs: Seq<u32>, avg: Int44, v: int)
    requires
        regs.len() == 64,
        avg.val() == v,
        -0x800_0000_0000 <= v < 0x800_0000_0000,
    ensures
        spec_store_average(regs, avg)[24] == (v as i64) as u32,
        spec_store_average(regs, avg)[7] == if v < 0 {
            0
        } else if v / 0x1000 > 0xFFFF {
            0xFFFF
        } else {
            v / 0x1000
        },
{
    lemma_shr12(v as i64);
}

/// Law: `AVSZ3` writes to `MAC0` the low 32 bits of `ZSF3 * (SZ1 + SZ2 + SZ3)` (`ZSF3` read as a
/// signed value) and to `OTZ` that product divided by `2^12`, rounded down and clamped to
/// `0..=0xFFFF`; `SZ0` plays no part. `AVSZ4` does so with `ZSF4 * (SZ0 + SZ1 + SZ2 + SZ3)`.
pub proof fn law_average_depths(regs: Seq<u32>, instr: Instruction)
    requires
        canonical(regs),
    ensures
        ({
            let v = as_i32(regs[61]) * (regs[17] + regs[18] + regs[19]);
            let n = spec_exec_gte(regs, instr);
            Opcode::spec_from_code(instr.spec_op_raw()) == Some(Opcode::AVSZ3) ==> {
                &&& n[24] == (v as i64) as u32
                &&& n[7] == if v < 0 {
                    0
                } else if v / 0x1000 > 0xFFFF {
                    0xFFFF
                } else {
                    v / 0x1000
                }
            }
        }),
        ({
            let v = as_i32(regs[62]) * (regs[16] + regs[17] + regs[18] + regs[19]);
            let n = spec_exec_gte(regs, instr);
            Opcode::spec_from_code(instr.spec_op_raw()) == Some(Opcode::AVSZ4) ==> {
                &&& n[24] == (v as i64) as u32
                &&& n[7] == if v < 0 {
                    0
                } else if v / 0x1000 > 0xFFFF {
                    0xFFFF
                } else {
                    v / 0x1000
                }
            }
        }),
{
    let s = spec_write(regs, Reg::R63, 0);
    assert(s.len() == 64 && s[16] == regs[16] && s[17] == regs[17] && s[18] == regs[18] && s[19]
        == regs[19] && s[61] == regs[61] && s[62] == regs[62]);
    lemma_half_word_reg(regs[61]);
    lemma_half_word_reg(regs[62]);
    lemma_i44(as_i32(regs[61]));
    lemma_i44(as_i32(regs[62]));
    lemma_i44(regs[16] as int);
    lemma_i44(regs[17] as int);
    lemma_i44(regs[18] as int);
    lemma_i44(regs[19] as int);
    let z3 = spec_i44(as_i32(s[61]));
    let z4 = spec_i44(as_i32(s[62]));
    let a = spec_i44(as_i32(s[16]));
    let b = spec_i44(as_i32(s[17]));
    let c = spec_i44(as_i32(s[18]));
    let d = spec_i44(as_i32(s[19]));
    lemma_add_exact(b, c);
    lemma_add_exact(b.spec_add(c), d);
    lemma_add_exact(a, b);
    lemma_add_exact(a.spec_add(b), c);
    lemma_add_exact(a.spec_add(b).spec_add(c), d);
    let sum3 = regs[17] + regs[18] + regs[19];
    let sum4 = regs[16] + regs[17] + regs[18] + regs[19];
    let v3 = as_i32(regs[61]) * sum3;
    let v4 = as_i32(regs[62]) * sum4;
    assert(-0x20_0000_0000 <= v3 <= 0x20_0000_0000) by (nonlinear_arith)
        requires -0x8000 <= as_i32(regs[61]) < 0x8000, 0 <= sum3 < 0x3_0000, v3 == as_i32(regs[61]) * sum3;
    assert(-0x20_0000_0000 <= v4 <= 0x20_0000_0000) by (nonlinear_arith)
        requires -0x8000 <= as_i32(regs[62]) < 0x8000, 0 <= sum4 < 0x4_0000, v4 == as_i32(regs[62]) * sum4;
    let t3 = b.spec_add(c).spec_add(d);
    let t4 = a.spec_add(b).spec_add(c).spec_add(d);
    assert(z3.val() == as_i32(regs[61]) && z4.val() == as_i32(regs[62]));
    assert(t3.val() == sum3 && t4.val() == sum4);
    Int44::lemma_make(v3, z3.ovf() || t3.ovf(), z3.unf() || t3.unf());
    Int44::lemma_make(v4, z4.ovf() || t4.ovf(), z4.unf() || t4.unf());
    lemma_wrap_signed(v3, 44);
    lemma_wrap_signed(v4, 44);
    lemma_i44(0);
    assert(spec_avsz3_value(s).val() == v3);
    assert(spec_avsz4_value(s).val() == v4);
    lemma_store_average(s, spec_avsz3_value(s), v3);
    lemma_store_average(s, spec_avsz4_value(s), v4);
}

/// Law: `NCLIP` writes to `MAC0` the low 32 bits of the cross product of the edges from the
/// first screen point to the other two, `(SX1 - SX0) * (SY2 - SY0) - (SX2 - SX0) * (SY1 - SY0)`
/// (twice the signed area of the triangle in `SXY0` to `SXY2`).
pub proof fn law_nclip_area(regs: Seq<u32>, instr: Instruction)
    requires
        regs.len() == 64,
        Opcode::spec_from_code(instr.spec_op_raw()) == Some(Opcode::NCLIP),
    ensures
        ({
            let (sx0, sy0) = (lo16(regs[12]), hi16(regs[12]));
            let (sx1, sy1) = (lo16(regs[13]), hi16(regs[13]));
            let (sx2, sy2) = (lo16(regs[14]), hi16(regs[14]));
            let area = (sx1 - sx0) * (sy2 - sy0) - (sx2 - sx0) * (sy1 - sy0);
            spec_exec_gte(regs, instr)[24] == (area as i64) as u32
        }),
{
    let s = spec_write(regs, Reg::R63, 0);
    assert(s[12] == regs[12] && s[13] == regs[13] && s[14] == regs[14]);
    let (sx0, sy0) = (lo16(regs[12]), hi16(regs[12]));
    let (sx1, sy1) = (lo16(regs[13]), hi16(regs[13]));
    let (sx2, sy2) = (lo16(regs[14]), hi16(regs[14]));
    assert(-0x8000 <= sx0 < 0x8000 && -0x8000 <= sx1 < 0x8000 && -0x8000 <= sx2 < 0x8000);
    assert(-0x8000 <= sy0 < 0x8000 && -0x8000 <= sy1 < 0x8000 && -0x8000 <= sy2 < 0x8000) by {
        assert(regs[12] / 0x1_0000 < 0x1_0000);
        assert(regs[13] / 0x1_0000 < 0x1_0000);
        assert(regs[14] / 0x1_0000 < 0x1_0000);
    }
    let v = spec_nclip_value(s);
    assert(v == (sx1 - sx0) * (sy2 - sy0) - (sx2 - sx0) * (sy1 - sy0)) by (nonlinear_arith)
        requires
            v == sx0 * sy1 + sx1 * sy2 + sx2 * sy0 - sx0 * sy2 - sx1 * sy0 - sx2 * sy1,
    ;
    assert(-0x10_0000_0000 <= v <= 0x10_0000_0000) by (nonlinear_arith)
        requires
            v == sx0 * sy1 + sx1 * sy2 + sx2 * sy0 - sx0 * sy2 - sx1 * sy0 - sx2 * sy1,
            -0x8000 <= sx0 < 0x8000,
            -0x8000 <= sx1 < 0x8000,
            -0x8000 <= sx2 < 0x8000,
            -0x8000 <= sy0 < 0x8000,
            -0x8000 <= sy1 < 0x8000,
            -0x8000 <= sy2 < 0x8000,
    ;
    lemma_i44(v);
}

/// Proof that a difference of two 44 bit integers that stays in range is exact.
proof fn lemma_sub_exact(a: Int44, b: Int44)
    requires
        -0x800_0000_0000 <= a.val() - b.val() < 0x800_0000_0000,
    ensures
        a.spec_sub(b).val() == a.val() - b.val(),
{
    lemma_i44(0);
    let diff = a.val() - b.val();
    Int44::lemma_make(
        diff,
        a.ovf() || b.ovf() || diff >= Int44::spec_max(),
        a.unf() || b.unf() || diff < Int44::spec_min(),
    );
    crate::gte::fixed::lemma_wrap_signed(diff, 44);
}

/// Proof that a product of two 16 bit signed values is exact.
proof fn lemma_mul_exact(a: Int44, b: Int44)
    requires
        -0x8000 <= a.val() <= 0x8000,
        -0x8000 <= b.val() <= 0x8000,
    ensures
        a.spec_mul(b).val() == a.val() * b.val(),
        -0x4000_0000 <= a.val() * b.val() <= 0x4000_0000,
{
    lemma_i44(0);
    let p = a.val() * b.val();
    assert(-0x4000_0000 <= p <= 0x4000_0000) by (nonlinear_arith)
        requires
            -0x8000 <= a.val() <= 0x8000,
            -0x8000 <= b.val() <= 0x8000,
            p == a.val() * b.val(),
    ;
    Int44::lemma_make(p, a.ovf() || b.ovf(), a.unf() || b.unf());
    crate::gte::fixed::lemma_wrap_signed(p, 44);
}

/// One component of a cross product, with the fraction dropped where `shift`.
pub open spec fn cross_component(a: int, b: int, c: int, d: int, shift: bool) -> u32 {
    let v = a * b - c * d;
    ((if shift {
        v / 0x1000
    } else {
        v
    }) as i64) as u32
}

/// Law: `OP` writes to `MAC1`-`MAC3` the cross product of `IR1`-`IR3` (signed) with the
/// diagonal `RT11`, `RT22`, `RT33` of the rotation matrix: `IR3 * RT22 - IR2 * RT33`,
/// `IR1 * RT33 - IR3 * RT11` and `IR2 * RT11 - IR1 * RT22`, divided by `2^12` (rounding down)
/// where the instruction drops the fraction (bit 19).
pub proof fn law_cross_product(regs: Seq<u32>, instr: Instruction)
    requires
        canonical(regs),
        Opcode::spec_from_code(instr.spec_op_raw()) == Some(Opcode::OP),
    ensures
        ({
            let (ir1, ir2, ir3) = (as_i32(regs[9]), as_i32(regs[10]), as_i32(regs[11]));
            let (d1, d2, d3) = (lo16(regs[32]), lo16(regs[34]), lo16(regs[36]));
            let sh = (instr.0 >> 19u32) & 1 == 1;
            let n = spec_exec_gte(regs, instr);
            &&& n[25] == cross_component(ir3, d2, ir2, d3, sh)
            &&& n[26] == cross_component(ir1, d3, ir3, d1, sh)
            &&& n[27] == cross_component(ir2, d1, ir1, d2, sh)
        }),
{
    let s = spec_write(regs, Reg::R63, 0);
    assert(s[9] == regs[9] && s[10] == regs[10] && s[11] == regs[11] && s[32] == regs[32] && s[34]
        == regs[34] && s[36] == regs[36]);
    lemma_canonical_ranges(regs);
    lemma_i44(as_i32(regs[9]));
    lemma_i44(as_i32(regs[10]));
    lemma_i44(as_i32(regs[11]));
    lemma_i44(lo16(regs[32]));
    lemma_i44(lo16(regs[34]));
    lemma_i44(lo16(regs[36]));
    let ir1 = spec_signed(s, Reg::R9);
    let ir2 = spec_signed(s, Reg::R10);
    let ir3 = spec_signed(s, Reg::R11);
    let d1 = spec_i44(lo16(spec_read(s, Reg::R32)));
    let d2 = spec_i44(lo16(spec_read(s, Reg::R34)));
    let d3 = spec_i44(lo16(spec_read(s, Reg::R36)));
    lemma_mul_exact(ir3, d2);
    lemma_mul_exact(ir2, d3);
    lemma_mul_exact(ir1, d3);
    lemma_mul_exact(ir3, d1);
    lemma_mul_exact(ir2, d1);
    lemma_mul_exact(ir1, d2);
    lemma_sub_exact(ir3.spec_mul(d2), ir2.spec_mul(d3));
    lemma_sub_exact(ir1.spec_mul(d3), ir3.spec_mul(d1));
    lemma_sub_exact(ir2.spec_mul(d1), ir1.spec_mul(d2));
    let v1 = ir3.spec_mul(d2).spec_sub(ir2.spec_mul(d3));
    let v2 = ir1.spec_mul(d3).spec_sub(ir3.spec_mul(d1));
    let v3 = ir2.spec_mul(d1).spec_sub(ir1.spec_mul(d2));
    lemma_shr12(v1.val() as i64);
    lemma_shr12(v2.val() as i64);
    lemma_shr12(v3.val() as i64);
}

/// A sum of three products, with the fraction dropped where `shift`, as `MAC` holds it.
pub open spec fn dot_component(a: int, x: int, b: int, y: int, c: int, z: int, shift: bool) -> u32 {
    let v = a * x + b * y + c * z;
    ((if shift {
        v / 0x1000
    } else {
        v
    }) as i64) as u32
}

/// Proof that a row of small values times a small vector is exact.
proof fn lemma_row_exact(m: Matrix, i: int, v: Vector)
    requires
        0 <= i < 3,
        -0x8000 <= m[i][0].val() <= 0x8000,
        -0x8000 <= m[i][1].val() <= 0x8000,
        -0x8000 <= m[i][2].val() <= 0x8000,
        -0x8000 <= v.x.val() <= 0x8000,
        -0x8000 <= v.y.val() <= 0x8000,
        -0x8000 <= v.z.val() <= 0x8000,
    ensures
        spec_row(m, i, v).val() == m[i][0].val() * v.x.val() + m[i][1].val() * v.y.val()
            + m[i][2].val() * v.z.val(),
        -0x1_0000_0000 <= spec_row(m, i, v).val() <= 0x1_0000_0000,
{
    lemma_mul_exact(m[i][0], v.x);
    lemma_mul_exact(m[i][1], v.y);
    lemma_mul_exact(m[i][2], v.z);
    lemma_add_exact(m[i][0].spec_mul(v.x), m[i][1].spec_mul(v.y));
    lemma_add_exact(m[i][0].spec_mul(v.x).spec_add(m[i][1].spec_mul(v.y)), m[i][2].spec_mul(v.z));
}

/// Law: `MVMVA` of the rotation matrix by `V0` with no offset writes to `MAC1`-`MAC3` the rows
/// of the rotation matrix (`RT11`..`RT33`, signed half-words) times `VX0`, `VY0`, `VZ0`, divided
/// by `2^12` (rounding down) where the instruction drops the fraction (bit 19).
pub proof fn law_rotate_vector(regs: Seq<u32>, instr: Instruction)
    requires
        regs.len() == 64,
        Opcode::spec_from_code(instr.spec_op_raw()) == Some(Opcode::MVMVA),
        instr.spec_multiply_matrix() == MulMatrix::Rotation,
        instr.spec_multiply_vector() == MulVector::Vector0,
        instr.spec_offset_vector() == OffVector::NoOffset,
    ensures
        ({
            let (vx, vy, vz) = (lo16(regs[0]), hi16(regs[0]), lo16(regs[1]));
            let (r11, r12, r13) = (lo16(regs[32]), hi16(regs[32]), lo16(regs[33]));
            let (r21, r22, r23) = (hi16(regs[33]), lo16(regs[34]), hi16(regs[34]));
            let (r31, r32, r33) = (lo16(regs[35]), hi16(regs[35]), lo16(regs[36]));
            let sh = (instr.0 >> 19u32) & 1 == 1;
            let n = spec_exec_gte(regs, instr);
            &&& n[25] == dot_component(r11, vx, r12, vy, r13, vz, sh)
            &&& n[26] == dot_component(r21, vx, r22, vy, r23, vz, sh)
            &&& n[27] == dot_component(r31, vx, r32, vy, r33, vz, sh)
        }),
{
    let s = spec_write(regs, Reg::R63, 0);
    assert(s[0] == regs[0] && s[1] == regs[1] && s[32] == regs[32] && s[33] == regs[33] && s[34]
        == regs[34] && s[35] == regs[35] && s[36] == regs[36]);
    assert(forall|k: int| 0 <= k < 64 ==> regs[k] / 0x1_0000 < 0x1_0000);
    let m = spec_mvmva_matrix(s, MulMatrix::Rotation);
    let v = spec_mvmva_vector(s, MulVector::Vector0);
    lemma_i44(lo16(regs[0]));
    lemma_i44(hi16(regs[0]));
    lemma_i44(lo16(regs[1]));
    lemma_i44(lo16(regs[32]));
    lemma_i44(hi16(regs[32]));
    lemma_i44(lo16(regs[33]));
    lemma_i44(hi16(regs[33]));
    lemma_i44(lo16(regs[34]));
    lemma_i44(hi16(regs[34]));
    lemma_i44(lo16(regs[35]));
    lemma_i44(hi16(regs[35]));
    lemma_i44(lo16(regs[36]));
    lemma_row_exact(m, 0, v);
    lemma_row_exact(m, 1, v);
    lemma_row_exact(m, 2, v);
    let off = Vector::spec_zero();
    let r = off.spec_add(spec_mul_mv(m, v));
    lemma_i44(0);
    lemma_add_exact(off.x, spec_row(m, 0, v));
    lemma_add_exact(off.y, spec_row(m, 1, v));
    lemma_add_exact(off.z, spec_row(m, 2, v));
    lemma_shr12(r.x.val() as i64);
    lemma_shr12(r.y.val() as i64);
    lemma_shr12(r.z.val() as i64);
}

/// The average of `SZ0` to `SZ3` weighted by `ZSF4`, with a 12 bit fraction.
pub open spec fn spec_avsz4_value(regs: Seq<u32>) -> Int44 {
    let zsf4 = spec_i44(as_i32(regs[62]));
    let sz0 = spec_i44(as_i32(regs[16]));
    let sz1 = spec_i44(as_i32(regs[17]));
    let sz2 = spec_i44(as_i32(regs[18]));
    let sz3 = spec_i44(as_i32(regs[19]));
    zsf4.spec_mul(sz0.spec_add(sz1).spec_add(sz2).spec_add(sz3))
}

/// Averages four Z values: `MAC0` and `OTZ` take the average of `SZ0` to `SZ3` weighted by
/// `ZSF4`.
pub fn avsz4(regs: &mut Registers, _instr: Instruction)
    ensures
        final(regs)@ == spec_store_average(old(regs)@, spec_avsz4_value(old(regs)@)),
{
    let canonical = regs.is_canonical();
    let zsf4 = signed_i44(regs, Reg::ZSF4);
    let sz0 = signed_i44(regs, Reg::SZ0);
    let sz1 = signed_i44(regs, Reg::SZ1);
    let sz2 = signed_i44(regs, Reg::SZ2);
    let sz3 = signed_i44(regs, Reg::SZ3);
    proof {
        lemma_half_word_reg(regs@[62]);
        lemma_add_exact(sz0, sz1);
        lemma_add_exact(sz0.spec_add(sz1), sz2);
        lemma_add_exact(sz0.spec_add(sz1).spec_add(sz2), sz3);
    }
    let sum = sz0 + sz1 + sz2 + sz3;
    proof {
        assert(0 <= sum.val() < 0x4_0000);
        assert(-0x20_0000_0000 <= zsf4.val() * sum.val() <= 0x20_0000_0000) by (nonlinear_arith)
            requires -0x8000 <= zsf4.val() < 0x8000, 0 <= sum.val() < 0x4_0000;
    }
    let avg = zsf4 * sum;
    store_average(regs, avg);
}

} // verus!

verus! {

/// A register read as a signed 32 bit value, widened to a 44 bit integer.
pub open spec fn spec_signed(regs: Seq<u32>, reg: Reg) -> Int44 {
    spec_i44(as_i32(spec_read(regs, reg)))
}

/// Proof that in a canonical register file the signed half-word registers `IR0`-`IR3` and `DQA`
/// hold values in `-0x8000..0x8000`, and `SZ3` a value below `0x1_0000`.
proof fn lemma_canonical_ranges(regs: Seq<u32>)
    requires
        canonical(regs),
    ensures
        -0x8000 <= as_i32(regs[8]) < 0x8000,
        -0x8000 <= as_i32(regs[9]) < 0x8000,
        -0x8000 <= as_i32(regs[10]) < 0x8000,
        -0x8000 <= as_i32(regs[11]) < 0x8000,
        -0x8000 <= as_i32(regs[59]) < 0x8000,
        regs[19] < 0x1_0000,
{
    lemma_half_word_reg(regs[8]);
    lemma_half_word_reg(regs[9]);
    lemma_half_word_reg(regs[10]);
    lemma_half_word_reg(regs[11]);
    lemma_half_word_reg(regs[59]);
}

/// The register file after the cross product of `IR1`-`IR3` with the diagonal of the rotation
/// matrix (`OP`).
pub open spec fn spec_cross(regs: Seq<u32>, instr: Instruction) -> Seq<u32> {
    let ir1 = spec_signed(regs, Reg::R9);
    let ir2 = spec_signed(regs, Reg::R10);
    let ir3 = spec_signed(regs, Reg::R11);
    let d1 = spec_i44(lo16(spec_read(regs, Reg::R32)));
    let d2 = spec_i44(lo16(spec_read(regs, Reg::R34)));
    let d3 = spec_i44(lo16(spec_read(regs, Reg::R36)));
    let (sh, nn) = (instr.spec_shift(), instr.spec_no_neg());
    let s1 = spec_set_mac_ir(regs, 1, ir3.spec_mul(d2).spec_sub(ir2.spec_mul(d3)), sh, nn);
    let s2 = spec_set_mac_ir(s1, 2, ir1.spec_mul(d3).spec_sub(ir3.spec_mul(d1)), sh, nn);
    spec_set_mac_ir(s2, 3, ir2.spec_mul(d1).spec_sub(ir1.spec_mul(d2)), sh, nn)
}

/// Cross product (`OP`): `MAC1`-`MAC3` and `IR1`-`IR3` take the cross product of `IR1`-`IR3` with
/// the diagonal `RT11`, `RT22`, `RT33` of the rotation matrix.
pub fn cross(regs: &mut Registers, instr: Instruction)
    ensures
        final(regs)@ == spec_cross(old(regs)@, instr),
{
    let ir1 = signed_i44(regs, Reg::IR1);
    let ir2 = signed_i44(regs, Reg::IR2);
    let ir3 = signed_i44(regs, Reg::IR3);
    let d1 = i44(low_half(regs.read(Reg::RT_11_12)));
    let d2 = i44(low_half(regs.read(Reg::RT_22_23)));
    let d3 = i44(low_half(regs.read(Reg::RT_33_SS)));
    proof {
        lemma_canonical_ranges(regs@);
        lemma_small_product(ir3.val(), d2.val());
        lemma_small_product(ir2.val(), d3.val());
        lemma_small_product(ir1.val(), d3.val());
        lemma_small_product(ir3.val(), d1.val());
        lemma_small_product(ir2.val(), d1.val());
        lemma_small_product(ir1.val(), d2.val());
    }
    let shift = instr.shift();
    let no_neg = instr.no_neg();
    regs.set_mac_ir1(ir3 * d2 - ir2 * d3, shift, no_neg);
    regs.set_mac_ir2(ir1 * d3 - ir3 * d1, shift, no_neg);
    regs.set_mac_ir3(ir2 * d1 - ir1 * d2, shift, no_neg);
}

/// The register file after interpolating the color `mac1`, `mac2`, `mac3` towards the far color
/// by `IR0`.
pub open spec fn spec_interpolate_color(
    regs: Seq<u32>,
    mac1: Int44,
    mac2: Int44,
    mac3: Int44,
    shift: bool,
    no_neg: bool,
) -> Seq<u32> {
    let s1 = spec_set_mac(regs, 1, mac1, false);
    let s2 = spec_set_mac(s1, 2, mac2, false);
    let s3 = spec_set_mac(s2, 3, mac3, false);
    let fcr = spec_i44(as_i32(spec_read(s3, Reg::R53)) * 0x1000);
    let fcg = spec_i44(as_i32(spec_read(s3, Reg::R54)) * 0x1000);
    let fcb = spec_i44(as_i32(spec_read(s3, Reg::R55)) * 0x1000);
    let s4 = spec_set_mac_ir(s3, 1, fcr.spec_sub(mac1), shift, false);
    let s5 = spec_set_mac_ir(s4, 2, fcg.spec_sub(mac2), shift, false);
    let s6 = spec_set_mac_ir(s5, 3, fcb.spec_sub(mac3), shift, false);
    let ir0 = spec_signed(s6, Reg::R8);
    let ir1 = spec_signed(s6, Reg::R9);
    let ir2 = spec_signed(s6, Reg::R10);
    let ir3 = spec_signed(s6, Reg::R11);
    let s7 = spec_set_mac_ir(s6, 1, ir0.spec_mul(ir1).spec_add(mac1), shift, no_neg);
    let s8 = spec_set_mac_ir(s7, 2, ir0.spec_mul(ir2).spec_add(mac2), shift, no_neg);
    spec_set_mac_ir(s8, 3, ir0.spec_mul(ir3).spec_add(mac3), shift, no_neg)
}

/// Interpolates the color `mac1`, `mac2`, `mac3` towards the far color (`FCR`, `FCG`, `FCB`) by
/// the factor `IR0`.
fn interpolate_color(
    regs: &mut Registers,
    mac1: Int44,
    mac2: Int44,
    mac3: Int44,
    shift: bool,
    no_neg: bool,
)
    ensures
        final(regs)@ == spec_interpolate_color(old(regs)@, mac1, mac2, mac3, shift, no_neg),
{
    regs.set_mac1(mac1, false);
    regs.set_mac2(mac2, false);
    regs.set_mac3(mac3, false);

    let fcr = i44(signed32(regs.read(Reg::FCR)) * 0x1000);
    let fcg = i44(signed32(regs.read(Reg::FCG)) * 0x1000);
    let fcb = i44(signed32(regs.read(Reg::FCB)) * 0x1000);
    regs.set_mac_ir1(fcr - mac1, shift, false);
    regs.set_mac_ir2(fcg - mac2, shift, false);
    regs.set_mac_ir3(fcb - mac3, shift, false);

    let ir0 = signed_i44(regs, Reg::IR0);
    let ir1 = signed_i44(regs, Reg::IR1);
    let ir2 = signed_i44(regs, Reg::IR2);
    let ir3 = signed_i44(regs, Reg::IR3);
    proof {
        lemma_canonical_ranges(regs@);
        lemma_small_product(ir0.val(), ir1.val());
        lemma_small_product(ir0.val(), ir2.val());
        lemma_small_product(ir0.val(), ir3.val());
    }
    regs.set_mac_ir1(ir0 * ir1 + mac1, shift, no_neg);
    regs.set_mac_ir2(ir0 * ir2 + mac2, shift, no_neg);
    regs.set_mac_ir3(ir0 * ir3 + mac3, shift, no_neg);
}

/// The register file after pushing the color held by `MAC1`-`MAC3`, each shifted right by four
/// bits, to the color FIFO.
pub open spec fn spec_push_mac_color(regs: Seq<u32>) -> Seq<u32> {
    let r = (as_i32(spec_read(regs, Reg::R25)) as i32 >> 4i32) as int;
    let g = (as_i32(spec_read(regs, Reg::R26)) as i32 >> 4i32) as int;
    let b = (as_i32(spec_read(regs, Reg::R27)) as i32 >> 4i32) as int;
    spec_push_color(regs, r, g, b)
}

/// Pushes the color held by `MAC1`-`MAC3`, each shifted right by four bits, to the color FIFO.
fn push_mac_color(regs: &mut Registers)
    ensures
        final(regs)@ == spec_push_mac_color(old(regs)@),
{
    let mac1 = signed32(regs.read(Reg::MAC1)) as i32;
    let mac2 = signed32(regs.read(Reg::MAC2)) as i32;
    let mac3 = signed32(regs.read(Reg::MAC3)) as i32;
    regs.push_color(mac1 >> 4i32, mac2 >> 4i32, mac3 >> 4i32);
}

/// Byte `n` (0 to 3) of `v`.
pub open spec fn byte_of(v: u32, n: int) -> int {
    if n == 0 {
        (v % 0x100) as int
    } else if n == 1 {
        ((v / 0x100) % 0x100) as int
    } else if n == 2 {
        ((v / 0x1_0000) % 0x100) as int
    } else {
        (v / 0x100_0000) as int
    }
}

/// The register file after depth cueing the color of `RGBC` (`DPCS`).
pub open spec fn spec_dpcs(regs: Seq<u32>, instr: Instruction) -> Seq<u32> {
    let rgbc = spec_read(regs, Reg::R6);
    let r = spec_i44(byte_of(rgbc, 0) * 0x1_0000);
    let g = spec_i44(byte_of(rgbc, 1) * 0x1_0000);
    let b = spec_i44(byte_of(rgbc, 2) * 0x1_0000);
    let s = spec_interpolate_color(regs, r, g, b, instr.spec_shift(), instr.spec_no_neg());
    spec_push_mac_color(s)
}

/// Depth cueing single (`DPCS`): interpolates the color of `RGBC` towards the far color by
/// `IR0`, and pushes the result to the color FIFO.
pub fn dpcs(regs: &mut Registers, instr: Instruction)
    ensures
        final(regs)@ == spec_dpcs(old(regs)@, instr),
{
    let rgbc = regs.read(Reg::RGBC);
    let r = i44((rgbc % 0x100) as i64 * 0x1_0000);
    let g = i44(((rgbc / 0x100) % 0x100) as i64 * 0x1_0000);
    let b = i44(((rgbc / 0x1_0000) % 0x100) as i64 * 0x1_0000);

    interpolate_color(regs, r, g, b, instr.shift(), instr.no_neg());
    push_mac_color(regs);
}

/// The register file after interpolating `IR1`-`IR3` towards the far color (`INTPL`).
pub open spec fn spec_intpl(regs: Seq<u32>, instr: Instruction) -> Seq<u32> {
    let ir1 = spec_i44(spec_read(regs, Reg::R9) * 0x1000);
    let ir2 = spec_i44(spec_read(regs, Reg::R10) * 0x1000);
    let ir3 = spec_i44(spec_read(regs, Reg::R11) * 0x1000);
    let s = spec_interpolate_color(regs, ir1, ir2, ir3, instr.spec_shift(), instr.spec_no_neg());
    spec_push_mac_color(s)
}

/// Interpolation (`INTPL`): interpolates the vector `IR1`-`IR3` (its registers read unsigned)
/// towards the far color by `IR0`, and pushes the result to the color FIFO.
pub fn intpl(regs: &mut Registers, instr: Instruction)
    ensures
        final(regs)@ == spec_intpl(old(regs)@, instr),
{
    let ir1 = i44(regs.read(Reg::IR1) as i64 * 0x1000);
    let ir2 = i44(regs.read(Reg::IR2) as i64 * 0x1000);
    let ir3 = i44(regs.read(Reg::IR3) as i64 * 0x1000);

    interpolate_color(regs, ir1, ir2, ir3, instr.shift(), instr.no_neg());
    push_mac_color(regs);
}

/// The register file after storing `v` to `MAC1`-`MAC3` and `IR1`-`IR3`.
pub open spec fn spec_set_mac_ir_vector(
    regs: Seq<u32>,
    v: Vector,
    shift: bool,
    no_neg: bool,
) -> Seq<u32> {
    let s1 = spec_set_mac_ir(regs, 1, v.x, shift, no_neg);
    let s2 = spec_set_mac_ir(s1, 2, v.y, shift, no_neg);
    spec_set_mac_ir(s2, 3, v.z, shift, no_neg)
}

/// Stores `v` to `MAC1`-`MAC3` and `IR1`-`IR3`.
fn set_mac_ir_vector(regs: &mut Registers, v: Vector, shift: bool, no_neg: bool)
    ensures
        final(regs)@ == spec_set_mac_ir_vector(old(regs)@, v, shift, no_neg),
{
    regs.set_mac_ir1(v.x, shift, no_neg);
    regs.set_mac_ir2(v.y, shift, no_neg);
    regs.set_mac_ir3(v.z, shift, no_neg);
}

/// The vector held by `IR1`-`IR3`, each read as a signed value.
pub open spec fn spec_ir_vector(regs: Seq<u32>) -> Vector {
    Vector {
        x: spec_signed(regs, Reg::R9),
        y: spec_signed(regs, Reg::R10),
        z: spec_signed(regs, Reg::R11),
    }
}

/// Reads the vector held by `IR1`-`IR3`.
fn ir_vector(regs: &Registers) -> (r: Vector)
    ensures
        r == spec_ir_vector(regs@),
        r.small(),
{
    let r = Vector::new(
        signed_i44(regs, Reg::IR1),
        signed_i44(regs, Reg::IR2),
        signed_i44(regs, Reg::IR3),
    );
    proof {
        lemma_canonical_ranges(regs@);
    }
    r
}

/// The register file after normal color depth cueing of vector 0 (`NCDS`).
pub open spec fn spec_ncds(regs: Seq<u32>, instr: Instruction) -> Seq<u32> {
    let (sh, nn) = (instr.spec_shift(), instr.spec_no_neg());
    let light = spec_matrix_at(regs, Reg::R40, Reg::R41, Reg::R42, Reg::R43, Reg::R44);
    let color = spec_matrix_at(regs, Reg::R48, Reg::R49, Reg::R50, Reg::R51, Reg::R52);
    let background = spec_fraction_vector(regs, Reg::R45, Reg::R46, Reg::R47);
    let v0 = spec_vector_at(regs, Reg::R0, Reg::R1);
    let s1 = spec_set_mac_ir_vector(regs, spec_mul_mv(light, v0), sh, nn);
    let s2 = spec_set_mac_ir_vector(
        s1,
        background.spec_add(spec_mul_mv(color, spec_ir_vector(s1))),
        sh,
        nn,
    );
    let rgbc = spec_read(s2, Reg::R6);
    let ir = spec_ir_vector(s2);
    let s3 = spec_interpolate_color(
        s2,
        spec_i44(byte_of(rgbc, 0) * 0x10).spec_mul(ir.x),
        spec_i44(byte_of(rgbc, 1) * 0x10).spec_mul(ir.y),
        spec_i44(byte_of(rgbc, 2) * 0x10).spec_mul(ir.z),
        sh,
        nn,
    );
    spec_push_mac_color(s3)
}

/// Normal color depth cue single (`NCDS`): lights vector 0 with the light and light color
/// matrices, tints `RGBC` with the result, interpolates it towards the far color and pushes it to
/// the color FIFO.
pub fn ncds(regs: &mut Registers, instr: Instruction)
    ensures
        final(regs)@ == spec_ncds(old(regs)@, instr),
{
    let shift = instr.shift();
    let no_neg = instr.no_neg();
    let light_matrix = light_matrix(regs);
    let color_matrix = color_matrix(regs);
    let background_color_vector = background_color_vector(regs);
    let v0 = vector0(regs);

    let v = mul_matrix_vector(&light_matrix, v0);
    set_mac_ir_vector(regs, v, shift, no_neg);

    let ir = ir_vector(regs);
    let v = background_color_vector + mul_matrix_vector(&color_matrix, ir);
    set_mac_ir_vector(regs, v, shift, no_neg);

    let rgbc = regs.read(Reg::RGBC);
    let r = i44((rgbc % 0x100) as i64 * 0x10);
    let g = i44(((rgbc / 0x100) % 0x100) as i64 * 0x10);
    let b = i44(((rgbc / 0x1_0000) % 0x100) as i64 * 0x10);
    let ir = ir_vector(regs);
    proof {
        lemma_small_product(r.val(), ir.x.val());
        lemma_small_product(g.val(), ir.y.val());
        lemma_small_product(b.val(), ir.z.val());
    }

    interpolate_color(regs, r * ir.x, g * ir.y, b * ir.z, shift, no_neg);
    push_mac_color(regs);
}

} // verus!

verus! {

/// The register file after the perspective transformation of `v` (`RTPS`): the rotated and
/// translated vector goes to `MAC1`-`MAC3`, `IR1`-`IR3` and the Z FIFO, its projection to the
/// screen coordinate FIFO and, if `with_mac0`, the depth cueing factor to `MAC0` and `IR0`.
pub open spec fn spec_rtps(regs: Seq<u32>, v: Vector, instr: Instruction, with_mac0: bool) -> Seq<
    u32,
> {
    let (sh, nn) = (instr.spec_shift(), instr.spec_no_neg());
    let rotation = spec_matrix_at(regs, Reg::R32, Reg::R33, Reg::R34, Reg::R35, Reg::R36);
    let translation = spec_fraction_vector(regs, Reg::R37, Reg::R38, Reg::R39);
    let r = translation.spec_add(spec_mul_mv(rotation, v));
    let s1 = spec_push_z(spec_set_mac_ir_vector(regs, r, sh, nn), r.z);
    let z = (r.z.val() as i64) >> 12i64;
    let s2 = spec_set_flag(s1, Flag::ClampedIR3, z < -0x8000 || z > 0x7FFF);
    let h = spec_read(s2, Reg::R58) % 0x1_0000;
    let (q, overflow) = spec_newton_raphson_div(h, spec_read(s2, Reg::R19));
    let s3 = spec_set_flag(s2, Flag::DivideOverflow, overflow);
    let q = spec_i44(q as int);
    let x = q.spec_mul(spec_signed(s3, Reg::R9)).spec_add(spec_signed(s3, Reg::R56));
    let y = q.spec_mul(spec_signed(s3, Reg::R10)).spec_add(spec_signed(s3, Reg::R57));
    let s4 = spec_push_xy(
        spec_set_mac0(spec_set_mac0(s3, x), y),
        (((x.val() as i64) >> 16i64) as i32) as int,
        (((y.val() as i64) >> 16i64) as i32) as int,
    );
    if with_mac0 {
        let m = q.spec_mul(spec_signed(s4, Reg::R59)).spec_add(spec_signed(s4, Reg::R60));
        spec_set_ir(spec_set_mac0(s4, m), 0, ((m.val() as i64) >> 12i64) as i32, true)
    } else {
        s4
    }
}

/// Perspective transformation of the vector `v` (`RTPS`); `with_mac0` tells whether the depth
/// cueing factor is computed too.
pub fn rtps(regs: &mut Registers, v: Vector, instr: Instruction, with_mac0: bool)
    requires
        v.small(),
    ensures
        final(regs)@ == spec_rtps(old(regs)@, v, instr, with_mac0),
{
    let shift = instr.shift();
    let no_neg = instr.no_neg();
    let rotation = rotation_matrix(regs);
    let translation = translation_vector(regs);
    let r = translation + mul_matrix_vector(&rotation, v);

    set_mac_ir_vector(regs, r, shift, no_neg);
    regs.push_z(r.z);

    // IR3 always shifts the fraction and clamps to the full range for the flag
    let z = r.z.value() >> 12i64;
    regs.set_flag(Flag::ClampedIR3, z < -0x8000 || z > 0x7FFF);

    // H reads sign extended, but the divider takes it unsigned
    let h = regs.read(Reg::H) % 0x1_0000;
    let sz3 = regs.read(Reg::SZ3);
    proof {
        lemma_canonical_ranges(regs@);
    }
    let (quotient, overflow) = newton_raphson_div(h, sz3);
    regs.set_flag(Flag::DivideOverflow, overflow);

    let q = i44(quotient as i64);
    let ir1 = signed_i44(regs, Reg::IR1);
    let ir2 = signed_i44(regs, Reg::IR2);
    let ofx = signed_i44(regs, Reg::OFX);
    let ofy = signed_i44(regs, Reg::OFY);
    proof {
        lemma_canonical_ranges(regs@);
        lemma_small_product(q.val(), ir1.val());
        lemma_small_product(q.val(), ir2.val());
    }
    let x = q * ir1 + ofx;
    let y = q * ir2 + ofy;
    regs.set_mac0(x);
    regs.set_mac0(y);
    regs.push_xy((x.value() >> 16i64) as i32, (y.value() >> 16i64) as i32);

    if with_mac0 {
        let dqa = signed_i44(regs, Reg::DQA);
        let dqb = signed_i44(regs, Reg::DQB);
        proof {
            lemma_canonical_ranges(regs@);
            lemma_small_product(q.val(), dqa.val());
        }
        let mac0 = q * dqa + dqb;
        regs.set_mac0(mac0);
        regs.set_ir0((mac0.value() >> 12i64) as i32);
    }
}

/// The register file after the perspective transformation of the three vectors (`RTPT`).
pub open spec fn spec_rtpt(regs: Seq<u32>, instr: Instruction) -> Seq<u32> {
    let s1 = spec_rtps(regs, spec_vector_at(regs, Reg::R0, Reg::R1), instr, false);
    let s2 = spec_rtps(s1, spec_vector_at(s1, Reg::R2, Reg::R3), instr, false);
    spec_rtps(s2, spec_vector_at(s2, Reg::R4, Reg::R5), instr, true)
}

/// Perspective transformation triple (`RTPT`): `RTPS` on vectors 0, 1 and 2, the depth cueing
/// factor computed for the last one only.
pub fn rtpt(regs: &mut Registers, instr: Instruction)
    ensures
        final(regs)@ == spec_rtpt(old(regs)@, instr),
{
    let v0 = vector0(regs);
    rtps(regs, v0, instr, false);
    let v1 = vector1(regs);
    rtps(regs, v1, instr, false);
    let v2 = vector2(regs);
    rtps(regs, v2, instr, true);
}

/// The matrix an `MVMVA` multiplies by. The reserved choice gives a garbage matrix built from
/// `R` of `RGBC`, `IR0` and two entries of the rotation matrix.
pub open spec fn spec_mvmva_matrix(regs: Seq<u32>, choice: MulMatrix) -> Matrix {
    match choice {
        MulMatrix::Rotation => spec_matrix_at(
            regs,
            Reg::R32,
            Reg::R33,
            Reg::R34,
            Reg::R35,
            Reg::R36,
        ),
        MulMatrix::Light => spec_matrix_at(regs, Reg::R40, Reg::R41, Reg::R42, Reg::R43, Reg::R44),
        MulMatrix::Color => spec_matrix_at(regs, Reg::R48, Reg::R49, Reg::R50, Reg::R51, Reg::R52),
        MulMatrix::Reserved => {
            let r = byte_of(spec_read(regs, Reg::R6), 0) * 0x10;
            let ir0 = spec_i44(lo16(spec_read(regs, Reg::R8)));
            let rot = spec_matrix_at(regs, Reg::R32, Reg::R33, Reg::R34, Reg::R35, Reg::R36);
            [
                [spec_i44(-r), spec_i44(r), ir0],
                [rot[0][2], rot[0][2], rot[0][2]],
                [rot[1][1], rot[1][1], rot[1][1]],
            ]
        },
    }
}

/// Reads the matrix an `MVMVA` multiplies by.
fn mvmva_matrix(regs: &Registers, choice: MulMatrix) -> (r: Matrix)
    ensures
        r == spec_mvmva_matrix(regs@, choice),
        small_matrix(r),
{
    if choice == MulMatrix::Rotation {
        rotation_matrix(regs)
    } else if choice == MulMatrix::Light {
        light_matrix(regs)
    } else if choice == MulMatrix::Color {
        color_matrix(regs)
    } else {
        let r = (regs.read(Reg::RGBC) % 0x100) as i64 * 0x10;
        let ir0 = i44(low_half(regs.read(Reg::IR0)));
        let rot = rotation_matrix(regs);
        let m = [
            [i44(-r), i44(r), ir0],
            [rot[0][2], rot[0][2], rot[0][2]],
            [rot[1][1], rot[1][1], rot[1][1]],
        ];
        assert(m == spec_mvmva_matrix(regs@, choice));
        m
    }
}

/// The vector an `MVMVA` multiplies.
pub open spec fn spec_mvmva_vector(regs: Seq<u32>, choice: MulVector) -> Vector {
    match choice {
        MulVector::Vector0 => spec_vector_at(regs, Reg::R0, Reg::R1),
        MulVector::Vector1 => spec_vector_at(regs, Reg::R2, Reg::R3),
        MulVector::Vector2 => spec_vector_at(regs, Reg::R4, Reg::R5),
        MulVector::IR => spec_ir_vector(regs),
    }
}

/// Reads the vector an `MVMVA` multiplies.
fn mvmva_vector(regs: &Registers, choice: MulVector) -> (r: Vector)
    ensures
        r == spec_mvmva_vector(regs@, choice),
        r.small(),
{
    if choice == MulVector::Vector0 {
        vector0(regs)
    } else if choice == MulVector::Vector1 {
        vector1(regs)
    } else if choice == MulVector::Vector2 {
        vector2(regs)
    } else {
        ir_vector(regs)
    }
}

/// The vector an `MVMVA` adds.
pub open spec fn spec_mvmva_offset(regs: Seq<u32>, choice: OffVector) -> Vector {
    match choice {
        OffVector::Translation => spec_fraction_vector(regs, Reg::R37, Reg::R38, Reg::R39),
        OffVector::BackgroundColor => spec_fraction_vector(regs, Reg::R45, Reg::R46, Reg::R47),
        OffVector::FarColor => spec_fraction_vector(regs, Reg::R53, Reg::R54, Reg::R55),
        OffVector::NoOffset => Vector::spec_zero(),
    }
}

/// Reads the vector an `MVMVA` adds.
fn mvmva_offset(regs: &Registers, choice: OffVector) -> (r: Vector)
    ensures
        r == spec_mvmva_offset(regs@, choice),
{
    if choice == OffVector::Translation {
        translation_vector(regs)
    } else if choice == OffVector::BackgroundColor {
        background_color_vector(regs)
    } else if choice == OffVector::FarColor {
        far_color_vector(regs)
    } else {
        Vector::zero()
    }
}

/// The register file after an `MVMVA`. With the far color as offset, the hardware only adds the
/// first column of the product to it (checking that sum for flags), and stores the other two
/// columns' sum.
pub open spec fn spec_mvmva(regs: Seq<u32>, instr: Instruction) -> Seq<u32> {
    let (sh, nn) = (instr.spec_shift(), instr.spec_no_neg());
    let m = spec_mvmva_matrix(regs, instr.spec_multiply_matrix());
    let v = spec_mvmva_vector(regs, instr.spec_multiply_vector());
    let off = spec_mvmva_offset(regs, instr.spec_offset_vector());
    if instr.spec_offset_vector() == OffVector::FarColor {
        let first = Vector {
            x: off.x.spec_add(m[0][0].spec_mul(v.x)),
            y: off.y.spec_add(m[1][0].spec_mul(v.x)),
            z: off.z.spec_add(m[2][0].spec_mul(v.x)),
        };
        let rest = Vector {
            x: m[0][1].spec_mul(v.y).spec_add(m[0][2].spec_mul(v.z)),
            y: m[1][1].spec_mul(v.y).spec_add(m[1][2].spec_mul(v.z)),
            z: m[2][1].spec_mul(v.y).spec_add(m[2][2].spec_mul(v.z)),
        };
        spec_set_mac_ir_vector(spec_set_mac_ir_vector(regs, first, sh, false), rest, sh, nn)
    } else {
        spec_set_mac_ir_vector(regs, off.spec_add(spec_mul_mv(m, v)), sh, nn)
    }
}

/// Multiply vector by matrix and add vector (`MVMVA`), with the matrix, vector and offset the
/// instruction selects.
pub fn mvmva(regs: &mut Registers, instr: Instruction)
    ensures
        final(regs)@ == spec_mvmva(old(regs)@, instr),
{
    let shift = instr.shift();
    let no_neg = instr.no_neg();
    let matrix = mvmva_matrix(regs, instr.multiply_matrix());
    let vector = mvmva_vector(regs, instr.multiply_vector());
    let offset = mvmva_offset(regs, instr.offset_vector());

    if instr.offset_vector() == OffVector::FarColor {
        proof {
            assert(-0x8000_0000 <= matrix[0][0].val() <= 0x8000_0000);
            assert(-0x8000_0000 <= matrix[0][1].val() <= 0x8000_0000);
            assert(-0x8000_0000 <= matrix[0][2].val() <= 0x8000_0000);
            assert(-0x8000_0000 <= matrix[1][0].val() <= 0x8000_0000);
            assert(-0x8000_0000 <= matrix[1][1].val() <= 0x8000_0000);
            assert(-0x8000_0000 <= matrix[1][2].val() <= 0x8000_0000);
            assert(-0x8000_0000 <= matrix[2][0].val() <= 0x8000_0000);
            assert(-0x8000_0000 <= matrix[2][1].val() <= 0x8000_0000);
            assert(-0x8000_0000 <= matrix[2][2].val() <= 0x8000_0000);
            lemma_small_product(matrix[0][0].val(), vector.x.val());
            lemma_small_product(matrix[1][0].val(), vector.x.val());
            lemma_small_product(matrix[2][0].val(), vector.x.val());
            lemma_small_product(matrix[0][1].val(), vector.y.val());
            lemma_small_product(matrix[0][2].val(), vector.z.val());
            lemma_small_product(matrix[1][1].val(), vector.y.val());
            lemma_small_product(matrix[1][2].val(), vector.z.val());
            lemma_small_product(matrix[2][1].val(), vector.y.val());
            lemma_small_product(matrix[2][2].val(), vector.z.val());
        }
        let first = Vector {
            x: offset.x + matrix[0][0] * vector.x,
            y: offset.y + matrix[1][0] * vector.x,
            z: offset.z + matrix[2][0] * vector.x,
        };
        set_mac_ir_vector(regs, first, shift, false);

        let rest = Vector {
            x: matrix[0][1] * vector.y + matrix[0][2] * vector.z,
            y: matrix[1][1] * vector.y + matrix[1][2] * vector.z,
            z: matrix[2][1] * vector.y + matrix[2][2] * vector.z,
        };
        set_mac_ir_vector(regs, rest, shift, no_neg);
    } else {
        let r = offset + mul_matrix_vector(&matrix, vector);
        set_mac_ir_vector(regs, r, shift, no_neg);
    }
}

/// The register file after executing `instr`: an unknown opcode changes nothing; a known one
/// clears `FLAG` and then runs.
pub open spec fn spec_exec_gte(regs: Seq<u32>, instr: Instruction) -> Seq<u32> {
    match Opcode::spec_from_code(instr.spec_op_raw()) {
        None => regs,
        Some(op) => {
            let s = spec_write(regs, Reg::R63, 0);
            match op {
                Opcode::RTPS => spec_rtps(s, spec_vector_at(s, Reg::R0, Reg::R1), instr, true),
                Opcode::NCLIP => spec_set_mac0(s, spec_i44(spec_nclip_value(s))),
                Opcode::NCDS => spec_ncds(s, instr),
                Opcode::AVSZ3 => spec_store_average(s, spec_avsz3_value(s)),
                Opcode::RTPT => spec_rtpt(s, instr),
                Opcode::INTPL => spec_intpl(s, instr),
                Opcode::OP => spec_cross(s, instr),
                Opcode::DPCS => spec_dpcs(s, instr),
                Opcode::MVMVA => spec_mvmva(s, instr),
                Opcode::AVSZ4 => spec_store_average(s, spec_avsz4_value(s)),
            }
        },
    }
}

/// Executes a GTE instruction. An unknown opcode is ignored; a known one clears `FLAG` first.
pub fn exec_gte(regs: &mut Registers, instr: Instruction)
    ensures
        final(regs)@ == spec_exec_gte(old(regs)@, instr),
{
    let op = match instr.op() {
        Some(op) => op,
        None => return ,
    };

    regs.write(Reg::FLAG, 0);
    if op == Opcode::RTPS {
        let v0 = vector0(regs);
        rtps(regs, v0, instr, true);
    } else if op == Opcode::NCLIP {
        nclip(regs, instr);
    } else if op == Opcode::NCDS {
        ncds(regs, instr);
    } else if op == Opcode::AVSZ3 {
        avsz3(regs, instr);
    } else if op == Opcode::RTPT {
        rtpt(regs, instr);
    } else if op == Opcode::INTPL {
        intpl(regs, instr);
    } else if op == Opcode::OP {
        cross(regs, instr);
    } else if op == Opcode::DPCS {
        dpcs(regs, instr);
    } else if op == Opcode::MVMVA {
        mvmva(regs, instr);
    } else {
        avsz4(regs, instr);
    }
}

} // verus!
