//! Execution of CPU instructions: what each instruction does to the registers, and what it asks
//! of the memory bus.
use super::gte::as_i32;
use super::instr::{BZKind, Instruction, Opcode, SpecialOpcode};
use crate::bits::bits_of;
use super::{Reg, RegLoad, Registers};
use crate::mem::primitive::pow256;
use crate::mem::Address;
use vstd::prelude::*;

verus! {

/// The exceptions instructions raise.
#[derive(Debug, Clone, Copy, PartialEq, Eq, Structural)]
pub enum Exception {
    Interrupt,
    AddressErrorLoad,
    AddressErrorStore,
    BusErrorInstruction,
    Syscall,
    Breakpoint,
    CopUnusable,
    ArithmeticOverflow,
}

/// The cycles most instructions take.
pub const DEFAULT_DELAY: u64 = 2;

/// The cycles an instruction that accesses memory takes.
pub const MEMORY_OP_DELAY: u64 = 7;

/// `v` reduced to 32 bits, read unsigned.
pub open spec fn wrap32(v: int) -> u32 {
    (v % 0x1_0000_0000) as u32
}

/// Reads `v` as a two's complement 32 bit value.
pub fn as_signed(v: u32) -> (r: i32)
    ensures
        r as int == as_i32(v),
{
    if v >= 0x8000_0000 {
        (v as i64 - 0x1_0000_0000) as i32
    } else {
        v as i32
    }
}

/// The 32 bits of `v`, for `v` in `-2^32..2^32`.
pub fn to_bits(v: i64) -> (r: u32)
    requires
        -0x1_0000_0000 <= v < 0x1_0000_0000,
    ensures
        r == wrap32(v as int),
{
    if v < 0 {
        (v + 0x1_0000_0000) as u32
    } else {
        v as u32
    }
}

/// What an arithmetic, logic or move instruction does to the registers.
#[derive(Debug, Clone, Copy, PartialEq, Eq, Structural)]
pub enum RegEffect {
    /// Writes a value to a general purpose register, cancelling a pending load to it.
    Write(Reg, u32),
    /// Writes `HI` and `LO`, in that order.
    HiLo(u32, u32),
    /// Changes nothing and raises an exception.
    Raise(Exception),
}

/// A load the rest of the machine performs for an instruction.
#[derive(Debug, Clone, Copy, PartialEq, Eq, Structural)]
pub enum LoadKind {
    /// A byte, sign extended.
    Byte,
    /// A byte, zero extended.
    ByteUnsigned,
    /// A half-word, sign extended.
    Half,
    /// A half-word, zero extended.
    HalfUnsigned,
    /// A word.
    Word,
    /// The bytes of an unaligned word from its address down to the word boundary (`LWL`),
    /// merged into the high bytes of the register.
    WordLeft,
    /// The bytes of an unaligned word from its address up to the word boundary (`LWR`), merged
    /// into the low bytes of the register.
    WordRight,
}

/// A request to read memory on behalf of a load instruction.
#[derive(Debug, Clone, Copy, PartialEq, Eq, Structural)]
pub struct MemRead {
    /// The address to read.
    pub addr: Address,
    /// What to read.
    pub kind: LoadKind,
    /// The register the value goes to, one instruction later.
    pub reg: Reg,
    /// For `WordLeft` and `WordRight`, the value the bytes read are merged into.
    pub merge_with: u32,
}

/// The width of a store.
#[derive(Debug, Clone, Copy, PartialEq, Eq, Structural)]
pub enum StoreWidth {
    Byte,
    Half,
    Word,
    /// The high bytes of the value, to the bytes from the address down to the word boundary
    /// (`SWL`).
    WordLeft,
    /// The low bytes of the value, to the bytes from the address up to the word boundary (`SWR`).
    WordRight,
}

/// A request to write memory on behalf of a store instruction.
#[derive(Debug, Clone, Copy, PartialEq, Eq, Structural)]
pub struct MemWrite {
    /// The address to write.
    pub addr: Address,
    /// The value to write, of which only the low bytes of the width count.
    pub value: u32,
    /// How many bytes to write.
    pub width: StoreWidth,
}

/// What an instruction leaves to the rest of the machine once it ran.
#[derive(Debug, Clone, Copy, PartialEq, Eq, Structural)]
pub enum Outcome {
    /// Nothing: the instruction completed.
    Done,
    /// The instruction raised an exception, to be triggered.
    Raise(Exception),
    /// The instruction loads from memory: the value read goes to [`Interpreter::finish_load`],
    /// a failed read raises [`Exception::AddressErrorLoad`].
    Read(MemRead),
    /// The instruction stores to memory; a failed write raises
    /// [`Exception::AddressErrorStore`].
    Write(MemWrite),
    /// The instruction needs a coprocessor, its unaligned memory accesses, or a system call
    /// handled by the rest of the machine.
    Machine,
}

/// An interpreter of the R3000 CPU.
#[derive(Debug, Clone, Copy)]
pub struct Interpreter {
    /// Address of the currently executing instruction.
    pub current_addr: Address,
    /// Address of the instruction in the delay slot, the one fetched after the current one.
    pub delay_slot: Address,
    /// Value going to be loaded into a register after execution.
    pub pending_load: Option<RegLoad>,
    /// A load issued by the current instruction, which lands after the next one.
    pub load_delay_slot: Option<RegLoad>,
}

impl Default for Interpreter {
    /// No instruction executed yet, and no load on its way.
    fn default() -> (r: Self)
        ensures
            r.current_addr.0 == 0,
            r.delay_slot.0 == 0,
            r.pending_load.is_none(),
            r.load_delay_slot.is_none(),
    {
        Interpreter {
            current_addr: Address(0),
            delay_slot: Address(0),
            pending_load: None,
            load_delay_slot: None,
        }
    }
}

/// `pending` once a load to `reg` is cancelled.
pub open spec fn cancelled(pending: Option<RegLoad>, reg: Reg) -> Option<RegLoad> {
    match pending {
        Some(load) => if load.reg == reg {
            None
        } else {
            pending
        },
        None => None,
    }
}

/// Whether `new` and `new_load` are `old` and `old_load` after the effect `e`.
pub open spec fn effect_applied(
    old: Registers,
    new: Registers,
    old_load: Option<RegLoad>,
    new_load: Option<RegLoad>,
    e: RegEffect,
) -> bool {
    &&& new.pc() == old.pc()
    &&& match e {
        RegEffect::Write(reg, value) => {
            &&& new.gp() == Registers::written(old.gp(), reg, value)
            &&& new.hi() == old.hi()
            &&& new.lo() == old.lo()
            &&& new_load == cancelled(old_load, reg)
        },
        RegEffect::HiLo(hi, lo) => {
            &&& new.gp() == old.gp()
            &&& new.hi() == hi
            &&& new.lo() == lo
            &&& new_load == old_load
        },
        RegEffect::Raise(_) => {
            &&& new.gp() == old.gp()
            &&& new.hi() == old.hi()
            &&& new.lo() == old.lo()
            &&& new_load == old_load
        },
    }
}

/// The value of the source register of `instr`.
pub open spec fn rs_of(instr: Instruction, regs: Registers) -> u32 {
    regs.spec_read(instr.spec_rs())
}

/// The value of the target register of `instr`.
pub open spec fn rt_of(instr: Instruction, regs: Registers) -> u32 {
    regs.spec_read(instr.spec_rt())
}

/// The unsigned 16 bit immediate of `instr`.
pub open spec fn imm_of(instr: Instruction) -> u32 {
    bits_of(instr.0, 0, 16)
}

/// The signed 16 bit immediate of `instr`.
pub open spec fn simm_of(instr: Instruction) -> int {
    instr.spec_signed_imm16() as int
}

/// The shift amount of `instr`.
pub open spec fn shamt_of(instr: Instruction) -> u32 {
    bits_of(instr.0, 6, 5)
}

/// The result of a signed addition that traps on overflow.
pub open spec fn checked_signed(reg: Reg, v: int) -> RegEffect {
    if i32::MIN <= v <= i32::MAX {
        RegEffect::Write(reg, wrap32(v))
    } else {
        RegEffect::Raise(Exception::ArithmeticOverflow)
    }
}

/// `a / b` rounded towards zero, as the hardware divides (for `b != 0`).
pub open spec fn trunc_div(a: int, b: int) -> int {
    if a >= 0 {
        if b > 0 {
            a / b
        } else {
            -(a / -b)
        }
    } else if b > 0 {
        -(-a / b)
    } else {
        -a / -b
    }
}

/// The remainder of [`trunc_div`], which has the sign of `a`.
pub open spec fn trunc_rem(a: int, b: int) -> int {
    a - b * trunc_div(a, b)
}

/// What an arithmetic, logic or move instruction does, by its operation.
pub open spec fn spec_reg_effect(op: AluOp, instr: Instruction, regs: Registers) -> RegEffect {
    let rs = rs_of(instr, regs);
    let rt = rt_of(instr, regs);
    let (rd_reg, rt_reg) = (instr.spec_rd(), instr.spec_rt());
    let imm = imm_of(instr);
    let simm = simm_of(instr);
    let sa = shamt_of(instr);
    let var = rs % 32;
    match op {
        AluOp::LUI => RegEffect::Write(rt_reg, (imm * 0x1_0000) as u32),
        AluOp::ORI => RegEffect::Write(rt_reg, rs | imm),
        AluOp::ANDI => RegEffect::Write(rt_reg, rs & imm),
        AluOp::XORI => RegEffect::Write(rt_reg, rs ^ imm),
        AluOp::ADDIU => RegEffect::Write(rt_reg, wrap32(rs + simm)),
        AluOp::ADDI => checked_signed(rt_reg, as_i32(rs) + simm),
        AluOp::SLTI => RegEffect::Write(rt_reg, if as_i32(rs) < simm { 1 } else { 0 }),
        AluOp::SLTIU => RegEffect::Write(rt_reg, if rs < wrap32(simm) { 1 } else { 0 }),
        AluOp::SLL => RegEffect::Write(rd_reg, rt << sa),
        AluOp::SRL => RegEffect::Write(rd_reg, rt >> sa),
        AluOp::SRA => RegEffect::Write(rd_reg, ((rt as i32) >> sa) as u32),
        AluOp::SLLV => RegEffect::Write(rd_reg, rt << var),
        AluOp::SRLV => RegEffect::Write(rd_reg, rt >> var),
        AluOp::SRAV => RegEffect::Write(rd_reg, ((rt as i32) >> var) as u32),
        AluOp::ADD => checked_signed(rd_reg, as_i32(rs) + as_i32(rt)),
        AluOp::ADDU => RegEffect::Write(rd_reg, wrap32(rs + rt)),
        AluOp::SUB => checked_signed(rd_reg, as_i32(rs) - as_i32(rt)),
        AluOp::SUBU => RegEffect::Write(rd_reg, wrap32(rs - rt)),
        AluOp::AND => RegEffect::Write(rd_reg, rs & rt),
        AluOp::OR => RegEffect::Write(rd_reg, rs | rt),
        AluOp::XOR => RegEffect::Write(rd_reg, rs ^ rt),
        AluOp::NOR => RegEffect::Write(rd_reg, !(rs | rt)),
        AluOp::SLT => RegEffect::Write(rd_reg, if as_i32(rs) < as_i32(rt) { 1 } else { 0 }),
        AluOp::SLTU => RegEffect::Write(rd_reg, if rs < rt { 1 } else { 0 }),
        AluOp::MULT => {
            let product = as_i32(rs) * as_i32(rt);
            RegEffect::HiLo(wrap32(product / 0x1_0000_0000), wrap32(product))
        },
        AluOp::MULTU => {
            let product = rs * rt;
            RegEffect::HiLo(wrap32(product / 0x1_0000_0000), wrap32(product))
        },
        AluOp::DIV => {
            let (a, b) = (as_i32(rs), as_i32(rt));
            if b == 0 {
                RegEffect::HiLo(rs, if a >= 0 { 0xFFFF_FFFF } else { 1 })
            } else if a == i32::MIN && b == -1 {
                RegEffect::HiLo(0, 0x8000_0000)
            } else {
                RegEffect::HiLo(wrap32(trunc_rem(a, b)), wrap32(trunc_div(a, b)))
            }
        },
        AluOp::DIVU => if rt == 0 {
            RegEffect::HiLo(rs, 0xFFFF_FFFF)
        } else {
            RegEffect::HiLo(rs % rt, rs / rt)
        },
        AluOp::MFHI => RegEffect::Write(rd_reg, regs.hi()),
        AluOp::MFLO => RegEffect::Write(rd_reg, regs.lo()),
        AluOp::MTHI => RegEffect::HiLo(rs, regs.lo()),
        AluOp::MTLO => RegEffect::HiLo(regs.hi(), rs),
    }
}

/// The arithmetic, logic and move operations.
#[derive(Debug, Clone, Copy, PartialEq, Eq, Structural)]
pub enum AluOp {
    LUI,
    ORI,
    ANDI,
    XORI,
    ADDIU,
    ADDI,
    SLTI,
    SLTIU,
    SLL,
    SRL,
    SRA,
    SLLV,
    SRLV,
    SRAV,
    ADD,
    ADDU,
    SUB,
    SUBU,
    AND,
    OR,
    XOR,
    NOR,
    SLT,
    SLTU,
    MULT,
    MULTU,
    DIV,
    DIVU,
    MFHI,
    MFLO,
    MTHI,
    MTLO,
}

/// Divides two signed 32 bit values the way the hardware does: `(HI, LO)` is the remainder and
/// quotient, with the results the hardware gives for a zero divisor and for the one overflowing
/// quotient.
pub fn signed_div(a: i32, b: i32) -> (r: (u32, u32))
    ensures
        b == 0 ==> r == (wrap32(a as int), if a >= 0 { 0xFFFF_FFFFu32 } else { 1u32 }),
        b != 0 && a == i32::MIN && b == -1 ==> r == (0u32, 0x8000_0000u32),
        b != 0 && !(a == i32::MIN && b == -1) ==> r == (
            wrap32(trunc_rem(a as int, b as int)),
            wrap32(trunc_div(a as int, b as int)),
        ),
{
    if b == 0 {
        let rem = to_bits(a as i64);
        (rem, if a >= 0 { 0xFFFF_FFFF } else { 1 })
    } else if a == i32::MIN && b == -1 {
        (0, 0x8000_0000)
    } else {
        let (ua, ub) = (if a < 0 { -(a as i64) } else { a as i64 }, if b < 0 { -(b as i64) } else { b as i64 });
        let q = ua / ub;
        let quotient: i64 = if (a < 0) == (b < 0) { q } else { -q };
        proof {
            assert(0 <= q <= ua) by (nonlinear_arith)
                requires q == ua / ub, ua >= 0, ub >= 1;
            assert(quotient == trunc_div(a as int, b as int));
            assert(-0x8000_0000 <= quotient <= 0x8000_0000);
            assert(b * quotient >= -0x4000_0000_0000_0000 && b * quotient <= 0x4000_0000_0000_0000) by (nonlinear_arith)
                requires -0x8000_0000 <= b <= 0x8000_0000, -0x8000_0000 <= quotient <= 0x8000_0000;
        }
        let rem: i64 = a as i64 - b as i64 * quotient;
        proof {
            vstd::arithmetic::div_mod::lemma_fundamental_div_mod(ua as int, ub as int);
            assert(-0x8000_0000 < rem < 0x8000_0000) by (nonlinear_arith)
                requires
                    rem == a - b * quotient,
                    ua == (if a < 0 { -a } else { a as int }),
                    ub == (if b < 0 { -b } else { b as int }),
                    ub >= 1,
                    q == ua / ub,
                    ua == ub * q + ua % ub,
                    0 <= ua % ub < ub,
                    quotient == (if (a < 0) == (b < 0) { q as int } else { -q }),
                    ub <= 0x8000_0000;
        }
        (to_bits(rem), to_bits(quotient))
    }
}

/// Whether `nregs`, `ni` and `r` are what executing `instr` on `oregs`, `oi` gives: its cycles,
/// its effect on the registers and the pending load, and what it leaves to the rest of the
/// machine.
pub open spec fn executed(
    oregs: Registers,
    nregs: Registers,
    oi: Interpreter,
    ni: Interpreter,
    instr: Instruction,
    r: (u64, Outcome),
) -> bool {
    &&& r.0 == class_cycles(spec_class(instr))
    &&& ni.current_addr == oi.current_addr
    &&& ni.delay_slot == oi.delay_slot
    &&& ni.load_delay_slot == oi.load_delay_slot
    &&& match spec_class(instr) {
        Class::Alu(op) => {
            &&& effect_applied(
                oregs,
                nregs,
                oi.pending_load,
                ni.pending_load,
                spec_reg_effect(op, instr, oregs),
            )
            &&& r.1 == match spec_reg_effect(op, instr, oregs) {
                RegEffect::Raise(e) => Outcome::Raise(e),
                _ => Outcome::Done,
            }
        },
        Class::Jump(op) => {
            &&& jump_applied(
                oregs,
                nregs,
                oi.pending_load,
                ni.pending_load,
                spec_jump_effect(op, instr, oregs, oi.delay_slot.0),
            )
            &&& r.1 == Outcome::Done
        },
        Class::Load(kind) => {
            &&& nregs == oregs
            &&& ni.pending_load == oi.pending_load
            &&& r.1 == Outcome::Read(
                MemRead {
                    addr: spec_mem_addr(instr, oregs),
                    kind,
                    reg: instr.spec_rt(),
                    merge_with: merge_base(
                        oi.pending_load,
                        instr.spec_rt(),
                        oregs,
                    ),
                },
            )
        },
        Class::Store(width) => {
            &&& nregs == oregs
            &&& ni.pending_load == oi.pending_load
            &&& r.1 == Outcome::Write(
                MemWrite {
                    addr: spec_mem_addr(instr, oregs),
                    value: rt_of(instr, oregs),
                    width,
                },
            )
        },
        Class::Trap(e) => {
            &&& nregs == oregs
            &&& ni.pending_load == oi.pending_load
            &&& r.1 == Outcome::Raise(e)
        },
        Class::Machine(_) => {
            &&& nregs == oregs
            &&& ni.pending_load == oi.pending_load
            &&& r.1 == Outcome::Machine
        },
        Class::Nothing => {
            &&& nregs == oregs
            &&& ni.pending_load == oi.pending_load
            &&& r.1 == Outcome::Done
        },
    }
}

impl Interpreter {
    /// Cancels a pending load to the given register, if it exists.
    pub fn cancel_load(&mut self, reg: Reg)
        ensures
            final(self).pending_load == cancelled(old(self).pending_load, reg),
            final(self).current_addr == old(self).current_addr,
            final(self).delay_slot == old(self).delay_slot,
            final(self).load_delay_slot == old(self).load_delay_slot,
    {
        if let Some(load) = self.pending_load {
            if load.reg == reg {
                self.pending_load = None;
            }
        }
    }

    /// Writes `value` to `reg`, cancelling a pending load to it.
    fn write_result(&mut self, regs: &mut Registers, reg: Reg, value: u32)
        ensures
            effect_applied(
                *old(regs),
                *final(regs),
                old(self).pending_load,
                final(self).pending_load,
                RegEffect::Write(reg, value),
            ),
            final(self).current_addr == old(self).current_addr,
            final(self).delay_slot == old(self).delay_slot,
            final(self).load_delay_slot == old(self).load_delay_slot,
    {
        regs.write(reg, value);
        self.cancel_load(reg);
    }

    /// Applies a register effect, and gives back the exception it raises, if any.
    fn apply(&mut self, regs: &mut Registers, effect: RegEffect) -> (r: Option<Exception>)
        ensures
            effect_applied(
                *old(regs),
                *final(regs),
                old(self).pending_load,
                final(self).pending_load,
                effect,
            ),
            r == (match effect {
                RegEffect::Raise(e) => Some(e),
                _ => None,
            }),
            final(self).current_addr == old(self).current_addr,
            final(self).delay_slot == old(self).delay_slot,
            final(self).load_delay_slot == old(self).load_delay_slot,
    {
        match effect {
            RegEffect::Write(reg, value) => {
                self.write_result(regs, reg, value);
                None
            },
            RegEffect::HiLo(hi, lo) => {
                regs.write_hi(hi);
                regs.write_lo(lo);
                None
            },
            RegEffect::Raise(e) => Some(e),
        }
    }

    /// Computes what `LUI` does to the registers.
    pub fn lui(instr: Instruction, regs: &Registers) -> (r: RegEffect)
        ensures
            r == spec_reg_effect(AluOp::LUI, instr, *regs),
    {
        let rt_reg = instr.rt();
        let imm = instr.imm16() as u32;
        assert(imm < 0x1_0000);
        RegEffect::Write(rt_reg, imm * 0x1_0000)
    }

    /// Computes what `ORI` does to the registers.
    pub fn ori(instr: Instruction, regs: &Registers) -> (r: RegEffect)
        ensures
            r == spec_reg_effect(AluOp::ORI, instr, *regs),
    {
        let rs = regs.read(instr.rs());
        let rt_reg = instr.rt();
        let imm = instr.imm16() as u32;
        RegEffect::Write(rt_reg, rs | imm)
    }

    /// Computes what `ANDI` does to the registers.
    pub fn andi(instr: Instruction, regs: &Registers) -> (r: RegEffect)
        ensures
            r == spec_reg_effect(AluOp::ANDI, instr, *regs),
    {
        let rs = regs.read(instr.rs());
        let rt_reg = instr.rt();
        let imm = instr.imm16() as u32;
        RegEffect::Write(rt_reg, rs & imm)
    }

    /// Computes what `XORI` does to the registers.
    pub fn xori(instr: Instruction, regs: &Registers) -> (r: RegEffect)
        ensures
            r == spec_reg_effect(AluOp::XORI, instr, *regs),
    {
        let rs = regs.read(instr.rs());
        let rt_reg = instr.rt();
        let imm = instr.imm16() as u32;
        RegEffect::Write(rt_reg, rs ^ imm)
    }

    /// Computes what `ADDIU` does to the registers.
    pub fn addiu(instr: Instruction, regs: &Registers) -> (r: RegEffect)
        ensures
            r == spec_reg_effect(AluOp::ADDIU, instr, *regs),
    {
        let rs = regs.read(instr.rs());
        let rt_reg = instr.rt();
        let simm = instr.signed_imm16() as i64;
        RegEffect::Write(rt_reg, rs.wrapping_add_signed(simm as i32))
    }

    /// Computes what `ADDI` does to the registers.
    pub fn addi(instr: Instruction, regs: &Registers) -> (r: RegEffect)
        ensures
            r == spec_reg_effect(AluOp::ADDI, instr, *regs),
    {
        let rs = regs.read(instr.rs());
        let rt_reg = instr.rt();
        let simm = instr.signed_imm16() as i64;
        let sum = as_signed(rs) as i64 + simm;
        if i32::MIN as i64 <= sum && sum <= i32::MAX as i64 {
            RegEffect::Write(rt_reg, to_bits(sum))
        } else {
            RegEffect::Raise(Exception::ArithmeticOverflow)
        }
    }

    /// Computes what `SLTI` does to the registers.
    pub fn slti(instr: Instruction, regs: &Registers) -> (r: RegEffect)
        ensures
            r == spec_reg_effect(AluOp::SLTI, instr, *regs),
    {
        let rs = regs.read(instr.rs());
        let rt_reg = instr.rt();
        let simm = instr.signed_imm16() as i64;
        RegEffect::Write(
        rt_reg,
        if (as_signed(rs) as i64) < simm {
            1
        } else {
            0
        },
    )
    }

    /// Computes what `SLTIU` does to the registers.
    pub fn sltiu(instr: Instruction, regs: &Registers) -> (r: RegEffect)
        ensures
            r == spec_reg_effect(AluOp::SLTIU, instr, *regs),
    {
        let rs = regs.read(instr.rs());
        let rt_reg = instr.rt();
        let simm = instr.signed_imm16() as i64;
        RegEffect::Write(
        rt_reg,
        if rs < to_bits(simm) {
            1
        } else {
            0
        },
    )
    }

    /// Computes what `SLL` does to the registers.
    pub fn sll(instr: Instruction, regs: &Registers) -> (r: RegEffect)
        ensures
            r == spec_reg_effect(AluOp::SLL, instr, *regs),
    {
        let rt = regs.read(instr.rt());
        let rd_reg = instr.rd();
        let sa = instr.imm5();
        RegEffect::Write(rd_reg, rt << sa)
    }

    /// Computes what `SRL` does to the registers.
    pub fn srl(instr: Instruction, regs: &Registers) -> (r: RegEffect)
        ensures
            r == spec_reg_effect(AluOp::SRL, instr, *regs),
    {
        let rt = regs.read(instr.rt());
        let rd_reg = instr.rd();
        let sa = instr.imm5();
        RegEffect::Write(rd_reg, rt >> sa)
    }

    /// Computes what `SRA` does to the registers.
    pub fn sra(instr: Instruction, regs: &Registers) -> (r: RegEffect)
        ensures
            r == spec_reg_effect(AluOp::SRA, instr, *regs),
    {
        let rt = regs.read(instr.rt());
        let rd_reg = instr.rd();
        let sa = instr.imm5();
        RegEffect::Write(rd_reg, ((rt as i32) >> sa) as u32)
    }

    /// Computes what `SLLV` does to the registers.
    pub fn sllv(instr: Instruction, regs: &Registers) -> (r: RegEffect)
        ensures
            r == spec_reg_effect(AluOp::SLLV, instr, *regs),
    {
        let rs = regs.read(instr.rs());
        let rt = regs.read(instr.rt());
        let rd_reg = instr.rd();
        let var = rs % 32;
        RegEffect::Write(rd_reg, rt << var)
    }

    /// Computes what `SRLV` does to the registers.
    pub fn srlv(instr: Instruction, regs: &Registers) -> (r: RegEffect)
        ensures
            r == spec_reg_effect(AluOp::SRLV, instr, *regs),
    {
        let rs = regs.read(instr.rs());
        let rt = regs.read(instr.rt());
        let rd_reg = instr.rd();
        let var = rs % 32;
        RegEffect::Write(rd_reg, rt >> var)
    }

    /// Computes what `SRAV` does to the registers.
    pub fn srav(instr: Instruction, regs: &Registers) -> (r: RegEffect)
        ensures
            r == spec_reg_effect(AluOp::SRAV, instr, *regs),
    {
        let rs = regs.read(instr.rs());
        let rt = regs.read(instr.rt());
        let rd_reg = instr.rd();
        let var = rs % 32;
        RegEffect::Write(rd_reg, ((rt as i32) >> var) as u32)
    }

    /// Computes what `ADD` does to the registers.
    pub fn add(instr: Instruction, regs: &Registers) -> (r: RegEffect)
        ensures
            r == spec_reg_effect(AluOp::ADD, instr, *regs),
    {
        let rs = regs.read(instr.rs());
        let rt = regs.read(instr.rt());
        let rd_reg = instr.rd();
        let sum = as_signed(rs) as i64 + as_signed(rt) as i64;
        if i32::MIN as i64 <= sum && sum <= i32::MAX as i64 {
            RegEffect::Write(rd_reg, to_bits(sum))
        } else {
            RegEffect::Raise(Exception::ArithmeticOverflow)
        }
    }

    /// Computes what `ADDU` does to the registers.
    pub fn addu(instr: Instruction, regs: &Registers) -> (r: RegEffect)
        ensures
            r == spec_reg_effect(AluOp::ADDU, instr, *regs),
    {
        let rs = regs.read(instr.rs());
        let rt = regs.read(instr.rt());
        let rd_reg = instr.rd();
        RegEffect::Write(rd_reg, rs.wrapping_add(rt))
    }

    /// Computes what `SUB` does to the registers.
    pub fn sub(instr: Instruction, regs: &Registers) -> (r: RegEffect)
        ensures
            r == spec_reg_effect(AluOp::SUB, instr, *regs),
    {
        let rs = regs.read(instr.rs());
        let rt = regs.read(instr.rt());
        let rd_reg = instr.rd();
        let diff = as_signed(rs) as i64 - as_signed(rt) as i64;
        if i32::MIN as i64 <= diff && diff <= i32::MAX as i64 {
            RegEffect::Write(rd_reg, to_bits(diff))
        } else {
            RegEffect::Raise(Exception::ArithmeticOverflow)
        }
    }

    /// Computes what `SUBU` does to the registers.
    pub fn subu(instr: Instruction, regs: &Registers) -> (r: RegEffect)
        ensures
            r == spec_reg_effect(AluOp::SUBU, instr, *regs),
    {
        let rs = regs.read(instr.rs());
        let rt = regs.read(instr.rt());
        let rd_reg = instr.rd();
        RegEffect::Write(rd_reg, rs.wrapping_sub(rt))
    }

    /// Computes what `AND` does to the registers.
    pub fn and(instr: Instruction, regs: &Registers) -> (r: RegEffect)
        ensures
            r == spec_reg_effect(AluOp::AND, instr, *regs),
    {
        let rs = regs.read(instr.rs());
        let rt = regs.read(instr.rt());
        let rd_reg = instr.rd();
        RegEffect::Write(rd_reg, rs & rt)
    }

    /// Computes what `OR` does to the registers.
    pub fn or(instr: Instruction, regs: &Registers) -> (r: RegEffect)
        ensures
            r == spec_reg_effect(AluOp::OR, instr, *regs),
    {
        let rs = regs.read(instr.rs());
        let rt = regs.read(instr.rt());
        let rd_reg = instr.rd();
        RegEffect::Write(rd_reg, rs | rt)
    }

    /// Computes what `XOR` does to the registers.
    pub fn xor(instr: Instruction, regs: &Registers) -> (r: RegEffect)
        ensures
            r == spec_reg_effect(AluOp::XOR, instr, *regs),
    {
        let rs = regs.read(instr.rs());
        let rt = regs.read(instr.rt());
        let rd_reg = instr.rd();
        RegEffect::Write(rd_reg, rs ^ rt)
    }

    /// Computes what `NOR` does to the registers.
    pub fn nor(instr: Instruction, regs: &Registers) -> (r: RegEffect)
        ensures
            r == spec_reg_effect(AluOp::NOR, instr, *regs),
    {
        let rs = regs.read(instr.rs());
        let rt = regs.read(instr.rt());
        let rd_reg = instr.rd();
        RegEffect::Write(rd_reg, !(rs | rt))
    }

    /// Computes what `SLT` does to the registers.
    pub fn slt(instr: Instruction, regs: &Registers) -> (r: RegEffect)
        ensures
            r == spec_reg_effect(AluOp::SLT, instr, *regs),
    {
        let rs = regs.read(instr.rs());
        let rt = regs.read(instr.rt());
        let rd_reg = instr.rd();
        RegEffect::Write(
        rd_reg,
        if as_signed(rs) < as_signed(rt) {
            1
        } else {
            0
        },
    )
    }

    /// Computes what `SLTU` does to the registers.
    pub fn sltu(instr: Instruction, regs: &Registers) -> (r: RegEffect)
        ensures
            r == spec_reg_effect(AluOp::SLTU, instr, *regs),
    {
        let rs = regs.read(instr.rs());
        let rt = regs.read(instr.rt());
        let rd_reg = instr.rd();
        RegEffect::Write(
        rd_reg,
        if rs < rt {
            1
        } else {
            0
        },
    )
    }

    /// Computes what `MULT` does to the registers.
    pub fn mult(instr: Instruction, regs: &Registers) -> (r: RegEffect)
        ensures
            r == spec_reg_effect(AluOp::MULT, instr, *regs),
    {
        let rs = regs.read(instr.rs());
        let rt = regs.read(instr.rt());
        let (a, b) = (as_signed(rs) as i64, as_signed(rt) as i64);
        proof {
            assert(-0x4000_0000_0000_0000 <= a * b <= 0x4000_0000_0000_0000) by (nonlinear_arith)
                requires -0x8000_0000 <= a <= 0x8000_0000, -0x8000_0000 <= b <= 0x8000_0000;
        }
        let product = a * b;
        let shifted = (product as i128 + 0x4000_0000_0000_0000) as u128;
        let high = (shifted / 0x1_0000_0000) as i64 - 0x4000_0000;
        let low = (shifted % 0x1_0000_0000) as i64;
        proof {
            let p = product as int;
            assert(shifted as int == p + 0x4000_0000_0000_0000);
            assert(high == p / 0x1_0000_0000);
            assert(low == p % 0x1_0000_0000);
            assert(wrap32(low as int) == wrap32(p));
        }
        RegEffect::HiLo(to_bits(high), to_bits(low))
    }

    /// Computes what `MULTU` does to the registers.
    pub fn multu(instr: Instruction, regs: &Registers) -> (r: RegEffect)
        ensures
            r == spec_reg_effect(AluOp::MULTU, instr, *regs),
    {
        let rs = regs.read(instr.rs());
        let rt = regs.read(instr.rt());
        proof {
            assert(rs as u64 * rt as u64 <= 0xFFFF_FFFF * 0xFFFF_FFFF) by (nonlinear_arith)
                requires rs <= 0xFFFF_FFFF, rt <= 0xFFFF_FFFF;
        }
        let product = rs as u64 * rt as u64;
        RegEffect::HiLo((product / 0x1_0000_0000) as u32, (product % 0x1_0000_0000) as u32)
    }

    /// Computes what `DIV` does to the registers.
    pub fn div(instr: Instruction, regs: &Registers) -> (r: RegEffect)
        ensures
            r == spec_reg_effect(AluOp::DIV, instr, *regs),
    {
        let rs = regs.read(instr.rs());
        let rt = regs.read(instr.rt());
        let (hi, lo) = signed_div(as_signed(rs), as_signed(rt));
        assert(wrap32(as_i32(rs)) == rs);
        RegEffect::HiLo(hi, lo)
    }

    /// Computes what `DIVU` does to the registers.
    pub fn divu(instr: Instruction, regs: &Registers) -> (r: RegEffect)
        ensures
            r == spec_reg_effect(AluOp::DIVU, instr, *regs),
    {
        let rs = regs.read(instr.rs());
        let rt = regs.read(instr.rt());
        if rt == 0 {
        RegEffect::HiLo(rs, 0xFFFF_FFFF)
    } else {
        RegEffect::HiLo(rs % rt, rs / rt)
    }
    }

    /// Computes what `MFHI` does to the registers.
    pub fn mfhi(instr: Instruction, regs: &Registers) -> (r: RegEffect)
        ensures
            r == spec_reg_effect(AluOp::MFHI, instr, *regs),
    {
        let rd_reg = instr.rd();
        RegEffect::Write(rd_reg, regs.read_hi())
    }

    /// Computes what `MFLO` does to the registers.
    pub fn mflo(instr: Instruction, regs: &Registers) -> (r: RegEffect)
        ensures
            r == spec_reg_effect(AluOp::MFLO, instr, *regs),
    {
        let rd_reg = instr.rd();
        RegEffect::Write(rd_reg, regs.read_lo())
    }

    /// Computes what `MTHI` does to the registers.
    pub fn mthi(instr: Instruction, regs: &Registers) -> (r: RegEffect)
        ensures
            r == spec_reg_effect(AluOp::MTHI, instr, *regs),
    {
        let rs = regs.read(instr.rs());
        RegEffect::HiLo(rs, regs.read_lo())
    }

    /// Computes what `MTLO` does to the registers.
    pub fn mtlo(instr: Instruction, regs: &Registers) -> (r: RegEffect)
        ensures
            r == spec_reg_effect(AluOp::MTLO, instr, *regs),
    {
        let rs = regs.read(instr.rs());
        RegEffect::HiLo(regs.read_hi(), rs)
    }

    /// Computes what an arithmetic, logic or move instruction does to the registers.
    pub fn reg_effect(op: AluOp, instr: Instruction, regs: &Registers) -> (r: RegEffect)
        ensures
            r == spec_reg_effect(op, instr, *regs),
    {
        match op {
            AluOp::LUI => Self::lui(instr, regs),
            AluOp::ORI => Self::ori(instr, regs),
            AluOp::ANDI => Self::andi(instr, regs),
            AluOp::XORI => Self::xori(instr, regs),
            AluOp::ADDIU => Self::addiu(instr, regs),
            AluOp::ADDI => Self::addi(instr, regs),
            AluOp::SLTI => Self::slti(instr, regs),
            AluOp::SLTIU => Self::sltiu(instr, regs),
            AluOp::SLL => Self::sll(instr, regs),
            AluOp::SRL => Self::srl(instr, regs),
            AluOp::SRA => Self::sra(instr, regs),
            AluOp::SLLV => Self::sllv(instr, regs),
            AluOp::SRLV => Self::srlv(instr, regs),
            AluOp::SRAV => Self::srav(instr, regs),
            AluOp::ADD => Self::add(instr, regs),
            AluOp::ADDU => Self::addu(instr, regs),
            AluOp::SUB => Self::sub(instr, regs),
            AluOp::SUBU => Self::subu(instr, regs),
            AluOp::AND => Self::and(instr, regs),
            AluOp::OR => Self::or(instr, regs),
            AluOp::XOR => Self::xor(instr, regs),
            AluOp::NOR => Self::nor(instr, regs),
            AluOp::SLT => Self::slt(instr, regs),
            AluOp::SLTU => Self::sltu(instr, regs),
            AluOp::MULT => Self::mult(instr, regs),
            AluOp::MULTU => Self::multu(instr, regs),
            AluOp::DIV => Self::div(instr, regs),
            AluOp::DIVU => Self::divu(instr, regs),
            AluOp::MFHI => Self::mfhi(instr, regs),
            AluOp::MFLO => Self::mflo(instr, regs),
            AluOp::MTHI => Self::mthi(instr, regs),
            AluOp::MTLO => Self::mtlo(instr, regs),
        }
    }

    /// Executes an arithmetic, logic or move instruction, and gives back the exception it raises,
    /// if any.
    pub fn exec_alu(&mut self, regs: &mut Registers, op: AluOp, instr: Instruction) -> (r: Option<
        Exception,
    >)
        ensures
            effect_applied(
                *old(regs),
                *final(regs),
                old(self).pending_load,
                final(self).pending_load,
                spec_reg_effect(op, instr, *old(regs)),
            ),
            r == (match spec_reg_effect(op, instr, *old(regs)) {
                RegEffect::Raise(e) => Some(e),
                _ => None,
            }),
            final(self).current_addr == old(self).current_addr,
            final(self).delay_slot == old(self).delay_slot,
            final(self).load_delay_slot == old(self).load_delay_slot,
    {
        let effect = Self::reg_effect(op, instr, regs);
        self.apply(regs, effect)
    }
}

/// The jump and branch operations.
#[derive(Debug, Clone, Copy, PartialEq, Eq, Structural)]
pub enum JumpOp {
    JMP,
    JAL,
    JR,
    JALR,
    BEQ,
    BNE,
    BGTZ,
    BLEZ,
    BZ,
}

/// What a jump or branch does: the register that takes the return address, if it links (and
/// whether that cancels a pending load to it), and the new program counter, if it jumps.
#[derive(Debug, Clone, Copy, PartialEq, Eq, Structural)]
pub struct JumpEffect {
    pub link: Option<Reg>,
    pub cancels_load: bool,
    pub target: Option<u32>,
}

/// The target of a jump within the 256 MiB region of the delay slot.
pub open spec fn jump_target(delay_slot: u32, instr: Instruction) -> u32 {
    ((delay_slot / 0x1000_0000) * 0x1000_0000 + instr.spec_imm26() * 4) as u32
}

/// The target of a branch: the delay slot plus the offset, which is the immediate times four
/// kept to 16 bits.
pub open spec fn branch_target(delay_slot: u32, instr: Instruction) -> u32 {
    wrap32(delay_slot + (((simm_of(instr) * 4) as i16) as int))
}

/// What a jump or branch instruction does.
pub open spec fn spec_jump_effect(
    op: JumpOp,
    instr: Instruction,
    regs: Registers,
    delay_slot: u32,
) -> JumpEffect {
    let rs = rs_of(instr, regs);
    let rt = rt_of(instr, regs);
    let branch = branch_target(delay_slot, instr);
    let taken = |cond: bool| if cond { Some(branch) } else { None };
    match op {
        JumpOp::JMP => JumpEffect {
            link: None,
            cancels_load: false,
            target: Some(jump_target(delay_slot, instr)),
        },
        JumpOp::JAL => JumpEffect {
            link: Some(Reg::R31),
            cancels_load: true,
            target: Some(jump_target(delay_slot, instr)),
        },
        JumpOp::JR => JumpEffect { link: None, cancels_load: false, target: Some(rs) },
        JumpOp::JALR => JumpEffect {
            link: Some(instr.spec_rd()),
            cancels_load: true,
            target: Some(rs),
        },
        JumpOp::BEQ => JumpEffect { link: None, cancels_load: false, target: taken(rs == rt) },
        JumpOp::BNE => JumpEffect { link: None, cancels_load: false, target: taken(rs != rt) },
        JumpOp::BGTZ => JumpEffect {
            link: None,
            cancels_load: false,
            target: taken(as_i32(rs) > 0),
        },
        JumpOp::BLEZ => JumpEffect {
            link: None,
            cancels_load: false,
            target: taken(as_i32(rs) <= 0),
        },
        JumpOp::BZ => {
            let kind = instr.spec_bz_kind();
            let ge = kind == BZKind::BGEZ || kind == BZKind::BGEZAL;
            let links = kind == BZKind::BLTZAL || kind == BZKind::BGEZAL;
            JumpEffect {
                link: if links {
                    Some(Reg::R31)
                } else {
                    None
                },
                cancels_load: false,
                target: taken(if ge {
                    as_i32(rs) >= 0
                } else {
                    as_i32(rs) < 0
                }),
            }
        },
    }
}

/// Whether `new` and `new_load` are `old` and `old_load` after the jump effect `e`: the link
/// register takes the old program counter, and the program counter the target.
pub open spec fn jump_applied(
    old: Registers,
    new: Registers,
    old_load: Option<RegLoad>,
    new_load: Option<RegLoad>,
    e: JumpEffect,
) -> bool {
    &&& new.hi() == old.hi()
    &&& new.lo() == old.lo()
    &&& new.gp() == match e.link {
        Some(reg) => Registers::written(old.gp(), reg, old.pc()),
        None => old.gp(),
    }
    &&& new.pc() == match e.target {
        Some(target) => target,
        None => old.pc(),
    }
    &&& new_load == match e.link {
        Some(reg) => if e.cancels_load {
            cancelled(old_load, reg)
        } else {
            old_load
        },
        None => old_load,
    }
}

/// The address a load or store accesses: the source register plus the signed immediate.
pub open spec fn spec_mem_addr(instr: Instruction, regs: Registers) -> Address {
    Address(wrap32(rs_of(instr, regs) + simm_of(instr)))
}

/// The value the register of a pending or current load holds for a merge: the pending load's
/// value if one targets it, else the register itself.
pub open spec fn merge_base(pending: Option<RegLoad>, reg: Reg, regs: Registers) -> u32 {
    match pending {
        Some(load) => if load.reg == reg {
            load.value
        } else {
            regs.spec_read(reg)
        },
        None => regs.spec_read(reg),
    }
}

/// The number of bytes an unaligned access moves: from the address down to the word boundary
/// for the left variants, from the address up to it for the right ones.
pub open spec fn unaligned_len(addr: u32, left: bool) -> nat {
    if left {
        (addr % 4 + 1) as nat
    } else {
        (4 - addr % 4) as nat
    }
}

/// Byte `i` of `v` counted from the most significant one.
pub open spec fn be_byte(v: u32, i: int) -> u8 {
    ((v as nat / pow256((3 - i) as nat)) % 0x100) as u8
}

/// Byte `i` of `v` counted from the least significant one.
pub open spec fn le_byte(v: u32, i: int) -> u8 {
    ((v as nat / pow256(i as nat)) % 0x100) as u8
}

/// The value of four bytes, most significant first.
pub open spec fn from_be(b: Seq<u8>) -> u32 {
    (b[0] * 0x100_0000 + b[1] * 0x1_0000 + b[2] * 0x100 + b[3]) as u32
}

/// The value of four bytes, least significant first.
pub open spec fn from_le(b: Seq<u8>) -> u32 {
    (b[3] * 0x100_0000 + b[2] * 0x1_0000 + b[1] * 0x100 + b[0]) as u32
}

/// The value an unaligned load gives: for `LWL` the bytes read (from the address down) replace
/// the most significant bytes of `base`, for `LWR` the bytes read (from the address up) replace
/// its least significant ones.
pub open spec fn spec_unaligned_merge(base: u32, bytes: Seq<u8>, left: bool) -> u32 {
    if left {
        from_be(Seq::new(4, |i: int| if i < bytes.len() { bytes[i] } else { be_byte(base, i) }))
    } else {
        from_le(Seq::new(4, |i: int| if i < bytes.len() { bytes[i] } else { le_byte(base, i) }))
    }
}

/// The value a load of `kind` gives for the raw bits read (for the aligned kinds), extended to
/// 32 bits.
pub open spec fn spec_extend(kind: LoadKind, raw: u32) -> u32 {
    match kind {
        LoadKind::Byte => if raw % 0x100 >= 0x80 {
            (raw % 0x100 + 0xFFFF_FF00) as u32
        } else {
            raw % 0x100
        },
        LoadKind::ByteUnsigned => raw % 0x100,
        LoadKind::Half => if raw % 0x1_0000 >= 0x8000 {
            (raw % 0x1_0000 + 0xFFFF_0000) as u32
        } else {
            raw % 0x1_0000
        },
        LoadKind::HalfUnsigned => raw % 0x1_0000,
        _ => raw,
    }
}

/// The bytes an unaligned store writes, with their addresses: for `SWL` the most significant
/// bytes of `value` to the address and down, for `SWR` the least significant ones to the
/// address and up.
pub open spec fn spec_unaligned_store(addr: u32, value: u32, left: bool) -> Seq<(u32, u8)> {
    Seq::new(
        unaligned_len(addr, left),
        |i: int|
            if left {
                ((addr - i) as u32, be_byte(value, i))
            } else {
                ((addr + i) as u32, le_byte(value, i))
            },
    )
}

/// The four bytes of `v`, most significant first.
pub fn be_bytes(v: u32) -> (r: [u8; 4])
    ensures
        forall|i: int| 0 <= i < 4 ==> r@[i] == be_byte(v, i),
        from_be(r@) == v,
{
    proof {
        vstd::arithmetic::power2::lemma2_to64();
    }
    let r = [
        ((v / 0x100_0000) % 0x100) as u8,
        ((v / 0x1_0000) % 0x100) as u8,
        ((v / 0x100) % 0x100) as u8,
        (v % 0x100) as u8,
    ];
    assert(v / 0x100_0000 % 0x100 * 0x100_0000 + v / 0x1_0000 % 0x100 * 0x1_0000 + v / 0x100
        % 0x100 * 0x100 + v % 0x100 == v) by (bit_vector);
    assert forall|i: int| 0 <= i < 4 implies r@[i] == be_byte(v, i) by {
        if i == 0 {
        } else if i == 1 {
        } else if i == 2 {
        } else {
        }
    }
    r
}

/// The four bytes of `v`, least significant first.
pub fn le_bytes(v: u32) -> (r: [u8; 4])
    ensures
        forall|i: int| 0 <= i < 4 ==> r@[i] == le_byte(v, i),
        from_le(r@) == v,
{
    proof {
        vstd::arithmetic::power2::lemma2_to64();
    }
    let r = [
        (v % 0x100) as u8,
        ((v / 0x100) % 0x100) as u8,
        ((v / 0x1_0000) % 0x100) as u8,
        ((v / 0x100_0000) % 0x100) as u8,
    ];
    assert(v / 0x100_0000 % 0x100 * 0x100_0000 + v / 0x1_0000 % 0x100 * 0x1_0000 + v / 0x100
        % 0x100 * 0x100 + v % 0x100 == v) by (bit_vector);
    assert forall|i: int| 0 <= i < 4 implies r@[i] == le_byte(v, i) by {
        if i == 0 {
        } else if i == 1 {
        } else if i == 2 {
        } else {
        }
    }
    r
}

/// Merges the bytes an unaligned load read into `base`.
pub fn unaligned_merge(base: u32, bytes: &[u8], left: bool) -> (r: u32)
    requires
        bytes.len() <= 4,
    ensures
        r == spec_unaligned_merge(base, bytes@, left),
{
    let mut out = if left {
        be_bytes(base)
    } else {
        le_bytes(base)
    };
    let mut i: usize = 0;
    while i < bytes.len()
        invariant
            bytes.len() <= 4,
            i <= bytes.len(),
            forall|j: int|
                0 <= j < 4 ==> #[trigger] out@[j] == if j < i {
                    bytes@[j]
                } else if left {
                    be_byte(base, j)
                } else {
                    le_byte(base, j)
                },
        decreases bytes.len() - i,
    {
        out[i] = bytes[i];
        i += 1;
    }
    if left {
        assert(out@ =~= Seq::new(
            4,
            |j: int|
                if j < bytes@.len() {
                    bytes@[j]
                } else {
                    be_byte(base, j)
                },
        ));
        out[0] as u32 * 0x100_0000 + out[1] as u32 * 0x1_0000 + out[2] as u32 * 0x100 + out[3] as u32
    } else {
        assert(out@ =~= Seq::new(
            4,
            |j: int|
                if j < bytes@.len() {
                    bytes@[j]
                } else {
                    le_byte(base, j)
                },
        ));
        out[3] as u32 * 0x100_0000 + out[2] as u32 * 0x1_0000 + out[1] as u32 * 0x100 + out[0] as u32
    }
}

/// The bytes an unaligned store (`SWL` if `left`, else `SWR`) writes, with their addresses.
pub fn unaligned_store(addr: u32, value: u32, left: bool) -> (r: Vec<(u32, u8)>)
    ensures
        r@ == spec_unaligned_store(addr, value, left),
{
    let bytes = if left {
        be_bytes(value)
    } else {
        le_bytes(value)
    };
    let len: u32 = if left {
        addr % 4 + 1
    } else {
        4 - addr % 4
    };
    let mut out: Vec<(u32, u8)> = Vec::new();
    let mut i: u32 = 0;
    while i < len
        invariant
            len == unaligned_len(addr, left),
            1 <= len <= 4,
            i <= len,
            left ==> i <= addr % 4 + 1,
            forall|j: int| 0 <= j < 4 ==> #[trigger] bytes@[j] == if left {
                be_byte(value, j)
            } else {
                le_byte(value, j)
            },
            out@ =~= spec_unaligned_store(addr, value, left).take(i as int),
        decreases len - i,
    {
        let target = if left {
            addr - i
        } else {
            addr.wrapping_add(i)
        };
        proof {
            if !left {
                assert(addr + i <= 0xFFFF_FFFF);
            }
        }
        out.push((target, bytes[i as usize]));
        i += 1;
    }
    out
}

/// The class of an instruction, which tells what it does.
#[derive(Debug, Clone, Copy, PartialEq, Eq, Structural)]
pub enum Class {
    /// An arithmetic, logic or move instruction.
    Alu(AluOp),
    /// A jump or branch.
    Jump(JumpOp),
    /// A load.
    Load(LoadKind),
    /// A store.
    Store(StoreWidth),
    /// An instruction that raises an exception.
    Trap(Exception),
    /// A coprocessor instruction handled by the rest of the machine, taking the given cycles.
    Machine(u64),
    /// An instruction with no effect (an unknown operation, or one this CPU ignores).
    Nothing,
}

/// The class of `instr`.
pub open spec fn spec_class(instr: Instruction) -> Class {
    match instr.spec_op() {
        None => Class::Nothing,
        Some(op) => match op {
            Opcode::LUI => Class::Alu(AluOp::LUI),
            Opcode::ORI => Class::Alu(AluOp::ORI),
            Opcode::ANDI => Class::Alu(AluOp::ANDI),
            Opcode::XORI => Class::Alu(AluOp::XORI),
            Opcode::ADDIU => Class::Alu(AluOp::ADDIU),
            Opcode::ADDI => Class::Alu(AluOp::ADDI),
            Opcode::SLTI => Class::Alu(AluOp::SLTI),
            Opcode::SLTIU => Class::Alu(AluOp::SLTIU),
            Opcode::JMP => Class::Jump(JumpOp::JMP),
            Opcode::JAL => Class::Jump(JumpOp::JAL),
            Opcode::BEQ => Class::Jump(JumpOp::BEQ),
            Opcode::BNE => Class::Jump(JumpOp::BNE),
            Opcode::BGTZ => Class::Jump(JumpOp::BGTZ),
            Opcode::BLEZ => Class::Jump(JumpOp::BLEZ),
            Opcode::BZ => Class::Jump(JumpOp::BZ),
            Opcode::LB => Class::Load(LoadKind::Byte),
            Opcode::LBU => Class::Load(LoadKind::ByteUnsigned),
            Opcode::LH => Class::Load(LoadKind::Half),
            Opcode::LHU => Class::Load(LoadKind::HalfUnsigned),
            Opcode::LW => Class::Load(LoadKind::Word),
            Opcode::LWL => Class::Load(LoadKind::WordLeft),
            Opcode::LWR => Class::Load(LoadKind::WordRight),
            Opcode::SB => Class::Store(StoreWidth::Byte),
            Opcode::SH => Class::Store(StoreWidth::Half),
            Opcode::SW => Class::Store(StoreWidth::Word),
            Opcode::SWL => Class::Store(StoreWidth::WordLeft),
            Opcode::SWR => Class::Store(StoreWidth::WordRight),
            Opcode::COP0 | Opcode::COP1 | Opcode::COP3 => match instr.spec_cop_op() {
                Some(_) => Class::Machine(DEFAULT_DELAY),
                None => Class::Nothing,
            },
            Opcode::SWC0 | Opcode::SWC1 | Opcode::SWC2 | Opcode::SWC3 => Class::Machine(
                MEMORY_OP_DELAY,
            ),
            Opcode::SPECIAL => match instr.spec_special_op() {
                None => Class::Nothing,
                Some(sop) => match sop {
                    SpecialOpcode::SLL => Class::Alu(AluOp::SLL),
                    SpecialOpcode::SRL => Class::Alu(AluOp::SRL),
                    SpecialOpcode::SRA => Class::Alu(AluOp::SRA),
                    SpecialOpcode::SLLV => Class::Alu(AluOp::SLLV),
                    SpecialOpcode::SRLV => Class::Alu(AluOp::SRLV),
                    SpecialOpcode::SRAV => Class::Alu(AluOp::SRAV),
                    SpecialOpcode::JR => Class::Jump(JumpOp::JR),
                    SpecialOpcode::JALR => Class::Jump(JumpOp::JALR),
                    SpecialOpcode::SYSCALL => Class::Trap(Exception::Syscall),
                    SpecialOpcode::BREAK => Class::Trap(Exception::Breakpoint),
                    SpecialOpcode::MFHI => Class::Alu(AluOp::MFHI),
                    SpecialOpcode::MTHI => Class::Alu(AluOp::MTHI),
                    SpecialOpcode::MFLO => Class::Alu(AluOp::MFLO),
                    SpecialOpcode::MTLO => Class::Alu(AluOp::MTLO),
                    SpecialOpcode::MULT => Class::Alu(AluOp::MULT),
                    SpecialOpcode::MULTU => Class::Alu(AluOp::MULTU),
                    SpecialOpcode::DIV => Class::Alu(AluOp::DIV),
                    SpecialOpcode::DIVU => Class::Alu(AluOp::DIVU),
                    SpecialOpcode::ADD => Class::Alu(AluOp::ADD),
                    SpecialOpcode::ADDU => Class::Alu(AluOp::ADDU),
                    SpecialOpcode::SUB => Class::Alu(AluOp::SUB),
                    SpecialOpcode::SUBU => Class::Alu(AluOp::SUBU),
                    SpecialOpcode::AND => Class::Alu(AluOp::AND),
                    SpecialOpcode::OR => Class::Alu(AluOp::OR),
                    SpecialOpcode::XOR => Class::Alu(AluOp::XOR),
                    SpecialOpcode::NOR => Class::Alu(AluOp::NOR),
                    SpecialOpcode::SLT => Class::Alu(AluOp::SLT),
                    SpecialOpcode::SLTU => Class::Alu(AluOp::SLTU),
                },
            },
            _ => Class::Nothing,
        },
    }
}

/// The cycles an instruction of the given class takes.
pub open spec fn class_cycles(class: Class) -> u64 {
    match class {
        Class::Load(_) | Class::Store(_) => MEMORY_OP_DELAY,
        Class::Machine(cycles) => cycles,
        _ => DEFAULT_DELAY,
    }
}

impl Interpreter {
    /// Computes what a jump or branch does.
    pub fn jump_effect(&self, op: JumpOp, instr: Instruction, regs: &Registers) -> (r: JumpEffect)
        ensures
            r == spec_jump_effect(op, instr, *regs, self.delay_slot.0),
    {
        let rs = regs.read(instr.rs());
        let rt = regs.read(instr.rt());
        let delay = self.delay_slot.value();
        let jump = (delay / 0x1000_0000) * 0x1000_0000 + instr.imm26() * 4;
        let offset = ((instr.signed_imm16() as i32 * 4) as i16) as i32;
        let branch = delay.wrapping_add_signed(offset);
        let taken = |cond: bool| -> (t: Option<u32>)
            ensures
                t == (if cond {
                    Some(branch)
                } else {
                    None
                }),
            {
                if cond {
                    Some(branch)
                } else {
                    None
                }
            };
        match op {
            JumpOp::JMP => JumpEffect { link: None, cancels_load: false, target: Some(jump) },
            JumpOp::JAL => JumpEffect { link: Some(Reg::R31), cancels_load: true, target: Some(jump) },
            JumpOp::JR => JumpEffect { link: None, cancels_load: false, target: Some(rs) },
            JumpOp::JALR => JumpEffect { link: Some(instr.rd()), cancels_load: true, target: Some(rs) },
            JumpOp::BEQ => JumpEffect { link: None, cancels_load: false, target: taken(rs == rt) },
            JumpOp::BNE => JumpEffect { link: None, cancels_load: false, target: taken(rs != rt) },
            JumpOp::BGTZ => JumpEffect {
                link: None,
                cancels_load: false,
                target: taken(as_signed(rs) > 0),
            },
            JumpOp::BLEZ => JumpEffect {
                link: None,
                cancels_load: false,
                target: taken(as_signed(rs) <= 0),
            },
            JumpOp::BZ => {
                let kind = instr.bz_kind();
                let ge = kind == BZKind::BGEZ || kind == BZKind::BGEZAL;
                let links = kind == BZKind::BLTZAL || kind == BZKind::BGEZAL;
                let signed = as_signed(rs);
                JumpEffect {
                    link: if links {
                        Some(Reg::R31)
                    } else {
                        None
                    },
                    cancels_load: false,
                    target: taken(
                        if ge {
                            signed >= 0
                        } else {
                            signed < 0
                        },
                    ),
                }
            },
        }
    }

    /// Executes a jump or branch.
    pub fn exec_jump(&mut self, regs: &mut Registers, op: JumpOp, instr: Instruction)
        ensures
            jump_applied(
                *old(regs),
                *final(regs),
                old(self).pending_load,
                final(self).pending_load,
                spec_jump_effect(op, instr, *old(regs), old(self).delay_slot.0),
            ),
            final(self).current_addr == old(self).current_addr,
            final(self).delay_slot == old(self).delay_slot,
            final(self).load_delay_slot == old(self).load_delay_slot,
    {
        let effect = self.jump_effect(op, instr, regs);
        if let Some(reg) = effect.link {
            let pc = regs.read_pc();
            regs.write(reg, pc);
            if effect.cancels_load {
                self.cancel_load(reg);
            }
        }
        if let Some(target) = effect.target {
            regs.write_pc(target);
        }
    }

    /// Computes the address a load or store accesses.
    pub fn mem_addr(instr: Instruction, regs: &Registers) -> (r: Address)
        ensures
            r == spec_mem_addr(instr, *regs),
    {
        let rs = regs.read(instr.rs());
        Address(rs.wrapping_add_signed(instr.signed_imm16() as i32))
    }

    /// Starts a load: the request the rest of the machine reads memory for.
    pub fn load(&self, kind: LoadKind, instr: Instruction, regs: &Registers) -> (r: MemRead)
        ensures
            r == (MemRead {
                addr: spec_mem_addr(instr, *regs),
                kind,
                reg: instr.spec_rt(),
                merge_with: merge_base(self.pending_load, instr.spec_rt(), *regs),
            }),
    {
        let rt = instr.rt();
        let merge_with = match self.pending_load {
            Some(load) => if load.reg == rt {
                load.value
            } else {
                regs.read(rt)
            },
            None => regs.read(rt),
        };
        MemRead { addr: Self::mem_addr(instr, regs), kind, reg: rt, merge_with }
    }

    /// Finishes an aligned load with the raw bits read (the low bytes of `raw` count): the
    /// extended value lands in the register after the next instruction, replacing a pending load
    /// to it.
    pub fn finish_load(&mut self, read: MemRead, raw: u32)
        ensures
            final(self).pending_load == cancelled(old(self).pending_load, read.reg),
            final(self).load_delay_slot == Some(
                RegLoad { reg: read.reg, value: spec_extend(read.kind, raw) },
            ),
            final(self).current_addr == old(self).current_addr,
            final(self).delay_slot == old(self).delay_slot,
    {
        let value = match read.kind {
            LoadKind::Byte => if raw % 0x100 >= 0x80 {
                raw % 0x100 + 0xFFFF_FF00
            } else {
                raw % 0x100
            },
            LoadKind::ByteUnsigned => raw % 0x100,
            LoadKind::Half => if raw % 0x1_0000 >= 0x8000 {
                raw % 0x1_0000 + 0xFFFF_0000
            } else {
                raw % 0x1_0000
            },
            LoadKind::HalfUnsigned => raw % 0x1_0000,
            _ => raw,
        };
        self.cancel_load(read.reg);
        self.load_delay_slot = Some(RegLoad { reg: read.reg, value });
    }

    /// Finishes an unaligned load (`LWL`, `LWR`) with the bytes read, in the order of their
    /// addresses from the load's address (down for `LWL`, up for `LWR`).
    pub fn finish_unaligned_load(&mut self, read: MemRead, bytes: &[u8])
        requires
            read.kind == LoadKind::WordLeft || read.kind == LoadKind::WordRight,
            bytes.len() == unaligned_len(read.addr.0, read.kind == LoadKind::WordLeft),
        ensures
            final(self).pending_load == cancelled(old(self).pending_load, read.reg),
            final(self).load_delay_slot == Some(
                RegLoad {
                    reg: read.reg,
                    value: spec_unaligned_merge(
                        read.merge_with,
                        bytes@,
                        read.kind == LoadKind::WordLeft,
                    ),
                },
            ),
            final(self).current_addr == old(self).current_addr,
            final(self).delay_slot == old(self).delay_slot,
    {
        let value = unaligned_merge(read.merge_with, bytes, read.kind == LoadKind::WordLeft);
        self.cancel_load(read.reg);
        self.load_delay_slot = Some(RegLoad { reg: read.reg, value });
    }

    /// Starts a store: the request the rest of the machine writes memory for.
    pub fn store(width: StoreWidth, instr: Instruction, regs: &Registers) -> (r: MemWrite)
        ensures
            r == (MemWrite {
                addr: spec_mem_addr(instr, *regs),
                value: rt_of(instr, *regs),
                width,
            }),
    {
        MemWrite { addr: Self::mem_addr(instr, regs), value: regs.read(instr.rt()), width }
    }

    /// The class of an instruction.
    pub fn class(instr: Instruction) -> (r: Class)
        ensures
            r == spec_class(instr),
    {
        let op = match instr.op() {
            Some(op) => op,
            None => return Class::Nothing,
        };
        match op {
            Opcode::LUI => Class::Alu(AluOp::LUI),
            Opcode::ORI => Class::Alu(AluOp::ORI),
            Opcode::ANDI => Class::Alu(AluOp::ANDI),
            Opcode::XORI => Class::Alu(AluOp::XORI),
            Opcode::ADDIU => Class::Alu(AluOp::ADDIU),
            Opcode::ADDI => Class::Alu(AluOp::ADDI),
            Opcode::SLTI => Class::Alu(AluOp::SLTI),
            Opcode::SLTIU => Class::Alu(AluOp::SLTIU),
            Opcode::JMP => Class::Jump(JumpOp::JMP),
            Opcode::JAL => Class::Jump(JumpOp::JAL),
            Opcode::BEQ => Class::Jump(JumpOp::BEQ),
            Opcode::BNE => Class::Jump(JumpOp::BNE),
            Opcode::BGTZ => Class::Jump(JumpOp::BGTZ),
            Opcode::BLEZ => Class::Jump(JumpOp::BLEZ),
            Opcode::BZ => Class::Jump(JumpOp::BZ),
            Opcode::LB => Class::Load(LoadKind::Byte),
            Opcode::LBU => Class::Load(LoadKind::ByteUnsigned),
            Opcode::LH => Class::Load(LoadKind::Half),
            Opcode::LHU => Class::Load(LoadKind::HalfUnsigned),
            Opcode::LW => Class::Load(LoadKind::Word),
            Opcode::LWL => Class::Load(LoadKind::WordLeft),
            Opcode::LWR => Class::Load(LoadKind::WordRight),
            Opcode::SB => Class::Store(StoreWidth::Byte),
            Opcode::SH => Class::Store(StoreWidth::Half),
            Opcode::SW => Class::Store(StoreWidth::Word),
            Opcode::SWL => Class::Store(StoreWidth::WordLeft),
            Opcode::SWR => Class::Store(StoreWidth::WordRight),
            Opcode::COP0 | Opcode::COP1 | Opcode::COP3 => match instr.cop_op() {
                Some(_) => Class::Machine(DEFAULT_DELAY),
                None => Class::Nothing,
            },
            Opcode::SWC0 | Opcode::SWC1 | Opcode::SWC2 | Opcode::SWC3 => Class::Machine(
                MEMORY_OP_DELAY,
            ),
            Opcode::SPECIAL => match instr.special_op() {
                None => Class::Nothing,
                Some(sop) => match sop {
                    SpecialOpcode::SLL => Class::Alu(AluOp::SLL),
                    SpecialOpcode::SRL => Class::Alu(AluOp::SRL),
                    SpecialOpcode::SRA => Class::Alu(AluOp::SRA),
                    SpecialOpcode::SLLV => Class::Alu(AluOp::SLLV),
                    SpecialOpcode::SRLV => Class::Alu(AluOp::SRLV),
                    SpecialOpcode::SRAV => Class::Alu(AluOp::SRAV),
                    SpecialOpcode::JR => Class::Jump(JumpOp::JR),
                    SpecialOpcode::JALR => Class::Jump(JumpOp::JALR),
                    SpecialOpcode::SYSCALL => Class::Trap(Exception::Syscall),
                    SpecialOpcode::BREAK => Class::Trap(Exception::Breakpoint),
                    SpecialOpcode::MFHI => Class::Alu(AluOp::MFHI),
                    SpecialOpcode::MTHI => Class::Alu(AluOp::MTHI),
                    SpecialOpcode::MFLO => Class::Alu(AluOp::MFLO),
                    SpecialOpcode::MTLO => Class::Alu(AluOp::MTLO),
                    SpecialOpcode::MULT => Class::Alu(AluOp::MULT),
                    SpecialOpcode::MULTU => Class::Alu(AluOp::MULTU),
                    SpecialOpcode::DIV => Class::Alu(AluOp::DIV),
                    SpecialOpcode::DIVU => Class::Alu(AluOp::DIVU),
                    SpecialOpcode::ADD => Class::Alu(AluOp::ADD),
                    SpecialOpcode::ADDU => Class::Alu(AluOp::ADDU),
                    SpecialOpcode::SUB => Class::Alu(AluOp::SUB),
                    SpecialOpcode::SUBU => Class::Alu(AluOp::SUBU),
                    SpecialOpcode::AND => Class::Alu(AluOp::AND),
                    SpecialOpcode::OR => Class::Alu(AluOp::OR),
                    SpecialOpcode::XOR => Class::Alu(AluOp::XOR),
                    SpecialOpcode::NOR => Class::Alu(AluOp::NOR),
                    SpecialOpcode::SLT => Class::Alu(AluOp::SLT),
                    SpecialOpcode::SLTU => Class::Alu(AluOp::SLTU),
                },
            },
            _ => Class::Nothing,
        }
    }

    /// Executes an instruction: returns the cycles it takes and what it leaves to the rest of
    /// the machine. Arithmetic, logic, move, jump and branch instructions complete here; loads
    /// and stores hand their memory access to the caller, and traps their exception.
    pub fn exec(&mut self, regs: &mut Registers, instr: Instruction) -> (r: (u64, Outcome))
        ensures
            executed(*old(regs), *final(regs), *old(self), *final(self), instr, r),
    {
        match Self::class(instr) {
            Class::Alu(op) => {
                let outcome = match self.exec_alu(regs, op, instr) {
                    Some(e) => Outcome::Raise(e),
                    None => Outcome::Done,
                };
                (DEFAULT_DELAY, outcome)
            },
            Class::Jump(op) => {
                self.exec_jump(regs, op, instr);
                (DEFAULT_DELAY, Outcome::Done)
            },
            Class::Load(kind) => (MEMORY_OP_DELAY, Outcome::Read(self.load(kind, instr, regs))),
            Class::Store(width) => (MEMORY_OP_DELAY, Outcome::Write(Self::store(width, instr, regs))),
            Class::Trap(e) => (DEFAULT_DELAY, Outcome::Raise(e)),
            Class::Machine(cycles) => (cycles, Outcome::Machine),
            Class::Nothing => (DEFAULT_DELAY, Outcome::Done),
        }
    }
}

/// Proof that an arithmetic right shift of `x` by `sa` is the logical one for a non-negative
/// `x`, and the complement of the logical shift of the complement for a negative one.
proof fn lemma_sra_bits(x: u32, sa: u32)
    requires
        sa < 32,
    ensures
        x < 0x8000_0000 ==> ((x as i32) >> sa) as u32 == x >> sa,
        x >= 0x8000_0000 ==> ((x as i32) >> sa) as u32 == !((!x) >> sa),
        !x == 0xFFFF_FFFF - x,
        !((!x) >> sa) == 0xFFFF_FFFF - ((!x) >> sa),
{
    assert((x < 0x8000_0000 ==> ((x as i32) >> sa) as u32 == x >> sa) && (x >= 0x8000_0000 ==> ((
    x as i32) >> sa) as u32 == !((!x) >> sa)) && !x == 0xFFFF_FFFF - x && !((!x) >> sa) == 0xFFFF_FFFF
        - ((!x) >> sa)) by (bit_vector)
        requires
            sa < 32,
    ;
}

/// Proof that an arithmetic right shift of `x` by `sa` divides its signed value by `2^sa`,
/// rounding down.
proof fn lemma_sra_divides(x: u32, sa: u32)
    requires
        sa < 32,
    ensures
        as_i32(((x as i32) >> sa) as u32) == as_i32(x) / (vstd::arithmetic::power2::pow2(
            sa as nat,
        ) as int),
{
    let p = vstd::arithmetic::power2::pow2(sa as nat) as int;
    vstd::arithmetic::power2::lemma_pow2_pos(sa as nat);
    lemma_sra_bits(x, sa);
    if x < 0x8000_0000 {
        vstd::bits::lemma_u32_shr_is_div(x, sa);
        assert(x as nat / (p as nat) <= x) by (nonlinear_arith)
            requires p >= 1;
        assert(as_i32(x) == x as int);
        assert(((x as i32) >> sa) as u32 == x as nat / (p as nat));
    } else {
        let n = (0xFFFF_FFFF - x) as u32;
        vstd::bits::lemma_u32_shr_is_div(n, sa);
        let q = n as int / p;
        assert(0 <= q <= n) by (nonlinear_arith)
            requires p >= 1, n >= 0, q == n as int / p;
        vstd::arithmetic::div_mod::lemma_fundamental_div_mod(n as int, p);
        let r = n as int % p;
        assert(0 <= r < p) by {
            vstd::arithmetic::div_mod::lemma_mod_bound(n as int, p);
        }
        assert(n as int == p * q + r);
        assert(as_i32(x) == (-q - 1) * p + (p - r - 1)) by (nonlinear_arith)
            requires
                as_i32(x) == -(n as int) - 1,
                n as int == p * q + r,
        ;
        assert(!x == n);
        assert((!x) >> sa == q);
        assert(((x as i32) >> sa) as u32 == 0xFFFF_FFFF - q);
        vstd::arithmetic::div_mod::lemma_fundamental_div_mod_converse(
            as_i32(x),
            p,
            -q - 1,
            p - r - 1,
        );
    }
}

/// Law: `SRA` writes `rd` with the signed value of `rt` divided by `2^sa` and rounded down (so
/// the sign is kept: a negative `rt` gives ones in the top `sa + 1` bits); `SRAV` does so by
/// the low five bits of `rs`.
pub proof fn law_sra_divides(instr: Instruction, regs: Registers)
    ensures
        spec_reg_effect(AluOp::SRA, instr, regs) == RegEffect::Write(
            instr.spec_rd(),
            spec_reg_effect(AluOp::SRA, instr, regs)->Write_1,
        ),
        as_i32(spec_reg_effect(AluOp::SRA, instr, regs)->Write_1) == as_i32(rt_of(instr, regs))
            / (vstd::arithmetic::power2::pow2(bits_of(instr.0, 6, 5) as nat) as int),
        spec_reg_effect(AluOp::SRAV, instr, regs) == RegEffect::Write(
            instr.spec_rd(),
            spec_reg_effect(AluOp::SRAV, instr, regs)->Write_1,
        ),
        as_i32(spec_reg_effect(AluOp::SRAV, instr, regs)->Write_1) == as_i32(rt_of(instr, regs))
            / (vstd::arithmetic::power2::pow2((rs_of(instr, regs) % 32) as nat) as int),
{
    vstd::arithmetic::power2::lemma2_to64();
    let sa = bits_of(instr.0, 6, 5);
    assert(sa < 32);
    lemma_sra_divides(rt_of(instr, regs), sa);
    lemma_sra_divides(rt_of(instr, regs), rs_of(instr, regs) % 32);
}

/// Law: `SRL` writes `rd` with `rt` divided by `2^sa`, rounded down (a logical shift: zeros come
/// in at the top); `SRLV` does so by the low five bits of `rs`. `SLL` and `SLLV` multiply by the
/// same power of two, where the product fits 32 bits.
pub proof fn law_logical_shifts(instr: Instruction, regs: Registers)
    ensures
        ({
            let rt = rt_of(instr, regs);
            let sa = bits_of(instr.0, 6, 5);
            let var = rs_of(instr, regs) % 32;
            let p = vstd::arithmetic::power2::pow2(sa as nat);
            let pv = vstd::arithmetic::power2::pow2(var as nat);
            &&& spec_reg_effect(AluOp::SRL, instr, regs) == RegEffect::Write(instr.spec_rd(), (rt as nat / p) as u32)
            &&& spec_reg_effect(AluOp::SRLV, instr, regs) == RegEffect::Write(instr.spec_rd(), (rt as nat / pv) as u32)
            &&& rt * p < 0x1_0000_0000 ==> spec_reg_effect(AluOp::SLL, instr, regs) == RegEffect::Write(
                instr.spec_rd(),
                (rt * p) as u32,
            )
            &&& rt * pv < 0x1_0000_0000 ==> spec_reg_effect(AluOp::SLLV, instr, regs)
                == RegEffect::Write(instr.spec_rd(), (rt * pv) as u32)
        }),
{
    vstd::arithmetic::power2::lemma2_to64();
    let rt = rt_of(instr, regs);
    let sa = bits_of(instr.0, 6, 5);
    let var = rs_of(instr, regs) % 32;
    assert(sa < 32);
    vstd::bits::lemma_u32_shr_is_div(rt, sa);
    vstd::bits::lemma_u32_shr_is_div(rt, var);
    if rt * vstd::arithmetic::power2::pow2(sa as nat) < 0x1_0000_0000 {
        vstd::bits::lemma_u32_shl_is_mul(rt, sa);
    }
    if rt * vstd::arithmetic::power2::pow2(var as nat) < 0x1_0000_0000 {
        vstd::bits::lemma_u32_shl_is_mul(rt, var);
    }
}

/// Law: a byte load gives the byte read, sign extended (`LB`: a signed value in `-0x80..0x80`
/// with the low eight bits read) or zero extended (`LBU`); a half-word load likewise gives the
/// half-word read, sign extended (`LH`) or zero extended (`LHU`); a word load gives the word.
pub proof fn law_load_extension(raw: u32)
    ensures
        -0x80 <= as_i32(spec_extend(LoadKind::Byte, raw)) < 0x80,
        spec_extend(LoadKind::Byte, raw) % 0x100 == raw % 0x100,
        spec_extend(LoadKind::ByteUnsigned, raw) == raw % 0x100,
        -0x8000 <= as_i32(spec_extend(LoadKind::Half, raw)) < 0x8000,
        spec_extend(LoadKind::Half, raw) % 0x1_0000 == raw % 0x1_0000,
        spec_extend(LoadKind::HalfUnsigned, raw) == raw % 0x1_0000,
        spec_extend(LoadKind::Word, raw) == raw,
{
}

/// Law: `MULTU` and `MULT` leave the 64 bit product of `rs` and `rt` (unsigned, or signed) in
/// `HI` (high word) and `LO` (low word); `DIVU` by a non-zero `rt` leaves the quotient in `LO`
/// and the remainder, below `rt`, in `HI`.
pub proof fn law_multiply_divide(instr: Instruction, regs: Registers)
    ensures
        ({
            let (rs, rt) = (rs_of(instr, regs), rt_of(instr, regs));
            &&& spec_reg_effect(AluOp::MULTU, instr, regs) matches RegEffect::HiLo(hi, lo)
            &&& hi * 0x1_0000_0000 + lo == rs * rt
        }),
        ({
            let (rs, rt) = (rs_of(instr, regs), rt_of(instr, regs));
            &&& spec_reg_effect(AluOp::MULT, instr, regs) matches RegEffect::HiLo(hi, lo)
            &&& as_i32(hi) * 0x1_0000_0000 + lo == as_i32(rs) * as_i32(rt)
        }),
        ({
            let (rs, rt) = (rs_of(instr, regs), rt_of(instr, regs));
            rt != 0 ==> {
                &&& spec_reg_effect(AluOp::DIVU, instr, regs) matches RegEffect::HiLo(hi, lo)
                &&& lo * rt + hi == rs
                &&& hi < rt
            }
        }),
{
    let (rs, rt) = (rs_of(instr, regs), rt_of(instr, regs));
    let pu = rs * rt;
    assert(0 <= pu < 0x1_0000_0000 * 0x1_0000_0000) by (nonlinear_arith)
        requires pu == rs * rt, rs < 0x1_0000_0000, rt < 0x1_0000_0000;
    vstd::arithmetic::div_mod::lemma_fundamental_div_mod(pu, 0x1_0000_0000);
    assert(pu / 0x1_0000_0000 < 0x1_0000_0000) by (nonlinear_arith)
        requires 0 <= pu < 0x1_0000_0000 * 0x1_0000_0000;
    let ps = as_i32(rs) * as_i32(rt);
    assert(-0x4000_0000_0000_0000 <= ps <= 0x4000_0000_0000_0000) by (nonlinear_arith)
        requires ps == as_i32(rs) * as_i32(rt), -0x8000_0000 <= as_i32(rs) < 0x8000_0000,
            -0x8000_0000 <= as_i32(rt) < 0x8000_0000;
    vstd::arithmetic::div_mod::lemma_fundamental_div_mod(ps, 0x1_0000_0000);
    let h = ps / 0x1_0000_0000;
    assert(-0x4000_0000 <= h <= 0x4000_0000) by (nonlinear_arith)
        requires -0x4000_0000_0000_0000 <= ps <= 0x4000_0000_0000_0000, h == ps / 0x1_0000_0000;
    vstd::arithmetic::div_mod::lemma_mod_bound(ps, 0x1_0000_0000);
    assert(wrap32(h) as int == (if h < 0 { h + 0x1_0000_0000 } else { h }));
    if rt != 0 {
        vstd::arithmetic::div_mod::lemma_fundamental_div_mod(rs as int, rt as int);
        vstd::arithmetic::div_mod::lemma_mod_bound(rs as int, rt as int);
        let (q, r) = ((rs / rt) as int, (rs % rt) as int);
        assert(q * rt + r == rs) by (nonlinear_arith)
            requires rs as int == rt * (rs as int / rt as int) + rs as int % rt as int, q == rs as int / rt as int, r == rs as int % rt as int;
    }
}

} // verus!
