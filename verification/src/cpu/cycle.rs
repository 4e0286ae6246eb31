//! The instruction cycle of the CPU: fetching, the delay slots, exceptions, interrupts, the
//! coprocessor instructions and the memory accesses of loads and stores.
use super::cop0::{
    caused, exception_code, interrupt_pending, spec_boot_vectors, spec_cop_enabled,
    spec_exception_code, spec_interrupts_enabled, spec_isolate_cache, started_exception, Cop0,
    CAUSE, EPC, SR,
};
use super::instr::{CopOpcode, Instruction, SpecialCop0Opcode};
use super::interpreter::{
    be_bytes, be_byte, cancelled, executed, le_bytes, le_byte, spec_class, spec_extend, spec_unaligned_merge, spec_unaligned_store,
    unaligned_len, Class, Exception, Interpreter, LoadKind, MemRead, MemWrite, Outcome,
    StoreWidth, DEFAULT_DELAY, MEMORY_OP_DELAY,
};
use super::{Cpu, Reg, RegLoad, Registers, COP};
use crate::interrupts::{lowest_set, Interrupt};
use crate::mem::Address;
use crate::kernel::{spec_called_at, Function};
use crate::mem::primitive::Primitive;
use crate::mem::{char_put, spec_segment, Memory, Region, Segment};
use crate::psx::{spec_access, Access, PSX};
use vstd::prelude::*;

verus! {

/// The address four bytes after `a`, wrapping around.
pub open spec fn next_word(a: u32) -> u32 {
    if a + 4 > u32::MAX {
        (a + 4 - 0x1_0000_0000) as u32
    } else {
        (a + 4) as u32
    }
}

/// The address four bytes before `a`, wrapping around.
pub open spec fn prev_word(a: u32) -> u32 {
    if a < 4 {
        (a + 0x1_0000_0000 - 4) as u32
    } else {
        (a - 4) as u32
    }
}

/// The general exception handler the status register selects: in `KSEG1` with the boot
/// vectors, else in `KSEG0`.
pub open spec fn exception_vector(sr: u32) -> u32 {
    if spec_boot_vectors(sr) {
        0xBFC0_0180
    } else {
        0x8000_0080
    }
}

/// `new` holds the registers of `old` but for the program counter, which is `pc`.
pub open spec fn pc_set(old: Registers, new: Registers, pc: u32) -> bool {
    &&& new.gp() == old.gp()
    &&& new.hi() == old.hi()
    &&& new.lo() == old.lo()
    &&& new.pc() == pc
}

/// `new`, `ni` are `old`, `oi` once the exception `e` is taken for the instruction at `address`
/// whose successor is at `delay_slot`, the coprocessor registers being `cop0` before.
///
/// The exception program counter takes the address (the one before it in a branch delay
/// slot, that is where the successor is not the next word), the status stack moves up, the
/// cause register takes the code and the branch delay flag, the pipeline is flushed (the delay
/// slot holds a `NOP` at the address of the current instruction) and the program counter goes
/// to the exception handler.
pub open spec fn exception_taken(
    old: PSX,
    oi: Interpreter,
    cop0: Seq<u32>,
    new: PSX,
    ni: Interpreter,
    address: u32,
    delay_slot: u32,
    e: Exception,
) -> bool {
    let bd = next_word(address) != delay_slot;
    &&& new == PSX {
        cpu: Cpu { regs: new.cpu.regs, delay_instr: Instruction(0), ..old.cpu },
        cop0: Cop0 { regs: new.cop0.regs, ..old.cop0 },
        ..old
    }
    &&& new.cop0.regs@ == cop0.update(
        EPC as int,
        if bd {
            prev_word(address)
        } else {
            address
        },
    ).update(SR as int, started_exception(cop0[SR as int])).update(
        CAUSE as int,
        caused(cop0[CAUSE as int], spec_exception_code(e), bd),
    )
    &&& pc_set(old.cpu.regs, new.cpu.regs, exception_vector(cop0[SR as int]))
    &&& ni == Interpreter { delay_slot: oi.current_addr, ..oi }
}

/// Whether an interrupt is pending and enabled in the interrupt controller.
pub open spec fn interrupt_requested(psx: PSX) -> bool {
    lowest_set(psx.interrupts.status.0 & psx.interrupts.mask.0, 0) is Some
}

/// `new`, `ni` are `old`, `oi` once interrupts are checked (`r`): the cause register tells
/// whether an interrupt is requested, and one is taken when the status register lets it
/// through.
pub open spec fn interrupts_checked(old: PSX, oi: Interpreter, new: PSX, ni: Interpreter, r: bool) -> bool {
    let req = interrupt_requested(old);
    let cop0 = old.cop0.regs@.update(CAUSE as int, interrupt_pending(old.cop0.cause(), req));
    &&& r == (req && spec_interrupts_enabled(old.cop0.sr()))
    &&& r ==> exception_taken(old, oi, cop0, new, ni, oi.current_addr.0, oi.delay_slot.0, Exception::Interrupt)
    &&& !r ==> {
        &&& new == PSX { cop0: Cop0 { regs: new.cop0.regs, ..old.cop0 }, ..old }
        &&& new.cop0.regs@ == cop0
        &&& ni == oi
    }
}

/// `new`, `ni` are `old`, `oi` once the exception `e` is raised by the current instruction.
pub open spec fn raised(old: PSX, oi: Interpreter, new: PSX, ni: Interpreter, e: Exception) -> bool {
    exception_taken(old, oi, old.cop0.regs@, new, ni, oi.current_addr.0, oi.delay_slot.0, e)
}

/// The coprocessor of an instruction, by number.
pub open spec fn cop_number(cop: COP) -> u32 {
    match cop {
        COP::COP0 => 0,
        COP::COP1 => 1,
        COP::COP2 => 2,
        COP::COP3 => 3,
    }
}

/// Whether a coprocessor instruction is one the CPU does not implement: `CFC`, `CTC` or a
/// coprocessor branch.
pub open spec fn unimplemented_cop(instr: Instruction) -> bool {
    spec_class(instr) is Machine && instr.spec_op() != Some(super::instr::Opcode::SWC0)
        && instr.spec_op() != Some(super::instr::Opcode::SWC1) && instr.spec_op() != Some(
        super::instr::Opcode::SWC2,
    ) && instr.spec_op() != Some(super::instr::Opcode::SWC3) && !(crate::bits::bits_of(instr.0, 25, 1)
        == 1) && (instr.spec_cop_op() == Some(CopOpcode::CFC) || instr.spec_cop_op() == Some(
        CopOpcode::CTC,
    ) || instr.spec_cop_op() == Some(CopOpcode::BRANCH))
}

/// What a read of `addr` gives on `p`: the value [`PSX::read_post`] pins.
pub open spec fn read_value<P: Primitive>(p: PSX, addr: u32) -> P {
    if spec_access(addr) == Access::IoPorts {
        p.io_read_value::<P>(addr)
    } else {
        p.memory_value::<P>(addr)
    }
}

/// The interpreter once a load of `value` to the register of `read` is issued: it lands after
/// the next instruction, replacing a pending load to the register.
pub open spec fn load_issued(oi: Interpreter, read: MemRead, value: u32) -> Interpreter {
    Interpreter {
        pending_load: cancelled(oi.pending_load, read.reg),
        load_delay_slot: Some(RegLoad { reg: read.reg, value }),
        ..oi
    }
}

/// The address of byte `k` of an unaligned access at `addr`: down from it for the left part,
/// up from it for the right one.
pub open spec fn unaligned_addr(addr: u32, left: bool, k: int) -> u32 {
    if left {
        (addr - k) as u32
    } else {
        (addr + k) as u32
    }
}

/// Whether every byte of an unaligned load at `addr` can be read on `p`.
pub open spec fn unaligned_readable(p: PSX, addr: u32, left: bool) -> bool {
    forall|k: int|
        0 <= k < unaligned_len(addr, left) ==> p.read_allowed(#[trigger] unaligned_addr(addr, left, k))
}

/// Whether `new` is `old` once `byte` is read at `addr` through the bus.
#[verifier::opaque]
pub open spec fn byte_read(old: PSX, new: PSX, addr: u32, byte: u8) -> bool {
    PSX::read_post::<u8>(old, new, addr, byte)
}

/// Whether `states` go from one to the next by the byte reads of an unaligned load at `addr`,
/// giving `bytes`.
pub open spec fn read_chain(states: Seq<PSX>, addr: u32, left: bool, bytes: Seq<u8>) -> bool {
    &&& bytes.len() == unaligned_len(addr, left)
    &&& states.len() == bytes.len() + 1
    &&& forall|k: int|
        0 <= k < bytes.len() ==> byte_read(
            #[trigger] states[k],
            states[k + 1],
            unaligned_addr(addr, left, k),
            bytes[k],
        )
}

/// `new`, `ni` are `old`, `oi` once the load `read` is done: a byte always reads; a half-word
/// or a word at an address it is not aligned to raises [`Exception::AddressErrorLoad`]; the
/// unaligned parts of words read byte by byte through the bus and merge into the register value.
pub open spec fn load_done(old: PSX, oi: Interpreter, new: PSX, ni: Interpreter, read: MemRead) -> bool {
    let a = read.addr.0;
    match read.kind {
        LoadKind::Byte | LoadKind::ByteUnsigned => {
            &&& PSX::read_post::<u8>(old, new, a, read_value::<u8>(old, a))
            &&& ni == load_issued(oi, read, spec_extend(read.kind, read_value::<u8>(old, a) as u32))
        },
        LoadKind::Half | LoadKind::HalfUnsigned => if a % 2 != 0 {
            raised(old, oi, new, ni, Exception::AddressErrorLoad)
        } else {
            &&& PSX::read_post::<u16>(old, new, a, read_value::<u16>(old, a))
            &&& ni == load_issued(oi, read, spec_extend(read.kind, read_value::<u16>(old, a) as u32))
        },
        LoadKind::Word => if a % 4 != 0 {
            raised(old, oi, new, ni, Exception::AddressErrorLoad)
        } else {
            &&& PSX::read_post::<u32>(old, new, a, read_value::<u32>(old, a))
            &&& ni == load_issued(oi, read, read_value::<u32>(old, a))
        },
        _ => {
            let left = read.kind == LoadKind::WordLeft;
            exists|states: Seq<PSX>, bytes: Seq<u8>|
                #[trigger] read_chain(states, a, left, bytes) && states[0] == old && states.last()
                    == new && ni == load_issued(
                    oi,
                    read,
                    spec_unaligned_merge(read.merge_with, bytes, left),
                )
        },
    }
}

/// Whether `new` is `old` once `byte` is written at `addr` through the bus.
#[verifier::opaque]
pub open spec fn byte_written(old: PSX, new: PSX, addr: u32, byte: u8) -> bool {
    PSX::write_post::<u8>(old, new, addr, byte)
}

/// Whether `states` go from one to the next by the byte writes of `writes`.
pub open spec fn write_chain(states: Seq<PSX>, writes: Seq<(u32, u8)>) -> bool {
    &&& states.len() == writes.len() + 1
    &&& forall|k: int|
        0 <= k < writes.len() ==> byte_written(
            #[trigger] states[k],
            states[k + 1],
            writes[k].0,
            writes[k].1,
        )
}

/// `new`, `ni` are `old`, `oi` once the store `write` is done, taking `r` cycles: with the
/// cache isolated, bytes, half-words and words store nothing; a half-word or a word at an
/// address it is not aligned to raises [`Exception::AddressErrorStore`]; the unaligned parts of
/// words store byte by byte.
pub open spec fn store_done(
    old: PSX,
    oi: Interpreter,
    new: PSX,
    ni: Interpreter,
    write: MemWrite,
    r: u64,
) -> bool {
    let a = write.addr.0;
    match write.width {
        StoreWidth::WordLeft | StoreWidth::WordRight => {
            let left = write.width == StoreWidth::WordLeft;
            &&& r == MEMORY_OP_DELAY
            &&& ni == oi
            &&& exists|states: Seq<PSX>|
                #[trigger] write_chain(states, spec_unaligned_store(a, write.value, left))
                    && states[0] == old && states.last() == new
        },
        _ => if spec_isolate_cache(old.cop0.sr()) {
            &&& r == DEFAULT_DELAY
            &&& new == old
            &&& ni == oi
        } else {
            &&& r == MEMORY_OP_DELAY
            &&& match write.width {
                StoreWidth::Byte => PSX::write_post::<u8>(old, new, a, write.value as u8) && ni
                    == oi,
                StoreWidth::Half => if a % 2 != 0 {
                    raised(old, oi, new, ni, Exception::AddressErrorStore)
                } else {
                    PSX::write_post::<u16>(old, new, a, write.value as u16) && ni == oi
                },
                _ => if a % 4 != 0 {
                    raised(old, oi, new, ni, Exception::AddressErrorStore)
                } else {
                    PSX::write_post::<u32>(old, new, a, write.value) && ni == oi
                },
            }
        },
    }
}

/// `new`, `ni` are `old`, `oi` once the coprocessor instruction `instr` ran, taking `r` cycles.
pub open spec fn cop_done(old: PSX, oi: Interpreter, new: PSX, ni: Interpreter, instr: Instruction, r: u64) -> bool {
    let op = instr.spec_op();
    if op == Some(super::instr::Opcode::SWC0) || op == Some(super::instr::Opcode::SWC1) || op
        == Some(super::instr::Opcode::SWC2) || op == Some(super::instr::Opcode::SWC3) {
        &&& r == MEMORY_OP_DELAY
        &&& if spec_cop_enabled(old.cop0.sr(), cop_number(instr.spec_cop())) {
            new == old && ni == oi
        } else {
            raised(old, oi, new, ni, Exception::CopUnusable)
        }
    } else if crate::bits::bits_of(instr.0, 25, 1) == 1 {
        &&& r == DEFAULT_DELAY
        &&& ni == oi
        &&& if SpecialCop0Opcode::spec_from_code(crate::bits::bits_of(instr.0, 0, 6)) is Some {
            &&& new == PSX { cop0: Cop0 { regs: new.cop0.regs, ..old.cop0 }, ..old }
            &&& new.cop0.regs@ == old.cop0.regs@.update(
                SR as int,
                super::cop0::restored_from_exception(old.cop0.sr()),
            )
        } else {
            new == old
        }
    } else if instr.spec_cop_op() == Some(CopOpcode::MTC) {
        &&& r == DEFAULT_DELAY
        &&& instr.spec_cop() == COP::COP0 ==> ni == oi && new == PSX {
            cop0: Cop0 {
                load_delay_slot: Some(
                    RegLoad {
                        reg: instr.spec_rd(),
                        value: old.cpu.regs.spec_read(instr.spec_rt()),
                    },
                ),
                ..old.cop0
            },
            ..old
        }
        &&& instr.spec_cop() != COP::COP0 && spec_cop_enabled(
            old.cop0.sr(),
            cop_number(instr.spec_cop()),
        ) ==> ni == oi && new == old
        &&& instr.spec_cop() != COP::COP0 && !spec_cop_enabled(
            old.cop0.sr(),
            cop_number(instr.spec_cop()),
        ) ==> raised(old, oi, new, ni, Exception::CopUnusable)
    } else {
        &&& r == DEFAULT_DELAY
        &&& (instr.spec_cop() == COP::COP0 || (instr.spec_cop() == COP::COP2 && spec_cop_enabled(
            old.cop0.sr(),
            2,
        ))) ==> new == old && ni == (Interpreter {
            pending_load: cancelled(oi.pending_load, instr.spec_rt()),
            load_delay_slot: Some(
                RegLoad {
                    reg: instr.spec_rt(),
                    value: if instr.spec_cop() == COP::COP0 {
                        old.cop0.regs@[instr.spec_rd().spec_index() as int]
                    } else {
                        0
                    },
                },
            ),
            ..oi
        })
        &&& (instr.spec_cop() == COP::COP1 || instr.spec_cop() == COP::COP3) && spec_cop_enabled(
            old.cop0.sr(),
            cop_number(instr.spec_cop()),
        ) ==> new == old && ni == oi
        &&& instr.spec_cop() != COP::COP0 && !spec_cop_enabled(
            old.cop0.sr(),
            cop_number(instr.spec_cop()),
        ) ==> raised(old, oi, new, ni, Exception::CopUnusable)
    }
}

/// `new`, `ni` are `old`, `oi` once the current instruction `instr` ran, taking `r` cycles: it
/// executes on the registers, then what it leaves is done: its exception is taken, its load or
/// store goes through the bus, its coprocessor operation runs.
pub open spec fn instr_run(old: PSX, oi: Interpreter, new: PSX, ni: Interpreter, instr: Instruction, r: u64) -> bool {
    exists|regs: Registers, mid: Interpreter, out: (u64, Outcome)|
        #[trigger] executed(old.cpu.regs, regs, oi, mid, instr, out) && {
            let p = PSX { cpu: Cpu { regs, ..old.cpu }, ..old };
            match out.1 {
                Outcome::Done => new == p && ni == mid && r == out.0,
                Outcome::Raise(e) => raised(p, mid, new, ni, e) && r == out.0,
                Outcome::Read(read) => load_done(p, mid, new, ni, read) && r == out.0,
                Outcome::Write(write) => store_done(p, mid, new, ni, write, r),
                Outcome::Machine => cop_done(p, mid, new, ni, instr, r),
            }
        }
}

/// Whether the current instruction can run on `psx`: its memory accesses reach registers that
/// can be read or written, and it is
/// no coprocessor instruction the CPU does not implement (`CFC`, `CTC`, coprocessor branches).
pub open spec fn instr_ok(psx: PSX, oi: Interpreter, instr: Instruction) -> bool {
    let regs = psx.cpu.regs;
    let a = super::interpreter::spec_mem_addr(instr, regs).0;
    &&& !unimplemented_cop(instr)
    &&& match spec_class(instr) {
        Class::Load(LoadKind::WordLeft) => unaligned_readable(psx, a, true),
        Class::Load(LoadKind::WordRight) => unaligned_readable(psx, a, false),
        Class::Load(_) => psx.read_allowed(a),
        Class::Store(StoreWidth::WordLeft) => forall|k: int| 0 <= k < unaligned_len(a, true) ==> PSX::write_allowed(#[trigger] unaligned_addr(a, true, k)),
        Class::Store(StoreWidth::WordRight) => forall|k: int| 0 <= k < unaligned_len(a, false) ==> PSX::write_allowed(#[trigger] unaligned_addr(a, false, k)),
        Class::Store(_) => PSX::write_allowed(a),
        _ => true,
    }
}

/// The address the next instruction is fetched from: the entry of the side-loaded executable
/// when it is side loaded (the delay slot at `0x8003_0000`), else the program counter.
pub open spec fn sideloading(psx: PSX, oi: Interpreter) -> bool {
    oi.delay_slot.0 == 0x8003_0000 && psx.memory.sideload is Some
}

/// `new`, `ni` are `old`, `oi` once the executable is side loaded, when the delay slot is at
/// `0x8003_0000`: its program goes to RAM at its destination, the program counter, `GP` and
/// (when it gives one) `SP` take its initial values, and the pipeline restarts at its entry
/// with a `NOP`.
pub open spec fn sideload_stage(old: PSX, oi: Interpreter, new: PSX, ni: Interpreter) -> bool {
    if sideloading(old, oi) {
        let exe = old.memory.sideload.unwrap();
        let dest = exe.header.destination.0 % 0x2000_0000;
        &&& new == PSX {
            memory: Memory { ram: new.memory.ram, ..old.memory },
            cpu: Cpu { regs: new.cpu.regs, delay_instr: Instruction(0), ..old.cpu },
            ..old
        }
        &&& new.memory.ram@ == old.memory.ram@.subrange(0, dest as int) + exe.program@
            + old.memory.ram@.subrange(dest + exe.header.length, old.memory.ram@.len() as int)
        &&& new.cpu.regs.pc() == exe.header.initial_pc.0
        &&& new.cpu.regs.hi() == old.cpu.regs.hi()
        &&& new.cpu.regs.lo() == old.cpu.regs.lo()
        &&& new.cpu.regs.gp() == if exe.header.initial_sp_base != 0 {
            Registers::written(
                Registers::written(old.cpu.regs.gp(), Reg::R28, exe.header.initial_gp),
                Reg::R29,
                ((exe.header.initial_sp_base + exe.header.initial_sp_offset) % 0x1_0000_0000) as u32,
            )
        } else {
            Registers::written(old.cpu.regs.gp(), Reg::R28, exe.header.initial_gp)
        }
        &&& ni == Interpreter { delay_slot: exe.header.initial_pc, ..oi }
    } else {
        new == old && ni == oi
    }
}

/// `new`, `ni` are `old`, `oi` once the next instruction is fetched from `pc` (holding
/// `word`): the fetched instruction goes to the delay slot, the one there becomes current, the
/// program counter moves on, a call of the kernel's `PutChar` puts `A0` on the kernel output,
/// and the loads of the delay slots become pending.
pub open spec fn fetch_stage(old: PSX, oi: Interpreter, new: PSX, ni: Interpreter, pc: u32, word: u32) -> bool {
    let current = oi.delay_slot;
    let put = spec_called_at(current.0, old.cpu.regs.spec_read(Reg::R9)) == Some(
        Some(Function::PutChar),
    );
    &&& new == PSX {
        memory: Memory { kernel_stdout: new.memory.kernel_stdout, ..old.memory },
        cpu: Cpu { regs: new.cpu.regs, delay_instr: Instruction(word), ..old.cpu },
        cop0: Cop0 { load_delay_slot: None, ..old.cop0 },
        ..old
    }
    &&& pc_set(old.cpu.regs, new.cpu.regs, next_word(pc))
    &&& put ==> char_put(
        old.memory.kernel_stdout@,
        new.memory.kernel_stdout@,
        old.cpu.regs.spec_read(Reg::R4),
    )
    &&& !put ==> new.memory.kernel_stdout == old.memory.kernel_stdout
    &&& ni == Interpreter {
        current_addr: current,
        delay_slot: Address(pc),
        pending_load: oi.load_delay_slot,
        load_delay_slot: None,
    }
}

/// `new` is `old` once the pending load `load` lands in its CPU register and `cop0_load` in
/// its coprocessor register.
pub open spec fn loads_landed(old: PSX, new: PSX, load: Option<RegLoad>, cop0_load: Option<RegLoad>) -> bool {
    &&& new == PSX {
        cpu: Cpu { regs: new.cpu.regs, ..old.cpu },
        cop0: Cop0 { regs: new.cop0.regs, ..old.cop0 },
        ..old
    }
    &&& new.cpu.regs.pc() == old.cpu.regs.pc()
    &&& new.cpu.regs.hi() == old.cpu.regs.hi()
    &&& new.cpu.regs.lo() == old.cpu.regs.lo()
    &&& new.cpu.regs.gp() == match load {
        Some(l) => Registers::written(old.cpu.regs.gp(), l.reg, l.value),
        None => old.cpu.regs.gp(),
    }
    &&& new.cop0.regs@ == match cop0_load {
        Some(l) => old.cop0.regs@.update(l.reg.spec_index() as int, l.value),
        None => old.cop0.regs@,
    }
}

/// Whether fetching from `pc` is a bus error: from the scratchpad, or from the interrupt
/// status or mask register.
pub open spec fn fetch_bus_error(pc: u32) -> bool {
    let p = pc % 0x2000_0000;
    &&& spec_segment(pc) != Segment::KSEG2
    &&& (Region::ScratchPad.contains(p) || p == 0x1F80_1070 || p == 0x1F80_1074)
}

/// The states an instruction cycle goes through.
pub ghost struct CycleTrace {
    /// After the side load.
    pub sideloaded: PSX,
    pub si: Interpreter,
    /// After the bus read of the fetched word.
    pub read: PSX,
    /// After the fetch.
    pub fetched: PSX,
    pub fi: Interpreter,
    /// After the interrupt check, and whether an interrupt was taken.
    pub checked: PSX,
    pub ci: Interpreter,
    pub interrupted: bool,
    /// After the instruction ran, and its cycles.
    pub ran: PSX,
    pub ri: Interpreter,
    pub cycles: u64,
    /// After the pending loads landed.
    pub landed: PSX,
}

/// Whether `t` is the trace of an instruction cycle from `old`, `oi` to `new`, `ni` taking `r`
/// cycles.
///
/// The executable is side loaded if the delay slot is at its load point. A fetch from a
/// misaligned program counter lands the pending loads and raises
/// [`Exception::AddressErrorLoad`] for the delay slot. Otherwise the instruction is read
/// through the bus and fetched, an interrupt is taken if one is requested and enabled, else
/// the current instruction runs;
/// the pending loads land, and a fetch from the scratchpad or the interrupt registers raises
/// [`Exception::BusErrorInstruction`] for the delay slot.
pub open spec fn cycle_trace(
    old: PSX,
    oi: Interpreter,
    t: CycleTrace,
    new: PSX,
    ni: Interpreter,
    r: u64,
) -> bool {
    let p1 = t.sideloaded;
    let i1 = t.si;
    let pc = p1.cpu.regs.pc();
    &&& sideload_stage(old, oi, p1, i1)
    &&& if pc % 4 != 0 {
        let landed = t.landed;
        &&& loads_landed(
            PSX { cop0: Cop0 { load_delay_slot: None, ..p1.cop0 }, ..p1 },
            landed,
            i1.load_delay_slot,
            p1.cop0.load_delay_slot,
        )
        &&& exception_taken(
            landed,
            Interpreter { load_delay_slot: None, ..i1 },
            landed.cop0.regs@,
            new,
            ni,
            i1.delay_slot.0,
            pc,
            Exception::AddressErrorLoad,
        )
        &&& r == DEFAULT_DELAY
    } else {
        let instr = p1.cpu.delay_instr;
        let word = read_value::<u32>(p1, pc);
        &&& PSX::read_post::<u32>(p1, t.read, pc, word)
        &&& fetch_stage(t.read, i1, t.fetched, t.fi, pc, word)
        &&& interrupts_checked(t.fetched, t.fi, t.checked, t.ci, t.interrupted)
        &&& if t.interrupted {
            t.ran == t.checked && t.ri == t.ci && t.cycles == DEFAULT_DELAY
        } else {
            instr_run(t.checked, t.ci, t.ran, t.ri, instr, t.cycles)
        }
        &&& loads_landed(t.ran, t.landed, t.ri.pending_load, p1.cop0.load_delay_slot)
        &&& if fetch_bus_error(pc) {
            &&& exception_taken(
                t.landed,
                t.ri,
                t.landed.cop0.regs@,
                new,
                ni,
                t.ri.delay_slot.0,
                t.landed.cpu.regs.pc(),
                Exception::BusErrorInstruction,
            )
            &&& r == DEFAULT_DELAY
        } else {
            new == t.landed && ni == t.ri && r == t.cycles
        }
    }
}

/// Proof that whether an instruction can run depends only on the general purpose registers
/// and the length of the CDROM result queue.
proof fn lemma_instr_ok_frame(p: PSX, pi: Interpreter, q: PSX, qi: Interpreter, instr: Instruction)
    requires
        p.cpu.regs.gp() == q.cpu.regs.gp(),
        p.cdrom.result_queue@.len() == q.cdrom.result_queue@.len(),
        instr_ok(p, pi, instr),
    ensures
        instr_ok(q, qi, instr),
{
    let a = super::interpreter::spec_mem_addr(instr, p.cpu.regs);
    assert(super::interpreter::rs_of(instr, p.cpu.regs) == super::interpreter::rs_of(instr, q.cpu.regs));
    assert(a == super::interpreter::spec_mem_addr(instr, q.cpu.regs));
    assert(p.read_allowed(a.0) == q.read_allowed(a.0));
    assert forall|x: u32| #[trigger] p.read_allowed(x) == q.read_allowed(x) by {}
}

/// Proof that the physical address of `addr` keeps its place in a word.
proof fn lemma_physical_mod4(addr: u32)
    ensures
        (addr % 0x2000_0000) % 4 == addr % 4,
{
    vstd::arithmetic::div_mod::lemma_mod_mod(addr as int, 4, 0x0800_0000);
}

/// Proof that a word aligned address can always be read: the registers that refuse reads
/// (CDROM registers 1 and 2, the last byte of a timer register) sit at unaligned addresses.
proof fn lemma_aligned_read_allowed(psx: PSX, addr: u32)
    requires
        addr % 4 == 0,
    ensures
        psx.read_allowed(addr),
{
    crate::mem::io::law_reg_and_offset_sound(addr);
    lemma_physical_mod4(addr);
}

/// Proof that a read of a word aligned address keeps the length of the CDROM result queue:
/// only a read of CDROM register 1, at an unaligned address, pops it.
proof fn lemma_aligned_read_keeps_results<P: Primitive>(old: PSX, new: PSX, addr: u32, v: P)
    requires
        addr % 4 == 0,
        PSX::read_post::<P>(old, new, addr, v),
    ensures
        new.cdrom.result_queue@.len() == old.cdrom.result_queue@.len(),
{
    crate::mem::io::law_reg_and_offset_sound(addr);
    lemma_physical_mod4(addr);
}

/// Proof that reading byte `k` of an unaligned load keeps byte `j` readable: only CDROM
/// register 1 depends on what a read changes, and two bytes of one load never both reach it.
proof fn lemma_byte_read_keeps_readable(old: PSX, new: PSX, a: u32, left: bool, k: int, j: int, v: u8)
    requires
        0 <= k < j < unaligned_len(a, left),
        PSX::read_post::<u8>(old, new, unaligned_addr(a, left, k), v),
        old.read_allowed(unaligned_addr(a, left, j)),
    ensures
        new.read_allowed(unaligned_addr(a, left, j)),
{
    let x = unaligned_addr(a, left, k);
    let y = unaligned_addr(a, left, j);
    crate::mem::io::law_reg_and_offset_sound(x);
    crate::mem::io::law_reg_and_offset_sound(y);
    if spec_access(x) == Access::IoPorts && spec_access(y) == Access::IoPorts {
        let px = x % 0x2000_0000;
        let py = y % 0x2000_0000;
        if px == py {
            if left {
                assert(x == y + (j - k));
            } else {
                assert(y == x + (j - k));
            }
            assert(false) by (nonlinear_arith)
                requires
                    px == py,
                    px == x % 0x2000_0000,
                    py == y % 0x2000_0000,
                    x == y + (j - k) || y == x + (j - k),
                    0 < j - k < 4,
                    (x as int) % 4 + 4 > 0,
                    x / 4 == y / 4,
            ;
        }
    }
}

/// Proof that the instruction of all zero bits (`NOP`) is an arithmetic one (`SLL`).
proof fn lemma_nop_is_alu()
    ensures
        spec_class(Instruction(0)) is Alu,
{
    vstd::arithmetic::power2::lemma2_to64();
    assert(crate::bits::bits_of(0, 26, 6) == 0);
    assert(crate::bits::bits_of(0, 0, 6) == 0);
}

/// Whether the side load, if one is due, fits RAM.
pub open spec fn oi_sideload_ok(psx: PSX, oi: Interpreter) -> bool {
    &&& psx.memory.ram@.len() == Region::Ram.spec_len()
    &&& sideloading(psx, oi) ==> {
        let exe = psx.memory.sideload.unwrap();
        &&& spec_segment(exe.header.destination.0) != Segment::KSEG2
        &&& exe.header.destination.0 % 0x2000_0000 + exe.header.length <= psx.memory.ram@.len()
        &&& exe.program@.len() == exe.header.length
    }
}

/// Whether an instruction cycle can run on `psx`: the side-loaded executable fits RAM where it
/// goes, and the current instruction can run.
pub open spec fn cycle_ok(psx: PSX, oi: Interpreter) -> bool {
    &&& psx.wf()
    &&& sideloading(psx, oi) ==> {
        let exe = psx.memory.sideload.unwrap();
        &&& spec_segment(exe.header.destination.0) != Segment::KSEG2
        &&& exe.header.destination.0 % 0x2000_0000 + exe.header.length <= psx.memory.ram@.len()
        &&& exe.program@.len() == exe.header.length
    }
    &&& !sideloading(psx, oi) ==> instr_ok(psx, oi, psx.cpu.delay_instr)
}

impl Interpreter {
    /// Side loads the executable, if there is one: see [`sideload_stage`].
    pub fn sideload(&mut self, psx: &mut PSX)
        requires
            oi_sideload_ok(*old(psx), *old(self)),
        ensures
            sideload_stage(*old(psx), *old(self), *final(psx), *final(self)),
    {
        if self.delay_slot.0 == 0x8003_0000 && psx.memory.sideload.is_some() {
            match psx.memory.sideload_into(&mut psx.cpu.regs) {
                Some(pc) => {
                    psx.cpu.delay_instr = Instruction(0);
                    self.delay_slot = pc;
                },
                None => {},
            }
        }
    }

    /// Executes the next instruction and returns how many cycles it takes to complete: see
    /// [`cycle_trace`].
    #[verifier::rlimit(100)]
    #[verifier::spinoff_prover]
    pub fn exec_next(&mut self, psx: &mut PSX) -> (r: u64)
        requires
            cycle_ok(*old(psx), *old(self)),
        ensures
            exists|t: CycleTrace| #[trigger]
                cycle_trace(*old(psx), *old(self), t, *final(psx), *final(self), r),
            r >= DEFAULT_DELAY,
            final(psx).wf(),
    {
        let ghost p0 = *psx;
        let ghost i0 = *self;
        self.sideload(psx);
        let ghost p1 = *psx;
        let ghost i1 = *self;
        let pc = psx.cpu.regs.read_pc();
        proof {
            u32::lemma_size();
        }
        let fetched = if pc % 4 == 0 {
            proof {
                lemma_aligned_read_allowed(*psx, pc);
            }
            psx.read_unaligned::<u32>(Address(pc))
        } else {
            {
                let load = self.load_delay_slot;
                self.load_delay_slot = None;
                let cop0_load = psx.cop0.load_delay_slot;
                psx.cop0.load_delay_slot = None;
                if let Some(load) = load {
                    psx.cpu.regs.write(load.reg, load.value);
                }
                if let Some(load) = cop0_load {
                    psx.cop0.write(load.reg, load.value);
                }
                let ghost landed = *psx;
                let delay_slot = self.delay_slot.0;
                self.trigger_exception_at(psx, delay_slot, pc, Exception::AddressErrorLoad);
                let ghost t = CycleTrace {
                    sideloaded: p1,
                    si: i1,
                    read: p1,
                    fetched: p1,
                    fi: i1,
                    checked: p1,
                    ci: i1,
                    interrupted: false,
                    ran: p1,
                    ri: i1,
                    cycles: 0,
                    landed,
                };
                assert(cycle_trace(p0, i0, t, *psx, *self, DEFAULT_DELAY));
                return DEFAULT_DELAY;
            }
        };
        let ghost pr = *psx;
        proof {
            lemma_aligned_read_keeps_results(p1, pr, pc, fetched);
        }
        let current_instr = psx.cpu.delay_instr;
        let current_addr = self.delay_slot;
        psx.cpu.delay_instr = Instruction(fetched);
        self.delay_slot = Address(pc);
        self.current_addr = current_addr;
        psx.cpu.regs.write_pc(pc.wrapping_add(4));
        let code = psx.cpu.regs.read(Reg::R9);
        if let Some(Some(Function::PutChar)) = Function::called_at(current_addr.0, code) {
            let value = psx.cpu.regs.read(Reg::R4);
            psx.memory.put_char(value);
        }
        self.pending_load = self.load_delay_slot;
        self.load_delay_slot = None;
        let cop0_load = psx.cop0.load_delay_slot;
        psx.cop0.load_delay_slot = None;
        let ghost p2 = *psx;
        let ghost i2 = *self;
        assert(fetch_stage(pr, i1, p2, i2, pc, fetched));
        let interrupted = self.check_interrupts(psx);
        let ghost p3 = *psx;
        let ghost i3 = *self;
        let cycles = if !interrupted {
            proof {
                if sideloading(p0, i0) {
                    assert(current_instr.0 == 0);
                    lemma_nop_is_alu();
                } else {
                    assert(p1 == p0);
                    assert(p3.cpu.regs.gp() == p0.cpu.regs.gp());
                    assert(p3.cdrom.result_queue@.len() == p0.cdrom.result_queue@.len());
                    assert(instr_ok(p0, i0, current_instr));
                    lemma_instr_ok_frame(p0, i0, p3, i3, current_instr);
                }
                assert(instr_ok(p3, i3, current_instr));
            }
            self.run_instr(psx, current_instr)
        } else {
            DEFAULT_DELAY
        };
        let ghost p4 = *psx;
        let ghost i4 = *self;
        if let Some(load) = self.pending_load {
            psx.cpu.regs.write(load.reg, load.value);
        }
        if let Some(load) = cop0_load {
            psx.cop0.write(load.reg, load.value);
        }
        let ghost p5 = *psx;
        let ghost t = CycleTrace {
            sideloaded: p1,
            si: i1,
            read: pr,
            fetched: p2,
            fi: i2,
            checked: p3,
            ci: i3,
            interrupted,
            ran: p4,
            ri: i4,
            cycles,
            landed: p5,
        };
        let physical = pc % 0x2000_0000;
        if pc < 0xC000_0000 && ((0x1F80_0000 <= physical && physical < 0x1F80_0400) || physical
            == 0x1F80_1070 || physical == 0x1F80_1074) {
            let delay_slot = self.delay_slot.0;
            let next_pc = psx.cpu.regs.read_pc();
            self.trigger_exception_at(psx, delay_slot, next_pc, Exception::BusErrorInstruction);
            assert(cycle_trace(p0, i0, t, *psx, *self, DEFAULT_DELAY));
            return DEFAULT_DELAY;
        }
        assert(cycle_trace(p0, i0, t, *psx, *self, cycles));
        cycles
    }

    /// Does the load `read`: reads memory through the bus and issues the load of the value.
    pub fn complete_load(&mut self, psx: &mut PSX, read: MemRead)
        requires
            old(psx).wf(),
            read.kind == LoadKind::WordLeft ==> unaligned_readable(*old(psx), read.addr.0, true),
            read.kind == LoadKind::WordRight ==> unaligned_readable(*old(psx), read.addr.0, false),
            read.kind != LoadKind::WordLeft && read.kind != LoadKind::WordRight ==> old(
                psx,
            ).read_allowed(read.addr.0),
        ensures
            load_done(*old(psx), *old(self), *final(psx), *final(self), read),
            final(psx).wf(),
    {
        proof {
            u8::lemma_size();
            u16::lemma_size();
            u32::lemma_size();
        }
        match read.kind {
            LoadKind::Byte | LoadKind::ByteUnsigned => {
                let v = match psx.read::<u8>(read.addr) {
                    Ok(v) => v,
                    Err(_) => {
                        proof {
                            assert(false);
                        }
                        0
                    },
                };
                self.finish_load(read, v as u32);
            },
            LoadKind::Half | LoadKind::HalfUnsigned => match psx.read::<u16>(read.addr) {
                Ok(v) => self.finish_load(read, v as u32),
                Err(_) => self.trigger_exception(psx, Exception::AddressErrorLoad),
            },
            LoadKind::Word => match psx.read::<u32>(read.addr) {
                Ok(v) => self.finish_load(read, v),
                Err(_) => self.trigger_exception(psx, Exception::AddressErrorLoad),
            },
            _ => {
                let left = read.kind == LoadKind::WordLeft;
                let a = read.addr.0;
                let len: u32 = if left {
                    a % 4 + 1
                } else {
                    4 - a % 4
                };
                let ghost start = *psx;
                let ghost mut states: Seq<PSX> = seq![start];
                let mut bytes: Vec<u8> = Vec::new();
                let mut k: u32 = 0;
                while k < len
                    invariant
                        k <= len,
                        len == unaligned_len(a, left),
                        psx.wf(),
                        bytes@.len() == k,
                        states.len() == k + 1,
                        states[0] == start,
                        states.last() == *psx,
                        forall|j: int|
                            0 <= j < k ==> byte_read(
                                #[trigger] states[j],
                                states[j + 1],
                                unaligned_addr(a, left, j),
                                bytes@[j],
                            ),
                        forall|j: int|
                            k <= j < len ==> psx.read_allowed(#[trigger] unaligned_addr(a, left, j)),
                    decreases len - k,
                {
                    let addr = if left {
                        a - k
                    } else {
                        a + k
                    };
                    assert(addr == unaligned_addr(a, left, k as int));
                    let ghost before = *psx;
                    let byte = psx.read_unaligned::<u8>(Address(addr));
                    proof {
                        assert forall|j: int| k + 1 <= j < len implies psx.read_allowed(
                            #[trigger] unaligned_addr(a, left, j),
                        ) by {
                            lemma_byte_read_keeps_readable(before, *psx, a, left, k as int, j, byte);
                        }
                        reveal(byte_read);
                        let old_states = states;
                        states = states.push(*psx);
                        assert forall|j: int| 0 <= j < k + 1 implies byte_read(
                            #[trigger] states[j],
                            states[j + 1],
                            unaligned_addr(a, left, j),
                            bytes@.push(byte)[j],
                        ) by {
                            if j < k {
                                assert(states[j] == old_states[j]);
                                assert(states[j + 1] == old_states[j + 1]);
                            }
                        }
                    }
                    bytes.push(byte);
                    k += 1;
                }
                assert(read_chain(states, a, left, bytes@));
                self.finish_unaligned_load(read, bytes.as_slice());
            },
        }
    }

    /// Does the store `write`: writes memory through the bus, unless the cache is isolated.
    /// Returns the cycles the store takes.
    pub fn complete_store(&mut self, psx: &mut PSX, write: MemWrite) -> (r: u64)
        requires
            old(psx).wf(),
            write.width == StoreWidth::WordLeft ==> forall|k: int|
                0 <= k < unaligned_len(write.addr.0, true) ==> PSX::write_allowed(
                    #[trigger] unaligned_addr(write.addr.0, true, k),
                ),
            write.width == StoreWidth::WordRight ==> forall|k: int|
                0 <= k < unaligned_len(write.addr.0, false) ==> PSX::write_allowed(
                    #[trigger] unaligned_addr(write.addr.0, false, k),
                ),
            write.width != StoreWidth::WordLeft && write.width != StoreWidth::WordRight
                ==> PSX::write_allowed(write.addr.0),
        ensures
            store_done(*old(psx), *old(self), *final(psx), *final(self), write, r),
            r >= DEFAULT_DELAY,
            final(psx).wf(),
    {
        proof {
            u8::lemma_size();
            u16::lemma_size();
            u32::lemma_size();
        }
        let a = write.addr.0;
        match write.width {
            StoreWidth::WordLeft | StoreWidth::WordRight => {
                let left = write.width == StoreWidth::WordLeft;
                let len: u32 = if left {
                    a % 4 + 1
                } else {
                    4 - a % 4
                };
                let bytes = if left {
                    be_bytes(write.value)
                } else {
                    le_bytes(write.value)
                };
                let ghost writes = spec_unaligned_store(a, write.value, left);
                let ghost mut states: Seq<PSX> = seq![*psx];
                let mut k: u32 = 0;
                while k < len
                    invariant
                        k <= len,
                        len == unaligned_len(a, left),
                        writes == spec_unaligned_store(a, write.value, left),
                        states.len() == k + 1,
                        states[0] == *old(psx),
                        states.last() == *psx,
                        psx.wf(),
                        forall|j: int| 0 <= j < 4 ==> #[trigger] bytes@[j] == (if left {
                            be_byte(write.value, j)
                        } else {
                            le_byte(write.value, j)
                        }),
                        forall|j: int|
                            0 <= j < k ==> byte_written(
                                #[trigger] states[j],
                                states[j + 1],
                                writes[j].0,
                                writes[j].1,
                            ),
                        forall|j: int|
                            0 <= j < len ==> PSX::write_allowed(
                                #[trigger] unaligned_addr(a, left, j),
                            ),
                    decreases len - k,
                {
                    let addr = if left {
                        a - k
                    } else {
                        a + k
                    };
                    assert(PSX::write_allowed(unaligned_addr(a, left, k as int)));
                    let byte = bytes[k as usize];
                    let ghost prev = *psx;
                    psx.write_unaligned::<u8>(Address(addr), byte);
                    assert(byte_written(prev, *psx, addr, byte)) by {
                        reveal(byte_written);
                    }
                    assert(writes[k as int] == (addr, byte));
                    proof {
                        states = states.push(*psx);
                    }
                    k += 1;
                }
                assert(write_chain(states, writes));
                MEMORY_OP_DELAY
            },
            _ => {
                if psx.cop0.system_status() & 0x1_0000 != 0 {
                    return DEFAULT_DELAY;
                }
                match write.width {
                    StoreWidth::Byte => {
                        let _ = psx.write::<u8>(write.addr, write.value as u8);
                    },
                    StoreWidth::Half => {
                        if psx.write::<u16>(write.addr, write.value as u16).is_err() {
                            self.trigger_exception(psx, Exception::AddressErrorStore);
                        }
                    },
                    _ => {
                        if psx.write::<u32>(write.addr, write.value).is_err() {
                            self.trigger_exception(psx, Exception::AddressErrorStore);
                        }
                    },
                }
                MEMORY_OP_DELAY
            },
        }
    }

    /// Runs a coprocessor instruction. Returns the cycles it takes.
    pub fn exec_cop(&mut self, psx: &mut PSX, instr: Instruction) -> (r: u64)
        requires
            spec_class(instr) is Machine,
            !unimplemented_cop(instr),
        ensures
            cop_done(*old(psx), *old(self), *final(psx), *final(self), instr, r),
            r >= DEFAULT_DELAY,
    {
        match instr.op() {
            Some(super::instr::Opcode::SWC0) | Some(super::instr::Opcode::SWC1) | Some(
                super::instr::Opcode::SWC2,
            ) | Some(super::instr::Opcode::SWC3) => self.swc(psx, instr),
            _ => {
                if instr.cop_cmd() {
                    match instr.cop0_special_op() {
                        Some(SpecialCop0Opcode::RFE) => self.rfe(psx),
                        None => DEFAULT_DELAY,
                    }
                } else {
                    match instr.cop_op() {
                        Some(CopOpcode::MTC) => self.mtc(psx, instr),
                        _ => self.mfc(psx, instr),
                    }
                }
            },
        }
    }

    /// Runs the current instruction `instr`: executes it on the registers, then takes its
    /// exception, does its load or store, or runs its coprocessor operation. Returns the cycles
    /// it takes.
    pub fn run_instr(&mut self, psx: &mut PSX, instr: Instruction) -> (r: u64)
        requires
            old(psx).wf(),
            instr_ok(*old(psx), *old(self), instr),
        ensures
            instr_run(*old(psx), *old(self), *final(psx), *final(self), instr, r),
            r >= DEFAULT_DELAY,
            final(psx).wf(),
    {
        let ghost p0 = *psx;
        let ghost i0 = *self;
        let (cycles, outcome) = self.exec(&mut psx.cpu.regs, instr);
        let ghost regs = psx.cpu.regs;
        let ghost mid = *self;
        assert(executed(p0.cpu.regs, regs, i0, mid, instr, (cycles, outcome)));
        assert(cycles >= DEFAULT_DELAY);
        assert(*psx == PSX { cpu: Cpu { regs, ..p0.cpu }, ..p0 });
        let r = match outcome {
            Outcome::Done => cycles,
            Outcome::Raise(e) => {
                self.trigger_exception(psx, e);
                cycles
            },
            Outcome::Read(read) => {
                self.complete_load(psx, read);
                cycles
            },
            Outcome::Write(write) => self.complete_store(psx, write),
            Outcome::Machine => self.exec_cop(psx, instr),
        };
        assert(instr_run(p0, i0, *psx, *self, instr, r));
        r
    }

    /// Takes the exception `exception` for the instruction at `address`, whose successor is at
    /// `delay_slot`.
    pub fn trigger_exception_at(
        &mut self,
        psx: &mut PSX,
        address: u32,
        delay_slot: u32,
        exception: Exception,
    )
        ensures
            exception_taken(
                *old(psx),
                *old(self),
                old(psx).cop0.regs@,
                *final(psx),
                *final(self),
                address,
                delay_slot,
                exception,
            ),
    {
        let in_branch_delay = address.wrapping_add(4) != delay_slot;
        let epc = if in_branch_delay {
            address.wrapping_sub(4)
        } else {
            address
        };
        let status = psx.cop0.system_status();
        psx.cop0.start_exception(exception, in_branch_delay, epc);
        psx.cpu.delay_instr = Instruction(0);
        self.delay_slot = self.current_addr;
        let handler: u32 = if status & 0x40_0000 != 0 {
            0xBFC0_0180
        } else {
            0x8000_0080
        };
        psx.cpu.regs.write_pc(handler);
    }

    /// Takes the exception `exception` for the current instruction.
    pub fn trigger_exception(&mut self, psx: &mut PSX, exception: Exception)
        ensures
            raised(*old(psx), *old(self), *final(psx), *final(self), exception),
    {
        let address = self.current_addr.0;
        let delay_slot = self.delay_slot.0;
        self.trigger_exception_at(psx, address, delay_slot, exception);
    }

    /// Records in the cause register whether an interrupt is requested, and takes it if the
    /// status register lets it through. Returns whether it was taken.
    pub fn check_interrupts(&mut self, psx: &mut PSX) -> (r: bool)
        ensures
            interrupts_checked(*old(psx), *old(self), *final(psx), *final(self), r),
    {
        let masked = psx.interrupts.status.mask(&psx.interrupts.mask);
        let requested = masked.requested();
        proof {
            crate::interrupts::law_requested_is_lowest_pending(masked);
        }
        let pending = match requested {
            Some(_) => true,
            None => false,
        };
        assert(pending == interrupt_requested(*old(psx))) by {
            if lowest_set(masked.0, 0) is Some {
                let j = lowest_set(masked.0, 0).unwrap();
                assert(j < 11);
                assert(Interrupt::spec_from_index(j) is Some);
            }
        }
        psx.cop0.set_system_interrupt_pending(pending);
        if pending {
            if !psx.cop0.interrupts_enabled() {
                return false;
            }
            self.trigger_exception(psx, Exception::Interrupt);
            true
        } else {
            false
        }
    }

    /// `MTC`: the coprocessor register takes the value of `rt`. A write to `COP0` lands after
    /// the next instruction; other coprocessors ignore it when enabled, and raise
    /// [`Exception::CopUnusable`] when not.
    pub fn mtc(&mut self, psx: &mut PSX, instr: Instruction) -> (r: u64)
        ensures
            r == DEFAULT_DELAY,
            instr.spec_cop() == COP::COP0 ==> *final(self) == *old(self) && *final(psx) == (PSX {
                cop0: Cop0 {
                    load_delay_slot: Some(
                        RegLoad {
                            reg: instr.spec_rd(),
                            value: old(psx).cpu.regs.spec_read(instr.spec_rt()),
                        },
                    ),
                    ..old(psx).cop0
                },
                ..*old(psx)
            }),
            instr.spec_cop() != COP::COP0 && spec_cop_enabled(
                old(psx).cop0.sr(),
                cop_number(instr.spec_cop()),
            ) ==> *final(self) == *old(self) && *final(psx) == *old(psx),
            instr.spec_cop() != COP::COP0 && !spec_cop_enabled(
                old(psx).cop0.sr(),
                cop_number(instr.spec_cop()),
            ) ==> raised(*old(psx), *old(self), *final(psx), *final(self), Exception::CopUnusable),
    {
        let rt = psx.cpu.regs.read(instr.rt());
        let status = psx.cop0.system_status();
        match instr.cop() {
            COP::COP0 => {
                psx.cop0.load_delay_slot = Some(RegLoad { reg: instr.rd(), value: rt });
            },
            COP::COP1 if (status >> 29u32) & 1 == 1 => {},
            COP::COP2 if (status >> 30u32) & 1 == 1 => {},
            COP::COP3 if (status >> 31u32) & 1 == 1 => {},
            _ => self.trigger_exception(psx, Exception::CopUnusable),
        }
        DEFAULT_DELAY
    }

    /// `MFC`: `rt` takes the coprocessor register after the next instruction. `COP0` gives its
    /// register, an enabled `COP2` gives zero, other enabled coprocessors do nothing, and a
    /// disabled one raises [`Exception::CopUnusable`].
    pub fn mfc(&mut self, psx: &mut PSX, instr: Instruction) -> (r: u64)
        ensures
            r == DEFAULT_DELAY,
            (instr.spec_cop() == COP::COP0 || (instr.spec_cop() == COP::COP2 && spec_cop_enabled(
                old(psx).cop0.sr(),
                2,
            ))) ==> *final(psx) == *old(psx) && *final(self) == (Interpreter {
                pending_load: cancelled(old(self).pending_load, instr.spec_rt()),
                load_delay_slot: Some(
                    RegLoad {
                        reg: instr.spec_rt(),
                        value: if instr.spec_cop() == COP::COP0 {
                            old(psx).cop0.regs@[instr.spec_rd().spec_index() as int]
                        } else {
                            0
                        },
                    },
                ),
                ..*old(self)
            }),
            (instr.spec_cop() == COP::COP1 || instr.spec_cop() == COP::COP3) && spec_cop_enabled(
                old(psx).cop0.sr(),
                cop_number(instr.spec_cop()),
            ) ==> *final(psx) == *old(psx) && *final(self) == *old(self),
            instr.spec_cop() != COP::COP0 && !spec_cop_enabled(
                old(psx).cop0.sr(),
                cop_number(instr.spec_cop()),
            ) ==> raised(*old(psx), *old(self), *final(psx), *final(self), Exception::CopUnusable),
    {
        let status = psx.cop0.system_status();
        let value = match instr.cop() {
            COP::COP0 => psx.cop0.read(instr.rd()),
            COP::COP1 if (status >> 29u32) & 1 == 1 => return DEFAULT_DELAY,
            COP::COP2 if (status >> 30u32) & 1 == 1 => 0,
            COP::COP3 if (status >> 31u32) & 1 == 1 => return DEFAULT_DELAY,
            _ => {
                self.trigger_exception(psx, Exception::CopUnusable);
                return DEFAULT_DELAY;
            },
        };
        self.cancel_load(instr.rt());
        self.load_delay_slot = Some(RegLoad { reg: instr.rt(), value });
        DEFAULT_DELAY
    }

    /// `RFE`: returns from an exception, moving the status stack down.
    pub fn rfe(&mut self, psx: &mut PSX) -> (r: u64)
        ensures
            r == DEFAULT_DELAY,
            *final(self) == *old(self),
            *final(psx) == (PSX { cop0: Cop0 { regs: final(psx).cop0.regs, ..old(psx).cop0 }, ..*old(psx) }),
            final(psx).cop0.regs@ == old(psx).cop0.regs@.update(
                SR as int,
                super::cop0::restored_from_exception(old(psx).cop0.sr()),
            ),
    {
        psx.cop0.restore_from_exception();
        DEFAULT_DELAY
    }

    /// `SWC`: a store from a coprocessor. The CPU keeps no coprocessor data to store, so an
    /// enabled coprocessor stores nothing, and a disabled one raises
    /// [`Exception::CopUnusable`].
    pub fn swc(&mut self, psx: &mut PSX, instr: Instruction) -> (r: u64)
        ensures
            r == MEMORY_OP_DELAY,
            spec_cop_enabled(old(psx).cop0.sr(), cop_number(instr.spec_cop())) ==> *final(psx)
                == *old(psx) && *final(self) == *old(self),
            !spec_cop_enabled(old(psx).cop0.sr(), cop_number(instr.spec_cop())) ==> raised(
                *old(psx),
                *old(self),
                *final(psx),
                *final(self),
                Exception::CopUnusable,
            ),
    {
        let status = psx.cop0.system_status();
        let bit: u32 = match instr.cop() {
            COP::COP0 => 28,
            COP::COP1 => 29,
            COP::COP2 => 30,
            COP::COP3 => 31,
        };
        if (status >> bit) & 1 != 1 {
            self.trigger_exception(psx, Exception::CopUnusable);
        }
        MEMORY_OP_DELAY
    }
}

/// Returns whether an access at `addr` reaches the IO ports.
pub fn reaches_io(addr: u32) -> (r: bool)
    ensures
        r == (spec_access(addr) == Access::IoPorts),
{
    if addr >= 0xC000_0000 {
        return false;
    }
    let p = addr % 0x2000_0000;
    0x1F80_1000 <= p && p < 0x1F80_3000
}

/// Returns whether a read at `addr` is possible on `psx`.
pub fn can_read(psx: &PSX, addr: u32) -> (r: bool)
    ensures
        r == psx.read_allowed(addr),
{
    if !reaches_io(addr) {
        return true;
    }
    match crate::mem::io::Reg::reg_and_offset(Address(addr)) {
        Some((reg, offset)) => match reg {
            crate::mem::io::Reg::Cdrom2 => false,
            crate::mem::io::Reg::Cdrom1 => psx.cdrom.result_queue.len() > 0,
            crate::mem::io::Reg::Timer1Value | crate::mem::io::Reg::Timer1Mode
            | crate::mem::io::Reg::Timer1Target | crate::mem::io::Reg::Timer2Value
            | crate::mem::io::Reg::Timer2Mode | crate::mem::io::Reg::Timer2Target => offset < 3,
            _ => true,
        },
        None => true,
    }
}

/// Returns whether a write at `addr` is possible.
pub fn can_write(addr: u32) -> (r: bool)
    ensures
        r == PSX::write_allowed(addr),
{
    if !reaches_io(addr) {
        return true;
    }
    match crate::mem::io::Reg::reg_and_offset(Address(addr)) {
        Some((reg, offset)) => match reg {
            crate::mem::io::Reg::Timer1Value | crate::mem::io::Reg::Timer1Mode
            | crate::mem::io::Reg::Timer1Target | crate::mem::io::Reg::Timer2Value
            | crate::mem::io::Reg::Timer2Mode | crate::mem::io::Reg::Timer2Target => offset < 3,
            _ => true,
        },
        None => true,
    }
}

/// Returns whether every byte of an unaligned access at `addr` can be read on `psx` (`reads`)
/// or written (not `reads`).
fn unaligned_ok(psx: &PSX, addr: u32, left: bool, reads: bool) -> (r: bool)
    ensures
        reads ==> r == unaligned_readable(*psx, addr, left),
        !reads ==> r == forall|k: int|
            0 <= k < unaligned_len(addr, left) ==> PSX::write_allowed(
                #[trigger] unaligned_addr(addr, left, k),
            ),
{
    let len: u32 = if left {
        addr % 4 + 1
    } else {
        4 - addr % 4
    };
    let mut k: u32 = 0;
    while k < len
        invariant
            k <= len,
            len == unaligned_len(addr, left),
            reads ==> forall|j: int| 0 <= j < k ==> psx.read_allowed(#[trigger] unaligned_addr(addr, left, j)),
            !reads ==> forall|j: int|
                0 <= j < k ==> PSX::write_allowed(#[trigger] unaligned_addr(addr, left, j)),
        decreases len - k,
    {
        let a = if left {
            addr - k
        } else {
            addr + k
        };
        assert(a == unaligned_addr(addr, left, k as int));
        let ok = if reads {
            can_read(psx, a)
        } else {
            can_write(a)
        };
        if !ok {
            return false;
        }
        k += 1;
    }
    true
}

impl Interpreter {
    /// Returns whether an instruction cycle can run on `psx` (see [`cycle_ok`]): the callers
    /// of [`Interpreter::exec_next`] check it first.
    pub fn can_exec_next(&self, psx: &PSX) -> (r: bool)
        ensures
            r == cycle_ok(*psx, *self),
    {
        let m = &psx.memory;
        if !(m.ram.len() == 0x20_0000 && m.expansion_1.len() == 0x80_0000 && m.scratchpad.len()
            == 0x400 && m.io_stubs.len() == 0x2000 && m.expansion_2.len() == 0x2000
            && m.expansion_3.len() == 0x20_0000 && m.bios.len() == 0x40_0000) {
            return false;
        }
        if self.delay_slot.0 == 0x8003_0000 {
            if let Some(exe) = &psx.memory.sideload {
                let dest = exe.header.destination.0;
                return dest < 0xC000_0000 && (dest % 0x2000_0000) as u64
                    + exe.header.length as u64 <= m.ram.len() as u64 && exe.program.len() as u64
                    == exe.header.length as u64;
            }
        }
        let instr = psx.cpu.delay_instr;
        let class = Self::class(instr);
        if let Class::Machine(_) = class {
            let swc = match instr.op() {
                Some(super::instr::Opcode::SWC0) | Some(super::instr::Opcode::SWC1) | Some(
                    super::instr::Opcode::SWC2,
                ) | Some(super::instr::Opcode::SWC3) => true,
                _ => false,
            };
            if !swc && !instr.cop_cmd() {
                match instr.cop_op() {
                    Some(CopOpcode::CFC) | Some(CopOpcode::CTC) | Some(CopOpcode::BRANCH) => {
                        return false;
                    },
                    _ => {},
                }
            }
        }
        let a = Self::mem_addr(instr, &psx.cpu.regs).0;
        match class {
            Class::Load(LoadKind::WordLeft) => unaligned_ok(psx, a, true, true),
            Class::Load(LoadKind::WordRight) => unaligned_ok(psx, a, false, true),
            Class::Load(_) => can_read(psx, a),
            Class::Store(StoreWidth::WordLeft) => unaligned_ok(psx, a, true, false),
            Class::Store(StoreWidth::WordRight) => unaligned_ok(psx, a, false, false),
            Class::Store(_) => can_write(a),
            _ => true,
        }
    }
}

} // verus!
