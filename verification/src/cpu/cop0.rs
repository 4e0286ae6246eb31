//! The system control coprocessor (COP0): the status, cause and exception return registers the
//! CPU uses to take exceptions and interrupts.
//!
//! The register layout follows the R3000A: the status register (12) holds the stack of
//! interrupt enable and mode bits in bits 0..6, the interrupt mask in bits 8..16, the cache
//! isolation in bit 16, the boot exception vectors in bit 22 and the coprocessor enables in
//! bits 28..32; the cause register (13) holds the exception code in bits 2..7, the pending
//! interrupts in bits 8..16 and the branch delay flag in bit 31; the exception program counter
//! is register 14.
use super::interpreter::Exception;
use super::{Reg, RegLoad};
use vstd::prelude::*;

verus! {

/// The index of the status register.
pub const SR: usize = 12;

/// The index of the cause register.
pub const CAUSE: usize = 13;

/// The index of the exception program counter.
pub const EPC: usize = 14;

/// The exception code the cause register holds for `e`.
pub open spec fn spec_exception_code(e: Exception) -> u32 {
    match e {
        Exception::Interrupt => 0x00,
        Exception::AddressErrorLoad => 0x04,
        Exception::AddressErrorStore => 0x05,
        Exception::BusErrorInstruction => 0x06,
        Exception::Syscall => 0x08,
        Exception::Breakpoint => 0x09,
        Exception::CopUnusable => 0x0B,
        Exception::ArithmeticOverflow => 0x0C,
    }
}

/// Returns the exception code the cause register holds for `e`.
pub fn exception_code(e: Exception) -> (r: u32)
    ensures
        r == spec_exception_code(e),
{
    match e {
        Exception::Interrupt => 0x00,
        Exception::AddressErrorLoad => 0x04,
        Exception::AddressErrorStore => 0x05,
        Exception::BusErrorInstruction => 0x06,
        Exception::Syscall => 0x08,
        Exception::Breakpoint => 0x09,
        Exception::CopUnusable => 0x0B,
        Exception::ArithmeticOverflow => 0x0C,
    }
}

/// The status register once an exception starts: the interrupt enable and mode stack (bits
/// 0..6) moves up by two bits, which leaves interrupts disabled in kernel mode.
pub open spec fn started_exception(sr: u32) -> u32 {
    (sr & 0xFFFF_FFC0) | ((sr << 2u32) & 0x3F)
}

/// The status register once an exception returns: the stack moves down by two bits, keeping
/// its oldest entry.
pub open spec fn restored_from_exception(sr: u32) -> u32 {
    (sr & 0xFFFF_FFF0) | ((sr >> 2u32) & 0xF)
}

/// The cause register describing `code`, in a branch delay slot or not.
pub open spec fn caused(cause: u32, code: u32, branch_delay: bool) -> u32 {
    (cause & 0x7FFF_FF83) | ((code & 0x1F) << 2u32) | (if branch_delay {
        0x8000_0000u32
    } else {
        0
    })
}

/// The cause register with the pending system interrupt flag (bit 10) set or cleared.
pub open spec fn interrupt_pending(cause: u32, pending: bool) -> u32 {
    if pending {
        cause | 0x400
    } else {
        cause & 0xFFFF_FBFF
    }
}

/// Whether the status register lets system interrupts through: interrupts enabled (bit 0)
/// and the system interrupt line unmasked (bit 10).
pub open spec fn spec_interrupts_enabled(sr: u32) -> bool {
    sr & 1 == 1 && sr & 0x400 != 0
}

/// Whether the status register asks for the boot exception vectors (bit 22).
pub open spec fn spec_boot_vectors(sr: u32) -> bool {
    sr & 0x40_0000 != 0
}

/// Whether the status register isolates the cache (bit 16), so that stores do not reach memory.
pub open spec fn spec_isolate_cache(sr: u32) -> bool {
    sr & 0x1_0000 != 0
}

/// Whether the status register enables coprocessor `n` (bit `28 + n`), for `n` from 1 to 3.
pub open spec fn spec_cop_enabled(sr: u32, n: u32) -> bool {
    (sr >> ((28 + n) as u32)) & 1 == 1
}

/// The state of the system control coprocessor.
#[derive(Debug, Clone, Copy)]
pub struct Cop0 {
    /// The registers, by index.
    pub regs: [u32; 32],
    /// A write to a register by `MTC0`, which lands after the next instruction.
    pub load_delay_slot: Option<RegLoad>,
}

impl Default for Cop0 {
    /// Every register cleared and no pending write.
    fn default() -> (r: Self)
        ensures
            r.regs@ == Seq::new(32, |_i: int| 0u32),
            r.load_delay_slot is None,
    {
        let r = Cop0 { regs: [0; 32], load_delay_slot: None };
        assert(r.regs@ =~= Seq::new(32, |_i: int| 0u32));
        r
    }
}

impl Cop0 {
    /// The status register.
    pub open spec fn sr(&self) -> u32 {
        self.regs@[SR as int]
    }

    /// The cause register.
    pub open spec fn cause(&self) -> u32 {
        self.regs@[CAUSE as int]
    }

    /// Returns the register `reg`.
    pub fn read(&self, reg: Reg) -> (r: u32)
        ensures
            r == self.regs@[reg.spec_index() as int],
    {
        self.regs[reg.index()]
    }

    /// Sets the register `reg` to `value`.
    pub fn write(&mut self, reg: Reg, value: u32)
        ensures
            final(self).regs@ == old(self).regs@.update(reg.spec_index() as int, value),
            final(self).load_delay_slot == old(self).load_delay_slot,
    {
        self.regs[reg.index()] = value;
    }

    /// Returns the status register.
    pub fn system_status(&self) -> (r: u32)
        ensures
            r == self.sr(),
    {
        self.regs[SR]
    }

    /// Returns whether system interrupts are let through.
    pub fn interrupts_enabled(&self) -> (r: bool)
        ensures
            r == spec_interrupts_enabled(self.sr()),
    {
        let sr = self.regs[SR];
        sr & 1 == 1 && sr & 0x400 != 0
    }

    /// Starts an exception: the status stack moves up, and the cause register takes the code of
    /// `e` and whether it happened in a branch delay slot; the exception program counter takes
    /// `epc`.
    pub fn start_exception(&mut self, e: Exception, branch_delay: bool, epc: u32)
        ensures
            final(self).regs@ == old(self).regs@.update(EPC as int, epc).update(
                SR as int,
                started_exception(old(self).sr()),
            ).update(
                CAUSE as int,
                caused(old(self).cause(), spec_exception_code(e), branch_delay),
            ),
            final(self).load_delay_slot == old(self).load_delay_slot,
    {
        self.regs[EPC] = epc;
        let sr = self.regs[SR];
        self.regs[SR] = (sr & 0xFFFF_FFC0) | ((sr << 2u32) & 0x3F);
        let cause = self.regs[CAUSE];
        let code = exception_code(e);
        self.regs[CAUSE] = (cause & 0x7FFF_FF83) | ((code & 0x1F) << 2u32) | (if branch_delay {
            0x8000_0000u32
        } else {
            0
        });
    }

    /// Returns from an exception: the status stack moves down.
    pub fn restore_from_exception(&mut self)
        ensures
            final(self).regs@ == old(self).regs@.update(
                SR as int,
                restored_from_exception(old(self).sr()),
            ),
            final(self).load_delay_slot == old(self).load_delay_slot,
    {
        let sr = self.regs[SR];
        self.regs[SR] = (sr & 0xFFFF_FFF0) | ((sr >> 2u32) & 0xF);
    }

    /// Sets or clears the pending system interrupt flag of the cause register.
    pub fn set_system_interrupt_pending(&mut self, pending: bool)
        ensures
            final(self).regs@ == old(self).regs@.update(
                CAUSE as int,
                interrupt_pending(old(self).cause(), pending),
            ),
            final(self).load_delay_slot == old(self).load_delay_slot,
    {
        let cause = self.regs[CAUSE];
        self.regs[CAUSE] = if pending {
            cause | 0x400
        } else {
            cause & 0xFFFF_FBFF
        };
    }
}

} // verus!
