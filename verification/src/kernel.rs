//! Items related to the kernel of the PSX.
use vstd::prelude::*;

verus! {

/// A kernel function.
#[derive(Debug, Clone, Copy, PartialEq, Eq, Structural)]
pub enum Function {
    AddCDROMDevice,
    AddDrv,
    AddMemCardDevice,
    AddNullconDriver,
    AdjustA0Table,
    AllocKernelMemory,
    BZero,
    ChangeClearPAD,
    ChangeClearRCnt,
    CharToUpper,
    CloseEvent,
    DeliverEvent,
    DequeueCdIntr,
    DequeueInterruptRP,
    EnableEvent,
    EnqueueInterruptRP,
    EnqueueSyscallHandler,
    EnqueueTimerAndVblankIrqs,
    FlushCache,
    HookEntryInt,
    InitDefInt,
    InitHeap,
    InitPad2,
    InstallDevices,
    InstallExceptionHandlers,
    Malloc,
    Memcpy,
    OpenEvent,
    Printf,
    PutChar,
    Rand,
    Remove96,
    ResetEntryInt,
    ReturnFromException,
    SendGpuCommandWord,
    SetJmp,
    StartPad2,
    Strcmp,
    Strlen,
    Strncat,
    SysInitMemory,
    TestEvent,
    Write,
}

/// The kernel function reached through the `0xA0` table with the given code.
pub open spec fn spec_a0(code: u8) -> Option<Function> {
    if code == 0x03 { Some(Function::Write) }
    else if code == 0x13 { Some(Function::SetJmp) }
    else if code == 0x16 { Some(Function::Strncat) }
    else if code == 0x17 { Some(Function::Strcmp) }
    else if code == 0x1B { Some(Function::Strlen) }
    else if code == 0x25 { Some(Function::CharToUpper) }
    else if code == 0x28 { Some(Function::BZero) }
    else if code == 0x2A { Some(Function::Memcpy) }
    else if code == 0x2F { Some(Function::Rand) }
    else if code == 0x33 { Some(Function::Malloc) }
    else if code == 0x39 { Some(Function::InitHeap) }
    else if code == 0x3B { Some(Function::PutChar) }
    else if code == 0x3F { Some(Function::Printf) }
    else if code == 0x44 { Some(Function::FlushCache) }
    else if code == 0x49 { Some(Function::SendGpuCommandWord) }
    else if code == 0x56 || code == 0x72 { Some(Function::Remove96) }
    else if code == 0x96 { Some(Function::AddCDROMDevice) }
    else if code == 0x97 { Some(Function::AddMemCardDevice) }
    else if code == 0x99 { Some(Function::AddNullconDriver) }
    else if code == 0xA3 { Some(Function::DequeueCdIntr) }
    else { None }
}

/// The kernel function reached through the `0xB0` table with the given code.
pub open spec fn spec_b0(code: u8) -> Option<Function> {
    if code == 0x00 { Some(Function::AllocKernelMemory) }
    else if code == 0x07 { Some(Function::DeliverEvent) }
    else if code == 0x08 { Some(Function::OpenEvent) }
    else if code == 0x09 { Some(Function::CloseEvent) }
    else if code == 0x0B { Some(Function::TestEvent) }
    else if code == 0x0C { Some(Function::EnableEvent) }
    else if code == 0x12 { Some(Function::InitPad2) }
    else if code == 0x13 { Some(Function::StartPad2) }
    else if code == 0x17 { Some(Function::ReturnFromException) }
    else if code == 0x18 { Some(Function::ResetEntryInt) }
    else if code == 0x19 { Some(Function::HookEntryInt) }
    else if code == 0x35 { Some(Function::Write) }
    else if code == 0x3D { Some(Function::PutChar) }
    else if code == 0x47 { Some(Function::AddDrv) }
    else if code == 0x5B { Some(Function::ChangeClearPAD) }
    else { None }
}

/// The kernel function reached through the `0xC0` table with the given code.
pub open spec fn spec_c0(code: u8) -> Option<Function> {
    if code == 0x00 { Some(Function::EnqueueTimerAndVblankIrqs) }
    else if code == 0x01 { Some(Function::EnqueueSyscallHandler) }
    else if code == 0x02 { Some(Function::EnqueueInterruptRP) }
    else if code == 0x03 { Some(Function::DequeueInterruptRP) }
    else if code == 0x07 { Some(Function::InstallExceptionHandlers) }
    else if code == 0x08 { Some(Function::SysInitMemory) }
    else if code == 0x0A { Some(Function::ChangeClearRCnt) }
    else if code == 0x0C { Some(Function::InitDefInt) }
    else if code == 0x12 { Some(Function::InstallDevices) }
    else if code == 0x1C { Some(Function::AdjustA0Table) }
    else { None }
}

/// The number of arguments the kernel function `f` takes.
pub open spec fn spec_args(f: Function) -> usize {
    match f {
        Function::AddDrv => 1,
        Function::AllocKernelMemory => 1,
        Function::BZero => 2,
        Function::ChangeClearPAD => 1,
        Function::ChangeClearRCnt => 2,
        Function::CharToUpper => 1,
        Function::CloseEvent => 1,
        Function::DeliverEvent => 1,
        Function::DequeueInterruptRP => 2,
        Function::EnableEvent => 1,
        Function::EnqueueInterruptRP => 2,
        Function::EnqueueSyscallHandler => 1,
        Function::EnqueueTimerAndVblankIrqs => 1,
        Function::HookEntryInt => 1,
        Function::InitDefInt => 1,
        Function::InitHeap => 2,
        Function::InitPad2 => 4,
        Function::InstallDevices => 1,
        Function::Malloc => 1,
        Function::Memcpy => 3,
        Function::OpenEvent => 4,
        Function::Printf => 4,
        Function::PutChar => 1,
        Function::SendGpuCommandWord => 1,
        Function::SetJmp => 1,
        Function::Strcmp => 2,
        Function::Strlen => 1,
        Function::Strncat => 3,
        Function::SysInitMemory => 2,
        Function::TestEvent => 1,
        Function::Write => 3,
        _ => 0,
    }
}

impl Function {
    /// Returns the kernel function that is executed when called through `0xA0` with the given
    /// function code, if any.
    pub fn a0(code: u8) -> (r: Option<Self>)
        ensures
            r == spec_a0(code),
    {
        match code {
            0x03 => Some(Self::Write),
            0x13 => Some(Self::SetJmp),
            0x16 => Some(Self::Strncat),
            0x17 => Some(Self::Strcmp),
            0x1B => Some(Self::Strlen),
            0x25 => Some(Self::CharToUpper),
            0x28 => Some(Self::BZero),
            0x2A => Some(Self::Memcpy),
            0x2F => Some(Self::Rand),
            0x33 => Some(Self::Malloc),
            0x39 => Some(Self::InitHeap),
            0x3B => Some(Self::PutChar),
            0x3F => Some(Self::Printf),
            0x44 => Some(Self::FlushCache),
            0x49 => Some(Self::SendGpuCommandWord),
            0x56 | 0x72 => Some(Self::Remove96),
            0x96 => Some(Self::AddCDROMDevice),
            0x97 => Some(Self::AddMemCardDevice),
            0x99 => Some(Self::AddNullconDriver),
            0xA3 => Some(Self::DequeueCdIntr),
            _ => None,
        }
    }

    /// Returns the kernel function that is executed when called through `0xB0` with the given
    /// function code, if any.
    pub fn b0(code: u8) -> (r: Option<Self>)
        ensures
            r == spec_b0(code),
    {
        match code {
            0x00 => Some(Self::AllocKernelMemory),
            0x07 => Some(Self::DeliverEvent),
            0x08 => Some(Self::OpenEvent),
            0x09 => Some(Self::CloseEvent),
            0x0B => Some(Self::TestEvent),
            0x0C => Some(Self::EnableEvent),
            0x12 => Some(Self::InitPad2),
            0x13 => Some(Self::StartPad2),
            0x17 => Some(Self::ReturnFromException),
            0x18 => Some(Self::ResetEntryInt),
            0x19 => Some(Self::HookEntryInt),
            0x35 => Some(Self::Write),
            0x3D => Some(Self::PutChar),
            0x47 => Some(Self::AddDrv),
            0x5B => Some(Self::ChangeClearPAD),
            _ => None,
        }
    }

    /// Returns the kernel function that is executed when called through `0xC0` with the given
    /// function code, if any.
    pub fn c0(code: u8) -> (r: Option<Self>)
        ensures
            r == spec_c0(code),
    {
        match code {
            0x00 => Some(Self::EnqueueTimerAndVblankIrqs),
            0x01 => Some(Self::EnqueueSyscallHandler),
            0x02 => Some(Self::EnqueueInterruptRP),
            0x03 => Some(Self::DequeueInterruptRP),
            0x07 => Some(Self::InstallExceptionHandlers),
            0x08 => Some(Self::SysInitMemory),
            0x0A => Some(Self::ChangeClearRCnt),
            0x0C => Some(Self::InitDefInt),
            0x12 => Some(Self::InstallDevices),
            0x1C => Some(Self::AdjustA0Table),
            _ => None,
        }
    }

    /// Returns the amount of arguments required by this function.
    pub fn args(&self) -> (r: usize)
        ensures
            r == spec_args(*self),
    {
        match self {
            Self::AddDrv => 1,
            Self::AllocKernelMemory => 1,
            Self::BZero => 2,
            Self::ChangeClearPAD => 1,
            Self::ChangeClearRCnt => 2,
            Self::CharToUpper => 1,
            Self::CloseEvent => 1,
            Self::DeliverEvent => 1,
            Self::DequeueInterruptRP => 2,
            Self::EnableEvent => 1,
            Self::EnqueueInterruptRP => 2,
            Self::EnqueueSyscallHandler => 1,
            Self::EnqueueTimerAndVblankIrqs => 1,
            Self::HookEntryInt => 1,
            Self::InitDefInt => 1,
            Self::InitHeap => 2,
            Self::InitPad2 => 4,
            Self::InstallDevices => 1,
            Self::Malloc => 1,
            Self::Memcpy => 3,
            Self::OpenEvent => 4,
            Self::Printf => 4,
            Self::PutChar => 1,
            Self::SendGpuCommandWord => 1,
            Self::SetJmp => 1,
            Self::Strcmp => 2,
            Self::Strlen => 1,
            Self::Strncat => 3,
            Self::SysInitMemory => 2,
            Self::TestEvent => 1,
            Self::Write => 3,
            _ => 0,
        }
    }
}

/// The kernel function called by a jump to `addr` with the function code `code` (register
/// `R9`): `None` where `addr` is none of the call vectors `0xA0`, `0xB0` and `0xC0`, else the
/// function of the code in that vector's table, if it has one.
pub open spec fn spec_called_at(addr: u32, code: u32) -> Option<Option<Function>> {
    if addr == 0xA0 {
        Some(spec_a0(code as u8))
    } else if addr == 0xB0 {
        Some(spec_b0(code as u8))
    } else if addr == 0xC0 {
        Some(spec_c0(code as u8))
    } else {
        None
    }
}

impl Function {
    /// Returns the kernel function called by executing the instruction at `addr` with the
    /// function code `code` (register `R9`): `None` where `addr` is no call vector, `Some(None)`
    /// for a code the vector's table does not know.
    pub fn called_at(addr: u32, code: u32) -> (r: Option<Option<Function>>)
        ensures
            r == spec_called_at(addr, code),
    {
        if addr == 0xA0 {
            Some(Function::a0(code as u8))
        } else if addr == 0xB0 {
            Some(Function::b0(code as u8))
        } else if addr == 0xC0 {
            Some(Function::c0(code as u8))
        } else {
            None
        }
    }
}

} // verus!
