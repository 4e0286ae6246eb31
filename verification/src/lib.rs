//! Verified core of the shimmer PSX emulator: CPU, GTE, memory map and peripheral state.

pub mod bits;
pub mod cdrom;
pub mod cpu;
pub mod dma;
pub mod exe;
pub mod gpu;
pub mod gte;
pub mod interrupts;
pub mod kernel;
pub mod mem;
pub mod psx;
pub mod run;
pub mod scheduler;
pub mod sio0;
pub mod timers;

use vstd::prelude::*;

verus! {

/// A number of CPU cycles.
pub type Cycles = u64;

/// The CPU cycles in a second.
pub const CYCLES_SECOND: u64 = 33_870_000;

/// The CPU cycles in a millisecond, rounded down.
pub const CYCLES_MILLIS: u64 = CYCLES_SECOND / 1000;

/// The CPU cycles in a microsecond, rounded down.
pub const CYCLES_MICROS: u64 = CYCLES_MILLIS / 1000;

} // verus!
