# shimmer

A PlayStation (PSX) emulator core whose logic is verified with Verus: each function of the
library states in its contract what it does, over mathematical models of the machine state, and
Verus proves the code against it.

## Layout

- `src/` — the verified library.
  - `psx.rs`: the machine state and its bus (where each memory access goes, what it reads or
    changes, the IO registers).
  - `mem.rs`, `mem/`: memory regions, addresses, primitives and their byte layout, IO register
    lookup.
  - `cpu.rs`, `cpu/`: the R3000 registers, instruction decoding and the instruction effects; the
    instruction cycle (`cpu/cycle.rs`: fetch, branch and load delay slots, loads and stores
    through the bus, exceptions, interrupts, sideloading an executable); the system control
    coprocessor (`cpu/cop0.rs`); the GTE instructions.
  - `gte.rs`, `gte/`: the geometry transformation engine registers, fixed point helpers and
    instruction decoding.
  - `gpu.rs`, `gpu/`: GPU registers, command decoding, the command interpreter and the commands it
    hands to a renderer.
  - `dma.rs`, `dma/executor.rs`: DMA registers and the executor that arbitrates between channels
    and moves their data.
  - `cdrom.rs`, `cdrom/drive.rs`: CDROM controller registers and the drive state machine.
  - `interrupts.rs`, `scheduler.rs`, `sio0.rs`, `timers.rs`, `kernel.rs`, `exe.rs`, `bits.rs`:
    interrupt controller, event scheduler, serial port, the timers (their registers and how they
    tick; `timers/driver.rs` processes their events), kernel functions, executables and bit fields.
  - `run.rs`: running the CPU until the next scheduled event, stalling it during DMA transfers.
- `tests/` — tests of the library on concrete values.
- `app/` — the program around the library: arguments, files, the disc image, the renderer and
  the event loop, which advances the time by what a run of the CPU took and processes the events
  that fall due, checking each library call's precondition (`can_update`, `can_accept`,
  `can_exec_display`, `can_advance`, the time bounds) before making it.

## Scope

- The system control coprocessor follows the R3000 layout: status register 12 (interrupt
  enable/mode stack in bits 0..6, interrupt mask bit 10 for the system interrupt, boot exception
  vectors bit 22), cause register 13 (exception code in bits 2..6, pending system interrupt bit
  10, branch delay bit 31) and exception program counter 14; it starts cleared.
- Timer modes follow the PSX hardware: synchronisation (bits 0..2), reset at target (bit 3),
  interrupt on target and on `0xFFFF` (bits 4, 5), repeat and toggle (bits 6, 7), clock source
  (bits 8, 9), interrupt flag (bit 10), reached flags (bits 11, 12). Timer 0 is not ticked.
- Coprocessor control register moves (`CFC`, `CTC`) and the `COP` operations of coprocessors
  other than 0 are not implemented: the instruction cycle does not accept them.
- Instructions are fetched through the bus, from the IO ports too, and unaligned loads and
  stores (`LWL`, `LWR`, `SWL`, `SWR`) go through the bus byte by byte. Reads and writes the bus
  does not handle (CDROM register 2, register 1 with no result, the last byte of a timer
  register) are refused: the instruction cycle does not accept an instruction that makes one.
