//! Items related to the timers of the PSX.
//!
//! The bits of a timer's mode register follow the hardware: synchronisation enable (0) and
//! mode (1..3), reset at the target (3), interrupt at the target (4) and at `0xFFFF` (5),
//! repeated interrupts (6), toggled interrupt flag (7), clock source (8..10), interrupt flag (10,
//! clear while an interrupt is requested), target reached (11) and `0xFFFF` reached (12).
pub mod driver;

use crate::interrupts::Interrupt;
use crate::psx::{scheduled_now, PSX};
use crate::scheduler::{self, ScheduledEvent};
use vstd::prelude::*;

verus! {

/// An event of the timers.
#[derive(Debug, Clone, Copy, PartialEq, Eq, Structural)]
pub enum Event {
    /// Configure the timers and start ticking them.
    Setup,
    /// Tick timer 1.
    Timer1,
    /// Tick timer 2.
    Timer2,
}

/// The registers of a timer, as raw values.
#[derive(Debug, Clone, Copy, Default, PartialEq, Eq, Structural)]
pub struct Timer {
    /// The current value of the counter.
    pub value: u16,
    /// The mode register.
    pub mode: u16,
    /// The target value of the counter.
    pub target: u16,
}

/// The state of the timers the bus gives access to.
#[derive(Debug, Clone, Copy, Default, PartialEq, Eq, Structural)]
pub struct Timers {
    pub timer1: Timer,
    pub timer2: Timer,
}

/// The CPU cycles of a scanline, the horizontal blank period timer 1 may count.
pub const CYCLES_SCANLINE: u64 = 2172;

/// Whether bit `i` of `mode` is set.
pub open spec fn mode_bit(mode: u16, i: u16) -> bool {
    (mode >> i) & 1 == 1
}

/// Whether a timer with interrupt flag settings `mode` can request an interrupt: in repeat
/// mode always, else only while no interrupt was requested (the flag is set).
pub open spec fn can_raise_irq(mode: u16) -> bool {
    mode_bit(mode, 6) || mode_bit(mode, 10)
}

/// The mode once an interrupt is requested: the flag toggles in toggle mode, and is cleared
/// (requested) in pulse mode.
pub open spec fn no_irq_updated(mode: u16) -> u16 {
    if mode_bit(mode, 7) {
        mode ^ 0x400
    } else {
        mode & 0xFBFF
    }
}

/// The timer after one tick, and whether it requests an interrupt.
///
/// The counter goes up by one, wrapping. At `0xFFFF` the reached flag is set and, if asked
/// for and allowed, an interrupt is requested. At the target the target flag is set and, if
/// asked for and allowed, an interrupt is requested; otherwise, if the counter was at the
/// target and resets there, it goes back to zero.
pub open spec fn ticked(t: Timer) -> (Timer, bool) {
    let value = ((t.value + 1) % 0x1_0000) as u16;
    let (mode, irq) = if value == 0xFFFF {
        let m = t.mode | 0x1000;
        if mode_bit(m, 5) && can_raise_irq(m) {
            (no_irq_updated(m), true)
        } else {
            (m, false)
        }
    } else {
        (t.mode, false)
    };
    if value == t.target {
        let m = mode | 0x800;
        if mode_bit(m, 4) && can_raise_irq(m) {
            (Timer { value, mode: no_irq_updated(m), ..t }, true)
        } else {
            (Timer { value, mode: m, ..t }, irq)
        }
    } else if t.value == t.target && mode_bit(mode, 3) {
        (Timer { value: 0, mode, ..t }, irq)
    } else {
        (Timer { value, mode, ..t }, irq)
    }
}

impl Timer {
    /// How many CPU cycles a tick of timer 1 takes: one with the system clock (sources 0 and 2),
    /// a scanline with the horizontal blank (sources 1 and 3).
    pub open spec fn spec_cycles_per_tick1(self) -> u64 {
        if mode_bit(self.mode, 8) {
            CYCLES_SCANLINE
        } else {
            1
        }
    }

    /// How many CPU cycles a tick of timer 2 takes: one with the system clock (sources 0 and 1),
    /// eight with the system clock divided by eight (sources 2 and 3).
    pub open spec fn spec_cycles_per_tick2(self) -> u64 {
        if mode_bit(self.mode, 9) {
            8
        } else {
            1
        }
    }

    /// Whether timer 1 counts: unless synchronised in a mode that waits for the vertical blank
    /// (2 and 3).
    pub open spec fn spec_should_tick1(self) -> bool {
        !(mode_bit(self.mode, 0) && mode_bit(self.mode, 2))
    }

    /// Whether timer 2 counts: unless synchronised in a mode that stops it (0 and 3).
    pub open spec fn spec_should_tick2(self) -> bool {
        !(mode_bit(self.mode, 0) && mode_bit(self.mode, 1) == mode_bit(self.mode, 2))
    }

    /// Returns how many CPU cycles a tick takes, for timer 1 (`first`) or timer 2.
    pub fn cycles_per_tick(&self, first: bool) -> (r: u64)
        ensures
            r == if first {
                self.spec_cycles_per_tick1()
            } else {
                self.spec_cycles_per_tick2()
            },
            r <= CYCLES_SCANLINE,
    {
        if first {
            if (self.mode >> 8u16) & 1 == 1 {
                CYCLES_SCANLINE
            } else {
                1
            }
        } else {
            if (self.mode >> 9u16) & 1 == 1 {
                8
            } else {
                1
            }
        }
    }

    /// Returns whether the timer counts, for timer 1 (`first`) or timer 2.
    pub fn should_tick(&self, first: bool) -> (r: bool)
        ensures
            r == if first {
                self.spec_should_tick1()
            } else {
                self.spec_should_tick2()
            },
    {
        let sync = (self.mode >> 0u16) & 1 == 1;
        let m1 = (self.mode >> 1u16) & 1 == 1;
        let m2 = (self.mode >> 2u16) & 1 == 1;
        if first {
            !(sync && m2)
        } else {
            !(sync && m1 == m2)
        }
    }

    /// Ticks the timer once, and returns whether it requests an interrupt: see [`ticked`].
    pub fn tick(&mut self) -> (r: bool)
        ensures
            (*final(self), r) == ticked(*old(self)),
    {
        let old_value = self.value;
        self.value = self.value.wrapping_add(1);
        let mut irq = false;
        if self.value == 0xFFFF {
            self.mode = self.mode | 0x1000;
            if (self.mode >> 5u16) & 1 == 1 && ((self.mode >> 6u16) & 1 == 1 || (self.mode
                >> 10u16) & 1 == 1) {
                self.mode = if (self.mode >> 7u16) & 1 == 1 {
                    self.mode ^ 0x400
                } else {
                    self.mode & 0xFBFF
                };
                irq = true;
            }
        }
        if self.value == self.target {
            self.mode = self.mode | 0x800;
            if (self.mode >> 4u16) & 1 == 1 && ((self.mode >> 6u16) & 1 == 1 || (self.mode
                >> 10u16) & 1 == 1) {
                self.mode = if (self.mode >> 7u16) & 1 == 1 {
                    self.mode ^ 0x400
                } else {
                    self.mode & 0xFBFF
                };
                irq = true;
            }
        } else if old_value == self.target && (self.mode >> 3u16) & 1 == 1 {
            self.value = 0;
        }
        irq
    }
}

/// Law: a timer that resets at its target (mode bit 3) goes back to zero on the tick after it
/// reached the target, and a counter at or below the target stays at or below it.
pub proof fn law_reset_at_target(t: Timer)
    requires
        (t.mode >> 3u16) & 1 == 1,
    ensures
        t.value == t.target ==> ticked(t).0.value == 0,
        t.value <= t.target ==> ticked(t).0.value <= t.target,
        ticked(t).0.target == t.target,
{
    law_tick(t);
}

/// Law: a tick counts the timer up by one, wrapping at `0x1_0000`, but from the target of a
/// timer that resets there (mode bit 3), which goes to zero. Reaching the target sets the target
/// reached flag (bit 11), reaching `0xFFFF` the `0xFFFF` reached flag (bit 12). A tick requests
/// an interrupt only where repeated interrupts (bit 6) or the interrupt flag (bit 10) allow it;
/// in pulse mode (bit 7 clear) the interrupt flag is then clear, and a tick that requests none
/// leaves it as it was. The target and the other mode bits stay.
pub proof fn law_tick(t: Timer)
    ensures
        ({
            let (n, irq) = ticked(t);
            &&& n.value == if t.value == t.target && mode_bit(t.mode, 3) {
                0
            } else {
                (t.value + 1) % 0x1_0000
            }
            &&& n.target == t.target
            &&& (t.value + 1) % 0x1_0000 == t.target ==> mode_bit(n.mode, 11)
            &&& (t.value + 1) % 0x1_0000 == 0xFFFF ==> mode_bit(n.mode, 12)
            &&& irq ==> mode_bit(t.mode, 6) || mode_bit(t.mode, 10)
            &&& irq && !mode_bit(t.mode, 7) ==> !mode_bit(n.mode, 10)
            &&& !irq ==> mode_bit(n.mode, 10) == mode_bit(t.mode, 10)
            &&& forall|i: u16|
                i < 10 ==> #[trigger] mode_bit(n.mode, i) == mode_bit(t.mode, i)
        }),
{
    let m0 = t.mode;
    let m1 = m0 | 0x1000;
    lemma_mode_bits(m0);
    lemma_mode_bits(m1);
    lemma_mode_bits(no_irq_updated(m1));
    let mode = if ((t.value + 1) % 0x1_0000) as u16 == 0xFFFF {
        if mode_bit(m1, 5) && can_raise_irq(m1) {
            no_irq_updated(m1)
        } else {
            m1
        }
    } else {
        m0
    };
    lemma_mode_bits(mode);
    lemma_mode_bits(mode | 0x800);
    lemma_mode_bits(no_irq_updated(mode | 0x800));
}

/// Proof of what setting the reached flags and updating the interrupt flag do to the bits of the
/// mode `m`: each sets, clears or flips its own bit and keeps the others.
proof fn lemma_mode_bits(m: u16)
    ensures
        forall|i: u16| i < 16 ==> #[trigger] mode_bit(m | 0x1000, i) == (i == 12 || mode_bit(m, i)),
        forall|i: u16| i < 16 ==> #[trigger] mode_bit(m | 0x800, i) == (i == 11 || mode_bit(m, i)),
        forall|i: u16|
            i < 16 ==> #[trigger] mode_bit(m ^ 0x400, i) == (if i == 10 {
                !mode_bit(m, i)
            } else {
                mode_bit(m, i)
            }),
        forall|i: u16| i < 16 ==> #[trigger] mode_bit(m & 0xFBFF, i) == (i != 10 && mode_bit(m, i)),
{
    assert forall|i: u16| i < 16 implies #[trigger] mode_bit(m | 0x1000, i) == (i == 12 || mode_bit(m, i)) by {
        lemma_mode_bit(m, i);
    }
    assert forall|i: u16| i < 16 implies #[trigger] mode_bit(m | 0x800, i) == (i == 11 || mode_bit(m, i)) by {
        lemma_mode_bit(m, i);
    }
    assert forall|i: u16| i < 16 implies #[trigger] mode_bit(m ^ 0x400, i) == (if i == 10 {
        !mode_bit(m, i)
    } else {
        mode_bit(m, i)
    }) by {
        lemma_mode_bit(m, i);
    }
    assert forall|i: u16| i < 16 implies #[trigger] mode_bit(m & 0xFBFF, i) == (i != 10 && mode_bit(m, i)) by {
        lemma_mode_bit(m, i);
    }
}

/// Proof of the bit `i` of `m` with a flag set, cleared or flipped.
proof fn lemma_mode_bit(m: u16, i: u16)
    requires
        i < 16,
    ensures
        mode_bit(m | 0x1000, i) == (i == 12 || mode_bit(m, i)),
        mode_bit(m | 0x800, i) == (i == 11 || mode_bit(m, i)),
        mode_bit(m ^ 0x400, i) == (if i == 10 {
            !mode_bit(m, i)
        } else {
            mode_bit(m, i)
        }),
        mode_bit(m & 0xFBFF, i) == (i != 10 && mode_bit(m, i)),
{
    assert((((m | 0x1000) >> i) & 1 == 1) == (i == 12 || (m >> i) & 1 == 1) && (((m | 0x800) >> i)
        & 1 == 1) == (i == 11 || (m >> i) & 1 == 1) && (((m ^ 0x400) >> i) & 1 == 1) == (if i == 10 {
        !((m >> i) & 1 == 1)
    } else {
        (m >> i) & 1 == 1
    }) && (((m & 0xFBFF) >> i) & 1 == 1) == (i != 10 && (m >> i) & 1 == 1)) by (bit_vector)
        requires
            i < 16,
    ;
}

/// The timers after their setup: both stop requesting interrupts (their flags are set).
pub open spec fn set_up(t: Timers) -> Timers {
    Timers {
        timer1: Timer { mode: t.timer1.mode | 0x400, ..t.timer1 },
        timer2: Timer { mode: t.timer2.mode | 0x400, ..t.timer2 },
    }
}

/// The timer `first` (timer 1) or timer 2 of `t`.
pub open spec fn timer_of(t: Timers, first: bool) -> Timer {
    if first {
        t.timer1
    } else {
        t.timer2
    }
}

/// `t` with the timer `first` (timer 1) or timer 2 replaced by `timer`.
pub open spec fn with_timer(t: Timers, first: bool, timer: Timer) -> Timers {
    if first {
        Timers { timer1: timer, ..t }
    } else {
        Timers { timer2: timer, ..t }
    }
}

/// Whether `new` is `old` once timer 1 (`first`) or timer 2 ticks: a timer that counts
/// ticks, and requests the timer 2 interrupt if the tick asks for one; either way the next
/// tick is scheduled as a timer 2 event, after the cycles of a tick of this timer.
pub open spec fn timer_ticked(old: PSX, new: PSX, first: bool) -> bool {
    let t = timer_of(old.timers, first);
    let cycles = if first {
        t.spec_cycles_per_tick1()
    } else {
        t.spec_cycles_per_tick2()
    };
    let counts = if first {
        t.spec_should_tick1()
    } else {
        t.spec_should_tick2()
    };
    let (t2, irq) = ticked(t);
    &&& new == PSX { timers: new.timers, interrupts: new.interrupts, scheduler: new.scheduler, ..old }
    &&& new.interrupts.mask == old.interrupts.mask
    &&& new.scheduler.spec_elapsed() == old.scheduler.spec_elapsed()
    &&& new.scheduler.events() == old.scheduler.events().push(
        ScheduledEvent {
            time: (old.scheduler.spec_elapsed() + cycles) as u64,
            event: scheduler::Event::Timer(Event::Timer2),
        },
    )
    &&& counts ==> new.timers == with_timer(old.timers, first, t2) && new.interrupts.status.0 == (
    if irq {
        old.interrupts.status.0 | (1u32 << Interrupt::Timer2.spec_index())
    } else {
        old.interrupts.status.0
    })
    &&& !counts ==> new.timers == old.timers && new.interrupts == old.interrupts
}

/// Ticks timer 1 (`first`) or timer 2.
pub fn tick_timer(psx: &mut PSX, first: bool)
    requires
        old(psx).scheduler.spec_elapsed() + CYCLES_SCANLINE <= u64::MAX,
    ensures
        timer_ticked(*old(psx), *final(psx), first),
{
    let mut timer = if first {
        psx.timers.timer1
    } else {
        psx.timers.timer2
    };
    let cycles = timer.cycles_per_tick(first);
    if timer.should_tick(first) {
        let irq = timer.tick();
        if first {
            psx.timers.timer1 = timer;
        } else {
            psx.timers.timer2 = timer;
        }
        if irq {
            psx.interrupts.status.request(Interrupt::Timer2);
        }
    }
    psx.scheduler.schedule(scheduler::Event::Timer(Event::Timer2), cycles);
}

} // verus!
