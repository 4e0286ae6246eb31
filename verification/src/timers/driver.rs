//! The timer events of the machine: their setup and the ticks of timers 1 and 2.
use super::{set_up, tick_timer, timer_ticked, Event, CYCLES_SCANLINE};
use crate::psx::PSX;
use crate::scheduler::{self, ScheduledEvent};
use vstd::prelude::*;

verus! {

/// Processes the timer events of the machine.
#[derive(Debug)]
pub struct Timers {}

impl Timers {
    /// Returns a processor of the timer events.
    pub fn new() -> (r: Self)
        ensures
            r == (Timers {}),
    {
        Timers {}
    }

    /// Ticks timer 1.
    fn tick_timer1(&mut self, psx: &mut PSX)
        requires
            old(psx).scheduler.spec_elapsed() + CYCLES_SCANLINE <= u64::MAX,
        ensures
            timer_ticked(*old(psx), *final(psx), true),
    {
        tick_timer(psx, true)
    }

    /// Ticks timer 2.
    fn tick_timer2(&mut self, psx: &mut PSX)
        requires
            old(psx).scheduler.spec_elapsed() + CYCLES_SCANLINE <= u64::MAX,
        ensures
            timer_ticked(*old(psx), *final(psx), false),
    {
        tick_timer(psx, false)
    }

    /// Updates the timers on `event`: the setup stops both from requesting interrupts and
    /// schedules their first ticks (a timer 1 event, then a timer 2 event, each after the cycles of
    /// a tick of its timer); a timer event ticks its timer.
    pub fn update(&mut self, psx: &mut PSX, event: Event)
        requires
            old(psx).scheduler.spec_elapsed() + CYCLES_SCANLINE <= u64::MAX,
        ensures
            event == Event::Setup ==> {
                let t = set_up(old(psx).timers);
                &&& *final(psx) == PSX { timers: t, scheduler: final(psx).scheduler, ..*old(psx) }
                &&& final(psx).scheduler.spec_elapsed() == old(psx).scheduler.spec_elapsed()
                &&& final(psx).scheduler.events() == old(psx).scheduler.events().push(
                    ScheduledEvent {
                        time: (old(psx).scheduler.spec_elapsed() + t.timer1.spec_cycles_per_tick1()) as u64,
                        event: scheduler::Event::Timer(Event::Timer1),
                    },
                ).push(
                    ScheduledEvent {
                        time: (old(psx).scheduler.spec_elapsed() + t.timer2.spec_cycles_per_tick2()) as u64,
                        event: scheduler::Event::Timer(Event::Timer2),
                    },
                )
            },
            event == Event::Timer1 ==> timer_ticked(*old(psx), *final(psx), true),
            event == Event::Timer2 ==> timer_ticked(*old(psx), *final(psx), false),
            *final(self) == *old(self),
    {
        match event {
            Event::Setup => {
                psx.timers.timer1.mode = psx.timers.timer1.mode | 0x400;
                psx.timers.timer2.mode = psx.timers.timer2.mode | 0x400;
                let first = psx.timers.timer1.cycles_per_tick(true);
                psx.scheduler.schedule(scheduler::Event::Timer(Event::Timer1), first);
                let second = psx.timers.timer2.cycles_per_tick(false);
                psx.scheduler.schedule(scheduler::Event::Timer(Event::Timer2), second);
            },
            Event::Timer1 => self.tick_timer1(psx),
            Event::Timer2 => self.tick_timer2(psx),
        }
    }
}

} // verus!
