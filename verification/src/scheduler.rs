//! The event scheduler of the PSX.
use crate::{cdrom, sio0, timers};
use vstd::prelude::*;

verus! {

/// Possible schedule events.
#[derive(Debug, Clone, Copy, PartialEq, Eq, Structural)]
pub enum Event {
    /// Fire a VBlank.
    VBlank,
    /// Update the GPU state machine.
    Gpu,
    /// Update the DMA state machine and possibly start a transfer.
    DmaUpdate,
    /// Advance the currently ongoing DMA transfer.
    DmaAdvance,
    /// Update the CDROM state machine.
    Cdrom(cdrom::Event),
    /// Update the SIO state machine.
    Sio(sio0::Event),
    /// Update timers.
    Timer(timers::Event),
}

/// An event and the time it is due at.
#[derive(Debug, Clone, Copy, PartialEq, Eq, Structural)]
pub struct ScheduledEvent {
    pub time: u64,
    pub event: Event,
}

/// The index of the first event from position `i` on that is due at `elapsed`, if any.
pub open spec fn first_due(events: Seq<ScheduledEvent>, elapsed: u64, i: int) -> Option<int>
    decreases events.len() - i,
{
    if i < 0 || i >= events.len() {
        None
    } else if events[i].time <= elapsed {
        Some(i)
    } else {
        first_due(events, elapsed, i + 1)
    }
}

/// Whether some event of `events` is due at `elapsed`.
pub open spec fn any_due(events: Seq<ScheduledEvent>, elapsed: u64) -> bool {
    exists|i: int| 0 <= i < events.len() && #[trigger] events[i].time <= elapsed
}

/// The earliest time among `events`, which must not be empty.
pub open spec fn min_time(events: Seq<ScheduledEvent>) -> u64
    decreases events.len(),
{
    if events.len() <= 1 {
        events[0].time
    } else {
        let rest = min_time(events.drop_last());
        if events.last().time < rest {
            events.last().time
        } else {
            rest
        }
    }
}

/// The event scheduler of the PSX.
///
/// The scheduler is responsible for keeping track of how many cycles have elapsed and what should
/// happen next.
#[derive(Debug)]
pub struct Scheduler {
    /// How many cycles have been executed since the start.
    elapsed: u64,
    /// Scheduled events.
    scheduled: Vec<ScheduledEvent>,
    /// The time at which the last scheduled event will happen.
    last_scheduled_time: u64,
}

impl Scheduler {
    /// How many cycles have been executed since the start.
    pub closed spec fn spec_elapsed(&self) -> u64 {
        self.elapsed
    }

    /// The scheduled events, in the order the scheduler keeps them.
    pub closed spec fn events(&self) -> Seq<ScheduledEvent> {
        self.scheduled@
    }

    /// The time the last scheduled event is due at.
    pub closed spec fn spec_last_scheduled_time(&self) -> u64 {
        self.last_scheduled_time
    }

    /// A scheduler at time zero, with a VBlank and the setup of the timers due.
    pub fn new() -> (r: Self)
        ensures
            r.spec_elapsed() == 0,
            r.events() == seq![
                ScheduledEvent { time: 0, event: Event::VBlank },
                ScheduledEvent { time: 0, event: Event::Timer(timers::Event::Setup) },
            ],
            r.spec_last_scheduled_time() == 0,
    {
        let mut scheduler = Self {
            elapsed: 0,
            scheduled: Vec::with_capacity(16),
            last_scheduled_time: u64::MAX,
        };
        scheduler.schedule(Event::VBlank, 0);
        scheduler.schedule(Event::Timer(timers::Event::Setup), 0);
        scheduler
    }

    /// Schedules `event` to be due `after` cycles from now.
    #[inline(always)]
    pub fn schedule(&mut self, event: Event, after: u64)
        requires
            old(self).spec_elapsed() + after <= u64::MAX,
        ensures
            final(self).spec_elapsed() == old(self).spec_elapsed(),
            final(self).spec_last_scheduled_time() == old(self).spec_elapsed() + after,
            final(self).events() == old(self).events().push(
                ScheduledEvent { time: (old(self).spec_elapsed() + after) as u64, event },
            ),
    {
        self.last_scheduled_time = self.elapsed + after;
        self.scheduled.push(ScheduledEvent { event, time: self.last_scheduled_time });
    }

    /// Returns how many events are scheduled.
    #[inline(always)]
    pub fn len(&self) -> (r: usize)
        ensures
            r == self.events().len(),
    {
        self.scheduled.len()
    }

    /// Advances the time by `count` cycles.
    #[inline(always)]
    pub fn advance(&mut self, count: u64)
        requires
            old(self).spec_elapsed() + count <= u64::MAX,
        ensures
            final(self).spec_elapsed() == old(self).spec_elapsed() + count,
            final(self).events() == old(self).events(),
            final(self).spec_last_scheduled_time() == old(self).spec_last_scheduled_time(),
    {
        self.elapsed = self.elapsed + count;
    }

    /// Returns the cycles until the earliest scheduled event, if any. No event may be overdue.
    #[inline(always)]
    pub fn until_next(&self) -> (r: Option<u64>)
        requires
            forall|i: int|
                0 <= i < self.events().len() ==> #[trigger] self.events()[i].time
                    >= self.spec_elapsed(),
        ensures
            r is None <==> self.events().len() == 0,
            r matches Some(d) ==> d == min_time(self.events()) - self.spec_elapsed(),
    {
        if self.scheduled.len() == 0 {
            return None;
        }
        let mut min = self.scheduled[0].time;
        let mut i: usize = 1;
        while i < self.scheduled.len()
            invariant
                1 <= i <= self.scheduled@.len(),
                min == min_time(self.scheduled@.take(i as int)),
            decreases self.scheduled@.len() - i,
        {
            assert(self.scheduled@.take(i as int + 1).drop_last() =~= self.scheduled@.take(i as int));
            if self.scheduled[i].time < min {
                min = self.scheduled[i].time;
            }
            i += 1;
        }
        assert(self.scheduled@.take(i as int) =~= self.scheduled@);
        proof {
            lemma_min_time_member(self.scheduled@);
            let j = choose|j: int|
                0 <= j < self.scheduled@.len() && #[trigger] self.scheduled@[j].time == min_time(
                    self.scheduled@,
                );
            assert(self.events()[j].time >= self.spec_elapsed());
        }
        Some(min - self.elapsed)
    }

    /// Removes and returns the first event (in the scheduler's order) that is due, if any. The
    /// last event takes its place.
    #[inline(always)]
    pub fn pop(&mut self) -> (r: Option<Event>)
        ensures
            final(self).spec_elapsed() == old(self).spec_elapsed(),
            final(self).spec_last_scheduled_time() == old(self).spec_last_scheduled_time(),
            match first_due(old(self).events(), old(self).spec_elapsed(), 0) {
                Some(i) => r == Some(old(self).events()[i].event) && final(self).events()
                    == old(self).events().update(i, old(self).events().last()).drop_last(),
                None => r is None && final(self).events() == old(self).events(),
            },
    {
        let mut i: usize = 0;
        while i < self.scheduled.len()
            invariant
                i <= self.scheduled@.len(),
                self.scheduled@ == old(self).scheduled@,
                self.elapsed == old(self).elapsed,
                self.last_scheduled_time == old(self).last_scheduled_time,
                first_due(self.scheduled@, self.elapsed, 0) == first_due(
                    self.scheduled@,
                    self.elapsed,
                    i as int,
                ),
            decreases self.scheduled@.len() - i,
        {
            if self.scheduled[i].time <= self.elapsed {
                let scheduled = self.scheduled.swap_remove(i);
                return Some(scheduled.event);
            }
            i += 1;
        }
        None
    }

    /// Returns how many cycles have been executed since the start.
    #[inline(always)]
    pub fn elapsed(&self) -> (r: u64)
        ensures
            r == self.spec_elapsed(),
    {
        self.elapsed
    }

    /// Whether no scheduled event is overdue: each is due at the elapsed time or later.
    pub open spec fn spec_none_overdue(&self) -> bool {
        forall|i: int|
            0 <= i < self.events().len() ==> #[trigger] self.events()[i].time >= self.spec_elapsed()
    }

    /// Returns whether no scheduled event is overdue (what [`until_next`](Self::until_next)
    /// needs).
    pub fn none_overdue(&self) -> (r: bool)
        ensures
            r == self.spec_none_overdue(),
    {
        let mut i: usize = 0;
        while i < self.scheduled.len()
            invariant
                i <= self.scheduled@.len(),
                forall|j: int| 0 <= j < i ==> #[trigger] self.scheduled@[j].time >= self.elapsed,
            decreases self.scheduled@.len() - i,
        {
            if self.scheduled[i].time < self.elapsed {
                return false;
            }
            i += 1;
        }
        true
    }

    /// Returns the time the last scheduled event is due at.
    #[inline(always)]
    pub fn last_scheduled_time(&self) -> (r: u64)
        ensures
            r == self.spec_last_scheduled_time(),
    {
        self.last_scheduled_time
    }
}

impl Default for Scheduler {
    fn default() -> (r: Self)
        ensures
            r.spec_elapsed() == 0,
            r.events().len() == 2,
    {
        Self::new()
    }
}

/// Proof that the earliest time is the time of one of the events, and no event is earlier.
proof fn lemma_min_time_member(events: Seq<ScheduledEvent>)
    requires
        events.len() > 0,
    ensures
        exists|i: int| 0 <= i < events.len() && #[trigger] events[i].time == min_time(events),
        forall|i: int| 0 <= i < events.len() ==> min_time(events) <= #[trigger] events[i].time,
    decreases events.len(),
{
    if events.len() > 1 {
        let rest = events.drop_last();
        lemma_min_time_member(rest);
        let j = choose|j: int| 0 <= j < rest.len() && #[trigger] rest[j].time == min_time(rest);
        assert(events[j].time == rest[j].time);
        assert forall|i: int| 0 <= i < events.len() implies min_time(events)
            <= #[trigger] events[i].time by {
            if i < events.len() - 1 {
                assert(events[i] == rest[i]);
            }
        }
        if events.last().time < min_time(rest) {
            assert(events[events.len() - 1].time == min_time(events));
        }
    } else {
        assert(events[0].time == min_time(events));
    }
}

/// Proof that the first due event from position `i` is due, and no event between `i` and it is.
proof fn lemma_first_due(events: Seq<ScheduledEvent>, elapsed: u64, i: int)
    requires
        0 <= i,
    ensures
        first_due(events, elapsed, i) matches Some(j) ==> i <= j < events.len() && events[j].time
            <= elapsed && forall|k: int| i <= k < j ==> #[trigger] events[k].time > elapsed,
        first_due(events, elapsed, i) is None ==> forall|k: int|
            i <= k < events.len() ==> #[trigger] events[k].time > elapsed,
    decreases events.len() - i,
{
    if i < events.len() {
        lemma_first_due(events, elapsed, i + 1);
    }
}

/// Law: the scheduler hands out an event exactly when one is due; the event it hands out is due,
/// and it is the first due one in its order.
pub proof fn law_pop_gives_due_event(events: Seq<ScheduledEvent>, elapsed: u64)
    ensures
        first_due(events, elapsed, 0) is Some <==> any_due(events, elapsed),
        first_due(events, elapsed, 0) matches Some(i) ==> events[i].time <= elapsed,
{
    lemma_first_due(events, elapsed, 0);
}

/// Law: popping an event removes exactly that event and keeps all the others.
pub proof fn law_pop_keeps_others(events: Seq<ScheduledEvent>, i: int)
    requires
        0 <= i < events.len(),
    ensures
        events.update(i, events.last()).drop_last().to_multiset() == events.to_multiset().remove(
            events[i],
        ),
{
    broadcast use {
        vstd::multiset::group_multiset_axioms,
        vstd::seq_lib::to_multiset_build,
        vstd::seq_lib::to_multiset_update,
    };

    let front = events.drop_last();
    let last = events.last();
    assert(events =~= front.push(last));
    assert(events.to_multiset() =~= front.to_multiset().insert(last));
    if i == events.len() - 1 {
        assert(events.update(i, last).drop_last() =~= front);
        assert(front.to_multiset().insert(last).remove(last) =~= front.to_multiset());
    } else {
        assert(events.update(i, last).drop_last() =~= front.update(i, last));
        assert(front[i] == events[i]);
        assert(front.update(i, last).to_multiset() == front.to_multiset().insert(last).remove(
            front[i],
        ));
    }
}

/// Law: an event scheduled `after` cycles from now is due once `after` more cycles have elapsed.
pub proof fn law_scheduled_event_becomes_due(
    events: Seq<ScheduledEvent>,
    elapsed: u64,
    after: u64,
    event: Event,
    later: u64,
)
    requires
        elapsed + after <= later,
    ensures
        any_due(events.push(ScheduledEvent { time: (elapsed + after) as u64, event }), later),
{
    let pushed = events.push(ScheduledEvent { time: (elapsed + after) as u64, event });
    assert(pushed[events.len() as int].time <= later);
}

} // verus!
