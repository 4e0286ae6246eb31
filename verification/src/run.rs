//! Running the CPU between scheduled events: instruction cycles go on until the next event is
//! due, the CPU stalling while a DMA transfer is ongoing.
use crate::cpu::cycle::{cycle_ok, cycle_trace, CycleTrace};
use crate::cpu::interpreter::Interpreter;
use crate::dma::executor::Executor;
use crate::psx::PSX;
use crate::scheduler::min_time;
use vstd::prelude::*;

verus! {

/// Where a run of the CPU towards the next event stands.
#[derive(Debug, Clone, Copy, PartialEq, Eq, Structural)]
pub struct RunState {
    /// The cycles run so far.
    pub cycles: u64,
    /// The cycles left before the event.
    pub remaining: u64,
    /// The time the event is due at.
    pub time_at_event: u64,
}

/// A point of a run: the machine, the CPU and the run state.
pub ghost struct RunPoint {
    pub psx: PSX,
    pub cpu: Interpreter,
    pub state: RunState,
}

/// The cycles until the next event of `psx`, at most `limit` (`limit` when none is
/// scheduled).
pub open spec fn until_next_within(psx: PSX, limit: u64) -> u64 {
    let events = psx.scheduler.events();
    if events.len() == 0 {
        limit
    } else {
        let d = (min_time(events) - psx.scheduler.spec_elapsed()) as u64;
        if d < limit {
            d
        } else {
            limit
        }
    }
}

/// The state a run starts in: the next event is at most `limit` cycles away.
pub open spec fn run_start(psx: PSX, limit: u64) -> RunState {
    let remaining = until_next_within(psx, limit);
    RunState {
        cycles: 0,
        remaining,
        time_at_event: (psx.scheduler.spec_elapsed() + remaining) as u64,
    }
}

/// The cycles of a step of `elapsed` cycles that count towards the event.
pub open spec fn counted(s: RunState, elapsed: u64) -> u64 {
    if elapsed < s.remaining {
        elapsed
    } else {
        s.remaining
    }
}

/// `s` once a step of `elapsed` cycles ran.
pub open spec fn ran(s: RunState, elapsed: u64) -> RunState {
    let d = counted(s, elapsed);
    RunState { cycles: (s.cycles + d) as u64, remaining: (s.remaining - d) as u64, ..s }
}

/// Whether the next step from `a` refreshes the run state: an event was scheduled before the
/// one the run goes towards.
pub open spec fn refreshes(a: RunPoint) -> bool {
    a.psx.scheduler.spec_last_scheduled_time() < a.state.time_at_event
}

/// Whether `b` follows `a` by one step of a run, the CPU stalling where `stalled`.
///
/// Where an event was scheduled before the one the run goes towards, the run goes towards the
/// next event, at most `limit` cycles away (from the start of the run), due at the time of the
/// event scheduled last. Otherwise a cycle passes while the CPU stalls, or the CPU runs an
/// instruction cycle; its cycles count, up to those remaining.
pub open spec fn run_step(a: RunPoint, b: RunPoint, stalled: bool, limit: u64) -> bool {
    let s = a.state;
    &&& s.remaining > 0
    &&& if refreshes(a) {
        &&& a.psx.scheduler.events().len() > 0
        &&& a.psx.scheduler.spec_none_overdue()
        &&& b.psx == a.psx
        &&& b.cpu == a.cpu
        &&& b.state == RunState {
            remaining: until_next_within(a.psx, limit),
            time_at_event: a.psx.scheduler.spec_last_scheduled_time(),
            ..s
        }
    } else if stalled {
        &&& s.cycles + counted(s, 1) <= u64::MAX
        &&& b.psx == a.psx
        &&& b.cpu == a.cpu
        &&& b.state == ran(s, 1)
    } else {
        &&& cycle_ok(a.psx, a.cpu)
        &&& exists|t: CycleTrace, r: u64|
            #[trigger] cycle_trace(a.psx, a.cpu, t, b.psx, b.cpu, r) && s.cycles + counted(s, r)
                <= u64::MAX && b.state == ran(s, r)
    }
}

/// Whether the step from `a` cannot be taken, leaving `psx` and `cpu`: an event list that the
/// time of the next event cannot be read from (none scheduled, or one overdue), an instruction
/// cycle that cannot run, or cycles that no longer fit in a `u64`.
pub open spec fn step_fails(a: RunPoint, stalled: bool, psx: PSX, cpu: Interpreter) -> bool {
    let s = a.state;
    &&& s.remaining > 0
    &&& if refreshes(a) {
        &&& (a.psx.scheduler.events().len() == 0 || !a.psx.scheduler.spec_none_overdue())
        &&& psx == a.psx
        &&& cpu == a.cpu
    } else if stalled {
        &&& s.cycles + counted(s, 1) > u64::MAX
        &&& psx == a.psx
        &&& cpu == a.cpu
    } else if !cycle_ok(a.psx, a.cpu) {
        psx == a.psx && cpu == a.cpu
    } else {
        exists|t: CycleTrace, r: u64|
            #[trigger] cycle_trace(a.psx, a.cpu, t, psx, cpu, r) && s.cycles + counted(s, r)
                > u64::MAX
    }
}

/// Whether the CPU stalls for `dma`: while it has a transfer ongoing.
pub open spec fn stalls(dma: Executor) -> bool {
    !(dma.spec_state() is Idle)
}

/// Whether `run` goes from one point to the next by steps of a run.
pub open spec fn run_chain(run: Seq<RunPoint>, stalled: bool, limit: u64) -> bool {
    forall|k: int| 0 <= k < run.len() - 1 ==> run_step(#[trigger] run[k], run[k + 1], stalled, limit)
}

/// Runs the CPU until the next event of `psx` is due, or `limit` cycles have passed, and
/// returns the cycles run; the CPU stalls while `dma` has a transfer ongoing. The time of the
/// machine does not move: the caller advances it by the cycles returned.
///
/// The run follows [`run_step`] from [`run_start`] until no cycles remain. It returns `None`
/// where a step cannot be taken ([`step_fails`]), and where an event is overdue at the start.
pub fn exec_until_next_event(cpu: &mut Interpreter, dma: &Executor, psx: &mut PSX, limit: u64) -> (r:
    Option<u64>)
    requires
        old(psx).scheduler.spec_elapsed() + limit <= u64::MAX,
    ensures
        !old(psx).scheduler.spec_none_overdue() ==> r is None && *final(psx) == *old(psx)
            && *final(cpu) == *old(cpu),
        old(psx).scheduler.spec_none_overdue() ==> exists|run: Seq<RunPoint>|
            #[trigger] run_chain(run, stalls(*dma), limit) && run.len() >= 1
                && run[0] == (RunPoint {
                psx: *old(psx),
                cpu: *old(cpu),
                state: run_start(*old(psx), limit),
            }) && match r {
                Some(cycles) => {
                    &&& run.last().state.remaining == 0
                    &&& run.last().psx == *final(psx)
                    &&& run.last().cpu == *final(cpu)
                    &&& cycles == run.last().state.cycles
                },
                None => step_fails(run.last(), stalls(*dma), *final(psx), *final(cpu)),
            },
{
    if !psx.scheduler.none_overdue() {
        return None;
    }
    let stalled = dma.ongoing();
    let first = match psx.scheduler.until_next() {
        Some(d) => if d < limit {
            d
        } else {
            limit
        },
        None => limit,
    };
    let mut s = RunState {
        cycles: 0,
        remaining: first,
        time_at_event: psx.scheduler.elapsed() + first,
    };
    let ghost start = RunPoint { psx: *psx, cpu: *cpu, state: s };
    assert(start.state == run_start(*old(psx), limit));
    let ghost mut run: Seq<RunPoint> = seq![start];
    assert(run_chain(run, stalled, limit));
    while s.remaining > 0
        invariant
            stalled == stalls(*dma),
            run_chain(run, stalled, limit),
            run.len() >= 1,
            run[0] == start,
            start == (RunPoint { psx: *old(psx), cpu: *old(cpu), state: run_start(*old(psx), limit) }),
            old(psx).scheduler.spec_none_overdue(),
            run.last() == (RunPoint { psx: *psx, cpu: *cpu, state: s }),
        decreases s.time_at_event, s.remaining,
    {
        let ghost here = run.last();
        if psx.scheduler.last_scheduled_time() < s.time_at_event {
            if !psx.scheduler.none_overdue() {
                assert(step_fails(here, stalled, *psx, *cpu));
                return None;
            }
            let next = match psx.scheduler.until_next() {
                Some(d) => d,
                None => {
                    assert(step_fails(here, stalled, *psx, *cpu));
                    return None;
                },
            };
            s = RunState {
                remaining: if next < limit {
                    next
                } else {
                    limit
                },
                time_at_event: psx.scheduler.last_scheduled_time(),
                ..s
            };
        } else {
            let elapsed = if stalled {
                1
            } else {
                if !cpu.can_exec_next(psx) {
                    assert(step_fails(here, stalled, *psx, *cpu));
                    return None;
                }
                cpu.exec_next(psx)
            };
            let d = if elapsed < s.remaining {
                elapsed
            } else {
                s.remaining
            };
            if s.cycles > u64::MAX - d {
                assert(step_fails(here, stalled, *psx, *cpu));
                return None;
            }
            s = RunState { cycles: s.cycles + d, remaining: s.remaining - d, ..s };
        }
        proof {
            let next = RunPoint { psx: *psx, cpu: *cpu, state: s };
            assert(run_step(here, next, stalled, limit));
            let prev = run;
            run = run.push(next);
            assert forall|k: int| 0 <= k < run.len() - 1 implies run_step(
                #[trigger] run[k],
                run[k + 1],
                stalled,
                limit,
            ) by {
                if k < prev.len() - 1 {
                    assert(run[k] == prev[k]);
                    assert(run[k + 1] == prev[k + 1]);
                }
            }
        }
    }
    Some(s.cycles)
}

} // verus!
