//! The scheduler: decides when a tick runs.
//!
//! Time is counted in whole seconds from a start that the driver chooses. The
//! scheduler is idle until it is started, then waits one interval, runs a
//! tick, and either stops (once) or waits for the next point of the grid that
//! the first deadline and the interval lay out (repeating). A tick that ends
//! after one or more points of the grid have passed is followed by the next
//! point that has not: missed points are not made up for, and no tick starts
//! while another runs. An instant beyond `u64::MAX` is taken as `u64::MAX`.

use vstd::prelude::*;
use vstd::arithmetic::div_mod::*;

verus! {

/// How often the scheduler runs a tick.
#[derive(Clone, Copy, Debug, PartialEq, Eq, Structural)]
pub enum Mode {
    /// A tick at every point of the grid, until halted.
    Repeating,
    /// One tick, then stop.
    Once,
}

/// Where the scheduler stands.
#[derive(Clone, Copy, Debug, PartialEq, Eq, Structural)]
pub enum Phase {
    /// Not started yet.
    Idle,
    /// The next tick is due at `deadline`.
    Waiting { deadline: u64 },
    /// The tick that was due at `deadline` is running.
    Running { deadline: u64 },
    /// No tick will run any more.
    Stopped,
}

/// What the driver reports to the scheduler.
#[derive(Clone, Copy, Debug, PartialEq, Eq, Structural)]
pub enum Signal {
    /// The service begins.
    Start,
    /// The driver woke up from sleeping.
    Timer,
    /// The tick that was running has ended.
    TickDone,
    /// The run must end now.
    Halt,
}

/// What the scheduler asks of the driver.
#[derive(Clone, Copy, Debug, PartialEq, Eq, Structural)]
pub enum Command {
    /// Sleep until the instant `until`, then report `Timer`.
    Sleep { until: u64 },
    /// Run a tick, then report `TickDone`.
    RunTick,
    /// End the run.
    Exit,
    /// The signal does not apply where the scheduler stands: go on as before.
    Continue,
}

/// A signal and the instant at which the driver reports it.
pub struct Occurrence {
    pub signal: Signal,
    pub now: u64,
}

/// The scheduler of one run.
#[derive(Clone, Copy, Debug, PartialEq, Eq, Structural)]
pub struct Scheduler {
    /// The distance in seconds between two points of the grid.
    pub interval: u64,
    pub mode: Mode,
    pub phase: Phase,
}

/// The instant `t`, or the last instant that a `u64` can hold where `t` lies
/// beyond it.
pub open spec fn clip(t: int) -> u64 {
    if t > u64::MAX {
        u64::MAX
    } else if t < 0 {
        0
    } else {
        t as u64
    }
}

/// The deadline of the tick that follows the tick that was due at `deadline`
/// and ended at `now`: the next point of the grid after `deadline`, or, where
/// the tick ran past it, the first point of the grid that is not before `now`.
/// With an interval of zero the next tick is due as soon as the last one ends.
pub open spec fn next_deadline(deadline: int, interval: int, now: int) -> int {
    if interval <= 0 {
        if now > deadline {
            now
        } else {
            deadline
        }
    } else if now <= deadline + interval {
        deadline + interval
    } else if (now - deadline) % interval == 0 {
        now
    } else {
        now + interval - (now - deadline) % interval
    }
}

impl Scheduler {
    /// The scheduler as it is after `signal` at the instant `now`.
    pub open spec fn after(self, signal: Signal, now: u64) -> Scheduler {
        match (self.phase, signal) {
            (_, Signal::Halt) => Scheduler { phase: Phase::Stopped, ..self },
            (Phase::Idle, Signal::Start) => Scheduler {
                phase: Phase::Waiting { deadline: clip(now + self.interval) },
                ..self
            },
            (Phase::Waiting { deadline }, Signal::Timer) => if now >= deadline {
                Scheduler { phase: Phase::Running { deadline }, ..self }
            } else {
                self
            },
            (Phase::Running { deadline }, Signal::TickDone) => match self.mode {
                Mode::Once => Scheduler { phase: Phase::Stopped, ..self },
                Mode::Repeating => Scheduler {
                    phase: Phase::Waiting {
                        deadline: clip(
                            next_deadline(deadline as int, self.interval as int, now as int),
                        ),
                    },
                    ..self
                },
            },
            _ => self,
        }
    }

    /// What the scheduler asks of the driver in answer to `signal` at the
    /// instant `now`.
    pub open spec fn command_for(self, signal: Signal, now: u64) -> Command {
        match (self.phase, signal) {
            (_, Signal::Halt) => Command::Exit,
            (Phase::Stopped, _) => Command::Exit,
            (Phase::Idle, Signal::Start) => Command::Sleep { until: clip(now + self.interval) },
            (Phase::Waiting { deadline }, Signal::Timer) => if now >= deadline {
                Command::RunTick
            } else {
                Command::Sleep { until: deadline }
            },
            (Phase::Running { deadline }, Signal::TickDone) => match self.mode {
                Mode::Once => Command::Exit,
                Mode::Repeating => Command::Sleep {
                    until: clip(next_deadline(deadline as int, self.interval as int, now as int)),
                },
            },
            _ => Command::Continue,
        }
    }

    /// An idle scheduler with the given interval, which runs one tick if
    /// `once` is set and repeats otherwise.
    pub fn new(interval: u64, once: bool) -> (s: Scheduler)
        ensures
            s == (Scheduler {
                interval,
                mode: if once {
                    Mode::Once
                } else {
                    Mode::Repeating
                },
                phase: Phase::Idle,
            }),
    {
        Scheduler {
            interval,
            mode: if once {
                Mode::Once
            } else {
                Mode::Repeating
            },
            phase: Phase::Idle,
        }
    }

    /// Takes a signal that the driver reports at the instant `now`, moves on
    /// and returns what the driver is to do next.
    pub fn step(&mut self, signal: Signal, now: u64) -> (c: Command)
        ensures
            *final(self) == old(self).after(signal, now),
            c == old(self).command_for(signal, now),
    {
        match (self.phase, signal) {
            (_, Signal::Halt) => {
                self.phase = Phase::Stopped;
                Command::Exit
            },
            (Phase::Stopped, _) => Command::Exit,
            (Phase::Idle, Signal::Start) => {
                let deadline = now.saturating_add(self.interval);
                self.phase = Phase::Waiting { deadline };
                Command::Sleep { until: deadline }
            },
            (Phase::Waiting { deadline }, Signal::Timer) => {
                if now >= deadline {
                    self.phase = Phase::Running { deadline };
                    Command::RunTick
                } else {
                    Command::Sleep { until: deadline }
                }
            },
            (Phase::Running { deadline }, Signal::TickDone) => {
                match self.mode {
                    Mode::Once => {
                        self.phase = Phase::Stopped;
                        Command::Exit
                    },
                    Mode::Repeating => {
                        let next = following_deadline(deadline, self.interval, now);
                        self.phase = Phase::Waiting { deadline: next };
                        Command::Sleep { until: next }
                    },
                }
            },
            _ => Command::Continue,
        }
    }
}

/// Computes `next_deadline`, clipped to the instants that a `u64` can hold.
pub fn following_deadline(deadline: u64, interval: u64, now: u64) -> (next: u64)
    ensures
        next == clip(next_deadline(deadline as int, interval as int, now as int)),
{
    if interval == 0 {
        if now > deadline {
            now
        } else {
            deadline
        }
    } else {
        let first = deadline.saturating_add(interval);
        if now <= first {
            first
        } else {
            let late = (now - deadline) % interval;
            if late == 0 {
                now
            } else {
                now.saturating_add(interval - late)
            }
        }
    }
}

/// The scheduler after a sequence of occurrences, first to last.
pub open spec fn run(s: Scheduler, events: Seq<Occurrence>) -> Scheduler
    decreases events.len(),
{
    if events.len() == 0 {
        s
    } else {
        run(s, events.drop_last()).after(events.last().signal, events.last().now)
    }
}

/// How many ticks the scheduler asks for during a sequence of occurrences.
pub open spec fn ticks_started(s: Scheduler, events: Seq<Occurrence>) -> nat
    decreases events.len(),
{
    if events.len() == 0 {
        0
    } else {
        let before = run(s, events.drop_last());
        let asked: nat = if before.command_for(events.last().signal, events.last().now)
            == Command::RunTick {
            1
        } else {
            0
        };
        ticks_started(s, events.drop_last()) + asked
    }
}

/// The ticks that a scheduler in mode `Once` can still ask for.
pub open spec fn ticks_left(s: Scheduler) -> nat {
    match s.phase {
        Phase::Idle => 1,
        Phase::Waiting { .. } => 1,
        _ => 0,
    }
}

/// The occurrences of a run that starts at `start` and in which each tick
/// begins at its point of the grid and ends at the instant that `finishes`
/// gives for it.
pub open spec fn punctual_run(start: u64, interval: u64, finishes: Seq<u64>) -> Seq<Occurrence>
    decreases finishes.len(),
{
    if finishes.len() == 0 {
        seq![Occurrence { signal: Signal::Start, now: start }]
    } else {
        punctual_run(start, interval, finishes.drop_last()).push(
            Occurrence {
                signal: Signal::Timer,
                now: (start + finishes.len() * interval) as u64,
            },
        ).push(Occurrence { signal: Signal::TickDone, now: finishes.last() })
    }
}

/// The next deadline lies on the grid, after the last deadline and not before
/// `now`, and it is the first point of the grid of which that holds.
pub proof fn lemma_next_deadline_on_grid(deadline: int, interval: int, now: int)
    requires
        interval > 0,
    ensures
        (next_deadline(deadline, interval, now) - deadline) % interval == 0,
        next_deadline(deadline, interval, now) >= deadline + interval,
        next_deadline(deadline, interval, now) >= now,
        next_deadline(deadline, interval, now) == deadline + interval || next_deadline(
            deadline,
            interval,
            now,
        ) - interval < now,
{
    let next = next_deadline(deadline, interval, now);
    if now <= deadline + interval {
        lemma_mod_self_0(interval);
    } else {
        let late = now - deadline;
        lemma_fundamental_div_mod(late, interval);
        lemma_mod_bound(late, interval);
        if late % interval == 0 {
        } else {
            let q = late / interval;
            assert(next - deadline == interval * (q + 1)) by (nonlinear_arith)
                requires
                    next - deadline == late + interval - late % interval,
                    late == interval * q + late % interval,
            ;
            lemma_mod_multiples_basic(q + 1, interval);
            assert(interval * (q + 1) == (q + 1) * interval) by (nonlinear_arith);
        }
    }
}

/// The first tick is not asked for before one interval has passed since the
/// start: a driver that wakes up earlier is sent back to sleep.
pub proof fn lemma_first_tick_waits(interval: u64, once: bool, start: u64, now: u64)
    requires
        now < clip(start + interval),
    ensures
        ({
            let s = Scheduler {
                interval,
                mode: if once {
                    Mode::Once
                } else {
                    Mode::Repeating
                },
                phase: Phase::Idle,
            };
            let started = s.after(Signal::Start, start);
            &&& s.command_for(Signal::Start, start) == Command::Sleep {
                until: clip(start + interval),
            }
            &&& started.command_for(Signal::Timer, now) == Command::Sleep {
                until: clip(start + interval),
            }
            &&& started.after(Signal::Timer, now) == started
        }),
{
}

/// In mode `Once` at most one tick is asked for, whatever the driver reports
/// and whatever the interval is.
pub proof fn lemma_once_at_most_one_tick(s: Scheduler, events: Seq<Occurrence>)
    requires
        s.mode == Mode::Once,
    ensures
        run(s, events).mode == Mode::Once,
        ticks_started(s, events) + ticks_left(run(s, events)) <= ticks_left(s),
        ticks_started(s, events) <= 1,
    decreases events.len(),
{
    if events.len() > 0 {
        lemma_once_at_most_one_tick(s, events.drop_last());
    }
}

/// In mode `Once` a run that is started, woken at or after its deadline and
/// told the end of its tick has asked for exactly one tick and has stopped,
/// whatever the interval is, zero included. The tick is not asked for before
/// one interval has passed since the start.
pub proof fn lemma_once_runs_one_tick(interval: u64, start: u64, woken: u64, done: u64)
    requires
        woken >= clip(start + interval),
    ensures
        ({
            let s = Scheduler { interval, mode: Mode::Once, phase: Phase::Idle };
            let events = seq![
                Occurrence { signal: Signal::Start, now: start },
                Occurrence { signal: Signal::Timer, now: woken },
                Occurrence { signal: Signal::TickDone, now: done },
            ];
            &&& s.command_for(Signal::Start, start) == Command::Sleep {
                until: clip(start + interval),
            }
            &&& run(s, events.take(1)).command_for(Signal::Timer, woken) == Command::RunTick
            &&& run(s, events.take(2)).command_for(Signal::TickDone, done) == Command::Exit
            &&& run(s, events).phase == Phase::Stopped
            &&& ticks_started(s, events) == 1
        }),
{
    let s = Scheduler { interval, mode: Mode::Once, phase: Phase::Idle };
    let events = seq![
        Occurrence { signal: Signal::Start, now: start },
        Occurrence { signal: Signal::Timer, now: woken },
        Occurrence { signal: Signal::TickDone, now: done },
    ];
    let e1 = events.take(1);
    let e2 = events.take(2);
    assert(e1.drop_last() =~= Seq::<Occurrence>::empty());
    assert(e2.drop_last() =~= e1);
    assert(events.drop_last() =~= e2);
    assert(run(s, e1.drop_last()) == s);
    assert(run(s, e1).phase == Phase::Waiting { deadline: clip(start + interval) });
    assert(run(s, e2).phase == Phase::Running { deadline: clip(start + interval) });
    assert(ticks_started(s, e1.drop_last()) == 0);
    assert(ticks_started(s, e1) == 0);
    assert(ticks_started(s, e2) == 1);
}

/// A repeating run keeps to its grid: where each tick begins at its point of
/// the grid and ends no later than the next point, the tick number `k` is due
/// `k` intervals after the start, and after `n` ticks the scheduler has asked
/// for exactly `n` ticks and waits for the point `n + 1`.
pub proof fn lemma_repeating_keeps_grid(start: u64, interval: u64, finishes: Seq<u64>)
    requires
        start + (finishes.len() + 1) * interval <= u64::MAX,
        forall|i: int|
            0 <= i < finishes.len() ==> start + (i + 1) * interval <= #[trigger] finishes[i]
                <= start + (i + 2) * interval,
    ensures
        ({
            let s = Scheduler { interval, mode: Mode::Repeating, phase: Phase::Idle };
            let events = punctual_run(start, interval, finishes);
            &&& run(s, events).phase == Phase::Waiting {
                deadline: (start + (finishes.len() + 1) * interval) as u64,
            }
            &&& run(s, events).interval == interval
            &&& run(s, events).mode == Mode::Repeating
            &&& ticks_started(s, events) == finishes.len()
        }),
    decreases finishes.len(),
{
    let s = Scheduler { interval, mode: Mode::Repeating, phase: Phase::Idle };
    let events = punctual_run(start, interval, finishes);
    let n = finishes.len() as int;
    if n == 0 {
        assert(events.drop_last() =~= Seq::<Occurrence>::empty());
        assert(run(s, events.drop_last()) == s);
        assert(ticks_started(s, events.drop_last()) == 0);
        assert((0 + 1) * interval == interval) by (nonlinear_arith);
        assert(run(s, events).phase == Phase::Waiting { deadline: clip(start + interval) });
    } else {
        let earlier = finishes.drop_last();
        assert(start + n * interval <= start + (n + 1) * interval) by (nonlinear_arith)
            requires
                interval >= 0,
        ;
        assert forall|i: int| 0 <= i < earlier.len() implies start + (i + 1) * interval
            <= #[trigger] earlier[i] <= start + (i + 2) * interval by {
            assert(earlier[i] == finishes[i]);
        }
        lemma_repeating_keeps_grid(start, interval, earlier);
        let before = punctual_run(start, interval, earlier);
        let due = (start + n * interval) as u64;
        let woke = before.push(Occurrence { signal: Signal::Timer, now: due });
        assert(events == woke.push(Occurrence { signal: Signal::TickDone, now: finishes.last() }));
        assert(woke.drop_last() =~= before);
        assert(events.drop_last() =~= woke);
        assert(run(s, before).phase == Phase::Waiting { deadline: due });
        assert(run(s, woke).phase == Phase::Running { deadline: due });
        assert(ticks_started(s, woke) == n);
        let done = finishes.last();
        assert(finishes[n - 1] == done);
        assert(start + (n + 1) * interval == due + interval) by (nonlinear_arith)
            requires
                due == start + n * interval,
        ;
        assert(start + (n - 1 + 1) * interval == due && start + (n - 1 + 2) * interval == due
            + interval) by (nonlinear_arith)
            requires
                due == start + n * interval,
        ;
        assert(due <= done <= due + interval);
        assert(next_deadline(due as int, interval as int, done as int) == due + interval);
        assert(run(s, events) == run(s, woke).after(Signal::TickDone, done));
        assert(run(s, woke).mode == Mode::Repeating);
        assert(run(s, woke).interval == interval);
        assert(run(s, events).phase == Phase::Waiting { deadline: clip(due + interval) });
        assert(ticks_started(s, events) == n);
    }
}

/// With an interval of one second, a repeating run that lasts two seconds or
/// more asks for at least two ticks, provided that the first tick ends within
/// a second of its beginning: the ticks are due one and two seconds after
/// the start.
pub proof fn lemma_two_ticks_in_two_intervals(start: u64, first_done: u64)
    requires
        start + 2 <= u64::MAX,
        start + 1 <= first_done <= start + 2,
    ensures
        ({
            let s = Scheduler { interval: 1, mode: Mode::Repeating, phase: Phase::Idle };
            let one = punctual_run(start, 1, seq![first_done]);
            let two = one.push(Occurrence { signal: Signal::Timer, now: (start + 2) as u64 });
            &&& run(s, one).phase == Phase::Waiting { deadline: (start + 2) as u64 }
            &&& ticks_started(s, one) == 1
            &&& run(s, two).phase == Phase::Running { deadline: (start + 2) as u64 }
            &&& ticks_started(s, two) == 2
        }),
{
    let s = Scheduler { interval: 1, mode: Mode::Repeating, phase: Phase::Idle };
    let f1 = seq![first_done];
    assert forall|i: int| 0 <= i < f1.len() implies start + (i + 1) * 1 <= #[trigger] f1[i]
        <= start + (i + 2) * 1 by {}
    lemma_repeating_keeps_grid(start, 1, f1);
    let one = punctual_run(start, 1, f1);
    let two = one.push(Occurrence { signal: Signal::Timer, now: (start + 2) as u64 });
    assert(two.drop_last() =~= one);
}

} // verus!
