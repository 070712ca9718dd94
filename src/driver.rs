use vstd::prelude::*;

use crate::matrix::TestCase;
use crate::stats::Statistics;
use crate::worker::{assign_processor, elapsed_cycles, processor_for};

verus! {

/// Instructions that one unit of workload executes: sixteen loads and the
/// two instructions of the loop.
pub const COST_PER_UNIT: u64 = 18;

/// One line of results: a configuration and what was measured for it.
#[derive(Clone, Copy, Debug, PartialEq, Eq, Structural)]
pub struct Report {
    pub thread_count: u64,
    pub workload_size: u64,
    /// Instructions the workload executes: `workload_size * COST_PER_UNIT`.
    pub accounting_size: u128,
    /// Cycles that all trials of the configuration accumulated.
    pub vm_cycles: u64,
    /// Cycles from before the first spawn to after the last join.
    pub elapsed: u64,
    /// `vm_cycles / (elapsed * thread_count)` in millionths, rounded half
    /// up; none when the denominator is zero.
    pub metric_micros: Option<u128>,
}

/// `n / d` in millionths, rounded half up.
pub open spec fn scaled_ratio(n: nat, d: nat) -> nat
    recommends
        d > 0,
{
    let scaled = n * 1_000_000;
    (scaled / d + if 2 * (scaled % d) >= d {
        1nat
    } else {
        0nat
    }) as nat
}

/// The normalized metric: cycles per unit of time per worker, in
/// millionths.
pub open spec fn metric_spec(vm_cycles: u64, elapsed: u64, thread_count: u64) -> Option<u128> {
    if elapsed == 0 || thread_count == 0 {
        None
    } else {
        Some(scaled_ratio(vm_cycles as nat, (elapsed * thread_count) as nat) as u128)
    }
}

/// The normalized metric `vm_cycles / (elapsed * thread_count)`, in
/// millionths rounded half up; none when either factor of the denominator
/// is zero.
pub fn normalized_metric(vm_cycles: u64, elapsed: u64, thread_count: u64) -> (r: Option<u128>)
    ensures
        r == metric_spec(vm_cycles, elapsed, thread_count),
{
    if elapsed == 0 || thread_count == 0 {
        return None;
    }
    assert(elapsed * thread_count <= 0xffff_ffff_ffff_ffff * 0xffff_ffff_ffff_ffff)
        by (nonlinear_arith)
        requires
            elapsed <= 0xffff_ffff_ffff_ffff,
            thread_count <= 0xffff_ffff_ffff_ffff,
    ;
    assert(elapsed * thread_count > 0) by (nonlinear_arith)
        requires
            elapsed > 0,
            thread_count > 0,
    ;
    let d: u128 = (elapsed as u128) * (thread_count as u128);
    let scaled: u128 = (vm_cycles as u128) * 1_000_000;
    let q = scaled / d;
    let r = scaled % d;
    assert(q <= scaled && r < d) by (nonlinear_arith)
        requires
            d > 0,
            q == scaled / d,
            r == scaled % d,
    ;
    if r >= d - r {
        Some(q + 1)
    } else {
        Some(q)
    }
}

/// Instructions that `workload_size` units of workload execute.
pub fn accounting_size(workload_size: u64) -> (r: u128)
    ensures
        r == workload_size * COST_PER_UNIT,
{
    let w = workload_size as u128;
    w * 18

}

/// Where the driver stands within the run.
#[derive(Clone, Copy, Debug, PartialEq, Eq, Structural)]
pub enum DriverPhase {
    /// Between configurations: the next one has not begun.
    Idle,
    /// The statistics are being reset.
    Resetting,
    /// Waiting for the start reading of the cycle counter.
    Starting,
    /// `spawned` workers have been forked so far.
    Spawning { spawned: u64 },
    /// Waiting for every worker to be reaped.
    Joining,
    /// Waiting for the end reading of the cycle counter.
    Stopping,
    /// Waiting for the statistics of the configuration.
    Checking,
    /// Every configuration has been reported.
    Finished,
    /// A fault was found; nothing more is done.
    Failed,
}

/// What the top-level process observed after carrying out the last action.
#[derive(Clone, Copy, Debug, PartialEq, Eq, Structural)]
pub enum DriverEvent {
    /// The last action completed.
    Done,
    /// The cycle counter reads this value.
    Clock(u64),
    /// After the join, this many workers could not be reaped.
    Joined { unreaped: u64 },
    /// The shared statistics hold these values.
    Counters(Statistics),
}

/// Why a run was aborted.
#[derive(Clone, Copy, Debug, PartialEq, Eq, Structural)]
pub enum DriverFault {
    /// Some worker process could not be reaped.
    UnreapedWorkers,
    /// The worker counter was not zero after every worker had been reaped.
    WorkersLeftRunning,
    /// The event does not fit the phase.
    UnexpectedEvent,
}

/// What the top-level process has to do next.
#[derive(Clone, Copy, Debug, PartialEq, Eq, Structural)]
pub enum DriverAction {
    /// Overwrite the shared statistics with zero.
    ResetStats,
    /// Read the cycle counter.
    ReadClock,
    /// Fork the `index`-th worker of the configuration, to be pinned to
    /// processor `cpu`, for a configuration of `thread_count` workers and
    /// `workload_size` units of workload.
    SpawnWorker { index: u64, cpu: u64, thread_count: u64, workload_size: u64 },
    /// Wait for every worker forked for the configuration.
    JoinAll,
    /// Read the shared statistics.
    ReadCounters,
    /// Emit the results of a configuration.
    Emit(Report),
    /// Every configuration has been measured.
    Finish,
    /// Abort the run.
    Abort(DriverFault),
}

/// The decisions of the top-level process: it measures each configuration
/// in turn.
pub struct Driver {
    cases: Vec<TestCase>,
    n_procs: u64,
    next: usize,
    phase: DriverPhase,
    start: u64,
    end: u64,
}

impl Driver {
    pub closed spec fn spec_cases(&self) -> Seq<TestCase> {
        self.cases@
    }

    pub closed spec fn spec_n_procs(&self) -> u64 {
        self.n_procs
    }

    /// Index of the configuration being measured, or of the next one when
    /// idle.
    pub closed spec fn spec_next(&self) -> int {
        self.next as int
    }

    pub closed spec fn spec_phase(&self) -> DriverPhase {
        self.phase
    }

    /// The configuration under measurement.
    pub closed spec fn spec_current(&self) -> TestCase {
        self.cases@[self.next as int]
    }

    pub closed spec fn spec_start(&self) -> u64 {
        self.start
    }

    pub closed spec fn spec_end(&self) -> u64 {
        self.end
    }

    pub closed spec fn wf(&self) -> bool {
        &&& self.n_procs > 0
        &&& self.next <= self.cases@.len()
        &&& match self.phase {
            DriverPhase::Idle | DriverPhase::Finished | DriverPhase::Failed => true,
            DriverPhase::Spawning { spawned } => self.next < self.cases@.len() && 1 <= spawned
                <= self.cases@[self.next as int].0,
            _ => self.next < self.cases@.len(),
        }
    }

    /// A driver about to measure `cases` in order, on `n_procs` processors.
    pub fn new(cases: Vec<TestCase>, n_procs: u64) -> (d: Driver)
        requires
            n_procs > 0,
        ensures
            d.wf(),
            d.spec_cases() == cases@,
            d.spec_n_procs() == n_procs,
            d.spec_next() == 0,
            d.spec_phase() == DriverPhase::Idle,
    {
        Driver { cases, n_procs, next: 0, phase: DriverPhase::Idle, start: 0, end: 0 }
    }

    pub fn phase(&self) -> (p: DriverPhase)
        ensures
            p == self.spec_phase(),
    {
        self.phase
    }

    /// Take the event that followed the last action and decide the next
    /// one. The first event of a run is `Done`.
    pub fn step(&mut self, event: DriverEvent) -> (a: DriverAction)
        requires
            old(self).wf(),
        ensures
            final(self).wf(),
            final(self).spec_cases() == old(self).spec_cases(),
            final(self).spec_n_procs() == old(self).spec_n_procs(),
            ({
                let p = old(self).spec_phase();
                let q = final(self).spec_phase();
                let i = old(self).spec_next();
                let n = old(self).spec_cases().len();
                let c = old(self).spec_current();
                match (p, event) {
                    (DriverPhase::Idle, DriverEvent::Done) => if i == n {
                        a == DriverAction::Finish && q == DriverPhase::Finished && final(self).spec_next() == i
                    } else {
                        a == DriverAction::ResetStats && q == DriverPhase::Resetting && final(self).spec_next() == i
                    },
                    (DriverPhase::Resetting, DriverEvent::Done) => a == DriverAction::ReadClock
                        && q == DriverPhase::Starting && final(self).spec_next() == i,
                    (DriverPhase::Starting, DriverEvent::Clock(t)) => final(self).spec_start()
                        == t && final(self).spec_next() == i && if c.0 == 0 {
                        a == DriverAction::JoinAll && q == DriverPhase::Joining
                    } else {
                        a == (DriverAction::SpawnWorker {
                            index: 0,
                            cpu: processor_for(0, old(self).spec_n_procs()),
                            thread_count: c.0,
                            workload_size: c.1,
                        }) && q == (DriverPhase::Spawning { spawned: 1 })
                    },
                    (DriverPhase::Spawning { spawned }, DriverEvent::Done) => final(self).spec_next() == i && final(self).spec_start() == old(self).spec_start() && if spawned
                        < c.0 {
                        a == (DriverAction::SpawnWorker {
                            index: spawned,
                            cpu: processor_for(spawned, old(self).spec_n_procs()),
                            thread_count: c.0,
                            workload_size: c.1,
                        }) && q == (DriverPhase::Spawning { spawned: (spawned + 1) as u64 })
                    } else {
                        a == DriverAction::JoinAll && q == DriverPhase::Joining
                    },
                    (DriverPhase::Joining, DriverEvent::Joined { unreaped }) => if unreaped == 0 {
                        a == DriverAction::ReadClock && q == DriverPhase::Stopping && final(self).spec_next() == i && final(self).spec_start() == old(self).spec_start()
                    } else {
                        a == DriverAction::Abort(DriverFault::UnreapedWorkers) && q
                            == DriverPhase::Failed
                    },
                    (DriverPhase::Stopping, DriverEvent::Clock(t)) => a
                        == DriverAction::ReadCounters && q == DriverPhase::Checking && final(self).spec_next() == i && final(self).spec_start() == old(self).spec_start()
                        && final(self).spec_end() == t,
                    (DriverPhase::Checking, DriverEvent::Counters(s)) => if s.workers == 0 {
                        let elapsed = (if old(self).spec_end() >= old(self).spec_start() {
                            old(self).spec_end() - old(self).spec_start()
                        } else {
                            old(self).spec_end() - old(self).spec_start() + 0x1_0000_0000_0000_0000
                        }) as u64;
                        a == DriverAction::Emit(
                            Report {
                                thread_count: c.0,
                                workload_size: c.1,
                                accounting_size: (c.1 * COST_PER_UNIT) as u128,
                                vm_cycles: s.vm_cycles,
                                elapsed,
                                metric_micros: metric_spec(s.vm_cycles, elapsed, c.0),
                            },
                        ) && q == DriverPhase::Idle && final(self).spec_next() == i + 1
                    } else {
                        a == DriverAction::Abort(DriverFault::WorkersLeftRunning) && q
                            == DriverPhase::Failed
                    },
                    (DriverPhase::Finished, _) => a == DriverAction::Finish && q
                        == DriverPhase::Finished,
                    _ => a == DriverAction::Abort(DriverFault::UnexpectedEvent) && q
                        == DriverPhase::Failed,
                }
            }),
    {
        match (self.phase, event) {
            (DriverPhase::Idle, DriverEvent::Done) => {
                if self.next == self.cases.len() {
                    self.phase = DriverPhase::Finished;
                    DriverAction::Finish
                } else {
                    self.phase = DriverPhase::Resetting;
                    DriverAction::ResetStats
                }
            },
            (DriverPhase::Resetting, DriverEvent::Done) => {
                self.phase = DriverPhase::Starting;
                DriverAction::ReadClock
            },
            (DriverPhase::Starting, DriverEvent::Clock(t)) => {
                self.start = t;
                let c = self.cases[self.next];
                if c.0 == 0 {
                    self.phase = DriverPhase::Joining;
                    DriverAction::JoinAll
                } else {
                    self.phase = DriverPhase::Spawning { spawned: 1 };
                    DriverAction::SpawnWorker {
                        index: 0,
                        cpu: assign_processor(0, self.n_procs),
                        thread_count: c.0,
                        workload_size: c.1,
                    }
                }
            },
            (DriverPhase::Spawning { spawned }, DriverEvent::Done) => {
                let c = self.cases[self.next];
                if spawned < c.0 {
                    self.phase = DriverPhase::Spawning { spawned: spawned + 1 };
                    DriverAction::SpawnWorker {
                        index: spawned,
                        cpu: assign_processor(spawned, self.n_procs),
                        thread_count: c.0,
                        workload_size: c.1,
                    }
                } else {
                    self.phase = DriverPhase::Joining;
                    DriverAction::JoinAll
                }
            },
            (DriverPhase::Joining, DriverEvent::Joined { unreaped }) => {
                if unreaped == 0 {
                    self.phase = DriverPhase::Stopping;
                    DriverAction::ReadClock
                } else {
                    self.phase = DriverPhase::Failed;
                    DriverAction::Abort(DriverFault::UnreapedWorkers)
                }
            },
            (DriverPhase::Stopping, DriverEvent::Clock(t)) => {
                self.end = t;
                self.phase = DriverPhase::Checking;
                DriverAction::ReadCounters
            },
            (DriverPhase::Checking, DriverEvent::Counters(s)) => {
                if s.is_idle() {
                    assert(self.next < self.cases.len());
                    let c = self.cases[self.next];
                    let elapsed = elapsed_cycles(self.start, self.end);
                    let report = Report {
                        thread_count: c.0,
                        workload_size: c.1,
                        accounting_size: accounting_size(c.1),
                        vm_cycles: s.vm_cycles,
                        elapsed,
                        metric_micros: normalized_metric(s.vm_cycles, elapsed, c.0),
                    };
                    self.next = self.next + 1;
                    self.phase = DriverPhase::Idle;
                    DriverAction::Emit(report)
                } else {
                    self.phase = DriverPhase::Failed;
                    DriverAction::Abort(DriverFault::WorkersLeftRunning)
                }
            },
            (DriverPhase::Finished, _) => DriverAction::Finish,
            _ => {
                self.phase = DriverPhase::Failed;
                DriverAction::Abort(DriverFault::UnexpectedEvent)
            },
        }
    }
}

} // verus!
