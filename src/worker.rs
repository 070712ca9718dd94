use vstd::prelude::*;

verus! {

/// Where a worker process stands in its life.
#[derive(Clone, Copy, Debug, PartialEq, Eq, Structural)]
pub enum WorkerPhase {
    /// Just forked, not yet pinned.
    Forked,
    /// Pinned to its processor, not yet counted as running.
    Pinned,
    /// Counted as running, spinning until every worker is.
    BarrierWait,
    /// Past the barrier, waiting for the clock to fix its deadline.
    Released,
    /// Running trials until the deadline.
    TrialLoop { deadline: u64 },
    /// A trial sub-process is running and has to be reaped.
    AwaitTrial { deadline: u64 },
    /// Leaving the running phase.
    Leaving,
    /// Done: the process exits.
    Exited,
}

/// What the worker's process observed after carrying out the last action.
#[derive(Clone, Copy, Debug, PartialEq, Eq, Structural)]
pub enum WorkerEvent {
    /// The last action completed.
    Done,
    /// The shared worker counter holds this value.
    Workers(u64),
    /// The cycle counter reads this value.
    Clock(u64),
}

/// What the worker's process has to do next.
#[derive(Clone, Copy, Debug, PartialEq, Eq, Structural)]
pub enum WorkerAction {
    /// Bind the process to this logical processor.
    Pin(u64),
    /// Add one to the shared worker counter, then read it.
    Enter,
    /// Read the shared worker counter again.
    PollWorkers,
    /// Read the cycle counter.
    ReadClock,
    /// Fork a trial sub-process that runs the workload and reports its
    /// cycles, then reap it.
    SpawnTrial,
    /// Subtract one from the shared worker counter.
    Leave,
    /// Exit the process with status 0.
    Exit,
    /// The event does not fit the phase: abort.
    Fault,
}

/// The decisions of one worker process of a configuration.
#[derive(Clone, Copy, Debug, PartialEq, Eq, Structural)]
pub struct Worker {
    /// Workers of the configuration, all of which the barrier waits for.
    pub thread_count: u64,
    /// Logical processor this worker is pinned to.
    pub cpu: u64,
    /// Cycles that the trial loop runs for once the barrier is passed.
    pub budget: u64,
    pub phase: WorkerPhase,
}

/// The processor for the worker spawned `index`-th, wrapping around the
/// `n_procs` processors available.
pub open spec fn processor_for(index: u64, n_procs: u64) -> u64
    recommends
        n_procs > 0,
{
    (index % n_procs) as u64
}

/// The deadline a trial loop started at `now` keeps to: `now + budget`,
/// held at the counter's largest value rather than wrapping.
pub open spec fn deadline_after(now: u64, budget: u64) -> u64 {
    if now + budget > u64::MAX {
        u64::MAX
    } else {
        (now + budget) as u64
    }
}

/// The processor for the worker spawned `index`-th among `n_procs`.
pub fn assign_processor(index: u64, n_procs: u64) -> (cpu: u64)
    requires
        n_procs > 0,
    ensures
        cpu == processor_for(index, n_procs),
        cpu < n_procs,
{
    index % n_procs
}

/// Cycles elapsed between two readings of the cycle counter, which may
/// have wrapped in between.
pub fn elapsed_cycles(start: u64, end: u64) -> (r: u64)
    ensures
        r as int == (if end >= start { end - start } else { end - start + 0x1_0000_0000_0000_0000 }),
{
    end.wrapping_sub(start)
}

impl Worker {
    /// The worker spawned `index`-th for a configuration of `thread_count`
    /// workers, on a host with `n_procs` logical processors.
    pub fn new(index: u64, thread_count: u64, n_procs: u64, budget: u64) -> (w: Worker)
        requires
            n_procs > 0,
        ensures
            w.thread_count == thread_count,
            w.cpu == processor_for(index, n_procs),
            w.budget == budget,
            w.phase == WorkerPhase::Forked,
    {
        Worker { thread_count, cpu: assign_processor(index, n_procs), budget, phase: WorkerPhase::Forked }
    }

    /// The worker's first action: pin to its processor.
    pub fn start(&mut self) -> (a: WorkerAction)
        requires
            old(self).phase == WorkerPhase::Forked,
        ensures
            a == WorkerAction::Pin(old(self).cpu),
            *final(self) == (Worker { phase: WorkerPhase::Pinned, ..*old(self) }),
    {
        self.phase = WorkerPhase::Pinned;
        WorkerAction::Pin(self.cpu)
    }

    /// Take the event that followed the last action and decide the next one.
    pub fn step(&mut self, event: WorkerEvent) -> (a: WorkerAction)
        ensures
            final(self).thread_count == old(self).thread_count,
            final(self).cpu == old(self).cpu,
            final(self).budget == old(self).budget,
            ({
                let p = old(self).phase;
                let q = final(self).phase;
                match (p, event) {
                    (WorkerPhase::Pinned, WorkerEvent::Done) => a == WorkerAction::Enter && q
                        == WorkerPhase::BarrierWait,
                    (WorkerPhase::BarrierWait, WorkerEvent::Workers(n)) => if n == old(
                        self,
                    ).thread_count {
                        a == WorkerAction::ReadClock && q == WorkerPhase::Released
                    } else {
                        a == WorkerAction::PollWorkers && q == WorkerPhase::BarrierWait
                    },
                    (WorkerPhase::Released, WorkerEvent::Clock(now)) => a == WorkerAction::ReadClock
                        && q == (WorkerPhase::TrialLoop {
                        deadline: deadline_after(now, old(self).budget),
                    }),
                    (WorkerPhase::TrialLoop { deadline }, WorkerEvent::Clock(now)) => if now
                        < deadline {
                        a == WorkerAction::SpawnTrial && q == (WorkerPhase::AwaitTrial { deadline })
                    } else {
                        a == WorkerAction::Leave && q == WorkerPhase::Leaving
                    },
                    (WorkerPhase::AwaitTrial { deadline }, WorkerEvent::Done) => a
                        == WorkerAction::ReadClock && q == (WorkerPhase::TrialLoop { deadline }),
                    (WorkerPhase::Leaving, WorkerEvent::Done) => a == WorkerAction::Exit && q
                        == WorkerPhase::Exited,
                    _ => a == WorkerAction::Fault && q == p,
                }
            }),
    {
        match (self.phase, event) {
            (WorkerPhase::Pinned, WorkerEvent::Done) => {
                self.phase = WorkerPhase::BarrierWait;
                WorkerAction::Enter
            },
            (WorkerPhase::BarrierWait, WorkerEvent::Workers(n)) => {
                if n == self.thread_count {
                    self.phase = WorkerPhase::Released;
                    WorkerAction::ReadClock
                } else {
                    WorkerAction::PollWorkers
                }
            },
            (WorkerPhase::Released, WorkerEvent::Clock(now)) => {
                let deadline = now.saturating_add(self.budget);
                self.phase = WorkerPhase::TrialLoop { deadline };
                WorkerAction::ReadClock
            },
            (WorkerPhase::TrialLoop { deadline }, WorkerEvent::Clock(now)) => {
                if now < deadline {
                    self.phase = WorkerPhase::AwaitTrial { deadline };
                    WorkerAction::SpawnTrial
                } else {
                    self.phase = WorkerPhase::Leaving;
                    WorkerAction::Leave
                }
            },
            (WorkerPhase::AwaitTrial { deadline }, WorkerEvent::Done) => {
                self.phase = WorkerPhase::TrialLoop { deadline };
                WorkerAction::ReadClock
            },
            (WorkerPhase::Leaving, WorkerEvent::Done) => {
                self.phase = WorkerPhase::Exited;
                WorkerAction::Exit
            },
            _ => WorkerAction::Fault,
        }
    }
}

} // verus!
