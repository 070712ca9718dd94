use vstd::prelude::*;

verus! {

/// Number of distinct values of a `u64` counter.
pub open spec fn counter_range() -> int {
    0x1_0000_0000_0000_0000
}

/// Addition on a 64-bit counter, wrapping as an atomic `fetch_add` does.
pub open spec fn counter_add(a: u64, b: u64) -> u64 {
    if a + b >= counter_range() {
        (a + b - counter_range()) as u64
    } else {
        (a + b) as u64
    }
}

/// Subtraction on a 64-bit counter, wrapping as an atomic `fetch_sub` does.
pub open spec fn counter_sub(a: u64, b: u64) -> u64 {
    if a < b {
        (a - b + counter_range()) as u64
    } else {
        (a - b) as u64
    }
}

/// One update that a process makes to the statistics region.
#[derive(Clone, Copy, Debug, PartialEq, Eq, Structural)]
pub enum CounterOp {
    /// A worker enters the running phase.
    Enter,
    /// A worker leaves the running phase.
    Leave,
    /// A trial publishes the cycles it measured.
    Trial(u64),
}

/// Snapshot of the statistics region shared by the driver and its workers.
#[derive(Clone, Copy, Debug, PartialEq, Eq, Structural)]
pub struct Statistics {
    /// Cycles accumulated by every trial of the current configuration.
    pub vm_cycles: u64,
    /// Workers that have entered the running phase and not yet left it.
    pub workers: u64,
}

/// The zero-valued statistics that open every configuration.
pub open spec fn zero_stats() -> Statistics {
    Statistics { vm_cycles: 0, workers: 0 }
}

/// The statistics after a reset: zero, whatever they held before.
pub open spec fn reset_stats(s: Statistics) -> Statistics {
    zero_stats()
}

/// The statistics after one update.
pub open spec fn apply_op(s: Statistics, op: CounterOp) -> Statistics {
    match op {
        CounterOp::Enter => Statistics { workers: counter_add(s.workers, 1), ..s },
        CounterOp::Leave => Statistics { workers: counter_sub(s.workers, 1), ..s },
        CounterOp::Trial(e) => Statistics { vm_cycles: counter_add(s.vm_cycles, e), ..s },
    }
}

/// The statistics after a sequence of updates, applied in order.
pub open spec fn apply_ops(s: Statistics, ops: Seq<CounterOp>) -> Statistics
    decreases ops.len(),
{
    if ops.len() == 0 {
        s
    } else {
        apply_op(apply_ops(s, ops.drop_last()), ops.last())
    }
}

/// Number of `Enter` updates in `ops`.
pub open spec fn count_enters(ops: Seq<CounterOp>) -> nat
    decreases ops.len(),
{
    if ops.len() == 0 {
        0
    } else {
        count_enters(ops.drop_last()) + if ops.last() == CounterOp::Enter { 1nat } else { 0nat }
    }
}

/// Number of `Leave` updates in `ops`.
pub open spec fn count_leaves(ops: Seq<CounterOp>) -> nat
    decreases ops.len(),
{
    if ops.len() == 0 {
        0
    } else {
        count_leaves(ops.drop_last()) + if ops.last() == CounterOp::Leave { 1nat } else { 0nat }
    }
}

/// No prefix of `ops` has more workers leaving than entering, and no more
/// workers enter than a counter can hold.
pub open spec fn well_nested(ops: Seq<CounterOp>) -> bool {
    &&& count_enters(ops) <= u64::MAX
    &&& forall|n: int|
        0 <= n <= ops.len() ==> count_leaves(#[trigger] ops.subrange(0, n)) <= count_enters(
            ops.subrange(0, n),
        )
}

/// `k` trials that each report `e` cycles.
pub open spec fn fixed_trials(e: u64, k: nat) -> Seq<CounterOp> {
    Seq::new(k, |i: int| CounterOp::Trial(e))
}

impl Statistics {
    /// Zero-valued statistics, as at the start of a configuration.
    pub fn new() -> (r: Statistics)
        ensures
            r == zero_stats(),
    {
        Statistics { vm_cycles: 0, workers: 0 }
    }

    /// Statistics holding the two counters as read from the shared region.
    pub fn from_counters(vm_cycles: u64, workers: u64) -> (r: Statistics)
        ensures
            r.vm_cycles == vm_cycles,
            r.workers == workers,
    {
        Statistics { vm_cycles, workers }
    }

    /// Overwrite both counters with zero, forgetting the previous configuration.
    pub fn reset(&mut self)
        ensures
            *final(self) == reset_stats(*old(self)),
            *final(self) == zero_stats(),
    {
        self.vm_cycles = 0;
        self.workers = 0;
    }

    /// Apply one update, with the wrapping arithmetic of the atomic counters.
    pub fn apply(&mut self, op: CounterOp)
        ensures
            *final(self) == apply_op(*old(self), op),
    {
        match op {
            CounterOp::Enter => {
                self.workers = self.workers.wrapping_add(1);
            },
            CounterOp::Leave => {
                self.workers = self.workers.wrapping_sub(1);
            },
            CounterOp::Trial(e) => {
                self.vm_cycles = self.vm_cycles.wrapping_add(e);
            },
        }
    }

    /// Record one trial that measured `elapsed` cycles.
    pub fn record_trial(&mut self, elapsed: u64)
        ensures
            *final(self) == apply_op(*old(self), CounterOp::Trial(elapsed)),
            final(self).vm_cycles == counter_add(old(self).vm_cycles, elapsed),
            final(self).workers == old(self).workers,
    {
        self.apply(CounterOp::Trial(elapsed));
    }

    /// Record a worker entering the running phase.
    pub fn worker_entered(&mut self)
        ensures
            *final(self) == apply_op(*old(self), CounterOp::Enter),
    {
        self.apply(CounterOp::Enter);
    }

    /// Record a worker leaving the running phase.
    pub fn worker_left(&mut self)
        ensures
            *final(self) == apply_op(*old(self), CounterOp::Leave),
    {
        self.apply(CounterOp::Leave);
    }

    /// Whether every one of `thread_count` workers has entered, so that the
    /// barrier lets them all start timing.
    pub fn barrier_released(&self, thread_count: u64) -> (r: bool)
        ensures
            r == (self.workers == thread_count),
    {
        self.workers == thread_count
    }

    /// Whether no worker is in its running phase.
    pub fn is_idle(&self) -> (r: bool)
        ensures
            r == (self.workers == 0),
    {
        self.workers == 0
    }
}

proof fn lemma_worker_count(ops: Seq<CounterOp>)
    requires
        well_nested(ops),
    ensures
        apply_ops(zero_stats(), ops).workers == count_enters(ops) - count_leaves(ops),
    decreases ops.len(),
{
    if ops.len() > 0 {
        let p = ops.drop_last();
        assert(ops.subrange(0, ops.len() as int) =~= ops);
        assert forall|n: int| 0 <= n <= p.len() implies count_leaves(#[trigger] p.subrange(0, n))
            <= count_enters(p.subrange(0, n)) by {
            assert(p.subrange(0, n) =~= ops.subrange(0, n));
        }
        lemma_count_enters_monotone(ops);
        lemma_worker_count(p);
    }
}

proof fn lemma_count_enters_monotone(ops: Seq<CounterOp>)
    requires
        ops.len() > 0,
    ensures
        count_enters(ops.drop_last()) <= count_enters(ops),
{
}

/// Once every worker that entered has left, and none left before entering,
/// the worker counter is back to zero: a completed configuration leaves no
/// workers behind, whatever the interleaving and the trials in between.
pub proof fn lemma_joined_workers_leave_zero(ops: Seq<CounterOp>)
    requires
        well_nested(ops),
        count_enters(ops) == count_leaves(ops),
    ensures
        apply_ops(zero_stats(), ops).workers == 0,
{
    lemma_worker_count(ops);
}

/// Resetting the statistics makes what follows independent of what came
/// before: two regions reset and then given the same updates hold the same
/// values.
pub proof fn lemma_reset_forgets_history(a: Statistics, b: Statistics, ops: Seq<CounterOp>)
    ensures
        apply_ops(reset_stats(a), ops) == apply_ops(reset_stats(b), ops),
        apply_ops(reset_stats(a), ops) == apply_ops(zero_stats(), ops),
{
}

/// `k` trials that each report `e` cycles accumulate exactly `e * k` cycles,
/// whenever that product fits in the counter.
pub proof fn lemma_fixed_trials_accumulate(e: u64, k: nat)
    requires
        e * k <= u64::MAX,
    ensures
        apply_ops(zero_stats(), fixed_trials(e, k)).vm_cycles == e * k,
    decreases k,
{
    if k > 0 {
        let k1 = (k - 1) as nat;
        assert(fixed_trials(e, k).drop_last() =~= fixed_trials(e, k1));
        assert(e * k1 <= e * k) by (nonlinear_arith)
            requires
                k1 < k,
        ;
        assert(e * k == e * k1 + e) by (nonlinear_arith)
            requires
                k1 == k - 1,
        ;
        lemma_fixed_trials_accumulate(e, k1);
        let ops = fixed_trials(e, k);
        assert(ops.last() == CounterOp::Trial(e));
        assert(apply_ops(zero_stats(), ops) == apply_op(
            apply_ops(zero_stats(), fixed_trials(e, k1)),
            CounterOp::Trial(e),
        ));
    } else {
        assert(e * k == 0) by (nonlinear_arith)
            requires
                k == 0,
        ;
    }
}

} // verus!
