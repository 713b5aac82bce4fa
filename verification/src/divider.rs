//! Integer frequency division.
//!
//! A divider with interval `k` turns every `k`-th input tick into one
//! pending output; `read` dequeues one pending output if any. Queueing
//! outputs (rather than latching a boolean) tolerates a burst of ticks
//! followed by a burst of reads without losing a scheduled action. With
//! `k = 0` the divider is transparent: every read is admitted.

use vstd::prelude::*;
use vstd::arithmetic::div_mod::lemma_div_is_ordered;
use vstd::arithmetic::div_mod::lemma_div_multiples_vanish;

verus! {

/// Integer down-sampler: one output per `interval` input ticks.
#[derive(Clone, Copy, Debug)]
pub struct FrequencyDivider {
    /// Input ticks since the last wrap.
    pub count: u64,
    /// Reset interval; zero makes the divider transparent.
    pub interval: u64,
    /// Pending output events.
    pub output: u64,
}

impl FrequencyDivider {
    /// When the divider divides at all, its in-progress count stays below
    /// the interval.
    pub open spec fn wf(self) -> bool {
        self.interval > 0 ==> self.count < self.interval
    }
}

/// One input tick: the counter advances and wraps to zero at the interval,
/// queueing one output. Counters stop at the largest representable value
/// rather than wrapping around.
pub open spec fn spec_div_tick(d: FrequencyDivider) -> FrequencyDivider {
    let c = if d.count == u64::MAX {
        d.count
    } else {
        (d.count + 1) as u64
    };
    if c == d.interval {
        FrequencyDivider {
            count: 0,
            output: if d.output == u64::MAX {
                d.output
            } else {
                (d.output + 1) as u64
            },
            ..d
        }
    } else {
        FrequencyDivider { count: c, ..d }
    }
}

/// One read: with interval zero every read is admitted; otherwise one
/// pending output is dequeued if any.
pub open spec fn spec_div_read(d: FrequencyDivider) -> (FrequencyDivider, bool) {
    if d.interval == 0 {
        (d, true)
    } else if d.output > 0 {
        (FrequencyDivider { output: (d.output - 1) as u64, ..d }, true)
    } else {
        (d, false)
    }
}

impl FrequencyDivider {
    /// A fresh divider with the given interval and nothing pending.
    pub fn new(interval: u64) -> (d: FrequencyDivider)
        ensures
            d == (FrequencyDivider { count: 0, interval, output: 0 }),
            d.wf(),
    {
        FrequencyDivider { count: 0, interval, output: 0 }
    }

    /// Trigger the divider counter.
    pub fn tick(&mut self)
        ensures
            *final(self) == spec_div_tick(*old(self)),
            old(self).wf() ==> final(self).wf(),
    {
        if self.count < u64::MAX {
            self.count = self.count + 1;
        }
        if self.count == self.interval {
            self.count = 0;
            if self.output < u64::MAX {
                self.output = self.output + 1;
            }
        }
    }

    /// Dequeue one output event if any; unconditionally admitted when the
    /// interval is zero.
    pub fn read(&mut self) -> (admitted: bool)
        ensures
            (*final(self), admitted) == spec_div_read(*old(self)),
            old(self).interval == 0 ==> admitted,
            old(self).wf() ==> final(self).wf(),
    {
        if self.interval == 0 {
            return true;
        }
        if self.output > 0 {
            self.output = self.output - 1;
            true
        } else {
            false
        }
    }
}

impl Default for FrequencyDivider {
    /// A transparent divider: interval zero, nothing counted or pending.
    fn default() -> (d: FrequencyDivider)
        ensures
            d == (FrequencyDivider { count: 0, interval: 0, output: 0 }),
            d.wf(),
    {
        FrequencyDivider { count: 0, interval: 0, output: 0 }
    }
}

/// One step of a tick-and-read history.
#[derive(Clone, Copy, Debug, PartialEq, Eq, Structural)]
pub enum DividerOp {
    /// An input tick.
    Tick,
    /// A read, admitted or not.
    Read,
}

/// The divider state after running a history of operations.
pub open spec fn spec_div_run(d: FrequencyDivider, ops: Seq<DividerOp>) -> FrequencyDivider
    decreases ops.len(),
{
    if ops.len() == 0 {
        d
    } else {
        let d1 = spec_div_run(d, ops.drop_last());
        match ops.last() {
            DividerOp::Tick => spec_div_tick(d1),
            DividerOp::Read => spec_div_read(d1).0,
        }
    }
}

/// How many reads of a history were admitted.
pub open spec fn spec_div_admitted(d: FrequencyDivider, ops: Seq<DividerOp>) -> nat
    decreases ops.len(),
{
    if ops.len() == 0 {
        0
    } else {
        let before = spec_div_admitted(d, ops.drop_last());
        match ops.last() {
            DividerOp::Tick => before,
            DividerOp::Read => if spec_div_read(spec_div_run(d, ops.drop_last())).1 {
                before + 1
            } else {
                before
            },
        }
    }
}

/// How many ticks a history contains.
pub open spec fn spec_div_ticks(ops: Seq<DividerOp>) -> nat
    decreases ops.len(),
{
    if ops.len() == 0 {
        0
    } else {
        spec_div_ticks(ops.drop_last()) + if ops.last() == DividerOp::Tick {
            1nat
        } else {
            0nat
        }
    }
}

/// How many reads a history contains.
pub open spec fn spec_div_reads(ops: Seq<DividerOp>) -> nat
    decreases ops.len(),
{
    if ops.len() == 0 {
        0
    } else {
        spec_div_reads(ops.drop_last()) + if ops.last() == DividerOp::Read {
            1nat
        } else {
            0nat
        }
    }
}

/// Budget invariant behind the admission law: over any history, the
/// admitted reads and the still-pending outputs together never outrun the
/// ticks, each weighted by the interval.
proof fn lemma_div_run_budget(d: FrequencyDivider, ops: Seq<DividerOp>)
    requires
        d.interval > 0,
        d.count < d.interval,
    ensures
        spec_div_run(d, ops).interval == d.interval,
        spec_div_run(d, ops).count < d.interval,
        d.interval * spec_div_admitted(d, ops) + d.interval * spec_div_run(d, ops).output
            + spec_div_run(d, ops).count <= d.interval * d.output + d.count + spec_div_ticks(
            ops,
        ),
    decreases ops.len(),
{
    let k = d.interval as int;
    if ops.len() > 0 {
        lemma_div_run_budget(d, ops.drop_last());
        let d1 = spec_div_run(d, ops.drop_last());
        let a1 = spec_div_admitted(d, ops.drop_last()) as int;
        let d2 = spec_div_run(d, ops);
        let a2 = spec_div_admitted(d, ops) as int;
        match ops.last() {
            DividerOp::Tick => {
                if d1.count + 1 == k && d1.output != u64::MAX {
                    assert(d2.output == d1.output + 1);
                    assert(k * (d1.output + 1) == k * d1.output + k) by (nonlinear_arith);
                }
            },
            DividerOp::Read => {
                if spec_div_read(d1).1 {
                    assert(a2 == a1 + 1);
                    assert(d2.output == d1.output - 1);
                    assert(k * (a1 + 1) == k * a1 + k) by (nonlinear_arith);
                    assert(k * (d1.output - 1) == k * d1.output - k) by (nonlinear_arith);
                }
            },
        }
    } else {
        assert(spec_div_admitted(d, ops) == 0);
        assert(k * spec_div_admitted(d, ops) == 0);
    }
}

/// Admission law for a dividing interval: starting fresh with interval
/// `k > 0`, over any history with `n` ticks at most `ceil(n / k)` reads are
/// admitted.
pub proof fn lemma_divider_admits_at_most_ceil(k: u64, ops: Seq<DividerOp>)
    requires
        k > 0,
    ensures
        spec_div_admitted(FrequencyDivider { count: 0, interval: k, output: 0 }, ops) <= (
        spec_div_ticks(ops) + k - 1) as int / k as int,
{
    let d = FrequencyDivider { count: 0, interval: k, output: 0 };
    let a = spec_div_admitted(d, ops) as int;
    let n = spec_div_ticks(ops) as int;
    lemma_div_run_budget(d, ops);
    assert(k * a <= n);
    lemma_div_is_ordered(k as int * a, n + k - 1, k as int);
    lemma_div_multiples_vanish(a, k as int);
}

/// Admission law for a transparent divider: with interval zero, every read
/// of any history is admitted.
pub proof fn lemma_divider_transparent(d: FrequencyDivider, ops: Seq<DividerOp>)
    requires
        d.interval == 0,
    ensures
        spec_div_admitted(d, ops) == spec_div_reads(ops),
    decreases ops.len(),
{
    if ops.len() > 0 {
        lemma_divider_transparent(d, ops.drop_last());
        assert(spec_div_run(d, ops.drop_last()).interval == 0) by {
            lemma_div_run_keeps_interval(d, ops.drop_last());
        }
    }
}

/// Running a history never changes the configured interval.
proof fn lemma_div_run_keeps_interval(d: FrequencyDivider, ops: Seq<DividerOp>)
    ensures
        spec_div_run(d, ops).interval == d.interval,
    decreases ops.len(),
{
    if ops.len() > 0 {
        lemma_div_run_keeps_interval(d, ops.drop_last());
    }
}

} // verus!
