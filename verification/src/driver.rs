//! The cycle driver: partitioning a global cycle range into chunks and
//! advancing through a run of committed journals in lock-step with the real
//! machine.
//!
//! The driver never performs I/O itself: the host asks it for the next chunk
//! input, runs the enclave and the real machine, and hands the committed
//! journal back together with the machine's observed cycle register.  Any
//! disagreement between the two is a fatal cycle mismatch.

use vstd::prelude::*;

use crate::errors::Error;
use crate::{CartesiInput, CartesiResult};

verus! {

/// Where the next chunk must end: `step` cycles further, clipped to
/// `max_cycle`.
pub open spec fn spec_chunk_end(current: u64, step: u64, max_cycle: u64) -> u64 {
    if current + step > max_cycle {
        max_cycle
    } else {
        (current + step) as u64
    }
}

/// Driver state for one run: the cycle the machine currently stands at, the
/// cycle to stop at, and the fixed chunk size.
#[derive(Debug, Clone, Copy, PartialEq, Eq, Structural)]
pub struct CycleDriver {
    pub current_mcycle: u64,
    pub max_cycle: u64,
    pub step: u64,
}

impl CycleDriver {
    pub open spec fn wf(self) -> bool {
        &&& self.step >= 1
        &&& self.current_mcycle <= self.max_cycle
    }

    /// Start a run over `[min_cycle, max_cycle)`.  The machine must already
    /// stand at `min_cycle`; a machine whose observed cycle register differs
    /// is a pre-existing cycle mismatch and the run never starts.
    pub fn new(min_cycle: u64, max_cycle: u64, step: u64, observed_mcycle: u64) -> (r: Result<
        CycleDriver,
        Error,
    >)
        requires
            min_cycle <= max_cycle,
            step >= 1,
        ensures
            r is Ok <==> observed_mcycle == min_cycle,
            match r {
                Ok(d) => {
                    &&& d.wf()
                    &&& d == (CycleDriver { current_mcycle: min_cycle, max_cycle, step })
                },
                Err(e) => {
                    e matches Error::CycleMismatch { expected, actual } && expected == min_cycle
                        && actual == observed_mcycle
                },
            },
    {
        if observed_mcycle != min_cycle {
            return Err(Error::CycleMismatch { expected: min_cycle, actual: observed_mcycle });
        }
        Ok(CycleDriver { current_mcycle: min_cycle, max_cycle, step })
    }

    /// The input for the next enclave instantiation, or nothing once the run
    /// is complete.  A produced chunk always spans at least one cycle.
    pub fn next_input(&self) -> (r: Option<CartesiInput>)
        requires
            self.wf(),
        ensures
            r is Some <==> self.current_mcycle < self.max_cycle,
            match r {
                Some(input) => {
                    &&& input.begin_mcycle == self.current_mcycle
                    &&& input.end_mcycle == spec_chunk_end(
                        self.current_mcycle,
                        self.step,
                        self.max_cycle,
                    )
                    &&& input.begin_mcycle < input.end_mcycle
                },
                None => self.current_mcycle == self.max_cycle,
            },
    {
        if self.current_mcycle >= self.max_cycle {
            return None;
        }
        let end_mcycle = if self.max_cycle - self.current_mcycle < self.step {
            self.max_cycle
        } else {
            self.current_mcycle + self.step
        };
        Some(CartesiInput { begin_mcycle: self.current_mcycle, end_mcycle })
    }

    /// Absorb one committed journal after the real machine was told to run
    /// to the journal's reached cycle.  The machine's observed cycle
    /// register must agree with the journal — a mismatch means the enclave
    /// and the real machine have diverged, which is fatal.  On agreement the
    /// driver advances to the cycle actually reached, so an early halt
    /// shifts later chunk boundaries instead of re-executing cycles.
    pub fn absorb(&mut self, journal: &CartesiResult, observed_mcycle: u64) -> (r: Result<
        (),
        Error,
    >)
        requires
            old(self).wf(),
            journal.begin_mcycle == old(self).current_mcycle,
            journal.begin_mcycle <= journal.end_mcycle <= old(self).max_cycle,
        ensures
            r is Ok <==> observed_mcycle == journal.end_mcycle,
            match r {
                Ok(_) => {
                    &&& final(self).wf()
                    &&& *final(self) == (CycleDriver {
                        current_mcycle: journal.end_mcycle,
                        ..*old(self)
                    })
                },
                Err(e) => {
                    &&& *final(self) == *old(self)
                    &&& e matches Error::CycleMismatch { expected, actual } && expected
                        == journal.end_mcycle && actual == observed_mcycle
                },
            },
    {
        if observed_mcycle != journal.end_mcycle {
            return Err(
                Error::CycleMismatch { expected: journal.end_mcycle, actual: observed_mcycle },
            );
        }
        self.current_mcycle = journal.end_mcycle;
        Ok(())
    }
}

/// The journals of one run, chained: the first chunk begins at the run's
/// first cycle, and every later chunk begins exactly where its predecessor
/// ended — no cycle is skipped or re-executed.
pub open spec fn run_chained(journals: Seq<CartesiResult>, min_cycle: u64) -> bool {
    &&& journals.len() > 0 ==> journals[0].begin_mcycle == min_cycle
    &&& forall|i: int|
        1 <= i < journals.len() ==> (#[trigger] journals[i]).begin_mcycle == journals[
            i - 1
        ].end_mcycle
}

/// Every chunk of the run made progress: the interpreter reached at least
/// one cycle beyond the chunk's beginning.
pub open spec fn run_progress(journals: Seq<CartesiResult>) -> bool {
    forall|i: int|
        0 <= i < journals.len() ==> (#[trigger] journals[i]).end_mcycle > journals[i].begin_mcycle
}

/// Every chunk of the run ran to its requested end, i.e. the interpreter
/// never halted early.
pub open spec fn run_full_chunks(journals: Seq<CartesiResult>, step: u64, max_cycle: u64) -> bool {
    forall|i: int|
        0 <= i < journals.len() ==> (#[trigger] journals[i]).end_mcycle == spec_chunk_end(
            journals[i].begin_mcycle,
            step,
            max_cycle,
        )
}

/// Monotonic chunk progress law: across the journals of any run in which
/// each chunk made progress, the reached cycles are strictly increasing.
pub proof fn lemma_run_monotonic(journals: Seq<CartesiResult>, min_cycle: u64, i: int, j: int)
    requires
        run_chained(journals, min_cycle),
        run_progress(journals),
        0 <= i < j < journals.len(),
    ensures
        journals[i].end_mcycle < journals[j].end_mcycle,
    decreases j - i,
{
    if j == i + 1 {
        assert(journals[j].begin_mcycle == journals[i].end_mcycle);
    } else {
        lemma_run_monotonic(journals, min_cycle, i, j - 1);
        assert(journals[j].begin_mcycle == journals[j - 1].end_mcycle);
    }
}

/// Monotonic chunk progress law, completion half: a run without early halts
/// that went on until the driver stopped asking for chunks ends exactly at
/// `max_cycle`.
pub proof fn lemma_run_reaches_max(
    journals: Seq<CartesiResult>,
    min_cycle: u64,
    step: u64,
    max_cycle: u64,
)
    requires
        journals.len() > 0,
        run_chained(journals, min_cycle),
        run_full_chunks(journals, step, max_cycle),
        journals.last().end_mcycle >= max_cycle,
    ensures
        journals.last().end_mcycle == max_cycle,
{
    let last = journals.len() - 1;
    assert(journals[last].end_mcycle == spec_chunk_end(
        journals[last].begin_mcycle,
        step,
        max_cycle,
    ));
}

} // verus!
