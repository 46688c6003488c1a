use vstd::prelude::*;
use crate::dx12error::{Dx12Error, ErrorKind};

verus! {

/// What the CPU must do to be sure the GPU has reached a fence value.
#[derive(Clone, Copy, Debug, PartialEq, Eq, Structural)]
pub enum WaitDecision {
    /// The fence has already reached the value; no wait is needed.
    Ready,
    /// The fence has not reached the value yet: register the OS wait handle
    /// for this value and block on it with no timeout.
    MustWait(u64),
}

/// What the OS reported when a blocking wait on the fence event returned.
#[derive(Clone, Copy, Debug, PartialEq, Eq, Structural)]
pub enum WaitOutcome {
    /// The wait was satisfied: the GPU signalled the event.
    Satisfied,
    /// The wait itself failed; carries the OS error code.
    Failed(u32),
    /// The wait returned for a reason other than the event being signalled;
    /// carries the OS result code.
    Unexpected(u32),
}

/// The CPU side of the GPU/CPU completion counter: the next value to signal.
///
/// Values handed out are strictly increasing, starting from 1; a value is
/// signalled at most once and never reused.
pub struct Fence {
    value: u64,
}

impl Fence {
    /// The next value this fence will hand out.
    pub closed spec fn value_spec(&self) -> u64 {
        self.value
    }

    /// A fresh fence whose first value is 1.
    pub fn new() -> (r: Fence)
        ensures
            r.value_spec() == 1,
    {
        Fence { value: 1 }
    }

    /// The next value this fence will hand out.
    pub fn get_value(&self) -> (v: u64)
        ensures
            v == self.value_spec(),
    {
        self.value
    }

    /// Advances the counter to the next frame's value.  Fails, leaving the
    /// fence unchanged, only when the counter is exhausted: reusing a value
    /// would break the at-most-once signalling invariant.
    pub fn add_value(&mut self) -> (r: Result<(), Dx12Error>)
        ensures
            old(self).value_spec() < u64::MAX ==> {
                &&& r is Ok
                &&& final(self).value_spec() == old(self).value_spec() + 1
            },
            old(self).value_spec() == u64::MAX ==> {
                &&& r is Err
                &&& r->Err_0.kind_spec() == ErrorKind::SyncFailure
                &&& final(self).value_spec() == old(self).value_spec()
            },
    {
        if self.value == u64::MAX {
            Err(Dx12Error::sync_failure("fence value counter is exhausted"))
        } else {
            self.value = self.value + 1;
            Ok(())
        }
    }

    /// Returns the current counter value, then increments the counter for the
    /// next frame's use.  Fails, leaving the fence unchanged, only when the
    /// counter is exhausted.
    pub fn next_value(&mut self) -> (r: Result<u64, Dx12Error>)
        ensures
            old(self).value_spec() < u64::MAX ==> {
                &&& r is Ok
                &&& r->Ok_0 == old(self).value_spec()
                &&& final(self).value_spec() == old(self).value_spec() + 1
            },
            old(self).value_spec() == u64::MAX ==> {
                &&& r is Err
                &&& r->Err_0.kind_spec() == ErrorKind::SyncFailure
                &&& final(self).value_spec() == old(self).value_spec()
            },
    {
        let v = self.value;
        match self.add_value() {
            Ok(()) => Ok(v),
            Err(e) => Err(e),
        }
    }

    /// Decides whether the CPU must block for the fence to reach `value`,
    /// given the completed value the GPU has reported: no wait is needed
    /// exactly when `completed_value >= value`.
    pub fn wait_if_not_complete(completed_value: u64, value: u64) -> (r: WaitDecision)
        ensures
            r == if completed_value >= value {
                WaitDecision::Ready
            } else {
                WaitDecision::MustWait(value)
            },
    {
        if completed_value >= value {
            WaitDecision::Ready
        } else {
            WaitDecision::MustWait(value)
        }
    }

    /// Classifies what the OS reported for a blocking wait.  Only a satisfied
    /// wait may be treated as completion; a failed wait and a spurious wake
    /// are both surfaced as synchronization failures carrying the OS code.
    pub fn classify_wait_outcome(outcome: WaitOutcome) -> (r: Result<(), Dx12Error>)
        ensures
            r is Ok <==> outcome is Satisfied,
            outcome matches WaitOutcome::Failed(code) ==> {
                &&& r->Err_0.kind_spec() == ErrorKind::SyncFailure
                &&& r->Err_0.code_spec() == Some(code)
            },
            outcome matches WaitOutcome::Unexpected(code) ==> {
                &&& r->Err_0.kind_spec() == ErrorKind::SyncFailure
                &&& r->Err_0.code_spec() == Some(code)
            },
    {
        match outcome {
            WaitOutcome::Satisfied => Ok(()),
            WaitOutcome::Failed(code) => Err(
                Dx12Error::sync_failure_with_code("wait on the fence event failed", code),
            ),
            WaitOutcome::Unexpected(code) => Err(
                Dx12Error::sync_failure_with_code(
                    "wait on the fence event returned without being signalled",
                    code,
                ),
            ),
        }
    }
}

/// Holds of the values returned by successive successful `next_value` calls
/// on a fresh fence: the first value handed out is 1, and each call returns
/// one more than the call before it.  This is exactly what the contract of
/// [`Fence::next_value`] gives a caller that starts from [`Fence::new`].
pub open spec fn is_next_value_trace(vals: Seq<u64>) -> bool {
    &&& (vals.len() > 0 ==> vals[0] == 1)
    &&& (forall|i: int| 0 <= i && i + 1 < vals.len() ==> #[trigger] vals[i + 1] == vals[i] + 1)
}

proof fn lemma_next_value_trace_at(vals: Seq<u64>, i: int)
    requires
        is_next_value_trace(vals),
        0 <= i < vals.len(),
    ensures
        vals[i] == i + 1,
    decreases i,
{
    if i > 0 {
        lemma_next_value_trace_at(vals, i - 1);
        assert(vals[(i - 1) + 1] == vals[i - 1] + 1);
    }
}

/// Fence monotonicity: over any sequence of `next_value` calls, the returned
/// values are strictly increasing integers starting from 1 — the value of the
/// i-th call (counting from 0) is exactly i + 1.
pub proof fn lemma_next_value_trace_strictly_increasing(vals: Seq<u64>)
    requires
        is_next_value_trace(vals),
    ensures
        vals.len() > 0 ==> vals[0] == 1,
        forall|i: int| 0 <= i < vals.len() ==> vals[i] == i + 1,
        forall|i: int, j: int| 0 <= i < j < vals.len() ==> vals[i] < vals[j],
{
    assert forall|i: int| 0 <= i < vals.len() implies vals[i] == i + 1 by {
        lemma_next_value_trace_at(vals, i);
    }
}

} // verus!
