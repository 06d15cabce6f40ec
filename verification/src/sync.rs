//! CPU/GPU frame synchronization through a monotonic fence.
//!
//! The fence is the only channel through which the GPU reports
//! completion: the queue schedules a signal at a counter value after
//! each submission, and the GPU writes that value to the fence's
//! completed-value once all prior work has finished. The model keeps
//! both sides of the protocol as plain counters: `completed` (what the
//! GPU has reached) and `signaled` (what the CPU has scheduled).
//!
//! Waiting is the pipeline's only suspension point. While the CPU
//! thread sleeps in [`FrameSynchronizer::wait_for_slot`], the GPU
//! retires outstanding submissions one at a time; the model folds that
//! asynchronous progress into the wait loop itself.

use vstd::prelude::*;

verus! {

/// Model of a GPU fence: a monotonically increasing completed-value,
/// advanced by the GPU, together with the highest counter value the
/// CPU has scheduled to be signaled.
#[derive(Clone, Copy, PartialEq, Eq, Structural, Debug)]
pub struct Fence {
    /// Highest counter value the GPU has completed.
    pub completed: u64,
    /// Highest counter value scheduled to be signaled on the queue.
    pub signaled: u64,
}

impl Fence {
    /// The GPU never completes work that was not submitted.
    pub open spec fn wf(self) -> bool {
        self.completed <= self.signaled
    }

    /// A fresh fence, with nothing submitted and nothing completed.
    pub fn new() -> (f: Fence)
        ensures
            f.completed == 0,
            f.signaled == 0,
            f.wf(),
    {
        Fence { completed: 0, signaled: 0 }
    }

    /// Read the completed-value, exactly as the GPU last wrote it.
    pub fn get_completed_value(&self) -> (v: u64)
        ensures
            v == self.completed,
    {
        self.completed
    }

    /// Schedule a signal at `value` after the work already on the queue.
    pub fn schedule_signal(&mut self, value: u64)
        requires
            old(self).wf(),
            old(self).signaled < value,
        ensures
            final(self).wf(),
            final(self).signaled == value,
            final(self).completed == old(self).completed,
    {
        self.signaled = value;
    }

    /// The GPU retires one outstanding submission, advancing the
    /// completed-value by one milestone. The completed-value never
    /// decreases.
    pub fn retire_one(&mut self)
        requires
            old(self).wf(),
            old(self).completed < old(self).signaled,
        ensures
            final(self).wf(),
            final(self).completed == old(self).completed + 1,
            final(self).signaled == old(self).signaled,
    {
        self.completed = self.completed + 1;
    }
}

/// The per-frame protocol state, reconstructed from the fence and the
/// counter the CPU last observed complete.
#[derive(Clone, Copy, PartialEq, Eq, Structural, Debug)]
pub enum FramePhase {
    /// Nothing submitted beyond what the CPU has observed complete;
    /// the CPU is free to record.
    Idle,
    /// A signal is scheduled that the GPU has not completed yet.
    Submitted,
    /// The GPU has completed the scheduled signal, but the CPU has not
    /// observed it yet.
    Signaled,
}

/// Classify the protocol state. The cycle per frame is Idle →
/// Submitted when the CPU schedules the next signal after submitting,
/// Submitted → Signaled when the GPU asynchronously completes it, and
/// Signaled → Idle when the CPU observes the completion — from then on
/// it may reuse the buffer that was gated on that counter.
pub open spec fn phase(fence: Fence, observed: u64) -> FramePhase {
    if observed >= fence.signaled {
        FramePhase::Idle
    } else if fence.completed < fence.signaled {
        FramePhase::Submitted
    } else {
        FramePhase::Signaled
    }
}

/// Proof that a recording slot is free: issued only by
/// [`FrameSynchronizer::wait_for_slot`], which guarantees that the
/// fence's completed-value has reached `counter`. The command recorder
/// demands such a token before it resets its allocator, so a reset can
/// never race GPU work that is still in flight.
pub struct SlotToken {
    counter: u64,
}

impl SlotToken {
    /// The counter value whose completion this token witnesses.
    pub closed spec fn counter(self) -> u64 {
        self.counter
    }

    /// Read the witnessed counter value.
    pub fn value(&self) -> (v: u64)
        ensures
            v == self.counter(),
    {
        self.counter
    }
}

/// Owns the fence and the next counter value to signal; enforces that
/// the CPU never reuses a buffer the GPU has not finished with.
pub struct FrameSynchronizer {
    /// The fence shared with the GPU.
    pub fence: Fence,
    /// The next counter value to signal; starts at 1 and increments
    /// once per frame.
    pub fence_value: u64,
    /// How many waits actually blocked (found the completed-value
    /// behind the target) before returning.
    pub blocked_waits: u64,
}

impl FrameSynchronizer {
    /// Signals stay below the next counter value, and each blocking
    /// wait raised the completed-value, so blocked waits never
    /// outnumber completed milestones.
    pub open spec fn wf(self) -> bool {
        &&& self.fence.wf()
        &&& self.fence.signaled < self.fence_value
        &&& self.blocked_waits <= self.fence.completed
    }

    /// A fresh synchronizer: counter starts at 1, nothing signaled.
    pub fn new() -> (s: FrameSynchronizer)
        ensures
            s.fence_value == 1,
            s.fence.completed == 0,
            s.fence.signaled == 0,
            s.blocked_waits == 0,
            s.wf(),
    {
        FrameSynchronizer { fence: Fence::new(), fence_value: 1, blocked_waits: 0 }
    }

    /// Schedule a signal at the current counter value and advance the
    /// counter. Returns the scheduled value, which gates the next reuse
    /// of whatever the just-submitted work reads.
    pub fn signal_and_advance(&mut self) -> (c: u64)
        requires
            old(self).wf(),
            old(self).fence_value < u64::MAX,
        ensures
            final(self).wf(),
            c == old(self).fence_value,
            final(self).fence_value == c + 1,
            final(self).fence.signaled == c,
            final(self).fence.completed == old(self).fence.completed,
            final(self).blocked_waits == old(self).blocked_waits,
    {
        let c = self.fence_value;
        self.fence.schedule_signal(c);
        self.fence_value = c + 1;
        c
    }

    /// Block until the fence's completed-value reaches `target`.
    ///
    /// Returns immediately when the GPU is already there; otherwise the
    /// CPU sleeps while the GPU retires outstanding submissions, and
    /// wakes exactly when the completed-value reaches `target` — never
    /// earlier. `target` must have been scheduled, since nothing else
    /// would ever fire the wakeup. The returned token witnesses the
    /// reached counter and unlocks the command recorder.
    pub fn wait_for_slot(&mut self, target: u64) -> (token: SlotToken)
        requires
            old(self).wf(),
            target <= old(self).fence.signaled,
        ensures
            final(self).wf(),
            final(self).fence.completed >= target,
            final(self).fence.completed >= old(self).fence.completed,
            old(self).fence.completed >= target ==> final(self).fence.completed
                == old(self).fence.completed,
            old(self).fence.completed < target ==> final(self).fence.completed == target,
            final(self).fence.signaled == old(self).fence.signaled,
            final(self).fence_value == old(self).fence_value,
            final(self).blocked_waits == old(self).blocked_waits
                + (if old(self).fence.completed < target { 1int } else { 0int }),
            token.counter() == target,
    {
        if self.fence.get_completed_value() < target {
            self.blocked_waits = self.blocked_waits + 1;
            let signaled = self.fence.signaled;
            let mut f = self.fence;
            while f.completed < target
                invariant
                    f.wf(),
                    f.completed <= target,
                    target <= signaled,
                    f.signaled == signaled,
                decreases target - f.completed,
            {
                f.retire_one();
            }
            self.fence = f;
        }
        SlotToken { counter: target }
    }
}

} // verus!
