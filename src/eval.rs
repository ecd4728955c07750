//! The hand-off of script text to an evaluator owned by the user interface.
//!
//! One slot holds the reply channel of the submission that waits. A new
//! submission takes the slot; a completion empties it and hands its payload
//! to whichever channel stood there.
use vstd::prelude::*;

verus! {

/// The event name under which script text is sent to the evaluator.
pub const EVAL_EVENT: &'static str = "JS-EVAL";

/// The single outstanding-request slot, holding the reply channel `T` of the
/// submission that waits, if any.
pub struct EvalChannel<T> {
    pub pending: Option<T>,
}

impl<T> EvalChannel<T> {
    /// The slot after a submission whose reply channel is `reply`.
    pub open spec fn after_submit(self, reply: T) -> EvalChannel<T> {
        EvalChannel { pending: Some(reply) }
    }

    /// The slot after a completion.
    pub open spec fn after_complete(self) -> EvalChannel<T> {
        EvalChannel { pending: None }
    }

    /// The reply channel that a completion arriving now delivers to.
    pub open spec fn receiver(self) -> Option<T> {
        self.pending
    }

    pub fn new() -> (r: EvalChannel<T>)
        ensures
            r.pending is None,
    {
        EvalChannel { pending: None }
    }

    /// Stores `reply` as the channel that the next completion goes to, and
    /// hands back the channel it displaced: that submission gets no reply.
    pub fn submit(&mut self, reply: T) -> (displaced: Option<T>)
        ensures
            *final(self) == old(self).after_submit(reply),
            displaced == old(self).pending,
    {
        let displaced = self.pending.take();
        self.pending = Some(reply);
        displaced
    }

    /// Empties the slot and hands back the channel that the result is to be
    /// sent on; `None` where nothing waits, which is no error.
    pub fn complete(&mut self) -> (r: Option<T>)
        ensures
            r == old(self).receiver(),
            *final(self) == old(self).after_complete(),
    {
        self.pending.take()
    }
}

/// A completion after a submission, with no other submission between them,
/// goes to that submission's channel, and leaves the slot empty.
pub proof fn lemma_completion_reaches_submitter<T>(slot: EvalChannel<T>, reply: T)
    ensures
        slot.after_submit(reply).receiver() == Some(reply),
        slot.after_submit(reply).after_complete().pending is None,
{
}

/// A completion that finds no submission waiting changes nothing, and a
/// later submission is then answered by the next completion as on a fresh
/// slot.
pub proof fn lemma_stale_completion_is_noop<T>(slot: EvalChannel<T>, reply: T)
    requires
        slot.pending is None,
    ensures
        slot.receiver() is None,
        slot.after_complete() == slot,
        slot.after_complete().after_submit(reply).receiver() == Some(reply),
{
}

/// A second submission before the first is answered takes the slot: the
/// next completion goes to the second.
pub proof fn lemma_second_submission_overwrites<T>(slot: EvalChannel<T>, first: T, second: T)
    ensures
        slot.after_submit(first).after_submit(second).receiver() == Some(second),
{
}

} // verus!
