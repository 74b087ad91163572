//! The completion bridge: one-shot native callbacks as awaitable results.
//!
//! Every command handed to the native receiver is acknowledged later by a
//! single-shot callback carrying a status code and, for some commands, a
//! value.  `CompletionSlot` is the synchronization object behind one such
//! call: it is filled exactly once (by the callback), observed exactly once
//! (by the waiter), and the callback — never the waiter — reclaims the
//! slot's native-side context, so that abandoning the wait leaks nothing.
//! `resolve_unit` and `resolve_value` turn the observed outcome into the
//! command's typed result.

use vstd::prelude::*;

use crate::error::{VioletError, error_for_code, error_from_code};

verus! {

/// A single-use completion object for one pending command.
///
/// `filled` holds the status code and payload the callback delivered, until
/// the waiter takes them.  `observed` records that the waiter has taken them.
/// `context_reclaimed` records that the native-side context of the call has
/// been taken back — by the callback when it fires, or by the native side
/// when it destroys the call without responding; it is the resource whose
/// single release the leak-freedom laws below are about.  `waiter_gone`
/// records that the waiter abandoned the wait.
pub struct CompletionSlot<V> {
    pub filled: Option<(i32, V)>,
    pub observed: bool,
    pub context_reclaimed: bool,
    pub waiter_gone: bool,
}

/// What one poll of a pending command's waiter sees.
#[derive(Clone, Copy, Debug, PartialEq, Eq)]
pub enum CommandWait<V> {
    /// The callback has fired: its status code and payload, handed out once.
    Ready(i32, V),
    /// The callback has not fired yet and its context is still live.
    Pending,
    /// The native side reclaimed the call's context without a value reaching
    /// the waiter: the command resolves to an error rather than hanging.
    Lost,
}

impl<V> CompletionSlot<V> {
    pub open spec fn spec_filled(self) -> Option<(i32, V)> {
        self.filled
    }

    pub open spec fn spec_observed(self) -> bool {
        self.observed
    }

    pub open spec fn spec_context_reclaimed(self) -> bool {
        self.context_reclaimed
    }

    pub open spec fn spec_waiter_gone(self) -> bool {
        self.waiter_gone
    }

    /// A slot as a fresh call allocates it.
    pub open spec fn fresh_spec(self) -> bool {
        &&& self.spec_filled() is None
        &&& !self.spec_observed()
        &&& !self.spec_context_reclaimed()
        &&& !self.spec_waiter_gone()
    }

    /// A callback invocation is accepted only while the context is still
    /// unreclaimed; a second invocation finds it gone.
    pub open spec fn fill_accepted(self) -> bool {
        !self.spec_context_reclaimed()
    }

    /// The slot after an accepted callback invocation.
    pub open spec fn fill_spec(self, code: i32, value: V) -> CompletionSlot<V> {
        CompletionSlot { filled: Some((code, value)), context_reclaimed: true, ..self }
    }

    /// The slot after one callback invocation, accepted or not: the first
    /// invocation fills and reclaims, every later one changes nothing.
    pub open spec fn fire_spec(self, code: i32, value: V) -> CompletionSlot<V> {
        if self.fill_accepted() {
            self.fill_spec(code, value)
        } else {
            self
        }
    }

    /// The slot after the native side destroys the call without responding.
    pub open spec fn drop_context_spec(self) -> CompletionSlot<V> {
        CompletionSlot { context_reclaimed: true, ..self }
    }

    /// The slot after the waiter abandons the wait.
    pub open spec fn abandon_spec(self) -> CompletionSlot<V> {
        CompletionSlot { waiter_gone: true, ..self }
    }

    /// What a poll of the waiter returns and leaves behind.
    pub open spec fn poll_spec(self) -> CompletionSlot<V> {
        CompletionSlot { filled: None, observed: self.observed || self.filled is Some, ..self }
    }

    /// Allocate the slot for one pending command.
    pub fn new() -> (s: Self)
        ensures
            s.fresh_spec(),
    {
        CompletionSlot { filled: None, observed: false, context_reclaimed: false, waiter_gone: false }
    }

    /// One invocation of the native callback: deliver a status code and
    /// payload, reclaiming the call's context.  Exactly the first invocation
    /// is accepted; any further one finds the context reclaimed, changes
    /// nothing and reclaims nothing.
    pub fn fill(&mut self, code: i32, value: V) -> (accepted: bool)
        ensures
            accepted == old(self).fill_accepted(),
            *final(self) == old(self).fire_spec(code, value),
    {
        if self.context_reclaimed {
            false
        } else {
            self.filled = Some((code, value));
            self.context_reclaimed = true;
            true
        }
    }

    /// The native side destroys the call without responding: the context is
    /// reclaimed (once) and no value will ever arrive.
    pub fn drop_context(&mut self) -> (reclaimed_now: bool)
        ensures
            reclaimed_now == !old(self).spec_context_reclaimed(),
            *final(self) == old(self).drop_context_spec(),
    {
        let was = self.context_reclaimed;
        self.context_reclaimed = true;
        !was
    }

    /// The waiter abandons the wait (its task is dropped).  The slot remains
    /// safely fillable; only the callback path reclaims the context.
    pub fn abandon(&mut self)
        ensures
            *final(self) == old(self).abandon_spec(),
    {
        self.waiter_gone = true;
    }

    /// One poll of the waiter: the delivered outcome exactly once, `Pending`
    /// while the callback may still fire, `Lost` if the context went away
    /// without a value — a poll never hangs a resolved call.
    pub fn poll_wait(&mut self) -> (w: CommandWait<V>)
        requires
            !old(self).spec_observed(),
            !old(self).spec_waiter_gone(),
        ensures
            *final(self) == old(self).poll_spec(),
            match w {
                CommandWait::Ready(code, value) => old(self).spec_filled() == Some((code, value)),
                CommandWait::Pending => old(self).spec_filled() is None && !old(self).spec_context_reclaimed(),
                CommandWait::Lost => old(self).spec_filled() is None && old(self).spec_context_reclaimed(),
            },
    {
        match self.filled.take() {
            Some((code, value)) => {
                self.observed = true;
                CommandWait::Ready(code, value)
            },
            None => {
                if self.context_reclaimed {
                    CommandWait::Lost
                } else {
                    CommandWait::Pending
                }
            },
        }
    }
}

/// Exactly one resolution per call: however often the callback fires, only
/// its first invocation is accepted; every later invocation leaves the slot
/// unchanged, so the waiter can only ever observe the first delivery.
pub proof fn lemma_fill_exactly_once<V>(s: CompletionSlot<V>, c1: i32, v1: V, c2: i32, v2: V)
    requires
        s.fill_accepted(),
    ensures
        s.fire_spec(c1, v1).spec_filled() == Some((c1, v1)),
        !s.fire_spec(c1, v1).fill_accepted(),
        s.fire_spec(c1, v1).fire_spec(c2, v2) == s.fire_spec(c1, v1),
{
}

/// Abandoning a pending call leaks nothing: the callback firing after the
/// abandon still reclaims the context, and it is reclaimed exactly once —
/// a fresh slot that is abandoned and then filled any number of times has
/// its context reclaimed by the first fill alone.
pub proof fn lemma_abandon_then_fill_reclaims_once<V>(s: CompletionSlot<V>, c1: i32, v1: V, c2: i32, v2: V)
    requires
        s.fresh_spec(),
    ensures
        s.abandon_spec().fill_accepted(),
        s.abandon_spec().fire_spec(c1, v1).spec_context_reclaimed(),
        !s.abandon_spec().fire_spec(c1, v1).fill_accepted(),
        s.abandon_spec().fire_spec(c1, v1).fire_spec(c2, v2) == s.abandon_spec().fire_spec(c1, v1),
{
}

/// The typed result of a command that returns no value: the designated
/// success code resolves to success, every other delivered code to its named
/// error, and a torn-down completion channel (no delivery) to
/// `UnknownError` rather than a hang.
pub fn resolve_unit(outcome: Option<i32>) -> (r: Result<(), VioletError>)
    ensures
        match outcome {
            Some(code) => r == (if code == 0 { Ok::<(), VioletError>(()) } else { Err::<(), VioletError>(error_for_code(code)) }),
            None => r == Err::<(), VioletError>(VioletError::UnknownError),
        },
{
    match outcome {
        Some(0) => Ok(()),
        Some(code) => Err(error_from_code(code)),
        None => Err(VioletError::UnknownError),
    }
}

/// The typed result of a command that returns a value (the effective setting
/// the server accepted, possibly adjusted): on the designated success code
/// the delivered value, otherwise the named error, and `UnknownError` when
/// the completion channel was torn down without a delivery.
pub fn resolve_value<V>(outcome: Option<(i32, V)>) -> (r: Result<V, VioletError>)
    ensures
        match outcome {
            Some((code, value)) => r == (if code == 0 { Ok::<V, VioletError>(value) } else { Err::<V, VioletError>(error_for_code(code)) }),
            None => r == Err::<V, VioletError>(VioletError::UnknownError),
        },
{
    match outcome {
        Some((0, value)) => Ok(value),
        Some((code, _)) => Err(error_from_code(code)),
        None => Err(VioletError::UnknownError),
    }
}

} // verus!
