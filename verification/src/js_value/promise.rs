//! The bridge from a guest promise to a host result.
//!
//! A promise is pending until the guest engine settles it, fulfilled or
//! rejected, in a step of its own event loop. The bridge never settles
//! a promise: it reads what the engine holds, and decides whether the
//! caller has its result, has to drive the loop once more, or has waited
//! long enough.

use crate::error::{Error, JsError};
use vstd::prelude::*;

verus! {

/// The state of a guest promise, as the guest engine has it.
#[derive(Debug, Clone, Copy, PartialEq, Eq, Structural)]
pub enum PromiseState {
    Pending,
    Fulfilled,
    Rejected,
}

/// What the host reads off a guest promise at one moment.
///
/// A fulfilled promise comes with the attempt to decode its value into the
/// target type: the value, or the message of the decoder. A rejected
/// promise comes with the exception that the guest rejected it with.
#[derive(Debug, PartialEq, Eq)]
pub enum Observation<T> {
    Pending,
    Fulfilled(Result<T, String>),
    Rejected(JsError),
}

/// The answer of a poll that does not block.
#[derive(Debug, PartialEq, Eq)]
pub enum PromisePoll<T> {
    Pending,
    Ready(Result<T, Error>),
}

/// What the caller of a blocking or awaiting resolve does next.
#[derive(Debug, PartialEq, Eq)]
pub enum BridgeStep<T> {
    /// Run the guest event loop one step further, then look again.
    Drive,
    /// Stop with this result.
    Done(Result<T, Error>),
}

impl<T> Observation<T> {
    /// The state of the promise that was read.
    pub open spec fn spec_state(&self) -> PromiseState {
        match *self {
            Observation::Pending => PromiseState::Pending,
            Observation::Fulfilled(_) => PromiseState::Fulfilled,
            Observation::Rejected(_) => PromiseState::Rejected,
        }
    }

    /// The result that a settled promise gives its caller: the decoded
    /// value, a decode error with the decoder's message, or the guest's
    /// exception. A pending promise gives none.
    pub open spec fn outcome(self) -> Option<Result<T, Error>> {
        match self {
            Observation::Pending => None,
            Observation::Fulfilled(Ok(value)) => Some(Ok(value)),
            Observation::Fulfilled(Err(message)) => Some(Err(Error::JsonDecode(message))),
            Observation::Rejected(exception) => Some(Err(Error::JsError(exception))),
        }
    }

    /// The state of the promise that was read.
    #[verifier::when_used_as_spec(spec_state)]
    pub fn state(&self) -> (state: PromiseState)
        ensures
            state == self.spec_state(),
    {
        match self {
            Observation::Pending => PromiseState::Pending,
            Observation::Fulfilled(_) => PromiseState::Fulfilled,
            Observation::Rejected(_) => PromiseState::Rejected,
        }
    }

    /// Checks if the promise is pending or already resolved
    pub fn is_pending(&self) -> (pending: bool)
        ensures
            pending == (self.spec_state() == PromiseState::Pending),
            pending == (self.outcome() is None),
    {
        match self {
            Observation::Pending => true,
            _ => false,
        }
    }
}

/// The answer of a poll to what was read off the promise.
pub open spec fn poll_of<T>(seen: Observation<T>) -> PromisePoll<T> {
    match seen.outcome() {
        None => PromisePoll::Pending,
        Some(result) => PromisePoll::Ready(result),
    }
}

/// The next step of a resolve after `elapsed_ms` of a budget of
/// `timeout_ms`: a settled promise ends the wait with its outcome, also
/// when the budget is used up; a pending one is driven on while budget is
/// left and times out when none is.
pub open spec fn step_of<T>(seen: Observation<T>, elapsed_ms: u64, timeout_ms: u64) -> BridgeStep<
    T,
> {
    match seen.outcome() {
        Some(result) => BridgeStep::Done(result),
        None => if elapsed_ms >= timeout_ms {
            BridgeStep::Done(Err(Error::Timeout(timeout_ms)))
        } else {
            BridgeStep::Drive
        },
    }
}

/// Polls the promise, returning `Pending` if the promise is still pending
/// or `Ready(Ok(T))` if the promise is resolved
/// or `Ready(Err(Error))` if the promise is rejected or its value does not
/// decode.
///
/// It does not advance the guest event loop.
pub fn poll_promise<T>(seen: Observation<T>) -> (poll: PromisePoll<T>)
    ensures
        poll == poll_of(seen),
{
    match seen {
        Observation::Pending => PromisePoll::Pending,
        Observation::Rejected(exception) => PromisePoll::Ready(Err(Error::JsError(exception))),
        Observation::Fulfilled(decoded) => match decoded {
            Ok(value) => PromisePoll::Ready(Ok(value)),
            Err(message) => PromisePoll::Ready(Err(Error::JsonDecode(message))),
        },
    }
}

/// Decides the next step of a blocking or awaiting resolve.
///
/// The caller reads the promise, asks this function, and on `Drive` runs
/// the guest event loop one step further and comes back; `elapsed_ms` is
/// the time since the resolve began and `timeout_ms` the budget of the
/// runtime.
pub fn resolve_step<T>(seen: Observation<T>, elapsed_ms: u64, timeout_ms: u64) -> (step: BridgeStep<
    T,
>)
    ensures
        step == step_of(seen, elapsed_ms, timeout_ms),
{
    match poll_promise(seen) {
        PromisePoll::Ready(result) => BridgeStep::Done(result),
        PromisePoll::Pending => {
            if elapsed_ms >= timeout_ms {
                BridgeStep::Done(Err(Error::Timeout(timeout_ms)))
            } else {
                BridgeStep::Drive
            }
        },
    }
}

/// A poll and a resolve agree: a promise whose poll is ready ends the
/// resolve with that very result, at any time and under any budget.
pub proof fn lemma_ready_poll_ends_resolve<T>(seen: Observation<T>, elapsed_ms: u64, timeout_ms: u64)
    ensures
        poll_of(seen) is Ready ==> step_of(seen, elapsed_ms, timeout_ms) == BridgeStep::Done(
            poll_of(seen)->Ready_0,
        ),
        poll_of(seen) is Pending <==> seen.spec_state() == PromiseState::Pending,
{
}

/// A promise that stays pending is driven exactly as long as budget is
/// left, and then fails with the timeout: the resolve does not hang.
pub proof fn lemma_pending_times_out<T>(elapsed_ms: u64, timeout_ms: u64)
    ensures
        step_of(Observation::<T>::Pending, elapsed_ms, timeout_ms) is Drive <==> elapsed_ms
            < timeout_ms,
        elapsed_ms >= timeout_ms ==> step_of(Observation::<T>::Pending, elapsed_ms, timeout_ms)
            == BridgeStep::<T>::Done(Err(Error::Timeout(timeout_ms))),
{
}

} // verus!
