//! What a reconcile asks of the controller loop once it has finished, and
//! the policy that turns a failed reconcile into such a request.

use crate::context::Data;
use crate::error::Error;
use vstd::prelude::*;

verus! {

/// Seconds after which a failed reconcile is tried again.
pub const RETRY_SECS: u64 = 1;

/// A span of time: whole seconds and the nanoseconds beyond them.
#[derive(Clone, Copy, Debug, PartialEq, Eq, Structural)]
pub struct Delay {
    pub secs: u64,
    pub nanos: u32,
}

impl Delay {
    /// The nanosecond part is less than one second.
    pub open spec fn well_formed(self) -> bool {
        self.nanos < 1_000_000_000
    }

    /// A delay of whole seconds.
    pub fn from_secs(secs: u64) -> (delay: Self)
        ensures
            delay == (Delay { secs, nanos: 0 }),
            delay.well_formed(),
    {
        Delay { secs, nanos: 0 }
    }
}

/// When the controller loop is to reconcile an object again.
#[derive(Clone, Copy, Debug, PartialEq, Eq, Structural)]
pub enum Action {
    /// After the given delay, even if nothing changes meanwhile.
    Requeue(Delay),
    /// Not before the next change that the watch reports.
    AwaitChange,
}

impl Action {
    /// Reconcile again after `delay`.
    pub fn requeue(delay: Delay) -> (action: Self)
        ensures
            action == Action::Requeue(delay),
    {
        Action::Requeue(delay)
    }

    /// Wait for the next change.
    pub fn await_change() -> (action: Self)
        ensures
            action == Action::AwaitChange,
    {
        Action::AwaitChange
    }
}

/// The request that every failed reconcile is answered with.
pub open spec fn retry() -> Action {
    Action::Requeue(Delay { secs: RETRY_SECS, nanos: 0 })
}

/// Decides what follows a failed reconcile: the same fixed delay whatever
/// the error and whatever the context hold.
pub fn error_policy<C>(_error: &Error, _ctx: &Data<C>) -> (action: Action)
    ensures
        action == retry(),
{
    Action::requeue(Delay::from_secs(RETRY_SECS))
}

} // verus!
