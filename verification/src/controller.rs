//! The controller loop's view of one tracked object: idle, being reconciled,
//! or waiting out a delay before the next reconcile.

use crate::action::{error_policy, retry, Action, Delay};
use crate::context::Data;
use crate::error::{Error, ErrorView};
use crate::reconciler::outcome_view;
use vstd::prelude::*;

verus! {

/// Where the loop stands with one tracked object.
#[derive(Clone, Copy, Debug, PartialEq, Eq, Structural)]
pub enum Track {
    /// No reconcile runs; the next watch event starts one.
    Idle,
    /// A reconcile is running.
    Running,
    /// No reconcile runs; one starts after the delay, or earlier if a watch
    /// event arrives.
    IdleFor(Delay),
}

/// What the loop does after a reconcile with the given result: what the
/// reconcile asked for where it succeeded, the retry of the error policy
/// where it failed.
pub open spec fn scheduled(outcome: Result<Action, ErrorView>) -> Action {
    match outcome {
        Ok(action) => action,
        Err(_) => retry(),
    }
}

/// The state in which a finished reconcile leaves its object.
pub open spec fn settled(action: Action) -> Track {
    match action {
        Action::AwaitChange => Track::Idle,
        Action::Requeue(delay) => Track::IdleFor(delay),
    }
}

/// Decides what follows a finished reconcile, applying the error policy to
/// a failure.
pub fn schedule<C>(outcome: &Result<Action, Error>, ctx: &Data<C>) -> (action: Action)
    ensures
        action == scheduled(outcome_view(*outcome)),
{
    match outcome {
        Ok(action) => *action,
        Err(error) => error_policy(error, ctx),
    }
}

impl Track {
    /// A watch event, or the end of a delay, starts a reconcile. At most
    /// one reconcile runs for an object: while one runs, the state stays as
    /// it is.
    pub fn on_trigger(self) -> (next: Track)
        ensures
            next == Track::Running,
    {
        Track::Running
    }

    /// The running reconcile has finished with `outcome`.
    pub fn on_finished<C>(self, outcome: &Result<Action, Error>, ctx: &Data<C>) -> (next: Track)
        ensures
            next == settled(scheduled(outcome_view(*outcome))),
    {
        match schedule(outcome, ctx) {
            Action::AwaitChange => Track::Idle,
            Action::Requeue(delay) => Track::IdleFor(delay),
        }
    }
}

} // verus!
