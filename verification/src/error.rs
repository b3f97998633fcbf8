//! What sending and joining can report.
use vstd::prelude::*;

verus! {

/// The mailbox has no receiving side any more: its actor has stopped.
#[derive(Clone, Copy, PartialEq, Eq, Debug, Structural)]
pub struct SendFailed;

/// Why joining an actor did not end well.
#[derive(Clone, Copy, PartialEq, Eq, Debug, Structural)]
pub enum JoinError {
    /// A handler failed and took the actor down with it.
    ActorPanicked,
    /// The join token had been used before.
    JoinAfterDetached,
}

/// What a join reports. `token` is `None` where the join token had been used
/// before; else it holds whether the actor came to its end without a failure.
pub open spec fn join_report(token: Option<bool>) -> Result<(), JoinError> {
    match token {
        None => Err(JoinError::JoinAfterDetached),
        Some(false) => Err(JoinError::ActorPanicked),
        Some(true) => Ok(()),
    }
}

/// Turns what is known at a join into what the caller is told.
pub fn join_outcome(token: Option<bool>) -> (r: Result<(), JoinError>)
    ensures
        r == join_report(token),
{
    match token {
        None => Err(JoinError::JoinAfterDetached),
        Some(false) => Err(JoinError::ActorPanicked),
        Some(true) => Ok(()),
    }
}

} // verus!
