//! Why a service did not do what it was asked.

use crate::access::store::AccessError;
use crate::error::AppError;
use vstd::prelude::*;
use vstd::std_specs::convert::FromSpecImpl;

verus! {

/// Why a service did not do what it was asked.
#[derive(Debug, Clone, Copy, PartialEq, Eq, Structural)]
pub enum ActionError {
    /// The store did not answer; a story that is missing, or that belongs to
    /// another user, is `AccessError::NotFound`.
    AccessError(AccessError),
    /// The story was deleted: nothing of it changes any more.
    InvalidState,
    /// The lock around the signed-in user is broken, or the store handed out
    /// a record of another kind than it was asked for.
    Internal,
}

impl From<AccessError> for ActionError {
    fn from(err: AccessError) -> (ret: ActionError) {
        ActionError::AccessError(err)
    }
}

impl FromSpecImpl<AccessError> for ActionError {
    open spec fn obeys_from_spec() -> bool {
        true
    }

    open spec fn from_spec(err: AccessError) -> ActionError {
        ActionError::AccessError(err)
    }
}

/// The failure for a story that is not there for the user who asks.
pub open spec fn not_found() -> ActionError {
    ActionError::AccessError(AccessError::NotFound)
}

/// Whether a failure is the store's own: neither a missing record nor a
/// deleted story.
pub open spec fn store_failed(err: ActionError) -> bool {
    err != not_found() && err != ActionError::InvalidState
}

/// What a caller is told of a failed service.
pub open spec fn action_answer(err: ActionError) -> (u16, Seq<char>) {
    match err {
        ActionError::AccessError(err) => crate::error::access_answer(err),
        ActionError::InvalidState => (crate::error::BAD_REQUEST, "Story has been deleted."@),
        ActionError::Internal => (crate::error::INTERNAL_SERVER_ERROR, "Internal server error"@),
    }
}

impl From<ActionError> for AppError {
    fn from(err: ActionError) -> (ret: AppError)
        ensures
            ret@ == action_answer(err),
    {
        match err {
            ActionError::AccessError(err) => AppError::from(err),
            ActionError::InvalidState => AppError::story_deleted(),
            ActionError::Internal => AppError::internal(),
        }
    }
}

impl FromSpecImpl<ActionError> for AppError {
    /// The answer is stated on `from` itself: an answer has no value apart
    /// from its status and the text of its message.
    open spec fn obeys_from_spec() -> bool {
        false
    }

    open spec fn from_spec(err: ActionError) -> AppError {
        arbitrary()
    }
}

} // verus!
