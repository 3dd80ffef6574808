//! What a caller of the service is told when a request fails: a status
//! code and a message that tells nothing of the store behind the service.

use crate::access::store::AccessError;
use vstd::prelude::*;
use vstd::std_specs::convert::FromSpecImpl;

verus! {

pub const BAD_REQUEST: u16 = 400;

pub const UNAUTHORIZED: u16 = 401;

pub const NOT_FOUND: u16 = 404;

pub const INTERNAL_SERVER_ERROR: u16 = 500;

/// A failed request: the status code of the answer and its message.
#[derive(Debug, PartialEq, Eq)]
pub struct AppError(pub u16, pub String);

/// A result of the service.
pub type AppResult<T> = Result<T, AppError>;

impl View for AppError {
    type V = (u16, Seq<char>);

    open spec fn view(&self) -> (u16, Seq<char>) {
        (self.0, self.1@)
    }
}

impl Clone for AppError {
    fn clone(&self) -> (res: Self)
        ensures
            res == *self,
    {
        AppError(self.0, self.1.clone())
    }
}

/// What a caller is told of a failed call on the store. That a record is
/// missing and that a payload or a row is malformed are the caller's to know;
/// a failure of the store itself is answered without detail.
pub open spec fn access_answer(err: AccessError) -> (u16, Seq<char>) {
    match err {
        AccessError::NotFound => (NOT_FOUND, "Not found"@),
        AccessError::Api(_) => (BAD_REQUEST, "Malformed content"@),
        AccessError::Schema(_) => (BAD_REQUEST, "Malformed record"@),
        AccessError::Storage => (INTERNAL_SERVER_ERROR, "Internal server error"@),
    }
}

impl AppError {
    /// The answer to a request that needs a signed-in user and has none.
    pub fn login_required() -> (err: AppError)
        ensures
            err@ == (UNAUTHORIZED, "Login required"@),
    {
        AppError(UNAUTHORIZED, "Login required".to_owned())
    }

    /// The answer to a sign-up while a user is signed in.
    pub fn already_signed_in() -> (err: AppError)
        ensures
            err@ == (BAD_REQUEST, "Already signed in."@),
    {
        AppError(BAD_REQUEST, "Already signed in.".to_owned())
    }

    /// The answer to a change of a story that was deleted.
    pub fn story_deleted() -> (err: AppError)
        ensures
            err@ == (BAD_REQUEST, "Story has been deleted."@),
    {
        AppError(BAD_REQUEST, "Story has been deleted.".to_owned())
    }

    /// The answer where the lock around the signed-in user is broken.
    pub fn poisoned() -> (err: AppError)
        ensures
            err@ == (INTERNAL_SERVER_ERROR, "VerifiedUser was poisoned."@),
    {
        AppError(INTERNAL_SERVER_ERROR, "VerifiedUser was poisoned.".to_owned())
    }

    /// The answer where the service found itself in a state that its own
    /// rules exclude.
    pub fn internal() -> (err: AppError)
        ensures
            err@ == (INTERNAL_SERVER_ERROR, "Internal server error"@),
    {
        AppError(INTERNAL_SERVER_ERROR, "Internal server error".to_owned())
    }
}

impl From<AccessError> for AppError {
    fn from(err: AccessError) -> (ret: AppError)
        ensures
            ret@ == access_answer(err),
    {
        match err {
            AccessError::NotFound => AppError(NOT_FOUND, "Not found".to_owned()),
            AccessError::Api(_) => AppError(BAD_REQUEST, "Malformed content".to_owned()),
            AccessError::Schema(_) => AppError(BAD_REQUEST, "Malformed record".to_owned()),
            AccessError::Storage => AppError(
                INTERNAL_SERVER_ERROR,
                "Internal server error".to_owned(),
            ),
        }
    }
}

impl FromSpecImpl<AccessError> for AppError {
    /// The answer is stated on `from` itself: an answer has no value apart
    /// from its status and the text of its message.
    open spec fn obeys_from_spec() -> bool {
        false
    }

    open spec fn from_spec(err: AccessError) -> AppError {
        arbitrary()
    }
}

} // verus!
