//! The signed-in user of a request, held behind a lock that all the code
//! paths of the request share.

use crate::error::{AppError, AppResult};
use crate::model::{User, UserView};
use std::sync::{Arc, Mutex};
use vstd::prelude::*;

verus! {

/// `std::sync::Mutex`, taken as it is: a value of it is carried along, and
/// nothing is known of what is behind it.
#[verifier::external_type_specification]
#[verifier::external_body]
#[verifier::reject_recursive_types(T)]
pub struct ExMutex<T: ?Sized>(Mutex<T>);

/// The user that a lock was made around. Nothing in this library writes
/// through the lock, so the user behind it stays the one it was made with.
pub uninterp spec fn guarded_user(cell: Mutex<User>) -> UserView;

/// Calls `Mutex::new`: a lock around the user.
#[verifier::external_body]
fn mutex_new(user: User) -> (cell: Mutex<User>)
    ensures
        guarded_user(cell) == user@,
{
    Mutex::new(user)
}

/// Calls `Mutex::lock`, copies the numeric id and the UUID of the user
/// behind the lock and lets the lock go. `None` where the lock is poisoned.
#[verifier::external_body]
fn mutex_lock(cell: &Mutex<User>) -> (copied: Option<(u32, u128)>)
    ensures
        copied matches Some(pair) ==> pair == (guarded_user(*cell).id, guarded_user(*cell).uuid),
{
    match cell.lock() {
        Ok(user) => Some((user.id, user.uuid)),
        Err(_) => None,
    }
}

/// Calls `Arc::clone`: another handle on the same lock.
#[verifier::external_body]
fn arc_clone(cell: &Arc<Mutex<User>>) -> (shared: Arc<Mutex<User>>)
    ensures
        shared == cell,
{
    Arc::clone(cell)
}

/// What the accessors answer from what the lock gave: the numeric id and
/// the UUID, or the failure of a poisoned lock.
pub fn read_or_poisoned(copied: Option<(u32, u128)>) -> (r: AppResult<(u32, u128)>)
    ensures
        match copied {
            Some(pair) => r == Ok::<(u32, u128), AppError>(pair),
            None => r is Err && r->Err_0@ == (
                crate::error::INTERNAL_SERVER_ERROR,
                "VerifiedUser was poisoned."@,
            ),
        },
{
    match copied {
        Some(pair) => Ok(pair),
        None => Err(AppError::poisoned()),
    }
}

/// The signed-in user. Copies of the handle share one lock.
pub struct VerifiedUser {
    inner: Arc<Mutex<User>>,
}

impl View for VerifiedUser {
    type V = UserView;

    closed spec fn view(&self) -> UserView {
        guarded_user(*self.inner)
    }
}

impl Clone for VerifiedUser {
    /// Another handle on the same user.
    fn clone(&self) -> (res: Self)
        ensures
            res@ == self@,
    {
        VerifiedUser { inner: arc_clone(&self.inner) }
    }
}

impl VerifiedUser {
    pub fn new(user: User) -> (handle: VerifiedUser)
        ensures
            handle@ == user@,
    {
        VerifiedUser { inner: Arc::new(mutex_new(user)) }
    }

    /// The UUID of the user. The lock is held only while the value is copied.
    /// Fails where the lock is poisoned, and only there.
    pub fn uuid(&self) -> (r: AppResult<u128>)
        ensures
            r matches Ok(uuid) ==> uuid == self@.uuid,
            r matches Err(err) ==> err@ == (
                crate::error::INTERNAL_SERVER_ERROR,
                "VerifiedUser was poisoned."@,
            ),
    {
        match read_or_poisoned(mutex_lock(&self.inner)) {
            Ok((_, uuid)) => Ok(uuid),
            Err(err) => Err(err),
        }
    }

    /// The numeric id of the user. The lock is held only while the value is
    /// copied. Fails where the lock is poisoned, and only there.
    pub fn id(&self) -> (r: AppResult<u32>)
        ensures
            r matches Ok(id) ==> id == self@.id,
            r matches Err(err) ==> err@ == (
                crate::error::INTERNAL_SERVER_ERROR,
                "VerifiedUser was poisoned."@,
            ),
    {
        match read_or_poisoned(mutex_lock(&self.inner)) {
            Ok((id, _)) => Ok(id),
            Err(err) => Err(err),
        }
    }
}

/// Who, if anyone, is signed in.
pub struct AuthState {
    verified_user: Option<VerifiedUser>,
}

impl Clone for AuthState {
    fn clone(&self) -> (res: Self)
        ensures
            res.user() == self.user(),
    {
        match &self.verified_user {
            Some(handle) => AuthState { verified_user: Some(handle.clone()) },
            None => AuthState { verified_user: None },
        }
    }
}

impl AuthState {
    /// The user that is signed in, `None` where none is.
    pub closed spec fn user(&self) -> Option<UserView> {
        match self.verified_user {
            Some(handle) => Some(handle@),
            None => None,
        }
    }

    /// A state in which nobody is signed in.
    pub fn new() -> (state: AuthState)
        ensures
            state.user() is None,
    {
        AuthState { verified_user: None }
    }

    /// The signed-in user; where there is none, the answer that asks to log
    /// in.
    pub fn authenticated(&self) -> (r: AppResult<&VerifiedUser>)
        ensures
            match self.user() {
                Some(user) => r is Ok && r->Ok_0@ == user,
                None => r is Err && r->Err_0@ == (crate::error::UNAUTHORIZED, "Login required"@),
            },
    {
        match &self.verified_user {
            Some(handle) => Ok(handle),
            None => Err(AppError::login_required()),
        }
    }

    /// Sets the verified user.
    pub fn set_user(&mut self, user: VerifiedUser)
        ensures
            final(self).user() == Some(user@),
    {
        self.verified_user = Some(user)
    }
}

} // verus!
