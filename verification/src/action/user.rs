//! The users of the service: they sign up once and are read back by their
//! numeric id.

use crate::access::entity::{DbEntity, Entity, EntityView};
use crate::access::store::{AccessError, EntityStore, StoreView};
use crate::action::error::{not_found, store_failed, ActionError};
use crate::auth::VerifiedUser;
use crate::ident::{is_random_uuid, random_uuid};
use crate::model::{User, UserView};
use vstd::prelude::*;

verus! {

/// A user as it is handed to the store: made at the time `now`. The store
/// gives it its numeric id.
pub open spec fn new_user(uuid: u128, name: Seq<char>, now: i64) -> UserView {
    UserView { id: 0, uuid, name, created_at: now, updated_at: now }
}

/// What a sign-up comes to on a store that carries out every call: the
/// user is added under the next numeric id, or the store refuses because the
/// UUID is taken or no id is left.
pub open spec fn create_user_outcome(state: StoreView, uuid: u128, name: Seq<char>, now: i64) -> (
    Result<UserView, ActionError>,
    StoreView,
) {
    let user = new_user(uuid, name, now);
    if state.can_insert(EntityView::User(user)) {
        (
            Ok(UserView { id: state.next_id(DbEntity::Users) as u32, ..user }),
            state.inserted(EntityView::User(user)),
        )
    } else {
        (Err(ActionError::AccessError(AccessError::Storage)), state)
    }
}

/// The value of the answer of a service that returns a user.
pub open spec fn user_answer(r: Result<User, ActionError>) -> Result<UserView, ActionError> {
    match r {
        Ok(user) => Ok(user@),
        Err(err) => Err(err),
    }
}

/// Makes a user of that name at the time `now`, under the UUID given.
///
/// Either the call goes as `create_user_outcome` says, or the store fails on
/// its own and holds what it held.
pub fn create_user_with<S: EntityStore>(db: &mut S, name: String, uuid: u128, now: i64) -> (r:
    Result<User, ActionError>)
    requires
        old(db).inv(),
    ensures
        final(db).inv(),
        final(db).dependable() == old(db).dependable(),
        (user_answer(r), final(db).state()) == create_user_outcome(old(db).state(), uuid, name@, now)
            || (!old(db).dependable() && r is Err && store_failed(r->Err_0) && final(db).state()
            == old(db).state()),
{
    let user = User { id: 0, uuid, name, created_at: now, updated_at: now };
    match db.insert(DbEntity::Users, Entity::User(user.clone())) {
        Ok(id) => Ok(User { id, ..user }),
        Err(err) => Err(ActionError::AccessError(err)),
    }
}

/// Makes a user of that name at the time `now`, under a fresh random UUID:
/// the call goes as [`create_user_with`] does for some UUID.
pub fn create_user<S: EntityStore>(db: &mut S, name: String, now: i64) -> (r: Result<
    User,
    ActionError,
>)
    requires
        old(db).inv(),
    ensures
        final(db).inv(),
        final(db).dependable() == old(db).dependable(),
        (exists|uuid: u128|
            is_random_uuid(uuid) && #[trigger] create_user_outcome(
                old(db).state(),
                uuid,
                name@,
                now,
            ) == (user_answer(r), final(db).state())) || (!old(db).dependable() && r is Err && store_failed(r->Err_0) && final(db).state()
            == old(db).state()),
{
    let uuid = random_uuid();
    let r = create_user_with(db, name, uuid, now);
    proof {
        if !(!old(db).dependable() && r is Err && store_failed(r->Err_0)) {
            assert(create_user_outcome(old(db).state(), uuid, name@, now) == (
                user_answer(r),
                db.state(),
            ));
        }
    }
    r
}

/// Whether an answer is what reading a user by its numeric id comes to on a
/// store that carries out every call: the user with that id, or not found
/// where no user has it.
pub open spec fn get_user_goes(state: StoreView, id: u32, answer: Result<UserView, ActionError>) -> bool {
    match answer {
        Ok(user) => user.id == id && state.get(DbEntity::Users, user.uuid) == Some(
            EntityView::User(user),
        ),
        Err(err) => err == not_found() && !state.has_id(DbEntity::Users, id),
    }
}

/// Reads the user with that numeric id.
///
/// Either the call goes as `get_user_goes` says, or the store fails on its
/// own.
pub fn get_user_of<S: EntityStore>(db: &S, id: u32) -> (r: Result<User, ActionError>)
    requires
        db.inv(),
    ensures
        get_user_goes(db.state(), id, user_answer(r)) || (!db.dependable() && r is Err
            && store_failed(r->Err_0)),
{
    proof {
        db.lemma_inv();
    }
    match db.get_by_id(DbEntity::Users, id) {
        Ok(Entity::User(user)) => Ok(user),
        Ok(other) => {
            assert(db.state().records.contains_key((DbEntity::Users, other@.uuid())));
            Err(ActionError::Internal)
        },
        Err(err) => Err(ActionError::AccessError(err)),
    }
}

/// Reads the record of the signed-in user; see [`get_user_of`]. Where the
/// user's lock is broken the answer is `Internal`.
pub fn get_user<S: EntityStore>(db: &S, user: &VerifiedUser) -> (r: Result<User, ActionError>)
    requires
        db.inv(),
    ensures
        get_user_goes(db.state(), user@.id, user_answer(r)) || (r is Err && store_failed(r->Err_0)
            && (r->Err_0 == ActionError::Internal || !db.dependable())),
{
    match user.id() {
        Ok(id) => get_user_of(db, id),
        Err(_) => Err(ActionError::Internal),
    }
}

} // verus!
