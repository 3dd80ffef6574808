//! What each request of the service does, from the signed-in user and the
//! request's payload to the answer. The transport around it is not here.

use crate::access::store::{EntityStore, StoreView};
use crate::action::content::{
    run_updates, update_content, update_views, updates_stopped, ContentUpdate,
};
use crate::action::error::{action_answer, not_found, store_failed, ActionError};
use crate::action::story::{
    create_story, create_story_goes, delete_story_of, delete_story_outcome, get_story_goes,
    get_story_of, update_story_of, update_story_outcome,
};
use crate::action::user::{create_user_outcome, create_user_with, get_user_goes, get_user_of};
use crate::api;
use crate::auth::{AuthState, VerifiedUser};
use crate::error::{AppError, AppResult, BAD_REQUEST, UNAUTHORIZED};
use crate::ident::{is_random_uuid, random_uuid};
use crate::model::{text_of, ContentDetailsView};
use vstd::prelude::*;
use vstd::std_specs::convert::FromSpecImpl;

verus! {

/// The payload of a request that makes a story.
#[derive(Debug, Clone, PartialEq, Eq)]
pub struct CreateStoryRequest {
    pub title: String,
    pub content: Vec<api::ContentDetails>,
}

/// The payload of a sign-up.
#[derive(Debug, Clone, PartialEq, Eq)]
pub struct CreateUserRequest {
    pub name: String,
}

impl From<api::UpdateContentRequest> for ContentUpdate {
    fn from(request: api::UpdateContentRequest) -> (ret: ContentUpdate) {
        ContentUpdate { uuid: request.uuid, content: request.content }
    }
}

impl FromSpecImpl<api::UpdateContentRequest> for ContentUpdate {
    open spec fn obeys_from_spec() -> bool {
        true
    }

    open spec fn from_spec(request: api::UpdateContentRequest) -> ContentUpdate {
        ContentUpdate { uuid: request.uuid, content: request.content }
    }
}

/// The values of the changes that a request asks for; none where it names no
/// content.
pub open spec fn requested_updates(content: Option<Vec<api::UpdateContentRequest>>) -> Seq<
    (u128, ContentDetailsView),
> {
    match content {
        Some(requests) => requests@.map_values(
            |request: api::UpdateContentRequest| (request.uuid, request.content@),
        ),
        None => Seq::empty(),
    }
}

/// The changes that a request asks for, in their order.
pub fn content_updates(content: Option<Vec<api::UpdateContentRequest>>) -> (updates: Vec<
    ContentUpdate,
>)
    ensures
        update_views(updates@) == requested_updates(content),
{
    let mut updates: Vec<ContentUpdate> = Vec::new();
    match content {
        Some(requests) => {
            for request in it: requests
                invariant
                    it.seq() == requests@,
                    updates.len() == it.index(),
                    forall|i: int|
                        0 <= i < updates.len() ==> (#[trigger] updates[i])@ == (
                            requests[i].uuid,
                            requests[i].content@,
                        ),
            {
                updates.push(ContentUpdate::from(request));
            }
            assert(update_views(updates@) =~= requested_updates(content));
        },
        None => {
            assert(update_views(updates@) =~= requested_updates(content));
        },
    }
    updates
}

/// What a caller is told: the value asked for, or the status and message
/// that stand for the failure.
pub open spec fn answered<T>(answer: Result<T, ActionError>) -> Result<T, (u16, Seq<char>)> {
    match answer {
        Ok(value) => Ok(value),
        Err(err) => Err(action_answer(err)),
    }
}

/// The answer that asks to log in.
pub open spec fn login_required<T>() -> Result<T, (u16, Seq<char>)> {
    Err((UNAUTHORIZED, "Login required"@))
}

/// Whether a failure is one that a service may answer with apart from what
/// its contract names: the broken lock of the user, or, on a store that is not
/// dependable, a failure of the store.
pub open spec fn may_fail<T>(answer: Result<T, ActionError>, dependable: bool) -> bool {
    answer is Err && store_failed(answer->Err_0) && (answer->Err_0 == ActionError::Internal
        || !dependable)
}

/// The value of the answer of a request that returns a story.
pub open spec fn story_reply(r: AppResult<api::Story>) -> Result<api::StoryView, (u16, Seq<char>)> {
    match r {
        Ok(sent) => Ok(sent@),
        Err(err) => Err(err@),
    }
}

/// The value of the answer of a request that returns a user.
pub open spec fn user_reply(r: AppResult<api::User>) -> Result<api::UserView, (u16, Seq<char>)> {
    match r {
        Ok(sent) => Ok(sent@),
        Err(err) => Err(err@),
    }
}

/// The value of the answer of a request that returns nothing.
pub open spec fn empty_reply(r: AppResult<()>) -> Result<(), (u16, Seq<char>)> {
    match r {
        Ok(()) => Ok(()),
        Err(err) => Err(err@),
    }
}

/// The numeric id of the signed-in user. Fails with the answer that asks to
/// log in where nobody is signed in, and with that of the broken lock.
pub fn signed_in(auth: &AuthState) -> (r: AppResult<u32>)
    ensures
        match auth.user() {
            Some(user) => match r {
                Ok(id) => id == user.id,
                Err(err) => err@ == action_answer(ActionError::Internal),
            },
            None => r is Err && r->Err_0@ == (UNAUTHORIZED, "Login required"@),
        },
{
    let user = match auth.authenticated() {
        Ok(user) => user,
        Err(err) => {
            return Err(err);
        },
    };
    match user.id() {
        Ok(id) => Ok(id),
        Err(_) => Err(AppError::internal()),
    }
}

/// Makes a story of the signed-in user with its first content, each under a
/// fresh random UUID. Without a signed-in user nothing is done.
pub fn handle_create_story<S: EntityStore>(
    db: &mut S,
    auth: &AuthState,
    request: CreateStoryRequest,
    now: i64,
) -> (r: AppResult<api::Story>)
    requires
        old(db).inv(),
    ensures
        final(db).inv(),
        final(db).dependable() == old(db).dependable(),
        match auth.user() {
            None => story_reply(r) == login_required::<api::StoryView>() && final(db).state()
                == old(db).state(),
            Some(user) => exists|answer: Result<api::StoryView, ActionError>|
                #[trigger] answered(answer) == story_reply(r) && create_story_goes(
                    old(db).state(),
                    old(db).dependable(),
                    user.id,
                    request.title@,
                    request.content@,
                    now,
                    answer,
                    final(db).state(),
                ),
        },
{
    let user = match auth.authenticated() {
        Ok(user) => user,
        Err(err) => {
            return Err(err);
        },
    };
    match create_story(db, user, request.title, request.content, now) {
        Ok(sent) => {
            assert(answered(Ok::<api::StoryView, ActionError>(sent@)) == story_reply(Ok(sent)));
            Ok(sent)
        },
        Err(err) => {
            let reply = AppError::from(err);
            assert(answered(Err::<api::StoryView, ActionError>(err)) == story_reply(Err(reply)));
            Err(reply)
        },
    }
}

/// Reads a story of the signed-in user with all its content.
pub fn handle_get_story<S: EntityStore>(db: &S, auth: &AuthState, story_uuid: u128) -> (r: AppResult<
    api::Story,
>)
    requires
        db.inv(),
    ensures
        match auth.user() {
            None => story_reply(r) == login_required::<api::StoryView>(),
            Some(user) => exists|answer: Result<api::StoryView, ActionError>|
                #[trigger] answered(answer) == story_reply(r) && (get_story_goes(
                    db.state(),
                    user.id,
                    story_uuid,
                    answer,
                ) || may_fail(answer, db.dependable())),
        },
{
    let owner = match signed_in(auth) {
        Ok(owner) => owner,
        Err(err) => {
            assert(auth.user() is Some ==> answered(
                Err::<api::StoryView, ActionError>(ActionError::Internal),
            ) == story_reply(Err(err)));
            return Err(err);
        },
    };
    match get_story_of(db, owner, story_uuid) {
        Ok(sent) => {
            assert(answered(Ok::<api::StoryView, ActionError>(sent@)) == story_reply(Ok(sent)));
            Ok(sent)
        },
        Err(err) => {
            let reply = AppError::from(err);
            assert(answered(Err::<api::StoryView, ActionError>(err)) == story_reply(Err(reply)));
            Err(reply)
        },
    }
}

/// Whether an answer and a store are what a request to change a story comes
/// to on a store that carries out every call. First the story itself is
/// changed, its title where the request names one. Then the changes of its
/// content are applied in their order. Then the story is read back with all
/// its content. The first step that fails ends the request, and what was done
/// before it stays.
pub open spec fn update_request_goes(
    state: StoreView,
    owner: u32,
    uuid: u128,
    title: Option<Seq<char>>,
    updates: Seq<(u128, ContentDetailsView)>,
    now: i64,
    answer: Result<api::StoryView, ActionError>,
    after: StoreView,
) -> bool {
    let (changed, middle) = update_story_outcome(state, owner, uuid, title, None, now);
    match changed {
        Err(err) => answer == Err::<api::StoryView, ActionError>(err) && after == state,
        Ok(_) => {
            let (ran, applied) = run_updates(middle, updates, now);
            &&& after == ran
            &&& if applied < updates.len() {
                answer == Err::<api::StoryView, ActionError>(not_found())
            } else {
                get_story_goes(ran, owner, uuid, answer)
            }
        },
    }
}

/// Whether a store holds what a request to change a story left where the
/// request ended before its time: nothing new, or the changed story and the
/// first of the changes of its content.
pub open spec fn update_request_stopped(
    state: StoreView,
    owner: u32,
    uuid: u128,
    title: Option<Seq<char>>,
    updates: Seq<(u128, ContentDetailsView)>,
    now: i64,
    after: StoreView,
) -> bool {
    let (changed, middle) = update_story_outcome(state, owner, uuid, title, None, now);
    after == state || (changed is Ok && updates_stopped(middle, updates, now, after))
}

/// Changes a story of the signed-in user and its content, and reads the
/// story back. Without a signed-in user nothing is done.
///
/// Either the request goes as `update_request_goes` says; or the user's lock
/// is broken, and the store holds what it held; or the store fails on its
/// own, and what was changed before stays.
pub fn handle_update_story<S: EntityStore>(
    db: &mut S,
    auth: &AuthState,
    story_uuid: u128,
    request: api::UpdateStoryRequest,
    now: i64,
) -> (r: AppResult<api::Story>)
    requires
        old(db).inv(),
    ensures
        final(db).inv(),
        final(db).dependable() == old(db).dependable(),
        match auth.user() {
            None => story_reply(r) == login_required::<api::StoryView>() && final(db).state()
                == old(db).state(),
            Some(user) => exists|answer: Result<api::StoryView, ActionError>|
                #[trigger] answered(answer) == story_reply(r) && (update_request_goes(
                    old(db).state(),
                    user.id,
                    story_uuid,
                    text_of(request.title),
                    requested_updates(request.content),
                    now,
                    answer,
                    final(db).state(),
                ) || (answer == Err::<api::StoryView, ActionError>(ActionError::Internal)
                    && final(db).state() == old(db).state()) || (!old(db).dependable() && answer
                    is Err && store_failed(answer->Err_0) && update_request_stopped(
                    old(db).state(),
                    user.id,
                    story_uuid,
                    text_of(request.title),
                    requested_updates(request.content),
                    now,
                    final(db).state(),
                ))),
        },
{
    let owner = match signed_in(auth) {
        Ok(owner) => owner,
        Err(err) => {
            assert(auth.user() is Some ==> answered(
                Err::<api::StoryView, ActionError>(ActionError::Internal),
            ) == story_reply(Err(err)));
            return Err(err);
        },
    };
    let updates = content_updates(request.content);
    let story = match update_story_of(db, owner, story_uuid, request.title, None, now) {
        Ok(story) => story,
        Err(err) => {
            let reply = AppError::from(err);
            assert(answered(Err::<api::StoryView, ActionError>(err)) == story_reply(Err(reply)));
            return Err(reply);
        },
    };
    match update_content(db, &story, updates, now) {
        Ok(_) => {},
        Err(err) => {
            let reply = AppError::from(err);
            assert(answered(Err::<api::StoryView, ActionError>(err)) == story_reply(Err(reply)));
            return Err(reply);
        },
    }
    proof {
        let changes = requested_updates(request.content);
        assert(changes.take(changes.len() as int) =~= changes);
    }
    match get_story_of(&*db, owner, story_uuid) {
        Ok(sent) => {
            assert(answered(Ok::<api::StoryView, ActionError>(sent@)) == story_reply(Ok(sent)));
            Ok(sent)
        },
        Err(err) => {
            let reply = AppError::from(err);
            assert(answered(Err::<api::StoryView, ActionError>(err)) == story_reply(Err(reply)));
            Err(reply)
        },
    }
}

/// Deletes a story of the signed-in user. Without a signed-in user nothing
/// is done.
pub fn handle_delete_story<S: EntityStore>(
    db: &mut S,
    auth: &AuthState,
    story_uuid: u128,
    now: i64,
) -> (r: AppResult<()>)
    requires
        old(db).inv(),
    ensures
        final(db).inv(),
        final(db).dependable() == old(db).dependable(),
        match auth.user() {
            None => empty_reply(r) == login_required::<()>() && final(db).state() == old(db).state(),
            Some(user) => exists|answer: Result<(), ActionError>|
                #[trigger] answered(answer) == empty_reply(r) && ((answer, final(db).state())
                    == delete_story_outcome(old(db).state(), user.id, story_uuid, now) || (
                may_fail(answer, old(db).dependable()) && final(db).state() == old(db).state())),
        },
{
    let owner = match signed_in(auth) {
        Ok(owner) => owner,
        Err(err) => {
            assert(auth.user() is Some ==> answered(Err::<(), ActionError>(ActionError::Internal))
                == empty_reply(Err(err)));
            return Err(err);
        },
    };
    match delete_story_of(db, owner, story_uuid, now) {
        Ok(()) => {
            assert(answered(Ok::<(), ActionError>(())) == empty_reply(Ok(())));
            Ok(())
        },
        Err(err) => {
            let reply = AppError::from(err);
            assert(answered(Err::<(), ActionError>(err)) == empty_reply(Err(reply)));
            Err(reply)
        },
    }
}

/// Whether an answer, a store and a signed-in user are what a sign-up under
/// that UUID comes to on a store that carries out every call: the user is
/// added and signed in, or the store refuses and nobody is signed in.
pub open spec fn sign_up_goes(
    state: StoreView,
    uuid: u128,
    name: Seq<char>,
    now: i64,
    reply: Result<api::UserView, (u16, Seq<char>)>,
    after: StoreView,
    signed_in: Option<crate::model::UserView>,
) -> bool {
    let (made, stored) = create_user_outcome(state, uuid, name, now);
    &&& after == stored
    &&& match made {
        Ok(user) => reply == Ok::<api::UserView, (u16, Seq<char>)>(api::user_sent(user))
            && signed_in == Some(user),
        Err(err) => reply == Err::<api::UserView, (u16, Seq<char>)>(action_answer(err))
            && signed_in is None,
    }
}

/// Signs a user up under a fresh random UUID and signs it in. While a user
/// is signed in nothing is done.
///
/// The call goes as `sign_up_goes` says for some UUID, or the store fails on
/// its own, holds what it held, and nobody is signed in.
pub fn create_user<S: EntityStore>(
    db: &mut S,
    auth: &mut AuthState,
    request: CreateUserRequest,
    now: i64,
) -> (r: AppResult<api::User>)
    requires
        old(db).inv(),
    ensures
        final(db).inv(),
        final(db).dependable() == old(db).dependable(),
        match old(auth).user() {
            Some(user) => user_reply(r) == Err::<api::UserView, (u16, Seq<char>)>(
                (BAD_REQUEST, "Already signed in."@),
            ) && final(db).state() == old(db).state() && final(auth).user() == Some(user),
            None => (exists|uuid: u128|
                is_random_uuid(uuid) && #[trigger] sign_up_goes(
                    old(db).state(),
                    uuid,
                    request.name@,
                    now,
                    user_reply(r),
                    final(db).state(),
                    final(auth).user(),
                )) || (!old(db).dependable() && final(db).state() == old(db).state() && final(auth).user() is None
                && exists|failure: ActionError|
                store_failed(failure) && user_reply(r) == Err::<api::UserView, (u16, Seq<char>)>(
                    #[trigger] action_answer(failure),
                )),
        },
{
    if auth.authenticated().is_ok() {
        return Err(AppError::already_signed_in());
    }
    let uuid = random_uuid();
    match create_user_with(db, request.name, uuid, now) {
        Ok(user) => {
            let sent = api::User::from(user.clone());
            auth.set_user(VerifiedUser::new(user));
            proof {
                assert(sign_up_goes(
                    old(db).state(),
                    uuid,
                    request.name@,
                    now,
                    user_reply(Ok(sent)),
                    db.state(),
                    auth.user(),
                ));
            }
            Ok(sent)
        },
        Err(err) => {
            let reply = AppError::from(err);
            proof {
                if create_user_outcome(old(db).state(), uuid, request.name@, now) == (
                    Err::<crate::model::UserView, ActionError>(err),
                    db.state(),
                ) {
                    assert(sign_up_goes(
                        old(db).state(),
                        uuid,
                        request.name@,
                        now,
                        user_reply(Err(reply)),
                        db.state(),
                        auth.user(),
                    ));
                } else {
                    assert(store_failed(err));
                    assert(reply@ == action_answer(err));
                }
            }
            Err(reply)
        },
    }
}

/// The answer of a service that returns a user, as a client sees it.
pub open spec fn sent_user(answer: Result<crate::model::UserView, ActionError>) -> Result<
    api::UserView,
    ActionError,
> {
    match answer {
        Ok(found) => Ok(api::user_sent(found)),
        Err(err) => Err(err),
    }
}

/// Reads the record of the signed-in user.
pub fn get_verified_user<S: EntityStore>(db: &S, auth: &AuthState) -> (r: AppResult<api::User>)
    requires
        db.inv(),
    ensures
        match auth.user() {
            None => user_reply(r) == login_required::<api::UserView>(),
            Some(user) => exists|answer: Result<crate::model::UserView, ActionError>|
                user_reply(r) == #[trigger] answered(sent_user(answer)) && (get_user_goes(
                    db.state(),
                    user.id,
                    answer,
                ) || may_fail(
                    answer,
                    db.dependable(),
                )),
        },
{
    let id = match signed_in(auth) {
        Ok(id) => id,
        Err(err) => {
            proof {
                if auth.user() is Some {
                    let answer = Err::<crate::model::UserView, ActionError>(ActionError::Internal);
                    assert(user_reply(Err(err)) == answered(sent_user(answer)));
                }
            }
            return Err(err);
        },
    };
    match get_user_of(db, id) {
        Ok(user) => {
            let ghost answer = Ok::<crate::model::UserView, ActionError>(user@);
            let sent = api::User::from(user);
            proof {
                assert(user_reply(Ok(sent)) == answered(sent_user(answer)));
            }
            Ok(sent)
        },
        Err(err) => {
            let reply = AppError::from(err);
            proof {
                let answer = Err::<crate::model::UserView, ActionError>(err);
                assert(user_reply(Err(reply)) == answered(sent_user(answer)));
            }
            Err(reply)
        },
    }
}

} // verus!
