//! The life of a story: it is made together with its first content, read
//! back by its owner, changed field by field, and deleted for good.

use crate::access::entity::{story_id_column, DbEntity, Entity, EntityView};
use crate::access::store::{AccessError, EntityStore, StoreView};
use crate::action::error::{not_found, store_failed, ActionError};
use crate::action::content::{
    content_entities, content_views, create_content_with, freshly_drawn, inserts_stopped,
    new_views, run_inserts, story_content, with_fresh_uuids, NewContent,
};
use crate::api;
use crate::auth::VerifiedUser;
use crate::ident::{is_random_uuid, random_uuid};
use crate::model::{text_of, ContentDetailsView, ContentView, Story, StoryView};
use vstd::prelude::*;

verus! {

/// A story after a change: a field that the change names takes the new
/// value, every other field stays, and `updated_at` is the time of the change.
pub open spec fn merged_story(
    story: StoryView,
    title: Option<Seq<char>>,
    deleted: Option<bool>,
    now: i64,
) -> StoryView {
    StoryView {
        title: match title {
            Some(title) => title,
            None => story.title,
        },
        deleted: match deleted {
            Some(deleted) => deleted,
            None => story.deleted,
        },
        updated_at: now,
        ..story
    }
}

/// Applies a change to a story.
pub fn merge_story(story: Story, title: Option<String>, deleted: Option<bool>, now: i64) -> (merged:
    Story)
    ensures
        merged@ == merged_story(story@, text_of(title), deleted, now),
{
    let mut story = story;
    if let Some(title) = title {
        story.title = title;
    }
    if let Some(deleted) = deleted {
        story.deleted = deleted;
    }
    story.updated_at = now;
    story
}

/// The story with that UUID as its owner sees it. To anyone else it is as if
/// the story were not there.
pub open spec fn owned_story(state: StoreView, owner: u32, uuid: u128) -> Option<StoryView> {
    match state.get(DbEntity::Stories, uuid) {
        Some(EntityView::Story(story)) => if story.user_id == owner {
            Some(story)
        } else {
            None
        },
        _ => None,
    }
}

/// What a change of a story comes to on a store that carries out every
/// call: the answer, and what the store holds after it. A story that is not
/// there for the user is not found; a deleted story is in no state to be
/// changed; otherwise the merged story takes the place of the stored one.
pub open spec fn update_story_outcome(
    state: StoreView,
    owner: u32,
    uuid: u128,
    title: Option<Seq<char>>,
    deleted: Option<bool>,
    now: i64,
) -> (Result<StoryView, ActionError>, StoreView) {
    match owned_story(state, owner, uuid) {
        None => (Err(not_found()), state),
        Some(stored) => if stored.deleted {
            (Err(ActionError::InvalidState), state)
        } else {
            let merged = merged_story(stored, title, deleted, now);
            (Ok(merged), state.replaced(EntityView::Story(merged)))
        },
    }
}

/// The value of the answer of a service that returns a story.
pub open spec fn story_answer(r: Result<Story, ActionError>) -> Result<StoryView, ActionError> {
    match r {
        Ok(story) => Ok(story@),
        Err(err) => Err(err),
    }
}

/// Fetches the story of that owner with that UUID.
pub fn fetch_story<S: EntityStore>(db: &S, owner: u32, story_uuid: u128) -> (r: Result<
    Story,
    ActionError,
>)
    requires
        db.inv(),
    ensures
        match r {
            Ok(story) => owned_story(db.state(), owner, story_uuid) == Some(story@),
            Err(err) => if err == not_found() {
                owned_story(db.state(), owner, story_uuid) is None
            } else {
                !db.dependable() && store_failed(err)
            },
        },
{
    proof {
        db.lemma_inv();
    }
    match db.get_by_uuid(DbEntity::Stories, story_uuid) {
        Ok(Entity::Story(story)) => {
            if story.user_id == owner {
                Ok(story)
            } else {
                Err(ActionError::AccessError(AccessError::NotFound))
            }
        },
        Ok(_) => {
            assert(db.state().records.contains_key((DbEntity::Stories, story_uuid)));
            Err(ActionError::Internal)
        },
        Err(err) => Err(ActionError::AccessError(err)),
    }
}

/// Changes the story of that owner with that UUID at the time `now`: only
/// the fields that are given change. A deleted story is not changed.
///
/// Either the call goes as `update_story_outcome` says, or the store fails on
/// its own and holds what it held.
pub fn update_story_of<S: EntityStore>(
    db: &mut S,
    owner: u32,
    story_uuid: u128,
    title: Option<String>,
    deleted: Option<bool>,
    now: i64,
) -> (r: Result<Story, ActionError>)
    requires
        old(db).inv(),
    ensures
        final(db).inv(),
        final(db).dependable() == old(db).dependable(),
        (story_answer(r), final(db).state()) == update_story_outcome(
            old(db).state(),
            owner,
            story_uuid,
            text_of(title),
            deleted,
            now,
        ) || (!old(db).dependable() && r is Err && store_failed(r->Err_0) && final(db).state()
            == old(db).state()),
{
    let story = match fetch_story(&*db, owner, story_uuid) {
        Ok(story) => story,
        Err(err) => {
            return Err(err);
        },
    };
    if story.deleted {
        return Err(ActionError::InvalidState);
    }
    proof {
        db.lemma_inv();
        assert(db.state().records.contains_key((DbEntity::Stories, story_uuid)));
    }
    let merged = merge_story(story, title, deleted, now);
    match db.replace_by_uuid(DbEntity::Stories, story_uuid, Entity::Story(merged.clone())) {
        Ok(()) => Ok(merged),
        Err(err) => Err(ActionError::AccessError(err)),
    }
}

/// What the deletion of a story comes to on a store that carries out every
/// call: a change that sets the flag and nothing else.
pub open spec fn delete_story_outcome(state: StoreView, owner: u32, uuid: u128, now: i64) -> (
    Result<(), ActionError>,
    StoreView,
) {
    let (answer, after) = update_story_outcome(state, owner, uuid, None, Some(true), now);
    (
        match answer {
            Ok(_) => Ok(()),
            Err(err) => Err(err),
        },
        after,
    )
}

/// Deletes the story of that owner with that UUID at the time `now`: the
/// story stays in the store, marked as deleted. To delete a deleted story
/// fails with `InvalidState`, as every other change of it does.
pub fn delete_story_of<S: EntityStore>(db: &mut S, owner: u32, story_uuid: u128, now: i64) -> (r:
    Result<(), ActionError>)
    requires
        old(db).inv(),
    ensures
        final(db).inv(),
        final(db).dependable() == old(db).dependable(),
        (r, final(db).state()) == delete_story_outcome(old(db).state(), owner, story_uuid, now)
            || (!old(db).dependable() && r is Err && store_failed(r->Err_0) && final(db).state()
            == old(db).state()),
{
    match update_story_of(db, owner, story_uuid, None, Some(true), now) {
        Ok(_) => Ok(()),
        Err(err) => Err(err),
    }
}

/// Changes a story of the signed-in user; see [`update_story_of`]. Where
/// the user's lock is broken the answer is `Internal` and the store holds what
/// it held.
pub fn update_story<S: EntityStore>(
    db: &mut S,
    user: &VerifiedUser,
    story_uuid: u128,
    title: Option<String>,
    deleted: Option<bool>,
    now: i64,
) -> (r: Result<Story, ActionError>)
    requires
        old(db).inv(),
    ensures
        final(db).inv(),
        final(db).dependable() == old(db).dependable(),
        (story_answer(r), final(db).state()) == update_story_outcome(
            old(db).state(),
            user@.id,
            story_uuid,
            text_of(title),
            deleted,
            now,
        ) || (r is Err && store_failed(r->Err_0) && final(db).state() == old(db).state() && (
        r->Err_0 == ActionError::Internal || !old(db).dependable())),
{
    match user.id() {
        Ok(owner) => update_story_of(db, owner, story_uuid, title, deleted, now),
        Err(_) => Err(ActionError::Internal),
    }
}

/// Deletes a story of the signed-in user; see [`delete_story_of`]. Where
/// the user's lock is broken the answer is `Internal` and the store holds what
/// it held.
pub fn delete_story<S: EntityStore>(db: &mut S, user: &VerifiedUser, story_uuid: u128, now: i64) -> (r:
    Result<(), ActionError>)
    requires
        old(db).inv(),
    ensures
        final(db).inv(),
        final(db).dependable() == old(db).dependable(),
        (r, final(db).state()) == delete_story_outcome(old(db).state(), user@.id, story_uuid, now)
            || (r is Err && store_failed(r->Err_0) && final(db).state() == old(db).state() && (
        r->Err_0 == ActionError::Internal || !old(db).dependable())),
{
    match user.id() {
        Ok(owner) => delete_story_of(db, owner, story_uuid, now),
        Err(_) => Err(ActionError::Internal),
    }
}

/// Whether `sent` shows a story of the store with all its content, the items
/// in any order.
pub open spec fn shows_story(state: StoreView, story: StoryView, sent: api::StoryView) -> bool {
    exists|items: Seq<ContentView>|
        state.is_listing(
            DbEntity::Content,
            story_id_column(),
            story.id,
            content_entities(items),
        ) && sent == #[trigger] api::story_sent(story, items)
}

/// Whether an answer is what reading a story comes to on a store that
/// carries out every call: the story with all its content where it is there
/// for the user, and not found where it is not.
pub open spec fn get_story_goes(
    state: StoreView,
    owner: u32,
    uuid: u128,
    answer: Result<api::StoryView, ActionError>,
) -> bool {
    match owned_story(state, owner, uuid) {
        Some(story) => answer is Ok && shows_story(state, story, answer->Ok_0),
        None => answer == Err::<api::StoryView, ActionError>(not_found()),
    }
}

/// The value of the answer of a service that returns a story with its
/// content.
pub open spec fn sent_answer(r: Result<api::Story, ActionError>) -> Result<
    api::StoryView,
    ActionError,
> {
    match r {
        Ok(sent) => Ok(sent@),
        Err(err) => Err(err),
    }
}

/// Reads the story of that owner with that UUID, with all its content. A
/// story of another user is not found, as one that is not there.
///
/// Either the call goes as `get_story_goes` says, or the store fails on its
/// own.
pub fn get_story_of<S: EntityStore>(db: &S, owner: u32, story_uuid: u128) -> (r: Result<
    api::Story,
    ActionError,
>)
    requires
        db.inv(),
    ensures
        get_story_goes(db.state(), owner, story_uuid, sent_answer(r)) || (!db.dependable() && r
            is Err && store_failed(r->Err_0)),
{
    let story = match fetch_story(db, owner, story_uuid) {
        Ok(story) => story,
        Err(err) => {
            return Err(err);
        },
    };
    let content = match story_content(db, story.id) {
        Ok(content) => content,
        Err(err) => {
            return Err(err);
        },
    };
    let sent = api::Story::new(story, content);
    assert(sent@ == api::story_sent(story@, content_views(content@)));
    Ok(sent)
}

/// Reads a story of the signed-in user; see [`get_story_of`]. Where the
/// user's lock is broken the answer is `Internal`.
pub fn get_story<S: EntityStore>(db: &S, user: &VerifiedUser, story_uuid: u128) -> (r: Result<
    api::Story,
    ActionError,
>)
    requires
        db.inv(),
    ensures
        get_story_goes(db.state(), user@.id, story_uuid, sent_answer(r)) || (r is Err
            && store_failed(r->Err_0) && (r->Err_0 == ActionError::Internal || !db.dependable())),
{
    match user.id() {
        Ok(owner) => get_story_of(db, owner, story_uuid),
        Err(_) => Err(ActionError::Internal),
    }
}

/// A story as it is handed to the store: made at the time `now`, not
/// deleted. The store gives it its numeric id.
pub open spec fn new_story(owner: u32, uuid: u128, title: Seq<char>, now: i64) -> StoryView {
    StoryView {
        id: 0,
        user_id: owner,
        uuid,
        title,
        created_at: now,
        updated_at: now,
        deleted: false,
    }
}

/// What making a story with its first content comes to on a store that
/// carries out every call. The story is added first; where that fails nothing
/// has changed. Then its content items are added in their order; where one
/// cannot be added the call fails, and the story stays in the store with the
/// items before that one.
pub open spec fn create_story_outcome(
    state: StoreView,
    owner: u32,
    uuid: u128,
    title: Seq<char>,
    items: Seq<(u128, ContentDetailsView)>,
    now: i64,
) -> (Result<api::StoryView, ActionError>, StoreView) {
    let story = new_story(owner, uuid, title, now);
    if state.can_insert(EntityView::Story(story)) {
        let stored = StoryView { id: state.next_id(DbEntity::Stories) as u32, ..story };
        let (after, made) = run_inserts(
            state.inserted(EntityView::Story(story)),
            stored.id,
            items,
            now,
        );
        if made.len() == items.len() {
            (Ok(api::story_sent(stored, made)), after)
        } else {
            (Err(ActionError::AccessError(AccessError::Storage)), after)
        }
    } else {
        (Err(ActionError::AccessError(AccessError::Storage)), state)
    }
}

/// Whether a store holds what the making of a story left where it ended
/// before its time: nothing new, or the story and the first of its content
/// items.
pub open spec fn story_stopped(
    state: StoreView,
    story: StoryView,
    items: Seq<(u128, ContentDetailsView)>,
    now: i64,
    after: StoreView,
) -> bool {
    after == state || (state.can_insert(EntityView::Story(story)) && inserts_stopped(
        state.inserted(EntityView::Story(story)),
        state.next_id(DbEntity::Stories) as u32,
        items,
        now,
        after,
    ))
}

/// Makes a story of that owner at the time `now`, under the UUID given,
/// and then its first content items, each under the UUID that comes with it.
///
/// Either the call goes as `create_story_outcome` says, or the store fails on
/// its own, and what was added before stays.
pub fn create_story_with<S: EntityStore>(
    db: &mut S,
    owner: u32,
    title: String,
    story_uuid: u128,
    content: Vec<NewContent>,
    now: i64,
) -> (r: Result<api::Story, ActionError>)
    requires
        old(db).inv(),
    ensures
        final(db).inv(),
        final(db).dependable() == old(db).dependable(),
        (sent_answer(r), final(db).state()) == create_story_outcome(
            old(db).state(),
            owner,
            story_uuid,
            title@,
            new_views(content@),
            now,
        ) || (!old(db).dependable() && r is Err && store_failed(r->Err_0) && story_stopped(
            old(db).state(),
            new_story(owner, story_uuid, title@, now),
            new_views(content@),
            now,
            final(db).state(),
        )),
{
    let story = Story {
        id: 0,
        user_id: owner,
        uuid: story_uuid,
        title,
        created_at: now,
        updated_at: now,
        deleted: false,
    };
    let id = match db.insert(DbEntity::Stories, Entity::Story(story.clone())) {
        Ok(id) => id,
        Err(err) => {
            return Err(ActionError::AccessError(err));
        },
    };
    let stored = Story { id, ..story };
    proof {
        assert(db.state().records.contains_key((DbEntity::Stories, story_uuid)));
        assert(db.state().has_id(DbEntity::Stories, id));
    }
    let made = match create_content_with(db, id, content, now) {
        Ok(made) => made,
        Err(err) => {
            return Err(err);
        },
    };
    Ok(api::Story::new(stored, made))
}

/// Whether an answer and a store are what making a story under fresh random
/// UUIDs may come to. Either the call goes as `create_story_outcome` says, for
/// some UUID of the story and some UUIDs of the items, each with the marks
/// of a random one. Or the user's lock is broken: the answer is `Internal`
/// and the store holds what it held. Or the store, one that is not
/// dependable, fails on its own, and what was added before stays.
pub open spec fn create_story_goes(
    state: StoreView,
    dependable: bool,
    owner: u32,
    title: Seq<char>,
    content: Seq<api::ContentDetails>,
    now: i64,
    answer: Result<api::StoryView, ActionError>,
    after: StoreView,
) -> bool {
    ||| exists|uuid: u128, items: Seq<(u128, ContentDetailsView)>|
        is_random_uuid(uuid) && freshly_drawn(items, content) && #[trigger] create_story_outcome(
            state,
            owner,
            uuid,
            title,
            items,
            now,
        ) == (answer, after)
    ||| answer == Err::<api::StoryView, ActionError>(ActionError::Internal) && after == state
    ||| !dependable && answer is Err && store_failed(answer->Err_0) && exists|
        uuid: u128,
        items: Seq<(u128, ContentDetailsView)>,
    |
        is_random_uuid(uuid) && freshly_drawn(items, content) && #[trigger] story_stopped(
            state,
            new_story(owner, uuid, title, now),
            items,
            now,
            after,
        )
}

/// Makes a story of the signed-in user at the time `now`, with its first
/// content items in the order given. The story and each item get a fresh
/// random UUID: the call goes as [`create_story_with`] does for some UUIDs,
/// also where the store fails on its own. Where the user's lock is broken the
/// answer is `Internal` and the store holds what it held.
pub fn create_story<S: EntityStore>(
    db: &mut S,
    user: &VerifiedUser,
    title: String,
    content: Vec<api::ContentDetails>,
    now: i64,
) -> (r: Result<api::Story, ActionError>)
    requires
        old(db).inv(),
    ensures
        final(db).inv(),
        final(db).dependable() == old(db).dependable(),
        create_story_goes(
            old(db).state(),
            old(db).dependable(),
            user@.id,
            title@,
            content@,
            now,
            sent_answer(r),
            final(db).state(),
        ),
{
    let owner = match user.id() {
        Ok(owner) => owner,
        Err(_) => {
            return Err(ActionError::Internal);
        },
    };
    let uuid = random_uuid();
    let items = with_fresh_uuids(content);
    let r = create_story_with(db, owner, title, uuid, items, now);
    proof {
        if create_story_outcome(
            old(db).state(),
            owner,
            uuid,
            title@,
            new_views(items@),
            now,
        ) != (sent_answer(r), db.state()) {
            assert(story_stopped(
                old(db).state(),
                new_story(owner, uuid, title@, now),
                new_views(items@),
                now,
                db.state(),
            ));
        }
    }
    r
}

} // verus!
