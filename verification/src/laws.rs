//! What holds of the store and of the services on every input, proved from
//! the definitions that their contracts use.

use crate::access::entity::{story_id_column, DbEntity, EntityView};
use crate::access::store::StoreView;
use crate::action::content::{
    lemma_run_updates_split, new_content, run_inserts, run_updates, update_content_goes,
    updated_content,
};
use crate::action::error::ActionError;
use crate::action::story::{
    create_story_outcome, delete_story_outcome, get_story_goes, merged_story, new_story,
    owned_story, update_story_outcome,
};
use crate::api;
use crate::model::{ContentDetailsView, ContentView, StoryView};
use vstd::prelude::*;

verus! {

/// What belongs to a record of the store still does after an entity was
/// added.
proof fn lemma_insert_keeps_parents(state: StoreView, entity: EntityView, other: EntityView)
    requires
        !state.records.contains_key((entity.kind(), entity.uuid())),
        state.has_parent(other),
    ensures
        state.inserted(entity).has_parent(other),
{
    if other.parent() is Some {
        let (kind, id) = other.parent()->Some_0;
        let uuid = choose|uuid: u128| #[trigger]
            state.records.contains_key((kind, uuid)) && state.records[(kind, uuid)].id() == id;
        assert(state.inserted(entity).records.contains_key((kind, uuid)));
    }
}

/// What belongs to a record of the store still does after an entity took the
/// place of a record with its numeric id.
proof fn lemma_replace_keeps_parents(state: StoreView, entity: EntityView, other: EntityView)
    requires
        state.records.contains_key((entity.kind(), entity.uuid())),
        state.records[(entity.kind(), entity.uuid())].id() == entity.id(),
        state.has_parent(other),
    ensures
        state.replaced(entity).has_parent(other),
{
    if other.parent() is Some {
        let (kind, id) = other.parent()->Some_0;
        let uuid = choose|uuid: u128| #[trigger]
            state.records.contains_key((kind, uuid)) && state.records[(kind, uuid)].id() == id;
        assert(state.replaced(entity).records.contains_key((kind, uuid)));
    }
}

/// An entity that was added is read back under its UUID as it was written,
/// with the numeric id that the store gave it; where it came with that id, it
/// is read back equal in all fields. The store keeps its rules.
pub proof fn law_insert_round_trip(state: StoreView, entity: EntityView)
    requires
        state.wf(),
        state.can_insert(entity),
    ensures
        state.inserted(entity).wf(),
        state.inserted(entity).get(entity.kind(), entity.uuid()) == Some(
            entity.with_id(state.next_id(entity.kind()) as u32),
        ),
        entity.id() == state.next_id(entity.kind()) ==> state.inserted(entity).get(
            entity.kind(),
            entity.uuid(),
        ) == Some(entity),
        !state.has_id(entity.kind(), state.next_id(entity.kind()) as u32),
{
    let after = state.inserted(entity);
    let key = (entity.kind(), entity.uuid());
    assert(state.issued.contains_key(entity.kind()));
    assert(after.records.dom() =~= state.records.dom().insert(key));
    assert forall|kind: DbEntity| #[trigger]
        after.issued.contains_key(kind) && after.issued[kind] <= u32::MAX by {
        assert(state.issued.contains_key(kind));
    }
    assert forall|k: (DbEntity, u128)| #[trigger] after.records.contains_key(k) implies {
        &&& after.records[k].kind() == k.0
        &&& after.records[k].uuid() == k.1
        &&& 1 <= after.records[k].id() <= after.issued[k.0]
        &&& after.has_parent(after.records[k])
    } by {
        if k != key {
            assert(state.records.contains_key(k));
            lemma_insert_keeps_parents(state, entity, state.records[k]);
        } else {
            assert(after.records[k].parent() == entity.parent());
            lemma_insert_keeps_parents(state, entity, entity);
        }
    }
    assert forall|a: (DbEntity, u128), b: (DbEntity, u128)|
        #![trigger after.records[a], after.records[b]]
        after.records.contains_key(a) && after.records.contains_key(b) && a.0 == b.0
            && after.records[a].id() == after.records[b].id() implies a == b by {
        if a != key {
            assert(state.records.contains_key(a));
        }
        if b != key {
            assert(state.records.contains_key(b));
        }
        if a != key && b != key {
            assert(state.records[a].id() == state.records[b].id());
        }
    }
    if state.has_id(entity.kind(), state.next_id(entity.kind()) as u32) {
        let uuid = choose|uuid: u128| #[trigger]
            state.records.contains_key((entity.kind(), uuid)) && state.records[(
                entity.kind(),
                uuid,
            )].id() == state.next_id(entity.kind()) as u32;
        assert(state.records.contains_key((entity.kind(), uuid)));
    }
}

/// An entity that took the place of a record is read back under its UUID
/// equal in all fields, and every other record is as it was. The store keeps
/// its rules.
pub proof fn law_replace_round_trip(state: StoreView, entity: EntityView, kind: DbEntity, uuid: u128)
    requires
        state.wf(),
        state.can_replace(entity),
    ensures
        state.replaced(entity).wf(),
        state.replaced(entity).get(entity.kind(), entity.uuid()) == Some(entity),
        (kind, uuid) != (entity.kind(), entity.uuid()) ==> state.replaced(entity).get(kind, uuid)
            == state.get(kind, uuid),
{
    let after = state.replaced(entity);
    let key = (entity.kind(), entity.uuid());
    assert(after.records.dom() =~= state.records.dom());
    assert(state.records.contains_key(key));
    assert forall|k: (DbEntity, u128)| #[trigger] after.records.contains_key(k) implies {
        &&& after.records[k].kind() == k.0
        &&& after.records[k].uuid() == k.1
        &&& 1 <= after.records[k].id() <= after.issued[k.0]
        &&& after.has_parent(after.records[k])
    } by {
        assert(state.records.contains_key(k));
        if k != key {
            lemma_replace_keeps_parents(state, entity, state.records[k]);
        } else {
            lemma_replace_keeps_parents(state, entity, entity);
        }
    }
    assert forall|a: (DbEntity, u128), b: (DbEntity, u128)|
        #![trigger after.records[a], after.records[b]]
        after.records.contains_key(a) && after.records.contains_key(b) && a.0 == b.0
            && after.records[a].id() == after.records[b].id() implies a == b by {
        assert(state.records.contains_key(a));
        assert(state.records.contains_key(b));
        assert(after.records[a].id() == state.records[a].id());
        assert(after.records[b].id() == state.records[b].id());
        assert(state.records[a].id() == state.records[b].id());
    }
}

/// A change that names only the title changes neither the flag nor the
/// time of creation, and one that names only the flag does not change the
/// title. Neither changes the owner, the UUID or the numeric id.
pub proof fn law_partial_update(story: StoryView, title: Seq<char>, deleted: bool, now: i64)
    ensures
        merged_story(story, Some(title), None, now) == (StoryView {
            title,
            updated_at: now,
            ..story
        }),
        merged_story(story, None, Some(deleted), now) == (StoryView {
            deleted,
            updated_at: now,
            ..story
        }),
        merged_story(story, None, None, now) == (StoryView { updated_at: now, ..story }),
{
}

/// Where a change of a story succeeds, the store holds the merged story
/// under the story's UUID and every other record as before; where it fails,
/// the store holds what it held.
pub proof fn law_update_touches_one_story(
    state: StoreView,
    owner: u32,
    uuid: u128,
    title: Option<Seq<char>>,
    deleted: Option<bool>,
    now: i64,
    kind: DbEntity,
    other: u128,
)
    requires
        state.wf(),
    ensures
        ({
            let (answer, after) = update_story_outcome(state, owner, uuid, title, deleted, now);
            &&& answer matches Ok(merged) ==> owned_story(state, owner, uuid) matches Some(stored)
                && merged == merged_story(stored, title, deleted, now) && after.get(
                DbEntity::Stories,
                uuid,
            ) == Some(EntityView::Story(merged)) && after.wf()
            &&& answer is Err ==> after == state
            &&& (kind, other) != (DbEntity::Stories, uuid) ==> after.get(kind, other) == state.get(
                kind,
                other,
            )
        }),
{
    let (answer, after) = update_story_outcome(state, owner, uuid, title, deleted, now);
    if answer is Ok {
        let stored = owned_story(state, owner, uuid)->Some_0;
        assert(state.records.contains_key((DbEntity::Stories, uuid)));
        let merged = EntityView::Story(merged_story(stored, title, deleted, now));
        law_replace_round_trip(state, merged, kind, other);
    }
}

/// Deletion is final. Once the deletion of a story has succeeded, the store
/// holds the story marked as deleted; every later change of the story fails
/// with `InvalidState`, a second deletion too; and a batch of changes to its
/// content fails with `InvalidState` and leaves the store as it is.
pub proof fn law_deletion_is_final(
    state: StoreView,
    owner: u32,
    uuid: u128,
    now: i64,
    title: Option<Seq<char>>,
    deleted: Option<bool>,
    later: i64,
    updates: Seq<(u128, ContentDetailsView)>,
    answer: Result<Seq<ContentView>, ActionError>,
    end: StoreView,
)
    requires
        state.wf(),
        delete_story_outcome(state, owner, uuid, now).0 is Ok,
    ensures
        ({
            let after = delete_story_outcome(state, owner, uuid, now).1;
            &&& after.wf()
            &&& owned_story(after, owner, uuid) matches Some(story) && story.deleted
            &&& update_story_outcome(after, owner, uuid, title, deleted, later) == (
                Err::<StoryView, ActionError>(ActionError::InvalidState),
                after,
            )
            &&& delete_story_outcome(after, owner, uuid, later) == (
                Err::<(), ActionError>(ActionError::InvalidState),
                after,
            )
            &&& update_content_goes(
                after,
                owned_story(after, owner, uuid)->Some_0.id,
                owned_story(after, owner, uuid)->Some_0.deleted,
                updates,
                later,
                answer,
                end,
            ) ==> answer == Err::<Seq<ContentView>, ActionError>(ActionError::InvalidState)
                && end == after
        }),
{
    law_update_touches_one_story(
        state,
        owner,
        uuid,
        None,
        Some(true),
        now,
        DbEntity::Stories,
        uuid,
    );
}

/// A batch of changes stops at the first change whose item is not there.
/// Where the changes before it all apply, the store then holds what those
/// changes made of it: they stay, and no change after them is tried.
pub proof fn law_batch_halts(
    state: StoreView,
    updates: Seq<(u128, ContentDetailsView)>,
    now: i64,
    unknown: int,
)
    requires
        0 <= unknown < updates.len(),
        run_updates(state, updates.take(unknown), now).1 == unknown,
        run_updates(state, updates.take(unknown), now).0.get(
            DbEntity::Content,
            updates[unknown].0,
        ) is None,
    ensures
        run_updates(state, updates, now) == (
            run_updates(state, updates.take(unknown), now).0,
            unknown as nat,
        ),
{
    lemma_run_updates_split(state, updates, now, unknown);
    assert(updates.skip(unknown)[0] == updates[unknown]);
}

/// A batch of changes touches content only: every record of another kind is
/// as it was, no numeric id is handed out, and the store keeps its rules. So
/// a story is still there, and still its owner's, after its content changed.
pub proof fn law_updates_touch_content_only(
    state: StoreView,
    updates: Seq<(u128, ContentDetailsView)>,
    now: i64,
    kind: DbEntity,
    uuid: u128,
)
    requires
        state.wf(),
    ensures
        run_updates(state, updates, now).0.wf(),
        run_updates(state, updates, now).0.issued == state.issued,
        run_updates(state, updates, now).1 <= updates.len(),
        run_updates(state, updates, now).0.records.dom() == state.records.dom(),
        kind != DbEntity::Content ==> run_updates(state, updates, now).0.get(kind, uuid)
            == state.get(kind, uuid),
    decreases updates.len(),
{
    if updates.len() > 0 {
        match state.get(DbEntity::Content, updates[0].0) {
            Some(EntityView::Content(stored)) => {
                let changed = EntityView::Content(updated_content(stored, updates[0].1, now));
                assert(state.records.contains_key((DbEntity::Content, updates[0].0)));
                law_replace_round_trip(state, changed, kind, uuid);
                let next = state.replaced(changed);
                assert(next.records.dom() =~= state.records.dom());
                law_updates_touch_content_only(next, updates.skip(1), now, kind, uuid);
            },
            _ => {},
        }
    }
}

/// Making content adds and does not take away: every record that was there
/// is there afterwards as it was, and the store keeps its rules.
pub proof fn law_inserts_keep_records(
    state: StoreView,
    story_id: u32,
    items: Seq<(u128, ContentDetailsView)>,
    now: i64,
    kind: DbEntity,
    uuid: u128,
)
    requires
        state.wf(),
    ensures
        run_inserts(state, story_id, items, now).0.wf(),
        run_inserts(state, story_id, items, now).1.len() <= items.len(),
        state.get(kind, uuid) is Some ==> run_inserts(state, story_id, items, now).0.get(
            kind,
            uuid,
        ) == state.get(kind, uuid),
    decreases items.len(),
{
    if items.len() > 0 {
        let content = EntityView::Content(new_content(story_id, items[0].0, items[0].1, now));
        if state.can_insert(content) {
            law_insert_round_trip(state, content);
            law_inserts_keep_records(
                state.inserted(content),
                story_id,
                items.skip(1),
                now,
                kind,
                uuid,
            );
        }
    }
}

/// Where all the content items of a list were made, the `index`-th of them
/// is the `index`-th of the list: it holds its details under their kind,
/// belongs to the story, was made and last changed at the time of the call,
/// has the numeric id that follows those of the items before it, and is read
/// back from the store under its UUID equal in all fields.
pub proof fn law_created_content(
    state: StoreView,
    story_id: u32,
    items: Seq<(u128, ContentDetailsView)>,
    now: i64,
    index: int,
)
    requires
        state.wf(),
        run_inserts(state, story_id, items, now).1.len() == items.len(),
        0 <= index < items.len(),
    ensures
        ({
            let (after, made) = run_inserts(state, story_id, items, now);
            &&& state.issued[DbEntity::Content] + index + 1 <= u32::MAX
            &&& made[index] == (ContentView {
                id: (state.issued[DbEntity::Content] + index + 1) as u32,
                ..new_content(story_id, items[index].0, items[index].1, now)
            })
            &&& after.get(DbEntity::Content, items[index].0) == Some(
                EntityView::Content(made[index]),
            )
        }),
    decreases items.len(),
{
    let content = EntityView::Content(new_content(story_id, items[0].0, items[0].1, now));
    let next = state.inserted(content);
    law_insert_round_trip(state, content);
    law_inserts_keep_records(next, story_id, items.skip(1), now, DbEntity::Content, items[0].0);
    let rest = run_inserts(next, story_id, items.skip(1), now).1;
    assert(state.issued.contains_key(DbEntity::Content));
    if index > 0 {
        law_created_content(next, story_id, items.skip(1), now, index - 1);
        assert(items.skip(1)[index - 1] == items[index]);
    }
}

/// Making content adds nothing but the items made: a record of the store
/// afterwards was there before, as it is, or is one of the items.
pub proof fn lemma_inserts_add_only(
    state: StoreView,
    story_id: u32,
    items: Seq<(u128, ContentDetailsView)>,
    now: i64,
    key: (DbEntity, u128),
)
    requires
        state.wf(),
        run_inserts(state, story_id, items, now).0.records.contains_key(key),
    ensures
        ({
            let (after, made) = run_inserts(state, story_id, items, now);
            ||| state.records.contains_key(key) && after.records[key] == state.records[key]
            ||| exists|i: int|
                0 <= i < made.len() && after.records[key] == EntityView::Content(
                    #[trigger] made[i],
                )
        }),
    decreases items.len(),
{
    if items.len() > 0 {
        let content = EntityView::Content(new_content(story_id, items[0].0, items[0].1, now));
        if state.can_insert(content) {
            let next = state.inserted(content);
            let (after, made) = run_inserts(state, story_id, items, now);
            let rest = run_inserts(next, story_id, items.skip(1), now).1;
            law_insert_round_trip(state, content);
            lemma_inserts_add_only(next, story_id, items.skip(1), now, key);
            if next.records.contains_key(key) && after.records[key] == next.records[key] {
                if key == (DbEntity::Content, items[0].0) {
                    assert(after.records[key] == EntityView::Content(made[0]));
                }
            } else {
                let i = choose|i: int|
                    0 <= i < rest.len() && after.records[key] == EntityView::Content(
                        #[trigger] rest[i],
                    );
                assert(made[i + 1] == rest[i]);
            }
        }
    }
}

/// What is written is read back. A story that was made is read by its owner
/// with the title it was made with, the time of its making, and exactly the
/// content items that it was made with, each once: as many as were given,
/// and each of them as it was answered when the story was made.
pub proof fn law_story_is_read_back(
    state: StoreView,
    owner: u32,
    uuid: u128,
    title: Seq<char>,
    items: Seq<(u128, ContentDetailsView)>,
    now: i64,
    answer: Result<api::StoryView, ActionError>,
)
    requires
        state.wf(),
        create_story_outcome(state, owner, uuid, title, items, now).0 is Ok,
        get_story_goes(
            create_story_outcome(state, owner, uuid, title, items, now).1,
            owner,
            uuid,
            answer,
        ),
    ensures
        answer is Ok,
        ({
            let made = create_story_outcome(state, owner, uuid, title, items, now).0->Ok_0;
            let read = answer->Ok_0;
            &&& read.uuid == uuid
            &&& read.title == title
            &&& read.created_at == now
            &&& read.updated_at == now
            &&& read.content.len() == items.len()
            &&& made.content.len() == items.len()
            &&& forall|i: int|
                0 <= i < items.len() ==> read.content.contains(#[trigger] made.content[i])
            &&& forall|j: int|
                0 <= j < read.content.len() ==> made.content.contains(#[trigger] read.content[j])
            &&& items.len() == 1 ==> read.content == made.content
        }),
{
    let story = EntityView::Story(new_story(owner, uuid, title, now));
    let id = state.next_id(DbEntity::Stories) as u32;
    let stored = StoryView { id, ..new_story(owner, uuid, title, now) };
    let middle = state.inserted(story);
    let (after, made) = run_inserts(middle, id, items, now);
    law_insert_round_trip(state, story);
    law_next_id_is_unused(state, DbEntity::Stories);
    law_inserts_keep_records(middle, id, items, now, DbEntity::Stories, uuid);
    assert(owned_story(after, owner, uuid) == Some(stored));
    let read = answer->Ok_0;
    let listed = choose|listed: Seq<ContentView>|
        after.is_listing(
            DbEntity::Content,
            story_id_column(),
            id,
            crate::action::content::content_entities(listed),
        ) && read == #[trigger] api::story_sent(stored, listed);
    let entities = crate::action::content::content_entities(listed);
    assert(story_id_column() != crate::access::entity::id_column()) by {
        assert(story_id_column().len() != crate::access::entity::id_column().len());
    }
    // Every item made is listed.
    assert forall|i: int| 0 <= i < made.len() implies listed.contains(#[trigger] made[i]) by {
        law_created_content(middle, id, items, now, i);
        assert(after.selects(DbEntity::Content, story_id_column(), id, items[i].0));
        let j = choose|j: int| 0 <= j < entities.len() && (#[trigger] entities[j]).uuid() == items[i].0;
        assert(after.records[(DbEntity::Content, entities[j].uuid())] == entities[j]);
        assert(entities[j] == EntityView::Content(listed[j]));
        assert(listed[j] == made[i]);
    }
    // Every item listed was made.
    assert forall|j: int| 0 <= j < listed.len() implies made.contains(#[trigger] listed[j]) by {
        let key = (DbEntity::Content, entities[j].uuid());
        assert(entities[j] == EntityView::Content(listed[j]));
        assert(after.selects(DbEntity::Content, story_id_column(), id, entities[j].uuid()));
        assert(after.records[key] == entities[j]);
        lemma_inserts_add_only(middle, id, items, now, key);
        if middle.records.contains_key(key) && after.records[key] == middle.records[key] {
            assert(state.records.contains_key(key));
            assert(state.has_parent(state.records[key]));
            assert(state.has_id(DbEntity::Stories, id));
            let parent = choose|parent: u128| #[trigger]
                state.records.contains_key((DbEntity::Stories, parent)) && state.records[(
                    DbEntity::Stories,
                    parent,
                )].id() == id;
            assert(state.issued.contains_key(DbEntity::Stories));
            assert(false);
        }
        let i = choose|i: int|
            0 <= i < made.len() && after.records[key] == EntityView::Content(#[trigger] made[i]);
        assert(made[i] == listed[j]);
    }
    // Neither list holds an item twice.
    assert forall|a: int, b: int| 0 <= a < b < made.len() implies #[trigger] made[a].uuid
        != #[trigger] made[b].uuid by {
        law_created_content(middle, id, items, now, a);
        law_created_content(middle, id, items, now, b);
        assert(middle.issued.contains_key(DbEntity::Content));
    }
    assert forall|a: int, b: int| 0 <= a < b < listed.len() implies #[trigger] listed[a].uuid
        != #[trigger] listed[b].uuid by {
        assert(entities[a].uuid() != entities[b].uuid());
    }
    lemma_same_items_same_length(listed, made);
    let sent = read.content;
    let answered = create_story_outcome(state, owner, uuid, title, items, now).0->Ok_0.content;
    assert forall|i: int| 0 <= i < items.len() implies sent.contains(#[trigger] answered[i]) by {
        assert(listed.contains(made[i]));
        let j = choose|j: int| 0 <= j < listed.len() && listed[j] == made[i];
        assert(sent[j] == answered[i]);
    }
    assert forall|j: int| 0 <= j < sent.len() implies answered.contains(#[trigger] sent[j]) by {
        assert(made.contains(listed[j]));
        let i = choose|i: int| 0 <= i < made.len() && made[i] == listed[j];
        assert(answered[i] == sent[j]);
    }
    if items.len() == 1 {
        assert(sent.contains(answered[0]));
        assert(sent =~= answered);
    }
}

/// Two lists of content items that hold each other's items, and none twice
/// by its UUID, are of the same length.
proof fn lemma_same_items_same_length(first: Seq<ContentView>, second: Seq<ContentView>)
    requires
        forall|a: int, b: int|
            0 <= a < b < first.len() ==> (#[trigger] first[a]).uuid != (#[trigger] first[b]).uuid,
        forall|a: int, b: int|
            0 <= a < b < second.len() ==> (#[trigger] second[a]).uuid != (
            #[trigger] second[b]).uuid,
        forall|i: int| 0 <= i < first.len() ==> second.contains(#[trigger] first[i]),
        forall|j: int| 0 <= j < second.len() ==> first.contains(#[trigger] second[j]),
    ensures
        first.len() == second.len(),
{
    assert(first.no_duplicates());
    assert(second.no_duplicates());
    first.unique_seq_to_set();
    second.unique_seq_to_set();
    assert(first.to_set() =~= second.to_set()) by {
        assert forall|item: ContentView| first.to_set().contains(item) == second.to_set().contains(
            item,
        ) by {
            if first.contains(item) {
                let i = choose|i: int| 0 <= i < first.len() && first[i] == item;
                assert(second.contains(first[i]));
            }
            if second.contains(item) {
                let j = choose|j: int| 0 <= j < second.len() && second[j] == item;
                assert(first.contains(second[j]));
            }
        }
    }
}

/// The numeric id that the next record of a kind gets is one that no record
/// of the kind has.
pub proof fn law_next_id_is_unused(state: StoreView, kind: DbEntity)
    requires
        state.wf(),
    ensures
        forall|uuid: u128| #[trigger]
            state.records.contains_key((kind, uuid)) ==> state.records[(kind, uuid)].id()
                != state.next_id(kind),
{
}

/// A listing holds exactly the records that hold the value in the column,
/// each once: an entity is in it if and only if it is such a record. Where no
/// record holds the value, or the kind has no such column, the listing is
/// empty.
pub proof fn law_listing_is_exact(
    state: StoreView,
    kind: DbEntity,
    name: Seq<char>,
    value: u32,
    items: Seq<EntityView>,
)
    requires
        state.wf(),
        state.is_listing(kind, name, value, items),
    ensures
        forall|entity: EntityView|
            items.contains(entity) <==> (#[trigger] state.selects(kind, name, value, entity.uuid())
                && state.get(kind, entity.uuid()) == Some(entity)),
        items.no_duplicates(),
        (forall|uuid: u128| !state.selects(kind, name, value, uuid)) ==> items.len() == 0,
{
    assert forall|entity: EntityView|
        items.contains(entity) <==> (#[trigger] state.selects(kind, name, value, entity.uuid())
            && state.get(kind, entity.uuid()) == Some(entity)) by {
        if items.contains(entity) {
            let i = choose|i: int| 0 <= i < items.len() && items[i] == entity;
            assert(state.selects(kind, name, value, items[i].uuid()));
        }
        if state.selects(kind, name, value, entity.uuid()) && state.get(kind, entity.uuid())
            == Some(entity) {
            let i = choose|i: int| 0 <= i < items.len() && (#[trigger] items[i]).uuid() == entity.uuid();
            assert(state.records[(kind, items[i].uuid())] == items[i]);
            assert(items[i] == entity);
        }
    }
    assert forall|i: int, j: int| 0 <= i < items.len() && 0 <= j < items.len() && i != j implies items[i]
        != items[j] by {
        if i < j {
            assert(items[i].uuid() != items[j].uuid());
        } else {
            assert(items[j].uuid() != items[i].uuid());
        }
    }
    if items.len() > 0 {
        assert(state.selects(kind, name, value, items[0].uuid()));
    }
}

/// The content of a story is told by the story's numeric id alone: a
/// content item is listed for a story if and only if its `story_id` is the
/// story's id.
pub proof fn law_story_content(state: StoreView, story_id: u32, uuid: u128)
    requires
        state.wf(),
    ensures
        state.selects(DbEntity::Content, story_id_column(), story_id, uuid) <==> (state.get(
            DbEntity::Content,
            uuid,
        ) matches Some(EntityView::Content(content)) && content.story_id == story_id),
{
    assert(story_id_column() != crate::access::entity::id_column()) by {
        assert(story_id_column().len() != crate::access::entity::id_column().len());
    }
    if state.records.contains_key((DbEntity::Content, uuid)) {
        assert(state.records[(DbEntity::Content, uuid)].kind() == DbEntity::Content);
    }
}

} // verus!
