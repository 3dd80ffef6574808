//! The content of a story: items are made one by one in the order given,
//! and changed in batches that stop at the first item that is not there.

use crate::access::entity::{story_id_column, DbEntity, Entity, EntityView};
use crate::access::store::{views, AccessError, EntityStore, StoreView};
use crate::action::error::{not_found, store_failed, ActionError};
use crate::api;
use crate::ident::{is_random_uuid, random_uuid};
use crate::model::{Content, ContentDetails, ContentDetailsView, ContentView, Story};
use vstd::prelude::*;

verus! {

/// A content item to be made: the UUID it gets and what it holds.
#[derive(Debug, Clone, PartialEq, Eq)]
pub struct NewContent {
    pub uuid: u128,
    pub details: api::ContentDetails,
}

impl View for NewContent {
    type V = (u128, ContentDetailsView);

    open spec fn view(&self) -> (u128, ContentDetailsView) {
        (self.uuid, self.details@)
    }
}

/// A change of a content item: the item's UUID and what it is to hold.
#[derive(Debug, Clone, PartialEq, Eq)]
pub struct ContentUpdate {
    pub uuid: u128,
    pub content: api::ContentDetails,
}

impl View for ContentUpdate {
    type V = (u128, ContentDetailsView);

    open spec fn view(&self) -> (u128, ContentDetailsView) {
        (self.uuid, self.content@)
    }
}

/// The values of a list of content items to be made.
pub open spec fn new_views(items: Seq<NewContent>) -> Seq<(u128, ContentDetailsView)> {
    items.map_values(|item: NewContent| item@)
}

/// The values of a list of changes.
pub open spec fn update_views(updates: Seq<ContentUpdate>) -> Seq<(u128, ContentDetailsView)> {
    updates.map_values(|update: ContentUpdate| update@)
}

/// The values of a list of content items.
pub open spec fn content_views(items: Seq<Content>) -> Seq<ContentView> {
    items.map_values(|item: Content| item@)
}

/// Content items as entities of the store.
pub open spec fn content_entities(items: Seq<ContentView>) -> Seq<EntityView> {
    items.map_values(|item: ContentView| EntityView::Content(item))
}

/// A content item as it is handed to the store: made at the time `now`, its
/// kind the name of what it holds. The store gives it its numeric id.
pub open spec fn new_content(story_id: u32, uuid: u128, details: ContentDetailsView, now: i64) -> ContentView {
    ContentView {
        id: 0,
        story_id,
        uuid,
        kind: api::kind_name(details),
        details,
        created_at: now,
        updated_at: now,
    }
}

/// What making content items comes to on a store that carries out every
/// call: the items are added one by one, in their order, until one cannot be
/// added. The result is what the store holds then, and the items that were
/// added, each with its numeric id.
pub open spec fn run_inserts(
    state: StoreView,
    story_id: u32,
    items: Seq<(u128, ContentDetailsView)>,
    now: i64,
) -> (StoreView, Seq<ContentView>)
    decreases items.len(),
{
    if items.len() == 0 {
        (state, Seq::empty())
    } else {
        let content = new_content(story_id, items[0].0, items[0].1, now);
        if state.can_insert(EntityView::Content(content)) {
            let added = ContentView { id: state.next_id(DbEntity::Content) as u32, ..content };
            let (after, rest) = run_inserts(
                state.inserted(EntityView::Content(content)),
                story_id,
                items.skip(1),
                now,
            );
            (after, seq![added] + rest)
        } else {
            (state, Seq::empty())
        }
    }
}

/// The answer and the store after content items were made. Without items
/// nothing is done. A story that is not in the store is not found, and
/// nothing is added. Otherwise the answer is all the items, or the failure of
/// the store at the first that could not be added, with the earlier ones in
/// the store.
pub open spec fn create_content_outcome(
    state: StoreView,
    story_id: u32,
    items: Seq<(u128, ContentDetailsView)>,
    now: i64,
) -> (Result<Seq<ContentView>, ActionError>, StoreView) {
    if items.len() == 0 {
        (Ok(Seq::empty()), state)
    } else if !state.has_id(DbEntity::Stories, story_id) {
        (Err(not_found()), state)
    } else {
        let (after, made) = run_inserts(state, story_id, items, now);
        if made.len() == items.len() {
            (Ok(made), after)
        } else {
            (Err(ActionError::AccessError(AccessError::Storage)), after)
        }
    }
}

/// Where the first `count` items of a list are all added, the list comes
/// to what the rest of it comes to on the store that they leave.
pub proof fn lemma_run_inserts_split(
    state: StoreView,
    story_id: u32,
    items: Seq<(u128, ContentDetailsView)>,
    now: i64,
    count: int,
)
    requires
        0 <= count <= items.len(),
        run_inserts(state, story_id, items.take(count), now).1.len() == count,
    ensures
        run_inserts(state, story_id, items, now) == ({
            let (middle, made) = run_inserts(state, story_id, items.take(count), now);
            (
                run_inserts(middle, story_id, items.skip(count), now).0,
                made + run_inserts(middle, story_id, items.skip(count), now).1,
            )
        }),
    decreases items.len(),
{
    let first = items.take(count);
    if count == 0 {
        assert(first =~= Seq::empty());
        assert(items.skip(0) =~= items);
        assert(Seq::<ContentView>::empty() + run_inserts(state, story_id, items, now).1
            =~= run_inserts(state, story_id, items, now).1);
    } else {
        assert(first[0] == items[0]);
        let content = new_content(story_id, items[0].0, items[0].1, now);
        if state.can_insert(EntityView::Content(content)) {
            let next = state.inserted(EntityView::Content(content));
            let added = ContentView { id: state.next_id(DbEntity::Content) as u32, ..content };
            assert(first.skip(1) =~= items.skip(1).take(count - 1));
            assert(items.skip(1).skip(count - 1) =~= items.skip(count));
            lemma_run_inserts_split(next, story_id, items.skip(1), now, count - 1);
            let (middle, made) = run_inserts(next, story_id, items.skip(1).take(count - 1), now);
            let tail = run_inserts(middle, story_id, items.skip(count), now).1;
            assert(seq![added] + (made + tail) =~= (seq![added] + made) + tail);
        } else {
            assert(run_inserts(state, story_id, first, now).1.len() == 0);
        }
    }
}

/// Adding one more item after the first `count` of a list were all added.
proof fn lemma_run_inserts_step(
    state: StoreView,
    story_id: u32,
    items: Seq<(u128, ContentDetailsView)>,
    now: i64,
    count: int,
)
    requires
        0 <= count < items.len(),
        run_inserts(state, story_id, items.take(count), now).1.len() == count,
        run_inserts(state, story_id, items.take(count), now).0.can_insert(
            EntityView::Content(new_content(story_id, items[count].0, items[count].1, now)),
        ),
    ensures
        run_inserts(state, story_id, items.take(count + 1), now) == ({
            let (middle, made) = run_inserts(state, story_id, items.take(count), now);
            let content = new_content(story_id, items[count].0, items[count].1, now);
            (
                middle.inserted(EntityView::Content(content)),
                made.push(
                    ContentView { id: middle.next_id(DbEntity::Content) as u32, ..content },
                ),
            )
        }),
{
    let longer = items.take(count + 1);
    assert(longer.take(count) =~= items.take(count));
    lemma_run_inserts_split(state, story_id, longer, now, count);
    let (middle, made) = run_inserts(state, story_id, items.take(count), now);
    let last = longer.skip(count);
    assert(last =~= seq![items[count]]);
    assert(last.skip(1) =~= Seq::empty());
    let content = new_content(story_id, items[count].0, items[count].1, now);
    let added = ContentView { id: middle.next_id(DbEntity::Content) as u32, ..content };
    assert(run_inserts(middle.inserted(EntityView::Content(content)), story_id, last.skip(1), now)
        == (middle.inserted(EntityView::Content(content)), Seq::<ContentView>::empty()));
    assert(made + (seq![added] + Seq::<ContentView>::empty()) =~= made.push(added));
}

/// Whether a store holds what the first items of a list made of it, all of
/// them added: where a call ended before its time, what was done stays.
pub open spec fn inserts_stopped(
    state: StoreView,
    story_id: u32,
    items: Seq<(u128, ContentDetailsView)>,
    now: i64,
    after: StoreView,
) -> bool {
    exists|count: int|
        0 <= count <= items.len() && (#[trigger] run_inserts(
            state,
            story_id,
            items.take(count),
            now,
        )).0 == after && run_inserts(state, story_id, items.take(count), now).1.len() == count
}

/// The value of the answer of a service that returns content items.
pub open spec fn content_answer(r: Result<Vec<Content>, ActionError>) -> Result<
    Seq<ContentView>,
    ActionError,
> {
    match r {
        Ok(items) => Ok(content_views(items@)),
        Err(err) => Err(err),
    }
}

/// Makes content items of a story at the time `now`, each under the UUID
/// that comes with it, in the order given. Without items the store is not
/// called. The story has to be in the store: where no story has the numeric
/// id, the call fails with `NotFound` and adds nothing. An item whose UUID is
/// taken, or for which the store has no numeric id left, ends the call with
/// the store's failure; the items before it stay in the store.
///
/// Either the call goes as `create_content_outcome` says, or the store fails
/// on its own, and what was added before stays.
pub fn create_content_with<S: EntityStore>(
    db: &mut S,
    story_id: u32,
    items: Vec<NewContent>,
    now: i64,
) -> (r: Result<Vec<Content>, ActionError>)
    requires
        old(db).inv(),
    ensures
        final(db).inv(),
        final(db).dependable() == old(db).dependable(),
        (content_answer(r), final(db).state()) == create_content_outcome(
            old(db).state(),
            story_id,
            new_views(items@),
            now,
        ) || (!old(db).dependable() && r is Err && store_failed(r->Err_0) && inserts_stopped(
            old(db).state(),
            story_id,
            new_views(items@),
            now,
            final(db).state(),
        )),
        items.len() == 0 ==> r is Ok && final(db).state() == old(db).state(),
{
    let ghost all = new_views(items@);
    let ghost begin = db.state();
    let ghost dependable = db.dependable();
    let mut created: Vec<Content> = Vec::new();
    if items.len() == 0 {
        assert(content_views(created@) =~= Seq::empty());
        return Ok(created);
    }
    assert(all.take(0) =~= Seq::empty());
    assert(all.len() == items.len());
    match db.get_by_id(DbEntity::Stories, story_id) {
        Ok(story) => {
            assert(begin.records.contains_key((DbEntity::Stories, story@.uuid())));
        },
        Err(err) => {
            assert(run_inserts(begin, story_id, all.take(0), now) == (
                begin,
                Seq::<ContentView>::empty(),
            ));
            return Err(ActionError::AccessError(err));
        },
    }
    assert(all.skip(0) =~= all);
    assert(Seq::<ContentView>::empty() + run_inserts(begin, story_id, all, now).1
        =~= run_inserts(begin, story_id, all, now).1);
    assert(all.take(0) =~= Seq::empty());
    assert(content_views(created@) =~= Seq::empty());
    for item in it: items
        invariant
            it.seq() == items@,
            all == new_views(items@),
            begin == old(db).state(),
            begin.has_id(DbEntity::Stories, story_id),
            items.len() > 0,
            dependable == old(db).dependable(),
            created.len() == it.index(),
            db.inv(),
            db.dependable() == dependable,
            run_inserts(begin, story_id, all.take(it.index() as int), now) == (
                db.state(),
                content_views(created@),
            ),
            run_inserts(begin, story_id, all, now) == (
                run_inserts(db.state(), story_id, all.skip(it.index() as int), now).0,
                content_views(created@) + run_inserts(
                    db.state(),
                    story_id,
                    all.skip(it.index() as int),
                    now,
                ).1,
            ),
    {
        let ghost i = created.len() as int;
        let ghost state = db.state();
        let ghost done = content_views(created@);
        let ghost rest = all.skip(i);
        assert(rest[0] == all[i] && all[i] == item@);
        assert(rest.skip(1) =~= all.skip(i + 1));
        let kind = item.details.kind();
        let uuid = item.uuid;
        let details = ContentDetails::from(item.details);
        let content = Content {
            id: 0,
            story_id,
            uuid,
            kind,
            details,
            created_at: now,
            updated_at: now,
        };
        assert(content@ == new_content(story_id, all[i].0, all[i].1, now));
        match db.insert(DbEntity::Content, Entity::Content(content.clone())) {
            Ok(id) => {
                let stored = Content { id, ..content };
                created.push(stored);
                proof {
                    let tail = run_inserts(db.state(), story_id, all.skip(i + 1), now).1;
                    assert(content_views(created@) =~= done.push(stored@));
                    assert(done + (seq![stored@] + tail) =~= done.push(stored@) + tail);
                    lemma_run_inserts_step(begin, story_id, all, now, i);
                }
            },
            Err(err) => {
                proof {
                    if dependable {
                        assert(run_inserts(state, story_id, rest, now) == (
                            state,
                            Seq::<ContentView>::empty(),
                        ));
                        assert(done + Seq::<ContentView>::empty() =~= done);
                    }
                }
                return Err(ActionError::AccessError(err));
            },
        }
    }
    proof {
        assert(all.skip(items.len() as int) =~= Seq::empty());
        assert(content_views(created@) + Seq::<ContentView>::empty() =~= content_views(created@));
        assert(all.len() == items.len());
    }
    Ok(created)
}

/// Makes content items of a story at the time `now`, each under a fresh
/// random UUID, in the order given: the call goes as [`create_content_with`]
/// does for some UUIDs, also where the store fails on its own.
pub fn create_content<S: EntityStore>(
    db: &mut S,
    story_id: u32,
    details: Vec<api::ContentDetails>,
    now: i64,
) -> (r: Result<Vec<Content>, ActionError>)
    requires
        old(db).inv(),
    ensures
        final(db).inv(),
        final(db).dependable() == old(db).dependable(),
        (exists|items: Seq<(u128, ContentDetailsView)>|
            freshly_drawn(items, details@) && #[trigger] create_content_outcome(
                old(db).state(),
                story_id,
                items,
                now,
            ) == (content_answer(r), final(db).state())) || (!old(db).dependable() && r is Err
            && store_failed(r->Err_0) && exists|items: Seq<(u128, ContentDetailsView)>|
            freshly_drawn(items, details@) && #[trigger] inserts_stopped(
                old(db).state(),
                story_id,
                items,
                now,
                final(db).state(),
            )),
        details.len() == 0 ==> r is Ok && final(db).state() == old(db).state(),
{
    let items = with_fresh_uuids(details);
    let r = create_content_with(db, story_id, items, now);
    proof {
        if create_content_outcome(old(db).state(), story_id, new_views(items@), now) != (
            content_answer(r),
            db.state(),
        ) {
            assert(inserts_stopped(
                old(db).state(),
                story_id,
                new_views(items@),
                now,
                db.state(),
            ));
        }
    }
    r
}

/// Whether `items` holds the details given, one for one and in their order.
pub open spec fn holds_in_order(
    items: Seq<(u128, ContentDetailsView)>,
    details: Seq<api::ContentDetails>,
) -> bool {
    &&& items.len() == details.len()
    &&& forall|i: int| 0 <= i < items.len() ==> (#[trigger] items[i]).1 == details[i]@
}

/// Whether `items` holds the details given, one for one and in their order,
/// each under a UUID that carries the marks of a random one.
pub open spec fn freshly_drawn(
    items: Seq<(u128, ContentDetailsView)>,
    details: Seq<api::ContentDetails>,
) -> bool {
    &&& holds_in_order(items, details)
    &&& forall|i: int| 0 <= i < items.len() ==> is_random_uuid((#[trigger] items[i]).0)
}

/// Gives each details value a fresh random UUID.
pub fn with_fresh_uuids(details: Vec<api::ContentDetails>) -> (items: Vec<NewContent>)
    ensures
        freshly_drawn(new_views(items@), details@),
{
    let mut items: Vec<NewContent> = Vec::new();
    for value in it: details
        invariant
            it.seq() == details@,
            items.len() == it.index(),
            forall|i: int|
                0 <= i < items.len() ==> (#[trigger] items[i]).details@ == details[i]@
                    && is_random_uuid(items[i].uuid),
    {
        items.push(NewContent { uuid: random_uuid(), details: value });
    }
    items
}

/// A content item after a change: it holds the new details under their
/// kind, `updated_at` is the time of the change, and every other field stays.
pub open spec fn updated_content(stored: ContentView, details: ContentDetailsView, now: i64) -> ContentView {
    ContentView { kind: api::kind_name(details), details, updated_at: now, ..stored }
}

/// What a batch of changes comes to on a store that carries out every call:
/// the changes are applied one by one, in their order, until one names an
/// item that is not there. The result is what the store holds then, and how
/// many changes were applied. No change after the first that fails is tried.
pub open spec fn run_updates(
    state: StoreView,
    updates: Seq<(u128, ContentDetailsView)>,
    now: i64,
) -> (StoreView, nat)
    decreases updates.len(),
{
    if updates.len() == 0 {
        (state, 0)
    } else {
        match state.get(DbEntity::Content, updates[0].0) {
            Some(EntityView::Content(stored)) => {
                let (after, applied) = run_updates(
                    state.replaced(
                        EntityView::Content(updated_content(stored, updates[0].1, now)),
                    ),
                    updates.skip(1),
                    now,
                );
                (after, applied + 1)
            },
            _ => (state, 0),
        }
    }
}

/// Where the first `count` changes of a batch all apply, the batch comes to
/// what the rest of it comes to on the store that they leave.
pub proof fn lemma_run_updates_split(
    state: StoreView,
    updates: Seq<(u128, ContentDetailsView)>,
    now: i64,
    count: int,
)
    requires
        0 <= count <= updates.len(),
        run_updates(state, updates.take(count), now).1 == count,
    ensures
        run_updates(state, updates, now) == ({
            let middle = run_updates(state, updates.take(count), now).0;
            (
                run_updates(middle, updates.skip(count), now).0,
                count as nat + run_updates(middle, updates.skip(count), now).1,
            )
        }),
    decreases updates.len(),
{
    let first = updates.take(count);
    if count == 0 {
        assert(first =~= Seq::empty());
        assert(updates.skip(0) =~= updates);
    } else {
        assert(first[0] == updates[0]);
        match state.get(DbEntity::Content, updates[0].0) {
            Some(EntityView::Content(stored)) => {
                let next = state.replaced(
                    EntityView::Content(updated_content(stored, updates[0].1, now)),
                );
                assert(first.skip(1) =~= updates.skip(1).take(count - 1));
                assert(updates.skip(1).skip(count - 1) =~= updates.skip(count));
                lemma_run_updates_split(next, updates.skip(1), now, count - 1);
            },
            _ => {},
        }
    }
}

/// Applying one more change after the first `count` of a batch all applied.
proof fn lemma_run_updates_step(
    state: StoreView,
    updates: Seq<(u128, ContentDetailsView)>,
    now: i64,
    count: int,
    stored: ContentView,
)
    requires
        0 <= count < updates.len(),
        run_updates(state, updates.take(count), now).1 == count,
        run_updates(state, updates.take(count), now).0.get(DbEntity::Content, updates[count].0)
            == Some(EntityView::Content(stored)),
    ensures
        run_updates(state, updates.take(count + 1), now) == (
            run_updates(state, updates.take(count), now).0.replaced(
                EntityView::Content(updated_content(stored, updates[count].1, now)),
            ),
            (count + 1) as nat,
        ),
{
    let longer = updates.take(count + 1);
    assert(longer.take(count) =~= updates.take(count));
    lemma_run_updates_split(state, longer, now, count);
    let middle = run_updates(state, updates.take(count), now).0;
    let last = longer.skip(count);
    assert(last =~= seq![updates[count]]);
    assert(last.skip(1) =~= Seq::empty());
    let next = middle.replaced(
        EntityView::Content(updated_content(stored, updates[count].1, now)),
    );
    assert(run_updates(next, last.skip(1), now) == (next, 0nat));
}

/// Whether a store holds what the first changes of a batch made of it, all
/// of them applied: where a call ended before its time, what was done stays.
pub open spec fn updates_stopped(
    state: StoreView,
    updates: Seq<(u128, ContentDetailsView)>,
    now: i64,
    after: StoreView,
) -> bool {
    exists|count: int|
        0 <= count <= updates.len() && #[trigger] run_updates(state, updates.take(count), now)
            == (after, count as nat)
}

/// Whether an answer and a store are what a batch of changes to the content
/// of a story comes to on a store that carries out every call. Against a
/// deleted story nothing is tried. Otherwise the store holds what the run of
/// the changes left; where all were applied the answer lists all the content
/// of the story, in any order, and where one was not, the answer is that its
/// item was not found.
pub open spec fn update_content_goes(
    state: StoreView,
    story_id: u32,
    deleted: bool,
    updates: Seq<(u128, ContentDetailsView)>,
    now: i64,
    answer: Result<Seq<ContentView>, ActionError>,
    after: StoreView,
) -> bool {
    if deleted {
        answer == Err::<Seq<ContentView>, ActionError>(ActionError::InvalidState) && after == state
    } else {
        let (ran, applied) = run_updates(state, updates, now);
        &&& after == ran
        &&& match answer {
            Ok(items) => applied == updates.len() && after.is_listing(
                DbEntity::Content,
                story_id_column(),
                story_id,
                content_entities(items),
            ),
            Err(err) => err == not_found() && applied < updates.len(),
        }
    }
}

/// The content items among entities that are all content items.
pub fn into_content(entities: Vec<Entity>) -> (r: Option<Vec<Content>>)
    ensures
        match r {
            Some(items) => content_entities(content_views(items@)) == views(entities@),
            None => exists|i: int|
                0 <= i < entities.len() && (#[trigger] entities[i])@.kind() != DbEntity::Content,
        },
{
    let mut items: Vec<Content> = Vec::new();
    for entity in it: entities
        invariant
            it.seq() == entities@,
            items.len() == it.index(),
            forall|i: int|
                0 <= i < items.len() ==> EntityView::Content((#[trigger] items[i])@)
                    == entities[i]@,
    {
        let ghost index = items.len() as int;
        match entity {
            Entity::Content(content) => {
                items.push(content);
            },
            _ => {
                assert(entities[index]@.kind() != DbEntity::Content);
                return None;
            },
        }
    }
    assert(content_entities(content_views(items@)) =~= views(entities@));
    Some(items)
}

/// All the content of a story, in any order.
pub fn story_content<S: EntityStore>(db: &S, story_id: u32) -> (r: Result<
    Vec<Content>,
    ActionError,
>)
    requires
        db.inv(),
    ensures
        r matches Ok(items) ==> db.state().is_listing(
            DbEntity::Content,
            story_id_column(),
            story_id,
            content_entities(content_views(items@)),
        ),
        r matches Err(err) ==> !db.dependable() && store_failed(err),
{
    proof {
        db.lemma_inv();
        reveal_strlit("story_id");
        assert("story_id"@ =~= story_id_column());
    }
    let entities = match db.list_by_foreign_key(DbEntity::Content, "story_id", story_id) {
        Ok(entities) => entities,
        Err(err) => {
            return Err(ActionError::AccessError(err));
        },
    };
    match into_content(entities) {
        Some(items) => Ok(items),
        None => {
            proof {
                let i = choose|i: int|
                    0 <= i < entities.len() && (#[trigger] entities[i])@.kind()
                        != DbEntity::Content;
                assert(views(entities@)[i] == entities[i]@);
                assert(db.state().records.contains_key((DbEntity::Content, entities[i]@.uuid())));
            }
            Err(ActionError::Internal)
        },
    }
}

/// Changes content items of a story at the time `now`: each change puts new
/// details in the place of the old ones. Against a deleted story the call
/// fails with `InvalidState` before anything is tried. A change that names an
/// item that is not there ends the call with `NotFound`: the changes before
/// it stay, those after it are not tried. The answer is all the content of
/// the story after the changes.
///
/// Either the call goes as `update_content_goes` says, or the store fails on
/// its own, and the changes that were applied before stay.
pub fn update_content<S: EntityStore>(
    db: &mut S,
    story: &Story,
    updates: Vec<ContentUpdate>,
    now: i64,
) -> (r: Result<Vec<Content>, ActionError>)
    requires
        old(db).inv(),
    ensures
        final(db).inv(),
        final(db).dependable() == old(db).dependable(),
        update_content_goes(
            old(db).state(),
            story.id,
            story.deleted,
            update_views(updates@),
            now,
            content_answer(r),
            final(db).state(),
        ) || (!old(db).dependable() && !story.deleted && r is Err && store_failed(r->Err_0)
            && updates_stopped(old(db).state(), update_views(updates@), now, final(db).state())),
{
    if story.deleted {
        return Err(ActionError::InvalidState);
    }
    let ghost all = update_views(updates@);
    let ghost begin = db.state();
    let ghost dependable = db.dependable();
    let ghost mut applied: nat = 0;
    assert(all.skip(0) =~= all);
    assert(all.take(0) =~= Seq::empty());
    for update in it: updates
        invariant
            it.seq() == updates@,
            all == update_views(updates@),
            begin == old(db).state(),
            dependable == old(db).dependable(),
            !story.deleted,
            applied == it.index(),
            db.inv(),
            db.dependable() == dependable,
            run_updates(begin, all.take(applied as int), now) == (db.state(), applied),
            run_updates(begin, all, now) == (
                run_updates(db.state(), all.skip(applied as int), now).0,
                run_updates(db.state(), all.skip(applied as int), now).1 + applied,
            ),
    {
        let ghost i = applied as int;
        let ghost rest = all.skip(i);
        assert(rest[0] == all[i] && all[i] == update@);
        assert(rest.skip(1) =~= all.skip(i + 1));
        proof {
            db.lemma_inv();
        }
        let stored = match db.get_by_uuid(DbEntity::Content, update.uuid) {
            Ok(Entity::Content(stored)) => stored,
            Ok(_) => {
                assert(db.state().records.contains_key((DbEntity::Content, update.uuid)));
                return Err(ActionError::Internal);
            },
            Err(err) => {
                return Err(ActionError::AccessError(err));
            },
        };
        assert(db.state().records.contains_key((DbEntity::Content, update.uuid)));
        let kind = update.content.kind();
        let details = ContentDetails::from(update.content);
        let changed = Content { kind, details, updated_at: now, ..stored };
        assert(changed@ == updated_content(stored@, all[i].1, now));
        match db.replace_by_uuid(DbEntity::Content, update.uuid, Entity::Content(changed)) {
            Ok(()) => {
                proof {
                    lemma_run_updates_step(begin, all, now, i, stored@);
                    applied = applied + 1;
                }
            },
            Err(err) => {
                return Err(ActionError::AccessError(err));
            },
        }
    }
    proof {
        assert(all.skip(updates.len() as int) =~= Seq::empty());
        assert(all.len() == updates.len());
        assert(all.take(updates.len() as int) =~= all);
    }
    story_content(&*db, story.id)
}

} // verus!
