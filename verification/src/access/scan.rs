//! The scan of a list of entities for those of a kind that hold a value in a
//! column: how a store without an index lists by foreign key.

use crate::access::entity::{DbEntity, Entity, EntityView};
use crate::access::records::{
    distinct_keys, holds_id, key_of, lemma_records_index, lemma_records_keys, parent_held,
    records_of,
};
use crate::access::store::{views, AccessError, StoreView};
use vstd::prelude::*;

verus! {

/// Whether an entity is of that kind and holds `value` in the column of
/// that name.
pub open spec fn holds_value(entity: EntityView, kind: DbEntity, name: Seq<char>, value: u32) -> bool {
    entity.kind() == kind && entity.numeric_column(name) == Some(value)
}

/// The entities of a list that are of that kind and hold `value` in the
/// column of that name, in the order of the list.
pub open spec fn selected(items: Seq<EntityView>, kind: DbEntity, name: Seq<char>, value: u32) -> Seq<
    EntityView,
>
    decreases items.len(),
{
    if items.len() == 0 {
        Seq::empty()
    } else if holds_value(items.last(), kind, name, value) {
        selected(items.drop_last(), kind, name, value).push(items.last())
    } else {
        selected(items.drop_last(), kind, name, value)
    }
}

/// A scan selects exactly the entities of the list that are of the kind and
/// hold the value: an entity is selected if and only if it is one of those.
pub proof fn law_scan_is_exact(items: Seq<EntityView>, kind: DbEntity, name: Seq<char>, value: u32)
    ensures
        selected(items, kind, name, value).len() <= items.len(),
        forall|entity: EntityView|
            #[trigger] selected(items, kind, name, value).contains(entity) <==> items.contains(
                entity,
            ) && holds_value(entity, kind, name, value),
    decreases items.len(),
{
    if items.len() > 0 {
        let front = items.drop_last();
        let last = items.last();
        law_scan_is_exact(front, kind, name, value);
        let chosen = selected(items, kind, name, value);
        let before = selected(front, kind, name, value);
        assert forall|entity: EntityView| #[trigger]
            chosen.contains(entity) <==> items.contains(entity) && holds_value(
                entity,
                kind,
                name,
                value,
            ) by {
            if chosen.contains(entity) {
                let i = choose|i: int| 0 <= i < chosen.len() && chosen[i] == entity;
                if holds_value(last, kind, name, value) && i == chosen.len() - 1 {
                    assert(items[items.len() - 1] == entity);
                } else {
                    assert(before[i] == entity);
                    assert(before.contains(entity));
                    let j = choose|j: int| 0 <= j < front.len() && front[j] == entity;
                    assert(items[j] == entity);
                }
            }
            if items.contains(entity) && holds_value(entity, kind, name, value) {
                let j = choose|j: int| 0 <= j < items.len() && items[j] == entity;
                if j == items.len() - 1 {
                    assert(chosen[chosen.len() - 1] == entity);
                } else {
                    assert(front[j] == entity);
                    assert(before.contains(entity));
                    let i = choose|i: int| 0 <= i < before.len() && before[i] == entity;
                    assert(chosen[i] == entity);
                }
            }
        }
    }
}

/// Selects all that match given id: the entities of that kind that hold `id`
/// in the column `id_column`, in the order in which they stand. No entity
/// matches a column that its kind does not have.
pub fn select_all_by_id_column(entities: &Vec<Entity>, kind: DbEntity, id: u32, id_column: &str) -> (matches:
    Vec<Entity>)
    ensures
        views(matches@) == selected(views(entities@), kind, id_column@, id),
{
    let mut matches: Vec<Entity> = Vec::new();
    let ghost all = views(entities@);
    assert(all.take(0) =~= Seq::empty());
    let mut i: usize = 0;
    while i < entities.len()
        invariant
            i <= entities.len(),
            all == views(entities@),
            views(matches@) == selected(all.take(i as int), kind, id_column@, id),
        decreases entities.len() - i,
    {
        let entity = &entities[i];
        let ghost before = views(matches@);
        assert(all.take(i + 1).drop_last() =~= all.take(i as int));
        assert(all.take(i + 1).last() == entity@);
        let held = entity.kind() == kind && match entity.numeric_column(id_column) {
            Some(held) => held == id,
            None => false,
        };
        if held {
            matches.push(entity.clone());
            assert(views(matches@) =~= before.push(entity@));
        }
        i += 1;
    }
    assert(all.take(entities.len() as int) =~= all);
    matches
}

/// What a scan selects from entities with distinct keys has distinct keys.
pub proof fn lemma_selected_distinct(
    items: Seq<EntityView>,
    kind: DbEntity,
    name: Seq<char>,
    value: u32,
)
    requires
        distinct_keys(items),
    ensures
        distinct_keys(selected(items, kind, name, value)),
    decreases items.len(),
{
    if items.len() > 0 {
        let front = items.drop_last();
        let last = items.last();
        assert(distinct_keys(front)) by {
            assert forall|a: int, b: int| 0 <= a < b < front.len() implies key_of(
                #[trigger] front[a],
            ) != key_of(#[trigger] front[b]) by {
                assert(front[a] == items[a] && front[b] == items[b]);
            }
        }
        lemma_selected_distinct(front, kind, name, value);
        law_scan_is_exact(front, kind, name, value);
        let before = selected(front, kind, name, value);
        let chosen = selected(items, kind, name, value);
        assert forall|a: int, b: int| 0 <= a < b < chosen.len() implies key_of(
            #[trigger] chosen[a],
        ) != key_of(#[trigger] chosen[b]) by {
            if b == before.len() {
                assert(before.contains(before[a]));
                let j = choose|j: int| 0 <= j < front.len() && front[j] == before[a];
                assert(items[j] == before[a]);
                assert(key_of(items[j]) != key_of(items[items.len() - 1]));
            } else {
                assert(chosen[a] == before[a] && chosen[b] == before[b]);
            }
        }
    }
}

/// A scan of all the entities of a store is a listing of its records: where
/// the records are those of a list of entities with distinct keys, what the
/// scan selects from the list are exactly the records of the kind that hold
/// the value in the column, each once.
pub proof fn law_scan_is_listing(
    store: StoreView,
    items: Seq<EntityView>,
    kind: DbEntity,
    name: Seq<char>,
    value: u32,
)
    requires
        store.records == records_of(items),
        distinct_keys(items),
    ensures
        store.is_listing(kind, name, value, selected(items, kind, name, value)),
{
    let found = selected(items, kind, name, value);
    lemma_records_keys(items);
    law_scan_is_exact(items, kind, name, value);
    lemma_selected_distinct(items, kind, name, value);
    assert forall|i: int| 0 <= i < found.len() implies store.selects(
        kind,
        name,
        value,
        (#[trigger] found[i]).uuid(),
    ) && store.records[(kind, found[i].uuid())] == found[i] by {
        assert(found.contains(found[i]));
        let j = choose|j: int| 0 <= j < items.len() && items[j] == found[i];
        lemma_records_index(items, j);
    }
    assert forall|uuid: u128| #[trigger] store.selects(kind, name, value, uuid) implies exists|
        i: int,
    |
        0 <= i < found.len() && (#[trigger] found[i]).uuid() == uuid by {
        let j = choose|j: int| 0 <= j < items.len() && key_of(#[trigger] items[j]) == (kind, uuid);
        lemma_records_index(items, j);
        assert(items.contains(items[j]));
        assert(found.contains(items[j]));
        let i = choose|i: int| 0 <= i < found.len() && found[i] == items[j];
        assert(found[i].uuid() == uuid);
    }
    assert forall|i: int, j: int| 0 <= i < j < found.len() implies (#[trigger] found[i]).uuid() != (
    #[trigger] found[j]).uuid() by {
        assert(key_of(found[i]) != key_of(found[j]));
        assert(found.contains(found[i]) && found.contains(found[j]));
    }
}

/// Whether the `index`-th entity is the first of that kind with that numeric
/// id.
pub open spec fn is_first_with_id(items: Seq<EntityView>, kind: DbEntity, id: u32, index: int) -> bool {
    &&& 0 <= index < items.len()
    &&& items[index].kind() == kind
    &&& items[index].id() == id
    &&& forall|j: int| 0 <= j < index ==> !((#[trigger] items[j]).kind() == kind && items[j].id() == id)
}

/// Where the first entity of that kind with that numeric id stands.
pub fn find_by_id(entities: &Vec<Entity>, kind: DbEntity, id: u32) -> (found: Option<usize>)
    ensures
        match found {
            Some(i) => is_first_with_id(views(entities@), kind, id, i as int),
            None => !holds_id(views(entities@), kind, id),
        },
{
    let mut i: usize = 0;
    while i < entities.len()
        invariant
            i <= entities.len(),
            forall|j: int|
                0 <= j < i ==> !((#[trigger] views(entities@)[j]).kind() == kind && views(
                    entities@,
                )[j].id() == id),
        decreases entities.len() - i,
    {
        let entity = &entities[i];
        assert(views(entities@)[i as int] == entity@);
        if entity.kind() == kind && entity.id() == id {
            return Some(i);
        }
        i += 1;
    }
    None
}

/// The first entity of that kind with that numeric id; `NotFound` where there
/// is none.
pub fn first_by_id(entities: &Vec<Entity>, kind: DbEntity, id: u32) -> (r: Result<
    Entity,
    AccessError,
>)
    ensures
        match r {
            Ok(entity) => exists|i: int|
                is_first_with_id(views(entities@), kind, id, i) && entity@ == #[trigger] views(
                    entities@,
                )[i],
            Err(err) => err == AccessError::NotFound && !holds_id(views(entities@), kind, id),
        },
{
    match find_by_id(entities, kind, id) {
        Some(i) => {
            let entity = entities[i].clone();
            assert(entity@ == views(entities@)[i as int]);
            Ok(entity)
        },
        None => Err(AccessError::NotFound),
    }
}

/// Whether the record that an entity belongs to is among the entities.
pub fn holds_parent(entities: &Vec<Entity>, entity: &Entity) -> (holds: bool)
    ensures
        holds == parent_held(views(entities@), entity@),
{
    match entity.parent() {
        Some((kind, id)) => find_by_id(entities, kind, id).is_some(),
        None => true,
    }
}

} // verus!
