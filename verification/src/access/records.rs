//! The records that a list of entities stands for.

use crate::access::entity::{DbEntity, EntityView};
use vstd::prelude::*;

verus! {

/// The kind and UUID under which an entity is kept.
pub open spec fn key_of(entity: EntityView) -> (DbEntity, u128) {
    (entity.kind(), entity.uuid())
}

/// The records that a list of entities stands for: each under its kind and
/// UUID, a later one in the place of an earlier one with the same two.
pub open spec fn records_of(items: Seq<EntityView>) -> Map<(DbEntity, u128), EntityView>
    decreases items.len(),
{
    if items.len() == 0 {
        Map::empty()
    } else {
        records_of(items.drop_last()).insert(key_of(items.last()), items.last())
    }
}

/// Whether no two entities of a list have the same kind and UUID.
pub open spec fn distinct_keys(items: Seq<EntityView>) -> bool {
    forall|i: int, j: int|
        0 <= i < j < items.len() ==> key_of(#[trigger] items[i]) != key_of(#[trigger] items[j])
}

/// The keys of the records are the keys of the entities, and they are
/// finitely many.
pub proof fn lemma_records_keys(items: Seq<EntityView>)
    ensures
        records_of(items).dom().finite(),
        forall|key: (DbEntity, u128)| #[trigger]
            records_of(items).contains_key(key) <==> exists|i: int|
                0 <= i < items.len() && key_of(#[trigger] items[i]) == key,
    decreases items.len(),
{
    if items.len() > 0 {
        let front = items.drop_last();
        lemma_records_keys(front);
        assert forall|key: (DbEntity, u128)| #[trigger]
            records_of(items).contains_key(key) <==> exists|i: int|
                0 <= i < items.len() && key_of(#[trigger] items[i]) == key by {
            if records_of(items).contains_key(key) {
                if key == key_of(items.last()) {
                    assert(key_of(items[items.len() - 1]) == key);
                } else {
                    assert(records_of(front).contains_key(key));
                    let i = choose|i: int| 0 <= i < front.len() && key_of(#[trigger] front[i]) == key;
                    assert(key_of(items[i]) == key);
                }
            }
            if exists|i: int| 0 <= i < items.len() && key_of(#[trigger] items[i]) == key {
                let i = choose|i: int| 0 <= i < items.len() && key_of(#[trigger] items[i]) == key;
                if i < items.len() - 1 {
                    assert(key_of(front[i]) == key);
                }
            }
        }
    }
}

/// Among entities with distinct keys, each is the record under its key.
pub proof fn lemma_records_index(items: Seq<EntityView>, i: int)
    requires
        distinct_keys(items),
        0 <= i < items.len(),
    ensures
        records_of(items).contains_key(key_of(items[i])),
        records_of(items)[key_of(items[i])] == items[i],
    decreases items.len(),
{
    let front = items.drop_last();
    if i < items.len() - 1 {
        assert(distinct_keys(front)) by {
            assert forall|a: int, b: int| 0 <= a < b < front.len() implies key_of(
                #[trigger] front[a],
            ) != key_of(#[trigger] front[b]) by {
                assert(front[a] == items[a] && front[b] == items[b]);
            }
        }
        lemma_records_index(front, i);
        assert(front[i] == items[i]);
        assert(key_of(items[i]) != key_of(items[items.len() - 1]));
    }
}

/// Putting an entity in the place of one with the same key changes the
/// record under that key and no other.
pub proof fn lemma_records_update(items: Seq<EntityView>, i: int, entity: EntityView)
    requires
        distinct_keys(items),
        0 <= i < items.len(),
        key_of(entity) == key_of(items[i]),
    ensures
        records_of(items.update(i, entity)) =~= records_of(items).insert(key_of(entity), entity),
        distinct_keys(items.update(i, entity)),
    decreases items.len(),
{
    let after = items.update(i, entity);
    let front = items.drop_last();
    assert(distinct_keys(after)) by {
        assert forall|a: int, b: int| 0 <= a < b < after.len() implies key_of(
            #[trigger] after[a],
        ) != key_of(#[trigger] after[b]) by {
            assert(key_of(after[a]) == key_of(items[a]));
            assert(key_of(after[b]) == key_of(items[b]));
        }
    }
    if i == items.len() - 1 {
        assert(after.drop_last() =~= front);
    } else {
        assert(distinct_keys(front)) by {
            assert forall|a: int, b: int| 0 <= a < b < front.len() implies key_of(
                #[trigger] front[a],
            ) != key_of(#[trigger] front[b]) by {
                assert(front[a] == items[a] && front[b] == items[b]);
            }
        }
        lemma_records_update(front, i, entity);
        assert(front[i] == items[i]);
        assert(after.drop_last() =~= front.update(i, entity));
        assert(after.last() == items.last());
        assert(key_of(items[i]) != key_of(items[items.len() - 1]));
    }
}

/// Whether one of the entities is of that kind and has that numeric id.
pub open spec fn holds_id(items: Seq<EntityView>, kind: DbEntity, id: u32) -> bool {
    exists|i: int|
        0 <= i < items.len() && (#[trigger] items[i]).kind() == kind && items[i].id() == id
}

/// Whether the record that an entity belongs to is among the entities: the
/// story of a content item, by its numeric id.
pub open spec fn parent_held(items: Seq<EntityView>, entity: EntityView) -> bool {
    match entity.parent() {
        Some((kind, id)) => holds_id(items, kind, id),
        None => true,
    }
}

/// Among entities with distinct keys, a record of a kind has a numeric id if
/// and only if one of the entities is of the kind and has the id.
pub proof fn lemma_records_ids(items: Seq<EntityView>, kind: DbEntity, id: u32)
    requires
        distinct_keys(items),
    ensures
        holds_id(items, kind, id) <==> exists|uuid: u128| #[trigger]
            records_of(items).contains_key((kind, uuid)) && records_of(items)[(kind, uuid)].id()
                == id,
{
    lemma_records_keys(items);
    if holds_id(items, kind, id) {
        let i = choose|i: int|
            0 <= i < items.len() && (#[trigger] items[i]).kind() == kind && items[i].id() == id;
        lemma_records_index(items, i);
        assert(records_of(items).contains_key((kind, items[i].uuid())));
    }
    if exists|uuid: u128| #[trigger]
        records_of(items).contains_key((kind, uuid)) && records_of(items)[(kind, uuid)].id()
            == id {
        let uuid = choose|uuid: u128| #[trigger]
            records_of(items).contains_key((kind, uuid)) && records_of(items)[(kind, uuid)].id()
                == id;
        let i = choose|i: int| 0 <= i < items.len() && key_of(#[trigger] items[i]) == (kind, uuid);
        lemma_records_index(items, i);
        assert(items[i].kind() == kind && items[i].id() == id);
    }
}

} // verus!
