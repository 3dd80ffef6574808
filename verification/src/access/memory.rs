//! A store that keeps its records in memory, in the order in which they
//! came.

use crate::access::entity::{DbEntity, Entity, EntityView};
use crate::access::records::{
    distinct_keys, holds_id, key_of, lemma_records_ids, lemma_records_index, lemma_records_keys,
    lemma_records_update, parent_held, records_of,
};
use crate::access::scan::{find_by_id, holds_parent, law_scan_is_listing, select_all_by_id_column};
use crate::access::store::{replacement_for, views, AccessError, EntityStore, StoreView};
use vstd::prelude::*;

verus! {

/// A store in memory. It is dependable: a call on it fails only for a reason
/// that the contract of the call names.
pub struct MemoryDb {
    entities: Vec<Entity>,
    prompts: u32,
    stories: u32,
    content: u32,
    users: u32,
}

impl MemoryDb {
    /// The entities in the order in which they came.
    spec fn items(&self) -> Seq<EntityView> {
        views(self.entities@)
    }

    /// How many numeric ids were handed out for a kind.
    spec fn issued(&self, kind: DbEntity) -> u32 {
        match kind {
            DbEntity::Prompts => self.prompts,
            DbEntity::Stories => self.stories,
            DbEntity::Content => self.content,
            DbEntity::Users => self.users,
        }
    }

    /// A store without records.
    pub fn new() -> (db: MemoryDb)
        ensures
            db.inv(),
            db.state() == StoreView::empty(),
    {
        let db = MemoryDb { entities: Vec::new(), prompts: 0, stories: 0, content: 0, users: 0 };
        assert(db.items() =~= Seq::empty());
        assert(db.state().issued =~= StoreView::empty().issued);
        assert(db.state().records =~= StoreView::empty().records);
        db
    }

    fn issued_for(&self, kind: DbEntity) -> (count: u32)
        ensures
            count == self.issued(kind),
    {
        match kind {
            DbEntity::Prompts => self.prompts,
            DbEntity::Stories => self.stories,
            DbEntity::Content => self.content,
            DbEntity::Users => self.users,
        }
    }

    /// Where the entity of that kind with that UUID stands.
    fn position(&self, kind: DbEntity, uuid: u128) -> (found: Option<usize>)
        ensures
            match found {
                Some(i) => i < self.items().len() && key_of(self.items()[i as int]) == (kind, uuid),
                None => forall|i: int|
                    0 <= i < self.items().len() ==> key_of(#[trigger] self.items()[i]) != (
                        kind,
                        uuid,
                    ),
            },
    {
        let mut i: usize = 0;
        while i < self.entities.len()
            invariant
                i <= self.entities.len(),
                self.items().len() == self.entities.len(),
                forall|j: int| 0 <= j < i ==> key_of(#[trigger] self.items()[j]) != (kind, uuid),
            decreases self.entities.len() - i,
        {
            let entity = &self.entities[i];
            assert(self.items()[i as int] == entity@);
            if entity.kind() == kind && entity.uuid() == uuid {
                return Some(i);
            }
            i += 1;
        }
        None
    }

    /// The record that an entity belongs to is among the entities if and
    /// only if it is among the records of the store.
    proof fn lemma_parent(&self, entity: EntityView)
        requires
            distinct_keys(self.items()),
        ensures
            parent_held(self.items(), entity) == self.state().has_parent(entity),
    {
        if entity.parent() is Some {
            let (kind, id) = entity.parent()->Some_0;
            let records = self.state().records;
            assert(records == records_of(self.items()));
            lemma_records_ids(self.items(), kind, id);
            if holds_id(self.items(), kind, id) {
                let uuid = choose|uuid: u128| #[trigger]
                    records.contains_key((kind, uuid)) && records[(kind, uuid)].id() == id;
                assert(self.state().has_id(kind, id));
            }
            if self.state().has_id(kind, id) {
                let uuid = choose|uuid: u128| #[trigger]
                    self.state().records.contains_key((kind, uuid)) && self.state().records[(
                        kind,
                        uuid,
                    )].id() == id;
                assert(records.contains_key((kind, uuid)) && records[(kind, uuid)].id() == id);
            }
        }
    }
}

impl EntityStore for MemoryDb {
    closed spec fn state(&self) -> StoreView {
        StoreView {
            records: records_of(self.items()),
            issued: Map::total(|kind: DbEntity| self.issued(kind) as nat),
        }
    }

    closed spec fn inv(&self) -> bool {
        &&& distinct_keys(self.items())
        &&& forall|i: int|
            0 <= i < self.items().len() ==> 1 <= (#[trigger] self.items()[i]).id() <= self.issued(
                self.items()[i].kind(),
            )
        &&& forall|i: int, j: int|
            0 <= i < j < self.items().len() && (#[trigger] self.items()[i]).kind() == (
            #[trigger] self.items()[j]).kind() ==> self.items()[i].id() != self.items()[j].id()
        &&& forall|i: int|
            0 <= i < self.items().len() ==> parent_held(self.items(), #[trigger] self.items()[i])
    }

    open spec fn dependable(&self) -> bool {
        true
    }

    proof fn lemma_inv(&self) {
        let items = self.items();
        let state = self.state();
        lemma_records_keys(items);
        assert forall|key: (DbEntity, u128)| #[trigger]
            state.records.contains_key(key) implies state.records[key].kind() == key.0
            && state.records[key].uuid() == key.1 && 1 <= state.records[key].id()
            <= state.issued[key.0] && state.has_parent(state.records[key]) by {
            let i = choose|i: int| 0 <= i < items.len() && key_of(#[trigger] items[i]) == key;
            lemma_records_index(items, i);
            assert(parent_held(items, items[i]));
            self.lemma_parent(items[i]);
        }
        assert forall|a: (DbEntity, u128), b: (DbEntity, u128)|
            #![trigger state.records[a], state.records[b]]
            state.records.contains_key(a) && state.records.contains_key(b) && a.0 == b.0
                && state.records[a].id() == state.records[b].id() implies a == b by {
            let i = choose|i: int| 0 <= i < items.len() && key_of(#[trigger] items[i]) == a;
            let j = choose|j: int| 0 <= j < items.len() && key_of(#[trigger] items[j]) == b;
            lemma_records_index(items, i);
            lemma_records_index(items, j);
            if i < j {
                assert(items[i].id() != items[j].id());
            } else if j < i {
                assert(items[j].id() != items[i].id());
            }
        }
    }

    fn get_by_uuid(&self, kind: DbEntity, uuid: u128) -> (r: Result<Entity, AccessError>) {
        proof {
            lemma_records_keys(self.items());
        }
        match self.position(kind, uuid) {
            Some(i) => {
                proof {
                    lemma_records_index(self.items(), i as int);
                }
                Ok(self.entities[i].clone())
            },
            None => Err(AccessError::NotFound),
        }
    }

    fn get_by_id(&self, kind: DbEntity, id: u32) -> (r: Result<Entity, AccessError>) {
        proof {
            lemma_records_ids(self.items(), kind, id);
        }
        match find_by_id(&self.entities, kind, id) {
            Some(i) => {
                proof {
                    lemma_records_index(self.items(), i as int);
                }
                Ok(self.entities[i].clone())
            },
            None => Err(AccessError::NotFound),
        }
    }

    fn list_by_foreign_key(&self, kind: DbEntity, foreign_key: &str, value: u32) -> (r: Result<
        Vec<Entity>,
        AccessError,
    >) {
        proof {
            law_scan_is_listing(self.state(), self.items(), kind, foreign_key@, value);
        }
        Ok(select_all_by_id_column(&self.entities, kind, value, foreign_key))
    }

    fn insert(&mut self, kind: DbEntity, entity: Entity) -> (r: Result<u32, AccessError>) {
        proof {
            lemma_records_keys(self.items());
        }
        let uuid = entity.uuid();
        let issued = self.issued_for(kind);
        proof {
            self.lemma_parent(entity@);
        }
        if entity.kind() != kind || self.position(kind, uuid).is_some() || issued == u32::MAX
            || !holds_parent(&self.entities, &entity) {
            return Err(AccessError::Storage);
        }
        let id = issued + 1;
        let ghost before = self.items();
        let ghost state = self.state();
        let stored = entity.with_id(id);
        self.entities.push(stored);
        match kind {
            DbEntity::Prompts => {
                self.prompts = id;
            },
            DbEntity::Stories => {
                self.stories = id;
            },
            DbEntity::Content => {
                self.content = id;
            },
            DbEntity::Users => {
                self.users = id;
            },
        }
        proof {
            let added = entity@.with_id(id);
            assert(self.items() =~= before.push(added));
            assert(self.items().drop_last() =~= before);
            assert(self.state().issued =~= state.inserted(entity@).issued);
            assert(self.state().records =~= state.inserted(entity@).records);
            assert(key_of(added) == (kind, uuid));
            assert(added.parent() == entity@.parent());
            assert forall|i: int| 0 <= i < self.items().len() implies parent_held(
                self.items(),
                #[trigger] self.items()[i],
            ) by {
                let item = self.items()[i];
                assert(parent_held(before, item));
                if item.parent() is Some {
                    let (parent_kind, parent_id) = item.parent()->Some_0;
                    let j = choose|j: int|
                        0 <= j < before.len() && (#[trigger] before[j]).kind() == parent_kind
                            && before[j].id() == parent_id;
                    assert(self.items()[j] == before[j]);
                }
            }
        }
        Ok(id)
    }

    fn replace_by_uuid(&mut self, kind: DbEntity, uuid: u128, entity: Entity) -> (r: Result<
        (),
        AccessError,
    >) {
        proof {
            lemma_records_keys(self.items());
        }
        let i = match self.position(kind, uuid) {
            Some(i) => i,
            None => {
                return Err(AccessError::NotFound);
            },
        };
        proof {
            lemma_records_index(self.items(), i as int);
        }
        proof {
            self.lemma_parent(entity@);
        }
        let entity = match replacement_for(&self.entities[i], &self.entities, kind, uuid, entity) {
            Ok(entity) => entity,
            Err(err) => {
                return Err(err);
            },
        };
        let ghost before = self.items();
        let ghost value = entity@;
        self.entities.set(i, entity);
        proof {
            assert(self.items() =~= before.update(i as int, value));
            lemma_records_update(before, i as int, value);
            assert forall|k: int| 0 <= k < self.items().len() implies parent_held(
                self.items(),
                #[trigger] self.items()[k],
            ) by {
                let item = self.items()[k];
                assert(parent_held(before, item)) by {
                    if k != i {
                        assert(item == before[k]);
                    }
                }
                if item.parent() is Some {
                    let (parent_kind, parent_id) = item.parent()->Some_0;
                    let j = choose|j: int|
                        0 <= j < before.len() && (#[trigger] before[j]).kind() == parent_kind
                            && before[j].id() == parent_id;
                    assert(self.items()[j].kind() == parent_kind && self.items()[j].id()
                        == parent_id);
                }
            }
        }
        Ok(())
    }

    fn next_id(&self, kind: DbEntity) -> (r: Result<u32, AccessError>) {
        let issued = self.issued_for(kind);
        if issued == u32::MAX {
            Err(AccessError::Storage)
        } else {
            Ok(issued + 1)
        }
    }
}

} // verus!
