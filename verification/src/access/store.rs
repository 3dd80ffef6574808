//! What a store holds, as a mathematical value, and the contract that every
//! store meets.

use crate::access::entity::{DbEntity, Entity, EntityView};
use crate::access::records::parent_held;
use crate::access::scan::holds_parent;
use crate::api::ApiError;
use crate::schema::SchemaError;
use vstd::prelude::*;
use vstd::std_specs::convert::FromSpecImpl;

verus! {

/// Why a call on a store did not answer.
#[derive(Debug, Clone, Copy, PartialEq, Eq, Structural)]
pub enum AccessError {
    /// No record of that kind has the UUID or the numeric id asked for.
    NotFound,
    /// The store could not carry out the call: the file system or the
    /// database failed, or the write would have broken a rule of the store.
    Storage,
    /// A payload could not be written or read.
    Api(ApiError),
    /// A row could not be translated into the model.
    Schema(SchemaError),
}

impl From<SchemaError> for AccessError {
    fn from(err: SchemaError) -> (ret: AccessError) {
        AccessError::Schema(err)
    }
}

impl FromSpecImpl<SchemaError> for AccessError {
    open spec fn obeys_from_spec() -> bool {
        true
    }

    open spec fn from_spec(err: SchemaError) -> AccessError {
        AccessError::Schema(err)
    }
}

impl From<ApiError> for AccessError {
    fn from(err: ApiError) -> (ret: AccessError) {
        AccessError::Api(err)
    }
}

impl FromSpecImpl<ApiError> for AccessError {
    open spec fn obeys_from_spec() -> bool {
        true
    }

    open spec fn from_spec(err: ApiError) -> AccessError {
        AccessError::Api(err)
    }
}

/// What a store holds: its records, each under its kind and UUID, and for
/// each kind the number of numeric ids handed out so far. The ids of a kind
/// are handed out in order, starting at 1.
#[verifier::ext_equal]
pub struct StoreView {
    pub records: Map<(DbEntity, u128), EntityView>,
    pub issued: Map<DbEntity, nat>,
}

impl StoreView {
    /// A store without records that has handed out no id.
    pub open spec fn empty() -> StoreView {
        StoreView { records: Map::empty(), issued: Map::total(|kind: DbEntity| 0nat) }
    }

    /// The rules that a store keeps: a record stands under its own kind and
    /// UUID; its numeric id is one that was handed out for its kind; no two
    /// records of a kind share a numeric id; and the story that a content
    /// item belongs to is in the store.
    pub open spec fn wf(self) -> bool {
        &&& self.records.dom().finite()
        &&& forall|kind: DbEntity| #[trigger]
            self.issued.contains_key(kind) && self.issued[kind] <= u32::MAX
        &&& forall|key: (DbEntity, u128)| #[trigger]
            self.records.contains_key(key) ==> {
                &&& self.records[key].kind() == key.0
                &&& self.records[key].uuid() == key.1
                &&& 1 <= self.records[key].id() <= self.issued[key.0]
                &&& self.has_parent(self.records[key])
            }
        &&& forall|a: (DbEntity, u128), b: (DbEntity, u128)|
            #![trigger self.records[a], self.records[b]]
            self.records.contains_key(a) && self.records.contains_key(b) && a.0 == b.0
                && self.records[a].id() == self.records[b].id() ==> a == b
    }

    /// The record of that kind with that UUID.
    pub open spec fn get(self, kind: DbEntity, uuid: u128) -> Option<EntityView> {
        if self.records.contains_key((kind, uuid)) {
            Some(self.records[(kind, uuid)])
        } else {
            None
        }
    }

    /// Whether a record of that kind has that numeric id.
    pub open spec fn has_id(self, kind: DbEntity, id: u32) -> bool {
        exists|uuid: u128| #[trigger]
            self.records.contains_key((kind, uuid)) && self.records[(kind, uuid)].id() == id
    }

    /// Whether the record that an entity belongs to is in the store: the
    /// story of a content item, by its numeric id.
    pub open spec fn has_parent(self, entity: EntityView) -> bool {
        match entity.parent() {
            Some((kind, id)) => self.has_id(kind, id),
            None => true,
        }
    }

    /// The numeric id that the next record of that kind gets.
    pub open spec fn next_id(self, kind: DbEntity) -> nat {
        self.issued[kind] + 1
    }

    /// Whether an entity can be added: its UUID is not taken within its kind,
    /// the kind has a numeric id left, and the record that it belongs to is in
    /// the store.
    pub open spec fn can_insert(self, entity: EntityView) -> bool {
        &&& !self.records.contains_key((entity.kind(), entity.uuid()))
        &&& self.issued[entity.kind()] < u32::MAX
        &&& self.has_parent(entity)
    }

    /// The store after an entity was added under the next numeric id of its
    /// kind.
    pub open spec fn inserted(self, entity: EntityView) -> StoreView {
        StoreView {
            records: self.records.insert(
                (entity.kind(), entity.uuid()),
                entity.with_id(self.next_id(entity.kind()) as u32),
            ),
            issued: self.issued.insert(entity.kind(), self.next_id(entity.kind())),
        }
    }

    /// Whether an entity can take the place of the record of its kind and
    /// UUID: there is such a record, it has the entity's numeric id, and the
    /// record that the entity belongs to is in the store.
    pub open spec fn can_replace(self, entity: EntityView) -> bool {
        &&& self.records.contains_key((entity.kind(), entity.uuid()))
        &&& self.records[(entity.kind(), entity.uuid())].id() == entity.id()
        &&& self.has_parent(entity)
    }

    /// The store after an entity took the place of the record of its kind and
    /// UUID.
    pub open spec fn replaced(self, entity: EntityView) -> StoreView {
        StoreView {
            records: self.records.insert((entity.kind(), entity.uuid()), entity),
            issued: self.issued,
        }
    }

    /// Whether a record of that kind under that UUID holds `value` in the
    /// column of that name.
    pub open spec fn selects(self, kind: DbEntity, name: Seq<char>, value: u32, uuid: u128) -> bool {
        &&& self.records.contains_key((kind, uuid))
        &&& self.records[(kind, uuid)].numeric_column(name) == Some(value)
    }

    /// Whether `items` lists, each once and in any order, the records of that
    /// kind that hold `value` in the column of that name.
    pub open spec fn is_listing(
        self,
        kind: DbEntity,
        name: Seq<char>,
        value: u32,
        items: Seq<EntityView>,
    ) -> bool {
        &&& forall|i: int|
            0 <= i < items.len() ==> self.selects(kind, name, value, (#[trigger] items[i]).uuid())
                && self.records[(kind, items[i].uuid())] == items[i]
        &&& forall|uuid: u128| #[trigger]
            self.selects(kind, name, value, uuid) ==> exists|i: int|
                0 <= i < items.len() && (#[trigger] items[i]).uuid() == uuid
        &&& forall|i: int, j: int|
            0 <= i < j < items.len() ==> (#[trigger] items[i]).uuid() != (#[trigger] items[j]).uuid()
    }
}

/// Whether an entity is of that kind and has that UUID.
pub open spec fn key_is(entity: EntityView, kind: DbEntity, uuid: u128) -> bool {
    entity.kind() == kind && entity.uuid() == uuid
}

/// An entity that was read for a kind and a UUID, where it is of that kind
/// and has that UUID. One that is not was not read right.
pub fn expect_key(entity: Entity, kind: DbEntity, uuid: u128) -> (r: Result<Entity, AccessError>)
    ensures
        match r {
            Ok(read) => read == entity && key_is(entity@, kind, uuid),
            Err(err) => err == AccessError::Api(ApiError::Decode) && !key_is(entity@, kind, uuid),
        },
{
    if entity.kind() == kind && entity.uuid() == uuid {
        Ok(entity)
    } else {
        Err(AccessError::Api(ApiError::Decode))
    }
}

/// The records that an entity may belong to, from what a store answered
/// when asked for the one: that record where it was found, none where it was
/// not, and the failure of the store where it failed.
pub fn parents_from(found: Result<Entity, AccessError>) -> (r: Result<Vec<Entity>, AccessError>)
    ensures
        match found {
            Ok(parent) => r is Ok && r->Ok_0@ == seq![parent],
            Err(err) => if err == AccessError::NotFound {
                r is Ok && r->Ok_0@ == Seq::<Entity>::empty()
            } else {
                r == Err::<Vec<Entity>, AccessError>(err)
            },
        },
{
    match found {
        Ok(parent) => {
            let mut parents: Vec<Entity> = Vec::new();
            parents.push(parent);
            assert(parents@ =~= seq![parent]);
            Ok(parents)
        },
        Err(AccessError::NotFound) => Ok(Vec::new()),
        Err(err) => Err(err),
    }
}

/// The entity to write where an entity is to be added: the entity itself. It
/// is refused where it is not of the kind named, and where the record that
/// it belongs to is not among `parents`.
pub fn insertion_for(parents: &Vec<Entity>, kind: DbEntity, entity: Entity) -> (r: Result<
    Entity,
    AccessError,
>)
    ensures
        match r {
            Ok(insertion) => insertion == entity && entity@.kind() == kind && parent_held(
                views(parents@),
                entity@,
            ),
            Err(err) => err == AccessError::Storage && !(entity@.kind() == kind && parent_held(
                views(parents@),
                entity@,
            )),
        },
{
    if entity.kind() != kind || !holds_parent(parents, &entity) {
        Err(AccessError::Storage)
    } else {
        Ok(entity)
    }
}

/// The entity to write where an entity is to take the place of a stored one:
/// the entity itself. It is refused where it is not of that kind, has another
/// UUID than the one named, or another numeric id than the stored one, and
/// where the record that it belongs to is not among `parents`.
pub fn replacement_for(
    stored: &Entity,
    parents: &Vec<Entity>,
    kind: DbEntity,
    uuid: u128,
    entity: Entity,
) -> (r: Result<Entity, AccessError>)
    ensures
        match r {
            Ok(replacement) => replacement == entity && key_is(entity@, kind, uuid) && entity@.id()
                == stored@.id() && parent_held(views(parents@), entity@),
            Err(err) => err == AccessError::Storage && !(key_is(entity@, kind, uuid)
                && entity@.id() == stored@.id() && parent_held(views(parents@), entity@)),
        },
{
    if entity.kind() != kind || entity.uuid() != uuid || entity.id() != stored.id()
        || !holds_parent(parents, &entity) {
        Err(AccessError::Storage)
    } else {
        Ok(entity)
    }
}

/// The values of a list of entities.
pub open spec fn views(items: Seq<Entity>) -> Seq<EntityView> {
    items.map_values(|entity: Entity| entity@)
}

/// Access to typed entities, each known by its kind with a UUID and with a
/// numeric id. A store in memory, one of files and one in a relational
/// database all meet this contract.
///
/// A call that fails leaves the records as they were.
pub trait EntityStore {
    /// What the store holds.
    spec fn state(&self) -> StoreView;

    /// The store's own rules about how it holds its records.
    spec fn inv(&self) -> bool;

    /// Whether every call on the store is carried out. A store that keeps
    /// its records in memory is dependable. One behind a file system or a
    /// database is not: any call on it may fail for reasons of its own.
    spec fn dependable(&self) -> bool;

    /// A store that keeps its own rules holds its records well-formed.
    proof fn lemma_inv(&self)
        requires
            self.inv(),
        ensures
            self.state().wf(),
    ;

    /// The record of that kind with that UUID; `NotFound` where there is none.
    fn get_by_uuid(&self, kind: DbEntity, uuid: u128) -> (r: Result<Entity, AccessError>)
        requires
            self.inv(),
        ensures
            r matches Ok(entity) ==> self.state().get(kind, uuid) == Some(entity@),
            r matches Err(err) ==> if err == AccessError::NotFound {
                self.state().get(kind, uuid) is None
            } else {
                !self.dependable()
            },
    ;

    /// The record of that kind with that numeric id; `NotFound` where there is
    /// none.
    fn get_by_id(&self, kind: DbEntity, id: u32) -> (r: Result<Entity, AccessError>)
        requires
            self.inv(),
        ensures
            r matches Ok(entity) ==> self.state().get(kind, entity@.uuid()) == Some(entity@)
                && entity@.id() == id,
            r matches Err(err) ==> if err == AccessError::NotFound {
                !self.state().has_id(kind, id)
            } else {
                !self.dependable()
            },
    ;

    /// The records of that kind that hold `value` in the column of that name,
    /// each once, in any order. No record matches a column that the kind does
    /// not have, and where none matches the list is empty.
    fn list_by_foreign_key(&self, kind: DbEntity, foreign_key: &str, value: u32) -> (r: Result<
        Vec<Entity>,
        AccessError,
    >)
        requires
            self.inv(),
        ensures
            r matches Ok(items) ==> self.state().is_listing(
                kind,
                foreign_key@,
                value,
                views(items@),
            ),
            r matches Err(err) ==> !self.dependable() && err != AccessError::NotFound,
    ;

    /// Adds an entity under the next numeric id of its kind, which is
    /// returned; the id that the entity came with is not kept. The store
    /// refuses an entity that is not of the kind named, one whose UUID is
    /// taken within the kind, and a content item whose story is not there.
    fn insert(&mut self, kind: DbEntity, entity: Entity) -> (r: Result<u32, AccessError>)
        requires
            old(self).inv(),
        ensures
            final(self).inv(),
            final(self).dependable() == old(self).dependable(),
            r matches Ok(id) ==> entity@.kind() == kind && old(self).state().can_insert(entity@)
                && id == old(self).state().next_id(kind) && final(self).state() == old(
                self,
            ).state().inserted(entity@),
            r matches Err(err) ==> final(self).state() == old(self).state() && err
                != AccessError::NotFound && (!old(self).dependable() || (err
                == AccessError::Storage && !(entity@.kind() == kind && old(
                self,
            ).state().can_insert(entity@)))),
    ;

    /// Puts an entity in the place of the record of that kind with that UUID,
    /// as a whole: what the record held is gone. `NotFound` where there is no
    /// such record. The store refuses an entity that is not of that kind, has
    /// another UUID or another numeric id than the record, and a content item
    /// whose story is not there.
    fn replace_by_uuid(&mut self, kind: DbEntity, uuid: u128, entity: Entity) -> (r: Result<
        (),
        AccessError,
    >)
        requires
            old(self).inv(),
        ensures
            final(self).inv(),
            final(self).dependable() == old(self).dependable(),
            r is Ok ==> key_is(entity@, kind, uuid) && old(self).state().can_replace(entity@)
                && final(self).state() == old(self).state().replaced(entity@),
            r matches Err(err) ==> final(self).state() == old(self).state() && if err
                == AccessError::NotFound {
                old(self).state().get(kind, uuid) is None
            } else {
                !old(self).dependable() || (err == AccessError::Storage && old(self).state().get(
                    kind,
                    uuid,
                ) is Some && !(key_is(entity@, kind, uuid) && old(self).state().can_replace(
                    entity@,
                )))
            },
    ;

    /// The numeric id that the next record of that kind gets: one that no
    /// record of the kind has.
    fn next_id(&self, kind: DbEntity) -> (r: Result<u32, AccessError>)
        requires
            self.inv(),
        ensures
            r matches Ok(id) ==> id == self.state().next_id(kind),
            r matches Err(err) ==> err != AccessError::NotFound && (!self.dependable() || (err
                == AccessError::Storage && self.state().issued[kind] >= u32::MAX)),
    ;
}

} // verus!
