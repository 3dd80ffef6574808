//! The rules of a store of files: one document for each entity, in a
//! directory for its kind, named by its UUID, and numeric ids by the count
//! of documents. To list what holds a value, such a store scans all the
//! documents of a kind.

use crate::access::entity::{kind_name, DbEntity, Entity, EntityView};
use crate::access::records::{key_of, lemma_records_keys, parent_held, records_of};
use crate::access::store::{insertion_for, views, AccessError, StoreView};
use crate::ident::{
    hyphenated, law_hyphenated_is_one_to_one, parsed_uuid, uuid_from_str, uuid_to_string,
};
use vstd::prelude::*;

verus! {

/// The directory of a kind: `<root>/<kind>`.
pub open spec fn directory_text(root: Seq<char>, kind: DbEntity) -> Seq<char> {
    root + seq!['/'] + kind_name(kind)
}

/// The path of the document of an entity: `<root>/<kind>/<uuid>.json`, the
/// UUID in its hyphenated lower-case form.
pub open spec fn path_text(root: Seq<char>, kind: DbEntity, uuid: u128) -> Seq<char> {
    directory_text(root, kind) + seq!['/'] + hyphenated(uuid) + json_ending()
}

/// The directory that holds the documents of a kind.
pub fn entity_directory(root: &str, kind: DbEntity) -> (path: String)
    ensures
        path@ == directory_text(root@, kind),
{
    proof {
        reveal_strlit("/");
    }
    let mut path = root.to_owned();
    path.append("/");
    path.append(kind.to_string().as_str());
    assert(path@ =~= directory_text(root@, kind));
    path
}

/// The path of the document of the entity of that kind with that UUID.
pub fn entity_path(root: &str, kind: DbEntity, uuid: u128) -> (path: String)
    ensures
        path@ == path_text(root@, kind, uuid),
{
    proof {
        reveal_strlit("/");
        reveal_strlit(".json");
        assert(".json"@ =~= json_ending());
    }
    let mut path = entity_directory(root, kind);
    path.append("/");
    path.append(uuid_to_string(uuid).as_str());
    path.append(".json");
    assert(path@ =~= path_text(root@, kind, uuid));
    path
}

/// The ending of the name of a document.
pub open spec fn json_ending() -> Seq<char> {
    seq!['.', 'j', 's', 'o', 'n']
}

/// The name of a document without its ending, from the path of the document
/// and the directory that it is to stand in: what is left of
/// `<directory>/<name>.json`. `None` for a path of another form.
pub open spec fn document_name(directory: Seq<char>, path: Seq<char>) -> Option<Seq<char>> {
    let start = directory + seq!['/'];
    if start.len() + json_ending().len() <= path.len() && start.is_prefix_of(path)
        && json_ending().is_suffix_of(path) {
        Some(path.subrange(start.len() as int, path.len() - json_ending().len()))
    } else {
        None
    }
}

/// Whether `part` stands in `text` from the position `offset` on.
fn stands_at(text: &str, offset: usize, part: &str) -> (stands: bool)
    requires
        offset + part@.len() <= text@.len(),
    ensures
        stands == (text@.subrange(offset as int, offset + part@.len()) == part@),
{
    let length = part.unicode_len();
    let total = text.unicode_len();
    let mut i: usize = 0;
    while i < length
        invariant
            i <= length,
            length == part@.len(),
            total == text@.len(),
            offset + length <= total,
            forall|j: int| 0 <= j < i ==> text@[offset + j] == part@[j],
        decreases length - i,
    {
        if text.get_char(offset + i) != part.get_char(i) {
            assert(text@.subrange(offset as int, offset + part@.len())[i as int] != part@[i as int]);
            return false;
        }
        i += 1;
    }
    assert(text@.subrange(offset as int, offset + part@.len()) =~= part@);
    true
}

/// The name of a document without its ending, from the path of the document
/// and the directory that it is to stand in. `None` for a path that is not
/// that of a document in the directory.
pub fn document_stem<'a>(directory: &str, path: &'a str) -> (stem: Option<&'a str>)
    ensures
        match stem {
            Some(name) => document_name(directory@, path@) == Some(name@),
            None => document_name(directory@, path@) is None,
        },
{
    proof {
        reveal_strlit("/");
        reveal_strlit(".json");
        assert(".json"@ =~= json_ending());
    }
    let total = path.unicode_len();
    let length = directory.unicode_len();
    if length >= total || total - length < 6 {
        return None;
    }
    let ghost start = directory@ + seq!['/'];
    let stands = stands_at(path, 0, directory) && path.get_char(length) == '/' && stands_at(
        path,
        total - 5,
        ".json",
    );
    proof {
        let head = path@.subrange(0, start.len() as int);
        if start.is_prefix_of(path@) {
            assert(head.subrange(0, length as int) =~= path@.subrange(0, length as int));
            assert(start.subrange(0, length as int) =~= directory@);
            assert(head[length as int] == path@[length as int]);
        }
        if path@.subrange(0, length as int) == directory@ && path@[length as int] == '/' {
            assert(head =~= start);
        }
    }
    if !stands {
        return None;
    }
    Some(path.substring_char(length + 1, total - 5))
}

/// The UUID that the path of a document names: the name of the document
/// without its ending, read as a UUID. `None` for a path that is not that of
/// a document in the directory, and for a name that is no UUID.
pub fn document_uuid(directory: &str, path: &str) -> (uuid: Option<u128>)
    ensures
        uuid == match document_name(directory@, path@) {
            Some(name) => parsed_uuid(name),
            None => None,
        },
{
    match document_stem(directory, path) {
        Some(name) => match uuid_from_str(name) {
            Ok(uuid) => Some(uuid),
            Err(_) => None,
        },
        None => None,
    }
}

/// The path of a document names the document: what is left of the path of
/// an entity, between the directory of its kind and the ending, is the
/// hyphenated form of its UUID.
pub proof fn law_path_names_its_uuid(root: Seq<char>, kind: DbEntity, uuid: u128)
    ensures
        document_name(directory_text(root, kind), path_text(root, kind, uuid)) == Some(
            hyphenated(uuid),
        ),
{
    let directory = directory_text(root, kind);
    let path = path_text(root, kind, uuid);
    let start = directory + seq!['/'];
    assert(path.subrange(0, start.len() as int) =~= start);
    assert(path.subrange(path.len() - json_ending().len(), path.len() as int) =~= json_ending());
    assert(path.subrange(start.len() as int, path.len() - json_ending().len()) =~= hyphenated(
        uuid,
    ));
}

/// No two entities share a document: under one root, two paths are the
/// same only where the kinds and the UUIDs are.
pub proof fn law_paths_are_distinct(
    root: Seq<char>,
    kind: DbEntity,
    uuid: u128,
    other_kind: DbEntity,
    other_uuid: u128,
)
    requires
        path_text(root, kind, uuid) == path_text(root, other_kind, other_uuid),
    ensures
        kind == other_kind,
        uuid == other_uuid,
{
    let path = path_text(root, kind, uuid);
    let other = path_text(root, other_kind, other_uuid);
    let start: int = root.len() as int + 1;
    assert(kind_name(kind).len() == kind_name(other_kind).len()) by {
        assert(path.len() == other.len());
    }
    assert(kind_name(kind)[0] == kind_name(other_kind)[0]) by {
        assert(path[start] == kind_name(kind)[0]);
        assert(other[start] == kind_name(other_kind)[0]);
    }
    let length: int = kind_name(kind).len() as int;
    assert(hyphenated(uuid) =~= hyphenated(other_uuid)) by {
        assert forall|i: int| 0 <= i < 36 implies hyphenated(uuid)[i] == hyphenated(
            other_uuid,
        )[i] by {
            assert(path[start + length + 1 + i] == hyphenated(uuid)[i]);
            assert(other[start + length + 1 + i] == hyphenated(other_uuid)[i]);
        }
    }
    law_hyphenated_is_one_to_one(uuid, other_uuid);
}

/// The numeric id of the next entity of a kind that has `documents`
/// documents: one more than their number. Fails where that is no id any more.
///
/// The id is unused only as long as nobody adds a document between the count
/// and the write: two writers that count at the same time get the same id.
/// Whoever counts has to keep other writers out meanwhile.
pub fn generate_entity_id(documents: usize) -> (r: Result<u32, AccessError>)
    ensures
        match r {
            Ok(id) => id == documents + 1,
            Err(err) => err == AccessError::Storage && documents >= u32::MAX,
        },
{
    if documents < u32::MAX as usize {
        Ok((documents + 1) as u32)
    } else {
        Err(AccessError::Storage)
    }
}

/// Whether one of the entities is of that kind and has that UUID.
pub open spec fn holds_key(items: Seq<EntityView>, kind: DbEntity, uuid: u128) -> bool {
    exists|i: int| 0 <= i < items.len() && key_of(#[trigger] items[i]) == (kind, uuid)
}

/// Whether an entity can be added to the documents of a kind: it is of the
/// kind, none of the documents has its UUID, and a numeric id is left.
pub open spec fn insertable(documents: Seq<EntityView>, kind: DbEntity, entity: EntityView) -> bool {
    &&& entity.kind() == kind
    &&& !holds_key(documents, kind, entity.uuid())
    &&& documents.len() < u32::MAX
}

/// The document to write for an entity that is to be added, from all the
/// documents of its kind and all those of the kind that it belongs to: the
/// entity under the numeric id that follows the number of documents of its
/// kind. The entity is refused where it is not of the kind, where the record
/// that it belongs to is not among `parents`, where one of the documents has
/// its UUID, and where no numeric id is left.
pub fn document_to_insert(
    documents: &Vec<Entity>,
    parents: &Vec<Entity>,
    kind: DbEntity,
    entity: Entity,
) -> (r: Result<Entity, AccessError>)
    ensures
        match r {
            Ok(document) => insertable(views(documents@), kind, entity@) && parent_held(
                views(parents@),
                entity@,
            ) && document@ == entity@.with_id((documents.len() + 1) as u32),
            Err(err) => err == AccessError::Storage && !(insertable(
                views(documents@),
                kind,
                entity@,
            ) && parent_held(views(parents@), entity@)),
        },
{
    let checked = match insertion_for(parents, kind, entity) {
        Ok(checked) => checked,
        Err(err) => {
            return Err(err);
        },
    };
    let uuid = checked.uuid();
    let mut i: usize = 0;
    while i < documents.len()
        invariant
            i <= documents.len(),
            uuid == entity@.uuid(),
            forall|j: int|
                0 <= j < i ==> key_of(#[trigger] views(documents@)[j]) != (kind, uuid),
        decreases documents.len() - i,
    {
        let document = &documents[i];
        assert(views(documents@)[i as int] == document@);
        if document.kind() == kind && document.uuid() == uuid {
            assert(key_of(views(documents@)[i as int]) == (kind, entity@.uuid()));
            return Err(AccessError::Storage);
        }
        i += 1;
    }
    match generate_entity_id(documents.len()) {
        Ok(id) => Ok(checked.with_id(id)),
        Err(err) => Err(err),
    }
}

/// A store of files decides as the contract of a store asks. Where the
/// records of a store are the documents of its directories, and the ids
/// handed out for a kind are as many as its documents, an entity whose story
/// is there, if it is a content item, can be added to the documents of its
/// kind if and only if the store can add it, and the numeric id that follows
/// the number of documents is the next id of the store.
pub proof fn law_documents_decide_as_the_store(
    state: StoreView,
    documents: Seq<EntityView>,
    others: Seq<EntityView>,
    kind: DbEntity,
    entity: EntityView,
)
    requires
        state.records == records_of(others + documents),
        forall|i: int| 0 <= i < others.len() ==> (#[trigger] others[i]).kind() != kind,
        state.issued.contains_key(kind),
        state.issued[kind] == documents.len(),
    ensures
        insertable(documents, kind, entity) && state.has_parent(entity) <==> entity.kind() == kind
            && state.can_insert(entity),
        state.next_id(kind) == documents.len() + 1,
{
    let all = others + documents;
    lemma_records_keys(all);
    let key = (kind, entity.uuid());
    if holds_key(documents, kind, entity.uuid()) {
        let i = choose|i: int| 0 <= i < documents.len() && key_of(#[trigger] documents[i]) == key;
        assert(all[others.len() + i] == documents[i]);
        assert(key_of(all[others.len() + i]) == key);
    }
    if state.records.contains_key(key) {
        let j = choose|j: int| 0 <= j < all.len() && key_of(#[trigger] all[j]) == key;
        if j < others.len() {
            assert(all[j] == others[j]);
        } else {
            assert(all[j] == documents[j - others.len()]);
            assert(key_of(documents[j - others.len()]) == key);
        }
    }
}

} // verus!
