//! Rows as a relational store hands them out, typed loosely: a UUID as text,
//! a flag as a small integer, a payload that may not have decoded. Each row
//! is translated into its strict counterpart of the model, or refused.

use crate::ident::{parsed_uuid, uuid_from_str};
use crate::model;
use vstd::prelude::*;
use vstd::std_specs::convert::{FromSpecImpl, TryFromSpecImpl};

verus! {

/// Why a row could not be translated.
#[derive(Debug, Clone, Copy, PartialEq, Eq, Structural)]
pub enum SchemaError {
    /// The UUID column does not hold a UUID.
    ParseUuid,
    /// The `deleted` column holds neither 0 nor 1.
    ParseDeleted,
    /// The payload column does not hold a details value.
    ParseJson,
}

impl From<uuid::Error> for SchemaError {
    fn from(err: uuid::Error) -> (ret: SchemaError) {
        SchemaError::ParseUuid
    }
}

impl FromSpecImpl<uuid::Error> for SchemaError {
    open spec fn obeys_from_spec() -> bool {
        true
    }

    open spec fn from_spec(err: uuid::Error) -> SchemaError {
        SchemaError::ParseUuid
    }
}

impl From<serde_json::Error> for SchemaError {
    fn from(err: serde_json::Error) -> (ret: SchemaError) {
        SchemaError::ParseJson
    }
}

impl FromSpecImpl<serde_json::Error> for SchemaError {
    open spec fn obeys_from_spec() -> bool {
        true
    }

    open spec fn from_spec(err: serde_json::Error) -> SchemaError {
        SchemaError::ParseJson
    }
}

/// A row of `users`.
#[derive(Debug, Clone, PartialEq, Eq)]
pub struct User {
    pub id: u32,
    pub uuid: String,
    pub name: String,
    pub created_at: i64,
    pub updated_at: i64,
}

/// A row of `stories`.
#[derive(Debug, Clone, PartialEq, Eq)]
pub struct Story {
    pub id: u32,
    pub user_id: u32,
    pub uuid: String,
    pub title: String,
    pub created_at: i64,
    pub updated_at: i64,
    pub deleted: i8,
}

/// A row of `content`. `details` is the payload column after decoding, `None`
/// where it held no details value.
#[derive(Debug, Clone, PartialEq, Eq)]
pub struct Content {
    pub id: u32,
    pub story_id: u32,
    pub uuid: String,
    pub kind: String,
    pub details: Option<model::ContentDetails>,
    pub created_at: i64,
    pub updated_at: i64,
}

/// A row of `prompts`.
#[derive(Debug, Clone, PartialEq, Eq)]
pub struct Prompt {
    pub id: u32,
    pub uuid: String,
    pub name: String,
    pub description: String,
    pub created_at: i64,
    pub updated_at: i64,
}

/// What the UUID column of a row is read as: the UUID, or the refusal of a
/// text that is none.
pub open spec fn read_uuid(text: Seq<char>) -> Result<u128, SchemaError> {
    match parsed_uuid(text) {
        Some(uuid) => Ok(uuid),
        None => Err(SchemaError::ParseUuid),
    }
}

/// Reads the UUID column of a row.
pub fn parse_uuid(text: &str) -> (r: Result<u128, SchemaError>)
    ensures
        r == read_uuid(text@),
{
    match uuid_from_str(text) {
        Ok(uuid) => Ok(uuid),
        Err(err) => Err(SchemaError::from(err)),
    }
}

/// The user that a row stands for, given what its UUID column was read as.
pub open spec fn user_of_row(row: User, uuid: Result<u128, SchemaError>) -> Result<
    model::User,
    SchemaError,
> {
    match uuid {
        Ok(uuid) => Ok(
            model::User {
                id: row.id,
                uuid,
                name: row.name,
                created_at: row.created_at,
                updated_at: row.updated_at,
            },
        ),
        Err(err) => Err(err),
    }
}

/// The story that a row stands for, given what its UUID column was read as.
/// A refused UUID comes first; then the flag must be 0 or 1.
pub open spec fn story_of_row(row: Story, uuid: Result<u128, SchemaError>) -> Result<
    model::Story,
    SchemaError,
> {
    match uuid {
        Ok(uuid) => if row.deleted == 0 || row.deleted == 1 {
            Ok(
                model::Story {
                    id: row.id,
                    user_id: row.user_id,
                    uuid,
                    title: row.title,
                    created_at: row.created_at,
                    updated_at: row.updated_at,
                    deleted: row.deleted == 1,
                },
            )
        } else {
            Err(SchemaError::ParseDeleted)
        },
        Err(err) => Err(err),
    }
}

/// The content item that a row stands for, given what its UUID column was
/// read as. A refused UUID comes first; then the payload must have decoded.
pub open spec fn content_of_row(row: Content, uuid: Result<u128, SchemaError>) -> Result<
    model::Content,
    SchemaError,
> {
    match uuid {
        Ok(uuid) => match row.details {
            Some(details) => Ok(
                model::Content {
                    id: row.id,
                    story_id: row.story_id,
                    uuid,
                    kind: row.kind,
                    details,
                    created_at: row.created_at,
                    updated_at: row.updated_at,
                },
            ),
            None => Err(SchemaError::ParseJson),
        },
        Err(err) => Err(err),
    }
}

/// The prompt that a row stands for, given what its UUID column was read as.
pub open spec fn prompt_of_row(row: Prompt, uuid: Result<u128, SchemaError>) -> Result<
    model::Prompt,
    SchemaError,
> {
    match uuid {
        Ok(uuid) => Ok(
            model::Prompt {
                id: row.id,
                uuid,
                name: row.name,
                description: row.description,
                created_at: row.created_at,
                updated_at: row.updated_at,
            },
        ),
        Err(err) => Err(err),
    }
}

/// The user that a row stands for: refused where its UUID does not parse.
pub open spec fn decoded_user(row: User) -> Result<model::User, SchemaError> {
    user_of_row(row, read_uuid(row.uuid@))
}

/// The story that a row stands for. The UUID is looked at first, then the
/// flag, which must be 0 or 1.
pub open spec fn decoded_story(row: Story) -> Result<model::Story, SchemaError> {
    story_of_row(row, read_uuid(row.uuid@))
}

/// The content item that a row stands for. The UUID is looked at first, then
/// the payload.
pub open spec fn decoded_content(row: Content) -> Result<model::Content, SchemaError> {
    content_of_row(row, read_uuid(row.uuid@))
}

/// The prompt that a row stands for: refused where its UUID does not parse.
pub open spec fn decoded_prompt(row: Prompt) -> Result<model::Prompt, SchemaError> {
    prompt_of_row(row, read_uuid(row.uuid@))
}

/// Translates a row of `users`, given what its UUID column was read as.
pub fn user_from_row(row: User, uuid: Result<u128, SchemaError>) -> (r: Result<
    model::User,
    SchemaError,
>)
    ensures
        r == user_of_row(row, uuid),
{
    let uuid = match uuid {
        Ok(uuid) => uuid,
        Err(err) => {
            return Err(err);
        },
    };
    Ok(
        model::User {
            id: row.id,
            uuid,
            name: row.name,
            created_at: row.created_at,
            updated_at: row.updated_at,
        },
    )
}

/// Translates a row of `stories`, given what its UUID column was read as.
pub fn story_from_row(row: Story, uuid: Result<u128, SchemaError>) -> (r: Result<
    model::Story,
    SchemaError,
>)
    ensures
        r == story_of_row(row, uuid),
{
    let uuid = match uuid {
        Ok(uuid) => uuid,
        Err(err) => {
            return Err(err);
        },
    };
    let deleted = match row.deleted {
        0 => false,
        1 => true,
        _ => {
            return Err(SchemaError::ParseDeleted);
        },
    };
    Ok(
        model::Story {
            id: row.id,
            user_id: row.user_id,
            uuid,
            title: row.title,
            created_at: row.created_at,
            updated_at: row.updated_at,
            deleted,
        },
    )
}

/// Translates a row of `content`, given what its UUID column was read as.
pub fn content_from_row(row: Content, uuid: Result<u128, SchemaError>) -> (r: Result<
    model::Content,
    SchemaError,
>)
    ensures
        r == content_of_row(row, uuid),
{
    let uuid = match uuid {
        Ok(uuid) => uuid,
        Err(err) => {
            return Err(err);
        },
    };
    let details = match row.details {
        Some(details) => details,
        None => {
            return Err(SchemaError::ParseJson);
        },
    };
    Ok(
        model::Content {
            id: row.id,
            story_id: row.story_id,
            uuid,
            kind: row.kind,
            details,
            created_at: row.created_at,
            updated_at: row.updated_at,
        },
    )
}

/// Translates a row of `prompts`, given what its UUID column was read as.
pub fn prompt_from_row(row: Prompt, uuid: Result<u128, SchemaError>) -> (r: Result<
    model::Prompt,
    SchemaError,
>)
    ensures
        r == prompt_of_row(row, uuid),
{
    let uuid = match uuid {
        Ok(uuid) => uuid,
        Err(err) => {
            return Err(err);
        },
    };
    Ok(
        model::Prompt {
            id: row.id,
            uuid,
            name: row.name,
            description: row.description,
            created_at: row.created_at,
            updated_at: row.updated_at,
        },
    )
}

impl TryFrom<User> for model::User {
    type Error = SchemaError;

    fn try_from(u: User) -> (ret: Result<model::User, SchemaError>) {
        let uuid = parse_uuid(u.uuid.as_str());
        user_from_row(u, uuid)
    }
}

impl TryFromSpecImpl<User> for model::User {
    open spec fn obeys_try_from_spec() -> bool {
        true
    }

    open spec fn try_from_spec(u: User) -> Result<model::User, SchemaError> {
        decoded_user(u)
    }
}

impl TryFrom<Story> for model::Story {
    type Error = SchemaError;

    fn try_from(s: Story) -> (ret: Result<model::Story, SchemaError>) {
        let uuid = parse_uuid(s.uuid.as_str());
        story_from_row(s, uuid)
    }
}

impl TryFromSpecImpl<Story> for model::Story {
    open spec fn obeys_try_from_spec() -> bool {
        true
    }

    open spec fn try_from_spec(s: Story) -> Result<model::Story, SchemaError> {
        decoded_story(s)
    }
}

impl TryFrom<Content> for model::Content {
    type Error = SchemaError;

    fn try_from(c: Content) -> (ret: Result<model::Content, SchemaError>) {
        let uuid = parse_uuid(c.uuid.as_str());
        content_from_row(c, uuid)
    }
}

impl TryFromSpecImpl<Content> for model::Content {
    open spec fn obeys_try_from_spec() -> bool {
        true
    }

    open spec fn try_from_spec(c: Content) -> Result<model::Content, SchemaError> {
        decoded_content(c)
    }
}

impl TryFrom<Prompt> for model::Prompt {
    type Error = SchemaError;

    fn try_from(p: Prompt) -> (ret: Result<model::Prompt, SchemaError>) {
        let uuid = parse_uuid(p.uuid.as_str());
        prompt_from_row(p, uuid)
    }
}

impl TryFromSpecImpl<Prompt> for model::Prompt {
    open spec fn obeys_try_from_spec() -> bool {
        true
    }

    open spec fn try_from_spec(p: Prompt) -> Result<model::Prompt, SchemaError> {
        decoded_prompt(p)
    }
}

/// Translates the rows of one query, in their order. The first row that is
/// refused ends the translation with its error.
pub fn decode_content_rows(rows: Vec<Content>) -> (r: Result<Vec<model::Content>, SchemaError>)
    ensures
        match r {
            Ok(items) => items.len() == rows.len() && forall|i: int|
                0 <= i < rows.len() ==> decoded_content(rows[i]) == Ok::<
                    model::Content,
                    SchemaError,
                >(#[trigger] items[i]),
            Err(err) => exists|i: int|
                0 <= i < rows.len() && #[trigger] decoded_content(rows[i]) == Err::<
                    model::Content,
                    SchemaError,
                >(err) && forall|j: int| 0 <= j < i ==> (#[trigger] decoded_content(rows[j])) is Ok,
        },
{
    let mut items: Vec<model::Content> = Vec::new();
    for row in it: rows
        invariant
            it.seq() == rows@,
            items.len() == it.index(),
            forall|i: int|
                0 <= i < items.len() ==> decoded_content(rows[i]) == Ok::<
                    model::Content,
                    SchemaError,
                >(#[trigger] items[i]),
    {
        let ghost index = items.len() as int;
        match model::Content::try_from(row) {
            Ok(item) => {
                items.push(item);
            },
            Err(err) => {
                assert(decoded_content(rows[index]) == Err::<model::Content, SchemaError>(err));
                assert forall|j: int| 0 <= j < index implies (#[trigger] decoded_content(
                    rows[j],
                )) is Ok by {
                    assert(decoded_content(rows[j]) == Ok::<model::Content, SchemaError>(items[j]));
                }
                return Err(err);
            },
        }
    }
    Ok(items)
}

/// Translates the rows of one query, in their order. The first row that is
/// refused ends the translation with its error.
pub fn decode_prompt_rows(rows: Vec<Prompt>) -> (r: Result<Vec<model::Prompt>, SchemaError>)
    ensures
        match r {
            Ok(items) => items.len() == rows.len() && forall|i: int|
                0 <= i < rows.len() ==> decoded_prompt(rows[i]) == Ok::<
                    model::Prompt,
                    SchemaError,
                >(#[trigger] items[i]),
            Err(err) => exists|i: int|
                0 <= i < rows.len() && #[trigger] decoded_prompt(rows[i]) == Err::<
                    model::Prompt,
                    SchemaError,
                >(err) && forall|j: int| 0 <= j < i ==> (#[trigger] decoded_prompt(rows[j])) is Ok,
        },
{
    let mut items: Vec<model::Prompt> = Vec::new();
    for row in it: rows
        invariant
            it.seq() == rows@,
            items.len() == it.index(),
            forall|i: int|
                0 <= i < items.len() ==> decoded_prompt(rows[i]) == Ok::<
                    model::Prompt,
                    SchemaError,
                >(#[trigger] items[i]),
    {
        let ghost index = items.len() as int;
        match model::Prompt::try_from(row) {
            Ok(item) => {
                items.push(item);
            },
            Err(err) => {
                assert(decoded_prompt(rows[index]) == Err::<model::Prompt, SchemaError>(err));
                assert forall|j: int| 0 <= j < index implies (#[trigger] decoded_prompt(
                    rows[j],
                )) is Ok by {
                    assert(decoded_prompt(rows[j]) == Ok::<model::Prompt, SchemaError>(items[j]));
                }
                return Err(err);
            },
        }
    }
    Ok(items)
}

} // verus!
