//! The kinds of entity that a store keeps, and one entity of any kind.

use crate::model::{
    Content, ContentView, Prompt, PromptView, Story, StoryView, User, UserView,
};
use vstd::prelude::*;

verus! {

/// The kinds of entity. Each kind has its own numeric ids and its own
/// directory or table, named by the kind in lower case.
#[derive(Debug, Clone, Copy, PartialEq, Eq, Structural)]
pub enum DbEntity {
    Prompts,
    Stories,
    Content,
    Users,
}

/// The name of a kind, as it stands in a path or names a table.
pub open spec fn kind_name(kind: DbEntity) -> Seq<char> {
    match kind {
        DbEntity::Prompts => seq!['p', 'r', 'o', 'm', 'p', 't', 's'],
        DbEntity::Stories => seq!['s', 't', 'o', 'r', 'i', 'e', 's'],
        DbEntity::Content => seq!['c', 'o', 'n', 't', 'e', 'n', 't'],
        DbEntity::Users => seq!['u', 's', 'e', 'r', 's'],
    }
}

/// Whether the entities of a kind have a column of that name that holds a
/// number: `id` for every kind, `user_id` for stories, `story_id` for content.
pub open spec fn has_numeric_column(kind: DbEntity, name: Seq<char>) -> bool {
    name == id_column() || (kind == DbEntity::Stories && name == user_id_column()) || (kind
        == DbEntity::Content && name == story_id_column())
}

impl DbEntity {
    /// Whether the entities of the kind have a column of that name that
    /// holds a number.
    pub fn has_numeric_column(&self, name: &str) -> (has: bool)
        ensures
            has == has_numeric_column(*self, name@),
    {
        proof {
            reveal_strlit("id");
            reveal_strlit("user_id");
            reveal_strlit("story_id");
            assert("id"@ =~= id_column());
            assert("user_id"@ =~= user_id_column());
            assert("story_id"@ =~= story_id_column());
        }
        if same_text(name, "id") {
            true
        } else {
            match self {
                DbEntity::Stories => same_text(name, "user_id"),
                DbEntity::Content => same_text(name, "story_id"),
                _ => false,
            }
        }
    }

    /// The name of the kind in lower case.
    pub fn to_string(&self) -> (name: String)
        ensures
            name@ == kind_name(*self),
    {
        proof {
            reveal_strlit("prompts");
            reveal_strlit("stories");
            reveal_strlit("content");
            reveal_strlit("users");
        }
        let name = match self {
            DbEntity::Prompts => "prompts".to_owned(),
            DbEntity::Stories => "stories".to_owned(),
            DbEntity::Content => "content".to_owned(),
            DbEntity::Users => "users".to_owned(),
        };
        assert(name@ =~= kind_name(*self));
        name
    }
}

/// One entity of any kind.
#[derive(Debug, PartialEq, Eq)]
pub enum Entity {
    Prompt(Prompt),
    Story(Story),
    Content(Content),
    User(User),
}

/// Mathematical value of an [`Entity`].
pub enum EntityView {
    Prompt(PromptView),
    Story(StoryView),
    Content(ContentView),
    User(UserView),
}

/// The text `id`.
pub open spec fn id_column() -> Seq<char> {
    seq!['i', 'd']
}

/// The text `user_id`.
pub open spec fn user_id_column() -> Seq<char> {
    seq!['u', 's', 'e', 'r', '_', 'i', 'd']
}

/// The text `story_id`.
pub open spec fn story_id_column() -> Seq<char> {
    seq!['s', 't', 'o', 'r', 'y', '_', 'i', 'd']
}

impl EntityView {
    /// The kind that the entity is of.
    pub open spec fn kind(self) -> DbEntity {
        match self {
            EntityView::Prompt(_) => DbEntity::Prompts,
            EntityView::Story(_) => DbEntity::Stories,
            EntityView::Content(_) => DbEntity::Content,
            EntityView::User(_) => DbEntity::Users,
        }
    }

    pub open spec fn uuid(self) -> u128 {
        match self {
            EntityView::Prompt(prompt) => prompt.uuid,
            EntityView::Story(story) => story.uuid,
            EntityView::Content(content) => content.uuid,
            EntityView::User(user) => user.uuid,
        }
    }

    pub open spec fn id(self) -> u32 {
        match self {
            EntityView::Prompt(prompt) => prompt.id,
            EntityView::Story(story) => story.id,
            EntityView::Content(content) => content.id,
            EntityView::User(user) => user.id,
        }
    }

    /// The same entity under another numeric id.
    pub open spec fn with_id(self, id: u32) -> EntityView {
        match self {
            EntityView::Prompt(prompt) => EntityView::Prompt(PromptView { id, ..prompt }),
            EntityView::Story(story) => EntityView::Story(StoryView { id, ..story }),
            EntityView::Content(content) => EntityView::Content(ContentView { id, ..content }),
            EntityView::User(user) => EntityView::User(UserView { id, ..user }),
        }
    }

    /// The record that the entity belongs to, by kind and numeric id: the
    /// story of a content item. Entities of the other kinds belong to none.
    pub open spec fn parent(self) -> Option<(DbEntity, u32)> {
        match self {
            EntityView::Content(content) => Some((DbEntity::Stories, content.story_id)),
            _ => None,
        }
    }

    /// The number in the column of that name, `None` where the kind has no
    /// such column or the column holds no number. Every kind has `id`; a story
    /// has `user_id`, a content item `story_id`.
    pub open spec fn numeric_column(self, name: Seq<char>) -> Option<u32> {
        if name == id_column() {
            Some(self.id())
        } else {
            match self {
                EntityView::Story(story) if name == user_id_column() => Some(story.user_id),
                EntityView::Content(content) if name == story_id_column() => Some(
                    content.story_id,
                ),
                _ => None,
            }
        }
    }
}

/// An entity holds a number in a column if and only if its kind has the
/// column.
pub proof fn law_columns_of_kind(entity: EntityView, name: Seq<char>)
    ensures
        entity.numeric_column(name) is Some <==> has_numeric_column(entity.kind(), name),
{
}

impl View for Entity {
    type V = EntityView;

    open spec fn view(&self) -> EntityView {
        match self {
            Entity::Prompt(prompt) => EntityView::Prompt(prompt@),
            Entity::Story(story) => EntityView::Story(story@),
            Entity::Content(content) => EntityView::Content(content@),
            Entity::User(user) => EntityView::User(user@),
        }
    }
}

impl Clone for Entity {
    fn clone(&self) -> (res: Self)
        ensures
            res == *self,
    {
        match self {
            Entity::Prompt(prompt) => Entity::Prompt(prompt.clone()),
            Entity::Story(story) => Entity::Story(story.clone()),
            Entity::Content(content) => Entity::Content(content.clone()),
            Entity::User(user) => Entity::User(user.clone()),
        }
    }
}

/// Whether two texts are the same.
pub fn same_text(a: &str, b: &str) -> (same: bool)
    ensures
        same == (a@ == b@),
{
    a.to_owned() == b.to_owned()
}

impl Entity {
    pub fn kind(&self) -> (kind: DbEntity)
        ensures
            kind == self@.kind(),
    {
        match self {
            Entity::Prompt(_) => DbEntity::Prompts,
            Entity::Story(_) => DbEntity::Stories,
            Entity::Content(_) => DbEntity::Content,
            Entity::User(_) => DbEntity::Users,
        }
    }

    pub fn uuid(&self) -> (uuid: u128)
        ensures
            uuid == self@.uuid(),
    {
        match self {
            Entity::Prompt(prompt) => prompt.uuid,
            Entity::Story(story) => story.uuid,
            Entity::Content(content) => content.uuid,
            Entity::User(user) => user.uuid,
        }
    }

    pub fn id(&self) -> (id: u32)
        ensures
            id == self@.id(),
    {
        match self {
            Entity::Prompt(prompt) => prompt.id,
            Entity::Story(story) => story.id,
            Entity::Content(content) => content.id,
            Entity::User(user) => user.id,
        }
    }

    /// The same entity under another numeric id.
    pub fn with_id(self, id: u32) -> (entity: Entity)
        ensures
            entity@ == self@.with_id(id),
    {
        match self {
            Entity::Prompt(prompt) => Entity::Prompt(Prompt { id, ..prompt }),
            Entity::Story(story) => Entity::Story(Story { id, ..story }),
            Entity::Content(content) => Entity::Content(Content { id, ..content }),
            Entity::User(user) => Entity::User(User { id, ..user }),
        }
    }

    /// The record that the entity belongs to, by kind and numeric id.
    pub fn parent(&self) -> (parent: Option<(DbEntity, u32)>)
        ensures
            parent == self@.parent(),
    {
        match self {
            Entity::Content(content) => Some((DbEntity::Stories, content.story_id)),
            _ => None,
        }
    }

    /// The number in the column of that name, `None` where there is none.
    pub fn numeric_column(&self, name: &str) -> (value: Option<u32>)
        ensures
            value == self@.numeric_column(name@),
    {
        proof {
            reveal_strlit("id");
            reveal_strlit("user_id");
            reveal_strlit("story_id");
            assert("id"@ =~= id_column());
            assert("user_id"@ =~= user_id_column());
            assert("story_id"@ =~= story_id_column());
        }
        if same_text(name, "id") {
            Some(self.id())
        } else {
            match self {
                Entity::Story(story) => if same_text(name, "user_id") {
                    Some(story.user_id)
                } else {
                    None
                },
                Entity::Content(content) => if same_text(name, "story_id") {
                    Some(content.story_id)
                } else {
                    None
                },
                _ => None,
            }
        }
    }
}

} // verus!
