//! The domain model: what the store keeps and the services work on.
//!
//! A UUID is held as its 128-bit value and a timestamp as microseconds since
//! the Unix epoch, so that every field is a plain value.

use vstd::prelude::*;

verus! {

/// The text of an optional string.
pub open spec fn text_of(text: Option<String>) -> Option<Seq<char>> {
    match text {
        Some(text) => Some(text@),
        None => None,
    }
}

/// An image block: where the image lives, and a description of it.
#[derive(Debug, PartialEq, Eq)]
pub struct ImageContent {
    pub src: String,
    pub description: String,
}

/// A text block.
#[derive(Debug, PartialEq, Eq)]
pub struct TextContent {
    pub title: String,
    pub body: String,
}

/// What a content item holds.
#[derive(Debug, PartialEq, Eq)]
pub enum ContentDetails {
    Image(ImageContent),
    Text(TextContent),
}

/// Mathematical value of a [`ContentDetails`].
pub enum ContentDetailsView {
    Image { src: Seq<char>, description: Seq<char> },
    Text { title: Seq<char>, body: Seq<char> },
}

impl View for ImageContent {
    type V = ContentDetailsView;

    open spec fn view(&self) -> ContentDetailsView {
        ContentDetailsView::Image { src: self.src@, description: self.description@ }
    }
}

impl View for TextContent {
    type V = ContentDetailsView;

    open spec fn view(&self) -> ContentDetailsView {
        ContentDetailsView::Text { title: self.title@, body: self.body@ }
    }
}

impl View for ContentDetails {
    type V = ContentDetailsView;

    open spec fn view(&self) -> ContentDetailsView {
        match self {
            ContentDetails::Image(image) => image@,
            ContentDetails::Text(text) => text@,
        }
    }
}

impl Clone for ImageContent {
    fn clone(&self) -> (res: Self)
        ensures
            res == *self,
    {
        ImageContent { src: self.src.clone(), description: self.description.clone() }
    }
}

impl Clone for TextContent {
    fn clone(&self) -> (res: Self)
        ensures
            res == *self,
    {
        TextContent { title: self.title.clone(), body: self.body.clone() }
    }
}

impl Clone for ContentDetails {
    fn clone(&self) -> (res: Self)
        ensures
            res == *self,
    {
        match self {
            ContentDetails::Image(image) => ContentDetails::Image(image.clone()),
            ContentDetails::Text(text) => ContentDetails::Text(text.clone()),
        }
    }
}

/// One block of a story.
#[derive(Debug, PartialEq, Eq)]
pub struct Content {
    pub id: u32,
    pub story_id: u32,
    pub uuid: u128,
    pub kind: String,
    pub details: ContentDetails,
    pub created_at: i64,
    pub updated_at: i64,
}

/// Mathematical value of a [`Content`].
pub struct ContentView {
    pub id: u32,
    pub story_id: u32,
    pub uuid: u128,
    pub kind: Seq<char>,
    pub details: ContentDetailsView,
    pub created_at: i64,
    pub updated_at: i64,
}

impl View for Content {
    type V = ContentView;

    open spec fn view(&self) -> ContentView {
        ContentView {
            id: self.id,
            story_id: self.story_id,
            uuid: self.uuid,
            kind: self.kind@,
            details: self.details@,
            created_at: self.created_at,
            updated_at: self.updated_at,
        }
    }
}

impl Clone for Content {
    fn clone(&self) -> (res: Self)
        ensures
            res == *self,
    {
        Content {
            id: self.id,
            story_id: self.story_id,
            uuid: self.uuid,
            kind: self.kind.clone(),
            details: self.details.clone(),
            created_at: self.created_at,
            updated_at: self.updated_at,
        }
    }
}

/// A story. `deleted` is the soft-delete flag: once set it stays set.
#[derive(Debug, PartialEq, Eq)]
pub struct Story {
    pub id: u32,
    pub user_id: u32,
    pub uuid: u128,
    pub title: String,
    pub created_at: i64,
    pub updated_at: i64,
    pub deleted: bool,
}

/// Mathematical value of a [`Story`].
pub struct StoryView {
    pub id: u32,
    pub user_id: u32,
    pub uuid: u128,
    pub title: Seq<char>,
    pub created_at: i64,
    pub updated_at: i64,
    pub deleted: bool,
}

impl View for Story {
    type V = StoryView;

    open spec fn view(&self) -> StoryView {
        StoryView {
            id: self.id,
            user_id: self.user_id,
            uuid: self.uuid,
            title: self.title@,
            created_at: self.created_at,
            updated_at: self.updated_at,
            deleted: self.deleted,
        }
    }
}

impl Clone for Story {
    fn clone(&self) -> (res: Self)
        ensures
            res == *self,
    {
        Story {
            id: self.id,
            user_id: self.user_id,
            uuid: self.uuid,
            title: self.title.clone(),
            created_at: self.created_at,
            updated_at: self.updated_at,
            deleted: self.deleted,
        }
    }
}

/// A user of the service.
#[derive(Debug, PartialEq, Eq)]
pub struct User {
    pub id: u32,
    pub uuid: u128,
    pub name: String,
    pub created_at: i64,
    pub updated_at: i64,
}

/// Mathematical value of a [`User`].
pub struct UserView {
    pub id: u32,
    pub uuid: u128,
    pub name: Seq<char>,
    pub created_at: i64,
    pub updated_at: i64,
}

impl View for User {
    type V = UserView;

    open spec fn view(&self) -> UserView {
        UserView {
            id: self.id,
            uuid: self.uuid,
            name: self.name@,
            created_at: self.created_at,
            updated_at: self.updated_at,
        }
    }
}

impl Clone for User {
    fn clone(&self) -> (res: Self)
        ensures
            res == *self,
    {
        User {
            id: self.id,
            uuid: self.uuid,
            name: self.name.clone(),
            created_at: self.created_at,
            updated_at: self.updated_at,
        }
    }
}

/// A writing prompt offered to users.
#[derive(Debug, PartialEq, Eq)]
pub struct Prompt {
    pub id: u32,
    pub uuid: u128,
    pub name: String,
    pub description: String,
    pub created_at: i64,
    pub updated_at: i64,
}

/// Mathematical value of a [`Prompt`].
pub struct PromptView {
    pub id: u32,
    pub uuid: u128,
    pub name: Seq<char>,
    pub description: Seq<char>,
    pub created_at: i64,
    pub updated_at: i64,
}

impl View for Prompt {
    type V = PromptView;

    open spec fn view(&self) -> PromptView {
        PromptView {
            id: self.id,
            uuid: self.uuid,
            name: self.name@,
            description: self.description@,
            created_at: self.created_at,
            updated_at: self.updated_at,
        }
    }
}

impl Clone for Prompt {
    fn clone(&self) -> (res: Self)
        ensures
            res == *self,
    {
        Prompt {
            id: self.id,
            uuid: self.uuid,
            name: self.name.clone(),
            description: self.description.clone(),
            created_at: self.created_at,
            updated_at: self.updated_at,
        }
    }
}

} // verus!
