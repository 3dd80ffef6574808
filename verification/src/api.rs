//! The shapes that leave and enter the service: stories with their content,
//! users and prompts as a client sees them, without the numeric ids of the
//! store, and the requests that change them.

use crate::model;
use vstd::prelude::*;
use vstd::std_specs::convert::FromSpecImpl;

verus! {

/// Why a payload could not be written or read.
#[derive(Debug, Clone, Copy, PartialEq, Eq, Structural)]
pub enum ApiError {
    Encode,
    Decode,
}

/// `serde_json::Error`, taken as it is: why a value was not written or
/// read. Nothing is known of what it holds.
#[verifier::external_type_specification]
#[verifier::external_body]
pub struct ExJsonError(serde_json::Error);

/// The JSON string literal that `serde_json::to_string` writes for a text:
/// the text between double quotes, with the characters that JSON does not take
/// as they are written as escapes.
pub uninterp spec fn json_string(text: Seq<char>) -> Seq<char>;

/// Calls `serde_json::to_string` on a text. It answers for every text, with
/// the JSON string literal of the text: a text is written as a string, into a
/// buffer in memory, and neither of the two can fail.
#[verifier::external_body]
fn json_to_string(text: &str) -> (r: Result<String, serde_json::Error>)
    ensures
        r is Ok,
        r matches Ok(literal) ==> literal@ == json_string(text@),
{
    serde_json::to_string(text)
}

/// The text of a JSON object with two members, from their names and from the
/// JSON text of their values.
pub open spec fn object_text(
    name1: Seq<char>,
    value1: Seq<char>,
    name2: Seq<char>,
    value2: Seq<char>,
) -> Seq<char> {
    seq!['{', '"'] + name1 + seq!['"', ':'] + value1 + seq![',', '"'] + name2 + seq!['"', ':']
        + value2 + seq!['}']
}

/// Writes a JSON object with two members. The names are written between
/// double quotes as they are; the values are JSON text already, `None` where
/// a value could not be written, and then the object cannot be either.
pub fn json_object(name1: &str, value1: Option<String>, name2: &str, value2: Option<String>) -> (r:
    Result<String, ApiError>)
    ensures
        match (model::text_of(value1), model::text_of(value2)) {
            (Some(first), Some(second)) => r is Ok && r->Ok_0@ == object_text(
                name1@,
                first,
                name2@,
                second,
            ),
            _ => r == Err::<String, ApiError>(ApiError::Encode),
        },
{
    proof {
        reveal_strlit("{\"");
        reveal_strlit("\":");
        reveal_strlit(",\"");
        reveal_strlit("}");
    }
    let (Some(first), Some(second)) = (value1, value2) else {
        return Err(ApiError::Encode);
    };
    let mut text = "{\"".to_owned();
    text.append(name1);
    text.append("\":");
    text.append(first.as_str());
    text.append(",\"");
    text.append(name2);
    text.append("\":");
    text.append(second.as_str());
    text.append("}");
    assert(text@ =~= object_text(name1@, first@, name2@, second@));
    Ok(text)
}

/// An image block as a client sends and receives it.
#[derive(Debug, Clone, PartialEq, Eq)]
pub struct ImageContent {
    pub src: String,
    pub description: String,
}

/// A text block as a client sends and receives it.
#[derive(Debug, Clone, PartialEq, Eq)]
pub struct TextContent {
    pub title: String,
    pub body: String,
}

/// What a content item holds, as a client sends and receives it.
///
/// On the wire the encoding is untagged: the members of the variant and
/// nothing else, so that the variant is told by the members' names.
#[derive(Debug, PartialEq, Eq)]
pub enum ContentDetails {
    Image(ImageContent),
    Text(TextContent),
}

impl View for ContentDetails {
    type V = model::ContentDetailsView;

    open spec fn view(&self) -> model::ContentDetailsView {
        match self {
            ContentDetails::Image(image) => model::ContentDetailsView::Image {
                src: image.src@,
                description: image.description@,
            },
            ContentDetails::Text(text) => model::ContentDetailsView::Text {
                title: text.title@,
                body: text.body@,
            },
        }
    }
}

impl Clone for ContentDetails {
    fn clone(&self) -> (res: Self)
        ensures
            res == *self,
    {
        match self {
            ContentDetails::Image(image) => ContentDetails::Image(
                ImageContent { src: image.src.clone(), description: image.description.clone() },
            ),
            ContentDetails::Text(text) => ContentDetails::Text(
                TextContent { title: text.title.clone(), body: text.body.clone() },
            ),
        }
    }
}

/// The name of the variant of a details value, in lower case.
pub open spec fn kind_name(details: model::ContentDetailsView) -> Seq<char> {
    match details {
        model::ContentDetailsView::Image { .. } => seq!['i', 'm', 'a', 'g', 'e'],
        model::ContentDetailsView::Text { .. } => seq!['t', 'e', 'x', 't'],
    }
}

/// The untagged JSON encoding of a details value: an object of the variant's
/// two members, in the order of their declaration.
pub open spec fn details_text(details: model::ContentDetailsView) -> Seq<char> {
    match details {
        model::ContentDetailsView::Image { src, description } => object_text(
            seq!['s', 'r', 'c'],
            json_string(src),
            seq!['d', 'e', 's', 'c', 'r', 'i', 'p', 't', 'i', 'o', 'n'],
            json_string(description),
        ),
        model::ContentDetailsView::Text { title, body } => object_text(
            seq!['t', 'i', 't', 'l', 'e'],
            json_string(title),
            seq!['b', 'o', 'd', 'y'],
            json_string(body),
        ),
    }
}

impl ContentDetails {
    /// The discriminator of the variant: `image` or `text`.
    pub fn kind(&self) -> (name: String)
        ensures
            name@ == kind_name(self@),
    {
        proof {
            reveal_strlit("image");
            reveal_strlit("text");
        }
        let name = match self {
            ContentDetails::Image(_) => "image".to_owned(),
            ContentDetails::Text(_) => "text".to_owned(),
        };
        assert(name@ =~= kind_name(self@));
        name
    }

    /// The JSON text of the value, as the store keeps it in its payload column.
    /// Every value is written.
    pub fn details(&self) -> (r: Result<String, ApiError>)
        ensures
            r is Ok,
            r matches Ok(text) ==> text@ == details_text(self@),
    {
        proof {
            reveal_strlit("src");
            reveal_strlit("description");
            reveal_strlit("title");
            reveal_strlit("body");
            assert("src"@ =~= seq!['s', 'r', 'c']);
            assert("description"@ =~= seq!['d', 'e', 's', 'c', 'r', 'i', 'p', 't', 'i', 'o', 'n']);
            assert("title"@ =~= seq!['t', 'i', 't', 'l', 'e']);
            assert("body"@ =~= seq!['b', 'o', 'd', 'y']);
        }
        match self {
            ContentDetails::Image(image) => json_object(
                "src",
                json_to_string(image.src.as_str()).ok(),
                "description",
                json_to_string(image.description.as_str()).ok(),
            ),
            ContentDetails::Text(content) => json_object(
                "title",
                json_to_string(content.title.as_str()).ok(),
                "body",
                json_to_string(content.body.as_str()).ok(),
            ),
        }
    }
}

/// A details value as the store holds it.
pub open spec fn details_to_model(details: ContentDetails) -> model::ContentDetails {
    match details {
        ContentDetails::Image(image) => model::ContentDetails::Image(
            model::ImageContent { src: image.src, description: image.description },
        ),
        ContentDetails::Text(text) => model::ContentDetails::Text(
            model::TextContent { title: text.title, body: text.body },
        ),
    }
}

/// A stored details value as a client receives it.
pub open spec fn details_from_model(details: model::ContentDetails) -> ContentDetails {
    match details {
        model::ContentDetails::Image(image) => ContentDetails::Image(
            ImageContent { src: image.src, description: image.description },
        ),
        model::ContentDetails::Text(text) => ContentDetails::Text(
            TextContent { title: text.title, body: text.body },
        ),
    }
}

impl From<ContentDetails> for model::ContentDetails {
    fn from(details: ContentDetails) -> (ret: model::ContentDetails) {
        match details {
            ContentDetails::Image(image) => model::ContentDetails::Image(
                model::ImageContent { src: image.src, description: image.description },
            ),
            ContentDetails::Text(text) => model::ContentDetails::Text(
                model::TextContent { title: text.title, body: text.body },
            ),
        }
    }
}

impl FromSpecImpl<ContentDetails> for model::ContentDetails {
    open spec fn obeys_from_spec() -> bool {
        true
    }

    open spec fn from_spec(details: ContentDetails) -> model::ContentDetails {
        details_to_model(details)
    }
}

impl From<model::ContentDetails> for ContentDetails {
    fn from(details: model::ContentDetails) -> (ret: ContentDetails) {
        match details {
            model::ContentDetails::Image(image) => ContentDetails::Image(
                ImageContent { src: image.src, description: image.description },
            ),
            model::ContentDetails::Text(text) => ContentDetails::Text(
                TextContent { title: text.title, body: text.body },
            ),
        }
    }
}

impl FromSpecImpl<model::ContentDetails> for ContentDetails {
    open spec fn obeys_from_spec() -> bool {
        true
    }

    open spec fn from_spec(details: model::ContentDetails) -> ContentDetails {
        details_from_model(details)
    }
}

/// The two conversions of details keep the value and undo each other.
pub proof fn law_details_conversions(stored: model::ContentDetails, sent: ContentDetails)
    ensures
        details_from_model(stored)@ == stored@,
        details_to_model(sent)@ == sent@,
        details_to_model(details_from_model(stored)) == stored,
        details_from_model(details_to_model(sent)) == sent,
{
}

/// A user as a client sees it.
#[derive(Debug, Clone, PartialEq, Eq)]
pub struct User {
    pub uuid: u128,
    pub name: String,
    pub created_at: i64,
    pub updated_at: i64,
}

/// Mathematical value of a [`User`].
pub struct UserView {
    pub uuid: u128,
    pub name: Seq<char>,
    pub created_at: i64,
    pub updated_at: i64,
}

impl View for User {
    type V = UserView;

    open spec fn view(&self) -> UserView {
        UserView {
            uuid: self.uuid,
            name: self.name@,
            created_at: self.created_at,
            updated_at: self.updated_at,
        }
    }
}

/// The value of a user of the store as a client sees it.
pub open spec fn user_sent(user: model::UserView) -> UserView {
    UserView {
        uuid: user.uuid,
        name: user.name,
        created_at: user.created_at,
        updated_at: user.updated_at,
    }
}

/// A user of the store as a client sees it.
pub open spec fn user_from_model(user: model::User) -> User {
    User {
        uuid: user.uuid,
        name: user.name,
        created_at: user.created_at,
        updated_at: user.updated_at,
    }
}

impl From<model::User> for User {
    fn from(user: model::User) -> (ret: User) {
        User {
            uuid: user.uuid,
            name: user.name,
            created_at: user.created_at,
            updated_at: user.updated_at,
        }
    }
}

impl FromSpecImpl<model::User> for User {
    open spec fn obeys_from_spec() -> bool {
        true
    }

    open spec fn from_spec(user: model::User) -> User {
        user_from_model(user)
    }
}

/// A prompt as a client sees it.
#[derive(Debug, Clone, PartialEq, Eq)]
pub struct Prompt {
    pub uuid: u128,
    pub name: String,
    pub description: String,
    pub created_at: i64,
    pub updated_at: i64,
}

/// A prompt of the store as a client sees it.
pub open spec fn prompt_from_model(prompt: model::Prompt) -> Prompt {
    Prompt {
        uuid: prompt.uuid,
        name: prompt.name,
        description: prompt.description,
        created_at: prompt.created_at,
        updated_at: prompt.updated_at,
    }
}

impl From<model::Prompt> for Prompt {
    fn from(prompt: model::Prompt) -> (ret: Prompt) {
        Prompt {
            uuid: prompt.uuid,
            name: prompt.name,
            description: prompt.description,
            created_at: prompt.created_at,
            updated_at: prompt.updated_at,
        }
    }
}

impl FromSpecImpl<model::Prompt> for Prompt {
    open spec fn obeys_from_spec() -> bool {
        true
    }

    open spec fn from_spec(prompt: model::Prompt) -> Prompt {
        prompt_from_model(prompt)
    }
}

/// A content item as a client sees it.
#[derive(Debug, Clone, PartialEq, Eq)]
pub struct Content {
    pub uuid: u128,
    pub kind: String,
    pub details: ContentDetails,
    pub created_at: i64,
    pub updated_at: i64,
}

/// Mathematical value of a [`Content`].
pub struct ContentView {
    pub uuid: u128,
    pub kind: Seq<char>,
    pub details: model::ContentDetailsView,
    pub created_at: i64,
    pub updated_at: i64,
}

impl View for Content {
    type V = ContentView;

    open spec fn view(&self) -> ContentView {
        ContentView {
            uuid: self.uuid,
            kind: self.kind@,
            details: self.details@,
            created_at: self.created_at,
            updated_at: self.updated_at,
        }
    }
}

/// A content item of the store as a client sees it.
pub open spec fn content_from_model(content: model::Content) -> Content {
    Content {
        uuid: content.uuid,
        kind: content.kind,
        details: details_from_model(content.details),
        created_at: content.created_at,
        updated_at: content.updated_at,
    }
}

/// The value of a content item of the store as a client sees it.
pub open spec fn content_sent(content: model::ContentView) -> ContentView {
    ContentView {
        uuid: content.uuid,
        kind: content.kind,
        details: content.details,
        created_at: content.created_at,
        updated_at: content.updated_at,
    }
}

impl From<model::Content> for Content {
    fn from(content: model::Content) -> (ret: Content) {
        Content {
            uuid: content.uuid,
            kind: content.kind,
            details: ContentDetails::from(content.details),
            created_at: content.created_at,
            updated_at: content.updated_at,
        }
    }
}

impl FromSpecImpl<model::Content> for Content {
    open spec fn obeys_from_spec() -> bool {
        true
    }

    open spec fn from_spec(content: model::Content) -> Content {
        content_from_model(content)
    }
}

/// A story with its content, as a client sees it.
#[derive(Debug, Clone, PartialEq, Eq)]
pub struct Story {
    pub uuid: u128,
    pub title: String,
    pub content: Vec<Content>,
    pub created_at: i64,
    pub updated_at: i64,
}

/// Mathematical value of a [`Story`].
pub struct StoryView {
    pub uuid: u128,
    pub title: Seq<char>,
    pub content: Seq<ContentView>,
    pub created_at: i64,
    pub updated_at: i64,
}

impl View for Story {
    type V = StoryView;

    open spec fn view(&self) -> StoryView {
        StoryView {
            uuid: self.uuid,
            title: self.title@,
            content: self.content@.map_values(|content: Content| content@),
            created_at: self.created_at,
            updated_at: self.updated_at,
        }
    }
}

/// The value of a story of the store with its content items, as a client
/// sees it.
pub open spec fn story_sent(story: model::StoryView, content: Seq<model::ContentView>) -> StoryView {
    StoryView {
        uuid: story.uuid,
        title: story.title,
        content: content.map_values(|item: model::ContentView| content_sent(item)),
        created_at: story.created_at,
        updated_at: story.updated_at,
    }
}

impl Story {
    /// Puts a story and its content items together, the items in their order.
    pub fn new(story: model::Story, content: Vec<model::Content>) -> (sent: Story)
        ensures
            sent@ == story_sent(story@, content@.map_values(|item: model::Content| item@)),
    {
        let mut items: Vec<Content> = Vec::new();
        for item in it: content
            invariant
                it.seq() == content@,
                items.len() == it.index(),
                forall|i: int|
                    0 <= i < items.len() ==> (#[trigger] items[i])@ == content_sent(content[i]@),
        {
            let sent = Content::from(item);
            assert(sent@ == content_sent(item@));
            items.push(sent);
        }
        let sent = Story {
            uuid: story.uuid,
            title: story.title,
            content: items,
            created_at: story.created_at,
            updated_at: story.updated_at,
        };
        assert(sent@.content =~= story_sent(
            story@,
            content@.map_values(|item: model::Content| item@),
        ).content);
        sent
    }
}

/// A change of one content item: the item's UUID and what it is to hold.
#[derive(Debug, Clone, PartialEq, Eq)]
pub struct UpdateContentRequest {
    pub uuid: u128,
    pub content: ContentDetails,
}

/// A change of a story: a new title, changes of content items, or both.
#[derive(Debug, Clone, PartialEq, Eq)]
pub struct UpdateStoryRequest {
    pub title: Option<String>,
    pub content: Option<Vec<UpdateContentRequest>>,
}

} // verus!
