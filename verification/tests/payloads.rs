use story_store::access::store::AccessError;
use story_store::action::content::ContentUpdate;
use story_store::action::error::ActionError;
use story_store::api;
use story_store::api::{json_object, ApiError};
use story_store::error::AppError;
use story_store::model;
use story_store::schema;
use story_store::schema::{
    content_from_row, decode_content_rows, decode_prompt_rows, parse_uuid, prompt_from_row,
    story_from_row, user_from_row, SchemaError,
};

const UUID_TEXT: &str = "a1a2a3a4-b1b2-c1c2-d1d2-d3d4d5d6d7d8";
const UUID: u128 = 0xa1a2a3a4b1b2c1c2d1d2d3d4d5d6d7d8;

fn story_row(uuid: &str, deleted: i8) -> schema::Story {
    schema::Story {
        id: 3,
        user_id: 4,
        uuid: uuid.to_string(),
        title: "One".to_string(),
        created_at: 5,
        updated_at: 6,
        deleted,
    }
}

fn details() -> model::ContentDetails {
    model::ContentDetails::Text(model::TextContent {
        title: "T".to_string(),
        body: "B".to_string(),
    })
}

fn content_row(uuid: &str, details: Option<model::ContentDetails>) -> schema::Content {
    schema::Content {
        id: 3,
        story_id: 4,
        uuid: uuid.to_string(),
        kind: "text".to_string(),
        details,
        created_at: 5,
        updated_at: 6,
    }
}

#[test]
fn a_story_row_is_translated() {
    let expected = model::Story {
        id: 3,
        user_id: 4,
        uuid: UUID,
        title: "One".to_string(),
        created_at: 5,
        updated_at: 6,
        deleted: false,
    };
    assert_eq!(model::Story::try_from(story_row(UUID_TEXT, 0)), Ok(expected.clone()));
    assert_eq!(
        model::Story::try_from(story_row(UUID_TEXT, 1)),
        Ok(model::Story { deleted: true, ..expected.clone() })
    );
    // The forms without hyphens, in upper case, in braces and as a URN are read too.
    assert_eq!(
        model::Story::try_from(story_row("A1A2A3A4B1B2C1C2D1D2D3D4D5D6D7D8", 0)),
        Ok(expected.clone())
    );
    assert_eq!(
        model::Story::try_from(story_row("{a1a2a3a4-b1b2-c1c2-d1d2-d3d4d5d6d7d8}", 0)),
        Ok(expected.clone())
    );
    assert_eq!(
        model::Story::try_from(story_row("urn:uuid:a1a2a3a4-b1b2-c1c2-d1d2-d3d4d5d6d7d8", 0)),
        Ok(expected)
    );
}

#[test]
fn a_flag_that_is_neither_0_nor_1_is_refused() {
    assert_eq!(model::Story::try_from(story_row(UUID_TEXT, 2)), Err(SchemaError::ParseDeleted));
    assert_eq!(model::Story::try_from(story_row(UUID_TEXT, -1)), Err(SchemaError::ParseDeleted));
    assert_eq!(
        model::Story::try_from(story_row(UUID_TEXT, i8::MAX)),
        Err(SchemaError::ParseDeleted)
    );
}

#[test]
fn a_malformed_uuid_is_refused_first() {
    assert_eq!(model::Story::try_from(story_row("not a uuid", 0)), Err(SchemaError::ParseUuid));
    assert_eq!(model::Story::try_from(story_row("", 0)), Err(SchemaError::ParseUuid));
    assert_eq!(model::Story::try_from(story_row("not a uuid", 7)), Err(SchemaError::ParseUuid));
    assert_eq!(
        model::Content::try_from(content_row("a1a2a3a4-b1b2-c1c2-d1d2", None)),
        Err(SchemaError::ParseUuid)
    );
}

#[test]
fn a_content_row_is_translated() {
    assert_eq!(
        model::Content::try_from(content_row(UUID_TEXT, Some(details()))),
        Ok(model::Content {
            id: 3,
            story_id: 4,
            uuid: UUID,
            kind: "text".to_string(),
            details: details(),
            created_at: 5,
            updated_at: 6,
        })
    );
    assert_eq!(
        model::Content::try_from(content_row(UUID_TEXT, None)),
        Err(SchemaError::ParseJson)
    );
}

#[test]
fn user_and_prompt_rows_are_translated() {
    let row = schema::User {
        id: 1,
        uuid: UUID_TEXT.to_string(),
        name: "Ann".to_string(),
        created_at: 5,
        updated_at: 6,
    };
    assert_eq!(
        model::User::try_from(row),
        Ok(model::User {
            id: 1,
            uuid: UUID,
            name: "Ann".to_string(),
            created_at: 5,
            updated_at: 6,
        })
    );
    let row = schema::User {
        id: 1,
        uuid: "zz".to_string(),
        name: "Ann".to_string(),
        created_at: 5,
        updated_at: 6,
    };
    assert_eq!(model::User::try_from(row), Err(SchemaError::ParseUuid));
    let row = schema::Prompt {
        id: 2,
        uuid: UUID_TEXT.to_string(),
        name: "Daily".to_string(),
        description: "Write about your day".to_string(),
        created_at: 5,
        updated_at: 6,
    };
    assert_eq!(
        model::Prompt::try_from(row),
        Ok(model::Prompt {
            id: 2,
            uuid: UUID,
            name: "Daily".to_string(),
            description: "Write about your day".to_string(),
            created_at: 5,
            updated_at: 6,
        })
    );
}

#[test]
fn rows_are_translated_in_order_up_to_the_first_refused() {
    let second = "00000000-0000-0000-0000-000000000002";
    let rows = vec![content_row(UUID_TEXT, Some(details())), content_row(second, Some(details()))];
    let items = decode_content_rows(rows).unwrap();
    assert_eq!(items.len(), 2);
    assert_eq!(items[0].uuid, UUID);
    assert_eq!(items[1].uuid, 2);
    assert_eq!(decode_content_rows(vec![]), Ok(vec![]));
    let rows = vec![
        content_row(UUID_TEXT, Some(details())),
        content_row(second, None),
        content_row("bad", Some(details())),
    ];
    assert_eq!(decode_content_rows(rows), Err(SchemaError::ParseJson));
}

#[test]
fn outside_errors_become_schema_errors() {
    let err = "x".parse::<uuid::Uuid>().unwrap_err();
    assert_eq!(SchemaError::from(err), SchemaError::ParseUuid);
    let err = serde_json::from_str::<serde_json::Value>("{").unwrap_err();
    assert_eq!(SchemaError::from(err), SchemaError::ParseJson);
    assert_eq!(
        AccessError::from(SchemaError::ParseDeleted),
        AccessError::Schema(SchemaError::ParseDeleted)
    );
    assert_eq!(AccessError::from(ApiError::Decode), AccessError::Api(ApiError::Decode));
    assert_eq!(
        ActionError::from(AccessError::NotFound),
        ActionError::AccessError(AccessError::NotFound)
    );
}

#[test]
fn details_tell_their_kind() {
    let image = api::ContentDetails::Image(api::ImageContent {
        src: "Photo.PNG".to_string(),
        description: "A Photo".to_string(),
    });
    let text = api::ContentDetails::Text(api::TextContent {
        title: "Title".to_string(),
        body: "Body".to_string(),
    });
    assert_eq!(image.kind(), "image");
    assert_eq!(text.kind(), "text");
}

#[test]
fn details_are_written_as_untagged_json() {
    let image = api::ContentDetails::Image(api::ImageContent {
        src: "a.png".to_string(),
        description: "A \"quoted\" line\nand a \\ tab\t".to_string(),
    });
    assert_eq!(
        image.details(),
        Ok("{\"src\":\"a.png\",\"description\":\"A \\\"quoted\\\" line\\nand a \\\\ tab\\t\"}"
            .to_string())
    );
    let text = api::ContentDetails::Text(api::TextContent {
        title: "A day in the life".to_string(),
        body: "A picnic".to_string(),
    });
    let written = text.details().unwrap();
    assert_eq!(written, "{\"title\":\"A day in the life\",\"body\":\"A picnic\"}");
    let read: serde_json::Value = serde_json::from_str(&written).unwrap();
    assert_eq!(read["title"], serde_json::Value::String("A day in the life".to_string()));
    assert_eq!(read["body"], serde_json::Value::String("A picnic".to_string()));
    let empty = api::ContentDetails::Text(api::TextContent {
        title: String::new(),
        body: "\u{e9}\u{1}".to_string(),
    });
    assert_eq!(empty.details(), Ok("{\"title\":\"\",\"body\":\"\u{e9}\\u0001\"}".to_string()));
}

#[test]
fn an_object_is_framed_from_its_members() {
    let one = Some("1".to_string());
    let list = Some("[true]".to_string());
    assert_eq!(
        json_object("a", one.clone(), "b", list.clone()),
        Ok("{\"a\":1,\"b\":[true]}".to_string())
    );
    assert_eq!(
        json_object("", Some(String::new()), "", Some(String::new())),
        Ok("{\"\":,\"\":}".to_string())
    );
    assert_eq!(json_object("a", None, "b", list), Err(ApiError::Encode));
    assert_eq!(json_object("a", one, "b", None), Err(ApiError::Encode));
    assert_eq!(json_object("a", None, "b", None), Err(ApiError::Encode));
}

#[test]
fn a_story_is_put_together_with_its_content() {
    let story = model::Story {
        id: 3,
        user_id: 4,
        uuid: 9,
        title: "One".to_string(),
        created_at: 5,
        updated_at: 6,
        deleted: false,
    };
    let content = model::Content {
        id: 1,
        story_id: 3,
        uuid: 11,
        kind: "text".to_string(),
        details: details(),
        created_at: 7,
        updated_at: 8,
    };
    let sent = api::Story::new(story, vec![content.clone(), model::Content { uuid: 12, ..content }]);
    let item = api::Content {
        uuid: 11,
        kind: "text".to_string(),
        details: api::ContentDetails::Text(api::TextContent {
            title: "T".to_string(),
            body: "B".to_string(),
        }),
        created_at: 7,
        updated_at: 8,
    };
    assert_eq!(
        sent,
        api::Story {
            uuid: 9,
            title: "One".to_string(),
            content: vec![item.clone(), api::Content { uuid: 12, ..item }],
            created_at: 5,
            updated_at: 6,
        }
    );
}

#[test]
fn users_and_prompts_are_sent_without_their_ids() {
    let user = model::User {
        id: 1,
        uuid: 9,
        name: "Ann".to_string(),
        created_at: 5,
        updated_at: 6,
    };
    assert_eq!(
        api::User::from(user),
        api::User { uuid: 9, name: "Ann".to_string(), created_at: 5, updated_at: 6 }
    );
    let prompt = model::Prompt {
        id: 1,
        uuid: 9,
        name: "Reflect".to_string(),
        description: "Take a step back".to_string(),
        created_at: 5,
        updated_at: 6,
    };
    assert_eq!(
        api::Prompt::from(prompt),
        api::Prompt {
            uuid: 9,
            name: "Reflect".to_string(),
            description: "Take a step back".to_string(),
            created_at: 5,
            updated_at: 6,
        }
    );
}

#[test]
fn a_requested_change_becomes_a_content_update() {
    let request = api::UpdateContentRequest {
        uuid: 5,
        content: api::ContentDetails::Text(api::TextContent {
            title: "T".to_string(),
            body: "B".to_string(),
        }),
    };
    let update = ContentUpdate::from(request);
    assert_eq!(update.uuid, 5);
    assert_eq!(
        update.content,
        api::ContentDetails::Text(api::TextContent {
            title: "T".to_string(),
            body: "B".to_string(),
        })
    );
}

#[test]
fn failures_are_answered_by_class() {
    assert_eq!(
        AppError::from(AccessError::NotFound),
        AppError(404, "Not found".to_string())
    );
    assert_eq!(
        AppError::from(AccessError::Storage),
        AppError(500, "Internal server error".to_string())
    );
    assert_eq!(
        AppError::from(AccessError::Schema(SchemaError::ParseUuid)),
        AppError(400, "Malformed record".to_string())
    );
    assert_eq!(
        AppError::from(AccessError::Api(ApiError::Decode)),
        AppError(400, "Malformed content".to_string())
    );
    assert_eq!(
        AppError::from(ActionError::InvalidState),
        AppError(400, "Story has been deleted.".to_string())
    );
    assert_eq!(
        AppError::from(ActionError::Internal),
        AppError(500, "Internal server error".to_string())
    );
    assert_eq!(
        AppError::from(ActionError::AccessError(AccessError::NotFound)),
        AppError(404, "Not found".to_string())
    );
    assert_eq!(AppError::login_required(), AppError(401, "Login required".to_string()));
    assert_eq!(AppError::already_signed_in(), AppError(400, "Already signed in.".to_string()));
    assert_eq!(AppError::poisoned(), AppError(500, "VerifiedUser was poisoned.".to_string()));
}

#[test]
fn prompt_rows_are_translated_in_order() {
    let row = schema::Prompt {
        id: 2,
        uuid: UUID_TEXT.to_string(),
        name: "Daily".to_string(),
        description: "Write about your day".to_string(),
        created_at: 5,
        updated_at: 6,
    };
    let other = schema::Prompt { id: 3, uuid: "00000000000000000000000000000003".to_string(), ..row.clone() };
    let prompts = decode_prompt_rows(vec![row.clone(), other]).unwrap();
    assert_eq!(prompts.len(), 2);
    assert_eq!(prompts[0].uuid, UUID);
    assert_eq!(prompts[0].id, 2);
    assert_eq!(prompts[1].uuid, 3);
    let bad = schema::Prompt { uuid: "?".to_string(), ..row.clone() };
    assert_eq!(decode_prompt_rows(vec![row, bad]), Err(SchemaError::ParseUuid));
}

#[test]
fn a_uuid_column_is_read_or_refused() {
    assert_eq!(parse_uuid(UUID_TEXT), Ok(UUID));
    assert_eq!(parse_uuid("00000000-0000-0000-0000-000000000000"), Ok(0));
    assert_eq!(parse_uuid("ffffffff-ffff-ffff-ffff-ffffffffffff"), Ok(u128::MAX));
    assert_eq!(parse_uuid("a1a2a3a4-b1b2-c1c2-d1d2-d3d4d5d6d7dg"), Err(SchemaError::ParseUuid));
    assert_eq!(parse_uuid(" a1a2a3a4-b1b2-c1c2-d1d2-d3d4d5d6d7d8"), Err(SchemaError::ParseUuid));
}

#[test]
fn rows_are_translated_from_what_their_uuid_was_read_as() {
    let story = model::Story {
        id: 3,
        user_id: 4,
        uuid: 5,
        title: "One".to_string(),
        created_at: 5,
        updated_at: 6,
        deleted: true,
    };
    assert_eq!(story_from_row(story_row("anything", 1), Ok(5)), Ok(story));
    assert_eq!(story_from_row(story_row(UUID_TEXT, 2), Ok(5)), Err(SchemaError::ParseDeleted));
    assert_eq!(
        story_from_row(story_row(UUID_TEXT, 2), Err(SchemaError::ParseUuid)),
        Err(SchemaError::ParseUuid)
    );
    assert_eq!(
        content_from_row(content_row(UUID_TEXT, None), Ok(5)),
        Err(SchemaError::ParseJson)
    );
    assert_eq!(
        content_from_row(content_row(UUID_TEXT, None), Err(SchemaError::ParseUuid)),
        Err(SchemaError::ParseUuid)
    );
    assert_eq!(content_from_row(content_row(UUID_TEXT, Some(details())), Ok(5)).unwrap().uuid, 5);
    let row = schema::User {
        id: 1,
        uuid: String::new(),
        name: "Ann".to_string(),
        created_at: 5,
        updated_at: 6,
    };
    assert_eq!(user_from_row(row.clone(), Ok(9)).unwrap().uuid, 9);
    assert_eq!(user_from_row(row, Err(SchemaError::ParseUuid)), Err(SchemaError::ParseUuid));
    let row = schema::Prompt {
        id: 2,
        uuid: String::new(),
        name: "Daily".to_string(),
        description: "Write about your day".to_string(),
        created_at: 5,
        updated_at: 6,
    };
    assert_eq!(prompt_from_row(row.clone(), Ok(9)).unwrap().uuid, 9);
    assert_eq!(prompt_from_row(row, Err(SchemaError::ParseUuid)), Err(SchemaError::ParseUuid));
}
