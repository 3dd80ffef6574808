use story_store::access::entity::{DbEntity, Entity};
use story_store::access::memory::MemoryDb;
use story_store::access::store::{AccessError, EntityStore};
use story_store::action::content::{
    create_content, create_content_with, update_content, ContentUpdate, NewContent,
};
use story_store::action::error::ActionError;
use story_store::action::story::{
    create_story, create_story_with, delete_story, delete_story_of, get_story, get_story_of,
    merge_story, update_story, update_story_of,
};
use story_store::action::user::{create_user, create_user_with, get_user, get_user_of};
use story_store::api;
use story_store::auth::VerifiedUser;
use story_store::model::{Story, User};

const ALICE: u32 = 1;
const BOB: u32 = 2;

fn text(title: &str, body: &str) -> api::ContentDetails {
    api::ContentDetails::Text(api::TextContent { title: title.to_string(), body: body.to_string() })
}

fn image(src: &str, description: &str) -> api::ContentDetails {
    api::ContentDetails::Image(api::ImageContent {
        src: src.to_string(),
        description: description.to_string(),
    })
}

fn alice() -> VerifiedUser {
    VerifiedUser::new(User {
        id: ALICE,
        uuid: 0xa11ce,
        name: "Alice".to_string(),
        created_at: 1,
        updated_at: 1,
    })
}

fn stored_story(db: &MemoryDb, uuid: u128) -> Story {
    match db.get_by_uuid(DbEntity::Stories, uuid) {
        Ok(Entity::Story(story)) => story,
        other => panic!("no story: {:?}", other),
    }
}

fn stored_details(db: &MemoryDb, uuid: u128) -> api::ContentDetails {
    match db.get_by_uuid(DbEntity::Content, uuid) {
        Ok(Entity::Content(content)) => api::ContentDetails::from(content.details),
        other => panic!("no content: {:?}", other),
    }
}

#[test]
fn a_story_is_made_read_changed_and_deleted() {
    let mut db = MemoryDb::new();
    let user = alice();
    let made = create_story(
        &mut db,
        &user,
        "Hello, world".to_string(),
        vec![text("A day in the life", "A picnic")],
        100,
    )
    .unwrap();
    assert_eq!(made.title, "Hello, world");
    assert_eq!(made.content.len(), 1);

    let read = get_story(&db, &user, made.uuid).unwrap();
    assert_eq!(read.content.len(), 1);
    assert_eq!(read.content[0].kind, "text");
    assert_eq!(read.content[0].details, text("A day in the life", "A picnic"));
    assert_eq!(read.content[0].created_at, 100);
    assert_eq!(read, made);

    let changed =
        update_story(&mut db, &user, made.uuid, Some("Goodbye, moon".to_string()), None, 200)
            .unwrap();
    assert_eq!(changed.title, "Goodbye, moon");
    assert_eq!(changed.updated_at, 200);
    assert_eq!(changed.created_at, 100);
    assert!(!changed.deleted);
    let read = get_story(&db, &user, made.uuid).unwrap();
    assert_eq!(read.title, "Goodbye, moon");
    assert_eq!(read.content, made.content);

    assert_eq!(delete_story(&mut db, &user, made.uuid, 300), Ok(()));
    let story = stored_story(&db, made.uuid);
    assert!(story.deleted);
    let update = ContentUpdate { uuid: made.content[0].uuid, content: text("Later", "Rain") };
    assert_eq!(update_content(&mut db, &story, vec![update], 400), Err(ActionError::InvalidState));
    assert_eq!(stored_details(&db, made.content[0].uuid), text("A day in the life", "A picnic"));
}

#[test]
fn a_story_gets_the_next_id_and_its_content_in_order() {
    let mut db = MemoryDb::new();
    let first = create_story_with(&mut db, ALICE, "One".to_string(), 10, vec![], 5).unwrap();
    assert_eq!(first.content.len(), 0);
    let items = vec![
        NewContent { uuid: 21, details: image("a.png", "A") },
        NewContent { uuid: 22, details: text("T", "B") },
    ];
    let second = create_story_with(&mut db, ALICE, "Two".to_string(), 11, items, 6).unwrap();
    assert_eq!(stored_story(&db, 10).id, 1);
    assert_eq!(stored_story(&db, 11).id, 2);
    assert_eq!(second.uuid, 11);
    assert_eq!(second.created_at, 6);
    assert_eq!(second.updated_at, 6);
    assert_eq!(second.content.len(), 2);
    assert_eq!(second.content[0].uuid, 21);
    assert_eq!(second.content[0].kind, "image");
    assert_eq!(second.content[0].details, image("a.png", "A"));
    assert_eq!(second.content[1].uuid, 22);
    assert_eq!(second.content[1].kind, "text");
    match db.get_by_uuid(DbEntity::Content, 22).unwrap() {
        Entity::Content(content) => {
            assert_eq!(content.id, 2);
            assert_eq!(content.story_id, 2);
        }
        other => panic!("no content: {:?}", other),
    }
}

#[test]
fn a_taken_story_uuid_changes_nothing() {
    let mut db = MemoryDb::new();
    create_story_with(&mut db, ALICE, "One".to_string(), 10, vec![], 5).unwrap();
    let items = vec![NewContent { uuid: 21, details: text("T", "B") }];
    let again = create_story_with(&mut db, BOB, "Two".to_string(), 10, items, 6);
    assert_eq!(again, Err(ActionError::AccessError(AccessError::Storage)));
    assert_eq!(stored_story(&db, 10).title, "One");
    assert_eq!(db.get_by_uuid(DbEntity::Content, 21), Err(AccessError::NotFound));
    assert_eq!(db.next_id(DbEntity::Stories), Ok(2));
}

#[test]
fn a_taken_content_uuid_leaves_the_story_with_the_items_before_it() {
    let mut db = MemoryDb::new();
    let items = vec![
        NewContent { uuid: 21, details: text("first", "1") },
        NewContent { uuid: 21, details: text("second", "2") },
        NewContent { uuid: 23, details: text("third", "3") },
    ];
    let made = create_story_with(&mut db, ALICE, "One".to_string(), 10, items, 5);
    assert_eq!(made, Err(ActionError::AccessError(AccessError::Storage)));
    let read = get_story_of(&db, ALICE, 10).unwrap();
    assert_eq!(read.content.len(), 1);
    assert_eq!(read.content[0].details, text("first", "1"));
    assert_eq!(db.get_by_uuid(DbEntity::Content, 23), Err(AccessError::NotFound));
}

#[test]
fn another_users_story_is_not_found() {
    let mut db = MemoryDb::new();
    create_story_with(&mut db, ALICE, "One".to_string(), 10, vec![], 5).unwrap();
    let not_found = ActionError::AccessError(AccessError::NotFound);
    assert_eq!(get_story_of(&db, BOB, 10), Err(not_found));
    assert_eq!(get_story_of(&db, ALICE, 99), Err(not_found));
    assert_eq!(update_story_of(&mut db, BOB, 10, Some("Mine".to_string()), None, 6), Err(not_found));
    assert_eq!(delete_story_of(&mut db, BOB, 10, 6), Err(not_found));
    let story = stored_story(&db, 10);
    assert_eq!(story.title, "One");
    assert_eq!(story.updated_at, 5);
    assert!(!story.deleted);
}

#[test]
fn a_change_of_the_title_alone_keeps_the_rest() {
    let mut db = MemoryDb::new();
    create_story_with(&mut db, ALICE, "One".to_string(), 10, vec![], 5).unwrap();
    let changed = update_story_of(&mut db, ALICE, 10, Some("Two".to_string()), None, 9).unwrap();
    let expected = Story {
        id: 1,
        user_id: ALICE,
        uuid: 10,
        title: "Two".to_string(),
        created_at: 5,
        updated_at: 9,
        deleted: false,
    };
    assert_eq!(changed, expected);
    assert_eq!(stored_story(&db, 10), expected);
}

#[test]
fn a_change_of_the_flag_alone_keeps_the_title() {
    let mut db = MemoryDb::new();
    create_story_with(&mut db, ALICE, "One".to_string(), 10, vec![], 5).unwrap();
    let changed = update_story_of(&mut db, ALICE, 10, None, Some(true), 9).unwrap();
    assert_eq!(changed.title, "One");
    assert_eq!(changed.created_at, 5);
    assert_eq!(changed.updated_at, 9);
    assert!(changed.deleted);
}

#[test]
fn a_change_without_fields_moves_the_time_only() {
    let story = Story {
        id: 3,
        user_id: ALICE,
        uuid: 10,
        title: "One".to_string(),
        created_at: 5,
        updated_at: 5,
        deleted: false,
    };
    let merged = merge_story(story.clone(), None, None, 77);
    assert_eq!(merged, Story { updated_at: 77, ..story });
}

#[test]
fn deletion_is_final() {
    let mut db = MemoryDb::new();
    let items = vec![NewContent { uuid: 21, details: text("T", "B") }];
    create_story_with(&mut db, ALICE, "One".to_string(), 10, items, 5).unwrap();
    assert_eq!(delete_story_of(&mut db, ALICE, 10, 6), Ok(()));
    let deleted = stored_story(&db, 10);
    assert!(deleted.deleted);
    assert_eq!(deleted.updated_at, 6);

    assert_eq!(
        update_story_of(&mut db, ALICE, 10, Some("Two".to_string()), None, 7),
        Err(ActionError::InvalidState)
    );
    assert_eq!(
        update_story_of(&mut db, ALICE, 10, None, Some(false), 7),
        Err(ActionError::InvalidState)
    );
    assert_eq!(delete_story_of(&mut db, ALICE, 10, 7), Err(ActionError::InvalidState));
    let update = ContentUpdate { uuid: 21, content: text("Later", "Rain") };
    assert_eq!(update_content(&mut db, &deleted, vec![update], 7), Err(ActionError::InvalidState));
    assert_eq!(stored_story(&db, 10), deleted);
    assert_eq!(stored_details(&db, 21), text("T", "B"));
    // The story can still be read.
    assert_eq!(get_story_of(&db, ALICE, 10).unwrap().content.len(), 1);
}

#[test]
fn a_batch_stops_at_the_first_unknown_item() {
    let mut db = MemoryDb::new();
    let items = vec![
        NewContent { uuid: 21, details: text("one", "1") },
        NewContent { uuid: 23, details: text("three", "3") },
    ];
    create_story_with(&mut db, ALICE, "One".to_string(), 10, items, 5).unwrap();
    let story = stored_story(&db, 10);
    let updates = vec![
        ContentUpdate { uuid: 21, content: image("one.png", "first") },
        ContentUpdate { uuid: 22, content: text("two", "second") },
        ContentUpdate { uuid: 23, content: text("three", "third") },
    ];
    assert_eq!(
        update_content(&mut db, &story, updates, 9),
        Err(ActionError::AccessError(AccessError::NotFound))
    );
    match db.get_by_uuid(DbEntity::Content, 21).unwrap() {
        Entity::Content(content) => {
            assert_eq!(api::ContentDetails::from(content.details), image("one.png", "first"));
            assert_eq!(content.kind, "image");
            assert_eq!(content.updated_at, 9);
            assert_eq!(content.created_at, 5);
            assert_eq!(content.id, 1);
            assert_eq!(content.story_id, 1);
        }
        other => panic!("no content: {:?}", other),
    }
    match db.get_by_uuid(DbEntity::Content, 23).unwrap() {
        Entity::Content(content) => {
            assert_eq!(api::ContentDetails::from(content.details), text("three", "3"));
            assert_eq!(content.updated_at, 5);
        }
        other => panic!("no content: {:?}", other),
    }
    assert_eq!(db.get_by_uuid(DbEntity::Content, 22), Err(AccessError::NotFound));
}

#[test]
fn a_batch_answers_all_the_content_of_the_story() {
    let mut db = MemoryDb::new();
    let items = vec![
        NewContent { uuid: 21, details: text("one", "1") },
        NewContent { uuid: 22, details: text("two", "2") },
    ];
    create_story_with(&mut db, ALICE, "One".to_string(), 10, items, 5).unwrap();
    let other = vec![NewContent { uuid: 31, details: text("else", "x") }];
    create_story_with(&mut db, ALICE, "Two".to_string(), 11, other, 5).unwrap();
    let story = stored_story(&db, 10);
    let updates = vec![ContentUpdate { uuid: 22, content: text("two", "changed") }];
    let all = update_content(&mut db, &story, updates, 9).unwrap();
    assert_eq!(all.len(), 2);
    let mut uuids: Vec<u128> = all.iter().map(|content| content.uuid).collect();
    uuids.sort();
    assert_eq!(uuids, vec![21, 22]);
    for content in all {
        if content.uuid == 22 {
            assert_eq!(api::ContentDetails::from(content.details), text("two", "changed"));
            assert_eq!(content.updated_at, 9);
        } else {
            assert_eq!(content.updated_at, 5);
        }
    }
}

#[test]
fn an_empty_batch_lists_the_content() {
    let mut db = MemoryDb::new();
    let items = vec![NewContent { uuid: 21, details: text("one", "1") }];
    create_story_with(&mut db, ALICE, "One".to_string(), 10, items, 5).unwrap();
    let story = stored_story(&db, 10);
    let all = update_content(&mut db, &story, vec![], 9).unwrap();
    assert_eq!(all.len(), 1);
    assert_eq!(all[0].updated_at, 5);
}

#[test]
fn content_is_made_in_the_order_given() {
    let mut db = MemoryDb::new();
    for uuid in 1..=4 {
        create_story_with(&mut db, ALICE, "Story".to_string(), uuid, vec![], 5).unwrap();
    }
    let made = create_content(&mut db, 4, vec![text("a", "1"), image("b", "2"), text("c", "3")], 8)
        .unwrap();
    assert_eq!(made.len(), 3);
    assert_eq!(api::ContentDetails::from(made[0].details.clone()), text("a", "1"));
    assert_eq!(api::ContentDetails::from(made[1].details.clone()), image("b", "2"));
    assert_eq!(api::ContentDetails::from(made[2].details.clone()), text("c", "3"));
    for (index, content) in made.iter().enumerate() {
        assert_eq!(content.id as usize, index + 1);
        assert_eq!(content.story_id, 4);
        assert_eq!(content.created_at, 8);
        assert_eq!(content.updated_at, 8);
        // A random UUID carries version 4 and the variant bits 10.
        assert_eq!((content.uuid >> 76) & 0xf, 4);
        assert_eq!((content.uuid >> 62) & 0x3, 2);
    }
    assert_ne!(made[0].uuid, made[1].uuid);
}

#[test]
fn content_under_given_uuids_stops_at_a_taken_one() {
    let mut db = MemoryDb::new();
    for uuid in 1..=4 {
        create_story_with(&mut db, ALICE, "Story".to_string(), uuid, vec![], 5).unwrap();
    }
    let items = vec![
        NewContent { uuid: 1, details: text("a", "1") },
        NewContent { uuid: 1, details: text("b", "2") },
    ];
    assert_eq!(
        create_content_with(&mut db, 4, items, 8),
        Err(ActionError::AccessError(AccessError::Storage))
    );
    assert_eq!(stored_details(&db, 1), text("a", "1"));
    assert_eq!(db.next_id(DbEntity::Content), Ok(2));
}

#[test]
fn users_sign_up_and_are_read_back() {
    let mut db = MemoryDb::new();
    let ann = create_user_with(&mut db, "Ann".to_string(), 500, 3).unwrap();
    assert_eq!(
        ann,
        User { id: 1, uuid: 500, name: "Ann".to_string(), created_at: 3, updated_at: 3 }
    );
    let ben = create_user(&mut db, "Ben".to_string(), 4).unwrap();
    assert_eq!(ben.id, 2);
    assert_eq!((ben.uuid >> 76) & 0xf, 4);
    assert_eq!(get_user_of(&db, 1), Ok(ann.clone()));
    assert_eq!(get_user_of(&db, 2), Ok(ben.clone()));
    assert_eq!(get_user_of(&db, 3), Err(ActionError::AccessError(AccessError::NotFound)));
    assert_eq!(get_user(&db, &VerifiedUser::new(ben.clone())), Ok(ben));
    assert_eq!(
        create_user_with(&mut db, "Again".to_string(), 500, 5),
        Err(ActionError::AccessError(AccessError::Storage))
    );
}

#[test]
fn content_is_made_only_for_a_story_that_is_there() {
    let mut db = MemoryDb::new();
    let not_found = ActionError::AccessError(AccessError::NotFound);
    let items = vec![NewContent { uuid: 21, details: text("a", "1") }];
    assert_eq!(create_content_with(&mut db, 7, items.clone(), 8), Err(not_found));
    assert_eq!(create_content(&mut db, 7, vec![text("a", "1")], 8), Err(not_found));
    assert_eq!(db.get_by_uuid(DbEntity::Content, 21), Err(AccessError::NotFound));
    assert_eq!(db.next_id(DbEntity::Content), Ok(1));

    create_story_with(&mut db, ALICE, "One".to_string(), 10, vec![], 5).unwrap();
    assert_eq!(create_content_with(&mut db, 2, items.clone(), 8), Err(not_found));
    assert_eq!(create_content_with(&mut db, 0, items.clone(), 8), Err(not_found));
    let made = create_content_with(&mut db, 1, items, 8).unwrap();
    assert_eq!(made.len(), 1);
    assert_eq!(made[0].story_id, 1);
    // A deleted story is still there.
    delete_story_of(&mut db, ALICE, 10, 9).unwrap();
    let more = vec![NewContent { uuid: 22, details: text("b", "2") }];
    assert_eq!(create_content_with(&mut db, 1, more, 9).unwrap().len(), 1);
}

#[test]
fn no_content_is_made_without_a_call_on_the_store() {
    let mut db = MemoryDb::new();
    assert_eq!(create_content_with(&mut db, 7, vec![], 8), Ok(vec![]));
    assert_eq!(create_content(&mut db, 7, vec![], 8), Ok(vec![]));
    assert_eq!(db.next_id(DbEntity::Content), Ok(1));
}
