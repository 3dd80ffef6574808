use story_store::access::entity::{DbEntity, Entity};
use story_store::access::memory::MemoryDb;
use story_store::access::store::EntityStore;
use story_store::api;
use story_store::auth::{read_or_poisoned, AuthState, VerifiedUser};
use story_store::error::AppError;
use story_store::handlers::{
    content_updates, create_user, get_verified_user, handle_create_story, handle_delete_story,
    handle_get_story, handle_update_story, signed_in, CreateStoryRequest, CreateUserRequest,
};
use story_store::model::User;

fn text(title: &str, body: &str) -> api::ContentDetails {
    api::ContentDetails::Text(api::TextContent { title: title.to_string(), body: body.to_string() })
}

fn login_required() -> AppError {
    AppError(401, "Login required".to_string())
}

fn signed_up(db: &mut MemoryDb, name: &str) -> AuthState {
    let mut auth = AuthState::new();
    create_user(db, &mut auth, CreateUserRequest { name: name.to_string() }, 1).unwrap();
    auth
}

#[test]
fn the_handle_hands_out_id_and_uuid() {
    let user = VerifiedUser::new(User {
        id: 12,
        uuid: 0xabc,
        name: "Ann".to_string(),
        created_at: 1,
        updated_at: 2,
    });
    assert_eq!(user.id(), Ok(12));
    assert_eq!(user.uuid(), Ok(0xabc));
    assert_eq!(user.id(), Ok(12));
    let shared = user.clone();
    assert_eq!(shared.id(), Ok(12));
    assert_eq!(shared.uuid(), Ok(0xabc));
}

#[test]
fn a_broken_lock_is_an_internal_failure() {
    assert_eq!(read_or_poisoned(Some((5, 6))), Ok((5, 6)));
    assert_eq!(
        read_or_poisoned(None),
        Err(AppError(500, "VerifiedUser was poisoned.".to_string()))
    );
}

#[test]
fn nobody_is_signed_in_at_first() {
    let mut auth = AuthState::new();
    assert_eq!(auth.authenticated().err(), Some(login_required()));
    assert_eq!(signed_in(&auth), Err(login_required()));
    auth.set_user(VerifiedUser::new(User {
        id: 3,
        uuid: 4,
        name: "Ann".to_string(),
        created_at: 1,
        updated_at: 2,
    }));
    assert_eq!(auth.authenticated().unwrap().id(), Ok(3));
    assert_eq!(signed_in(&auth), Ok(3));
}

#[test]
fn a_sign_up_signs_in_once() {
    let mut db = MemoryDb::new();
    let mut auth = AuthState::new();
    let ann = create_user(&mut db, &mut auth, CreateUserRequest { name: "Ann".to_string() }, 7)
        .unwrap();
    assert_eq!(ann.name, "Ann");
    assert_eq!(ann.created_at, 7);
    assert_eq!(auth.authenticated().unwrap().id(), Ok(1));
    assert_eq!(auth.authenticated().unwrap().uuid(), Ok(ann.uuid));
    assert_eq!(get_verified_user(&db, &auth), Ok(ann));

    let again = create_user(&mut db, &mut auth, CreateUserRequest { name: "Ben".to_string() }, 8);
    assert_eq!(again, Err(AppError(400, "Already signed in.".to_string())));
    assert_eq!(db.next_id(DbEntity::Users), Ok(2));
    assert_eq!(auth.authenticated().unwrap().id(), Ok(1));
}

#[test]
fn requests_without_a_user_do_nothing() {
    let mut db = MemoryDb::new();
    let auth = AuthState::new();
    let request = CreateStoryRequest { title: "One".to_string(), content: vec![text("a", "b")] };
    assert_eq!(handle_create_story(&mut db, &auth, request, 5), Err(login_required()));
    assert_eq!(db.next_id(DbEntity::Stories), Ok(1));
    assert_eq!(db.next_id(DbEntity::Content), Ok(1));
    assert_eq!(handle_get_story(&db, &auth, 1), Err(login_required()));
    let request = api::UpdateStoryRequest { title: None, content: None };
    assert_eq!(handle_update_story(&mut db, &auth, 1, request, 5), Err(login_required()));
    assert_eq!(handle_delete_story(&mut db, &auth, 1, 5), Err(login_required()));
    assert_eq!(get_verified_user(&db, &auth), Err(login_required()));
}

#[test]
fn a_signed_in_user_whose_record_is_gone_is_not_found() {
    let db = MemoryDb::new();
    let mut auth = AuthState::new();
    auth.set_user(VerifiedUser::new(User {
        id: 3,
        uuid: 4,
        name: "Ann".to_string(),
        created_at: 1,
        updated_at: 2,
    }));
    assert_eq!(get_verified_user(&db, &auth), Err(AppError(404, "Not found".to_string())));
}

#[test]
fn a_story_goes_through_its_requests() {
    let mut db = MemoryDb::new();
    let auth = signed_up(&mut db, "Ann");
    let request = CreateStoryRequest {
        title: "Hello, world".to_string(),
        content: vec![text("A day in the life", "A picnic"), text("Evening", "Rain")],
    };
    let made = handle_create_story(&mut db, &auth, request, 10).unwrap();
    assert_eq!(made.content.len(), 2);
    assert_eq!(handle_get_story(&db, &auth, made.uuid), Ok(made.clone()));

    let request = api::UpdateStoryRequest {
        title: Some("Goodbye, moon".to_string()),
        content: Some(vec![api::UpdateContentRequest {
            uuid: made.content[1].uuid,
            content: text("Evening", "Stars"),
        }]),
    };
    let changed = handle_update_story(&mut db, &auth, made.uuid, request, 20).unwrap();
    assert_eq!(changed.title, "Goodbye, moon");
    assert_eq!(changed.updated_at, 20);
    assert_eq!(changed.created_at, 10);
    assert_eq!(changed.content.len(), 2);
    assert_eq!(changed.content[0], made.content[0]);
    assert_eq!(changed.content[1].details, text("Evening", "Stars"));
    assert_eq!(changed.content[1].updated_at, 20);

    // A request that names no title and no content moves the time only.
    let request = api::UpdateStoryRequest { title: None, content: None };
    let touched = handle_update_story(&mut db, &auth, made.uuid, request, 30).unwrap();
    assert_eq!(touched.title, "Goodbye, moon");
    assert_eq!(touched.updated_at, 30);
    assert_eq!(touched.content, changed.content);

    assert_eq!(handle_delete_story(&mut db, &auth, made.uuid, 40), Ok(()));
    let deleted = AppError(400, "Story has been deleted.".to_string());
    assert_eq!(handle_delete_story(&mut db, &auth, made.uuid, 50), Err(deleted.clone()));
    let request = api::UpdateStoryRequest {
        title: None,
        content: Some(vec![api::UpdateContentRequest {
            uuid: made.content[0].uuid,
            content: text("Late", "Change"),
        }]),
    };
    assert_eq!(handle_update_story(&mut db, &auth, made.uuid, request, 50), Err(deleted));
    let read = handle_get_story(&db, &auth, made.uuid).unwrap();
    assert_eq!(read.content, changed.content);
    assert_eq!(read.updated_at, 40);
}

#[test]
fn a_request_that_names_an_unknown_item_keeps_what_was_done_before_it() {
    let mut db = MemoryDb::new();
    let auth = signed_up(&mut db, "Ann");
    let request =
        CreateStoryRequest { title: "One".to_string(), content: vec![text("first", "1")] };
    let made = handle_create_story(&mut db, &auth, request, 10).unwrap();
    let request = api::UpdateStoryRequest {
        title: Some("Two".to_string()),
        content: Some(vec![
            api::UpdateContentRequest { uuid: made.content[0].uuid, content: text("first", "2") },
            api::UpdateContentRequest { uuid: 0, content: text("nowhere", "") },
        ]),
    };
    assert_eq!(
        handle_update_story(&mut db, &auth, made.uuid, request, 20),
        Err(AppError(404, "Not found".to_string()))
    );
    let read = handle_get_story(&db, &auth, made.uuid).unwrap();
    assert_eq!(read.title, "Two");
    assert_eq!(read.content[0].details, text("first", "2"));
}

#[test]
fn a_story_of_another_user_is_not_found() {
    let mut db = MemoryDb::new();
    let ann = signed_up(&mut db, "Ann");
    let ben = signed_up(&mut db, "Ben");
    let request = CreateStoryRequest { title: "One".to_string(), content: vec![] };
    let made = handle_create_story(&mut db, &ann, request, 10).unwrap();
    let not_found = AppError(404, "Not found".to_string());
    assert_eq!(handle_get_story(&db, &ben, made.uuid), Err(not_found.clone()));
    assert_eq!(handle_delete_story(&mut db, &ben, made.uuid, 20), Err(not_found.clone()));
    let request = api::UpdateStoryRequest { title: Some("Mine".to_string()), content: None };
    assert_eq!(handle_update_story(&mut db, &ben, made.uuid, request, 20), Err(not_found));
    match db.get_by_uuid(DbEntity::Stories, made.uuid).unwrap() {
        Entity::Story(story) => {
            assert_eq!(story.title, "One");
            assert_eq!(story.user_id, 1);
            assert!(!story.deleted);
        }
        other => panic!("no story: {:?}", other),
    }
}

#[test]
fn requested_changes_keep_their_order() {
    assert_eq!(content_updates(None).len(), 0);
    let updates = content_updates(Some(vec![
        api::UpdateContentRequest { uuid: 2, content: text("b", "") },
        api::UpdateContentRequest { uuid: 1, content: text("a", "") },
    ]));
    assert_eq!(updates.len(), 2);
    assert_eq!(updates[0].uuid, 2);
    assert_eq!(updates[1].uuid, 1);
    assert_eq!(updates[1].content, text("a", ""));
}
