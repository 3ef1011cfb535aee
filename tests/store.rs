use teamup::cruds::{conv_string_to_uuid, Database, StorageFault, StoreError};
use teamup::ids::EntityId;

fn text_of(id: EntityId) -> String {
    uuid::Uuid::from_u128(id.value).to_string()
}

fn s(t: &str) -> String {
    t.to_string()
}

fn store_with_user_and_event() -> (Database, EntityId, EntityId) {
    let mut db = Database::new();
    db.create_user(&s("octocat"), &s("http://icons/octocat.png"), &s("")).unwrap();
    db.create_event(&s("Hack Day"), &s("a day of hacking"), &s("http://hack.day")).unwrap();
    let user = db.get_user_info_by_name(&s("octocat")).unwrap().id;
    let event = db.get_event_list().unwrap()[0].id;
    (db, user, event)
}

#[test]
fn conv_reads_hyphenated_uuid() {
    let id = conv_string_to_uuid("550e8400-e29b-41d4-a716-446655440000").unwrap();
    assert_eq!(id.value, 0x550e8400_e29b_41d4_a716_446655440000u128);
}

#[test]
fn conv_reads_simple_uuid() {
    let id = conv_string_to_uuid("550e8400e29b41d4a716446655440000").unwrap();
    assert_eq!(id.value, 0x550e8400_e29b_41d4_a716_446655440000u128);
}

#[test]
fn conv_rejects_malformed_text() {
    assert_eq!(conv_string_to_uuid("octocat"), Err(StoreError::Validation));
    assert_eq!(conv_string_to_uuid(""), Err(StoreError::Validation));
    assert_eq!(
        conv_string_to_uuid("550e8400-e29b-41d4-a716-44665544000g"),
        Err(StoreError::Validation)
    );
}

#[test]
fn created_event_is_listed_once_with_fresh_id() {
    let mut db = Database::new();
    db.create_event(&s("Hack Day"), &s("..."), &s("http://...")).unwrap();
    let events = db.get_event_list().unwrap();
    let named: Vec<_> = events.iter().filter(|e| e.name == "Hack Day").collect();
    assert_eq!(named.len(), 1);
    assert_eq!(named[0].desc, "...");
    assert_eq!(named[0].url, "http://...");
    assert_eq!(named[0].created_at, named[0].updated_at);
    db.create_event(&s("Game Jam"), &s(""), &s("")).unwrap();
    let events = db.get_event_list().unwrap();
    assert_eq!(events.len(), 2);
    assert_ne!(events[0].id, events[1].id);
    assert_eq!(events[1].name, "Game Jam");
}

#[test]
fn team_of_missing_event_is_refused_and_not_stored() {
    let (mut db, user, _) = store_with_user_and_event();
    let missing = s("00000000-0000-4000-8000-000000000001");
    let r = db.create_team(&missing, &text_of(user), &s("Rustaceans"), &s("we ship"));
    assert_eq!(r, Err(StoreError::Storage(StorageFault::MissingReference)));
    assert!(db.get_wanna_join_teams_by_event_id(&missing).unwrap().is_empty());
}

#[test]
fn team_with_malformed_ids_is_a_validation_error() {
    let (mut db, user, event) = store_with_user_and_event();
    assert_eq!(
        db.create_team(&s("not-an-id"), &text_of(user), &s("a"), &s("b")),
        Err(StoreError::Validation)
    );
    assert_eq!(
        db.create_team(&text_of(event), &s("octocat"), &s("a"), &s("b")),
        Err(StoreError::Validation)
    );
}

#[test]
fn team_is_stored_and_found() {
    let (mut db, user, event) = store_with_user_and_event();
    db.create_team(&text_of(event), &text_of(user), &s("Rustaceans"), &s("we ship")).unwrap();
    let teams = db.get_wanna_join_teams_by_event_id(&text_of(event)).unwrap();
    assert_eq!(teams.len(), 1);
    assert_eq!(teams[0].name, "Rustaceans");
    assert_eq!(teams[0].desc, "we ship");
    assert_eq!(teams[0].reader_id, user);
    assert_eq!(teams[0].event_id, event);
    let found = db.get_team_info_by_id(&text_of(teams[0].id)).unwrap();
    assert_eq!(found.id, teams[0].id);
    assert_eq!(
        db.get_team_info_by_id(&s("00000000-0000-4000-8000-000000000002")).unwrap_err(),
        StoreError::NotFound
    );
}

#[test]
fn deleted_event_leaves_the_listing() {
    let (mut db, _, event) = store_with_user_and_event();
    db.create_event(&s("Game Jam"), &s(""), &s("")).unwrap();
    assert_eq!(db.delete_event_by_id(&event), Ok(()));
    let events = db.get_event_list().unwrap();
    assert_eq!(events.len(), 1);
    assert!(events.iter().all(|e| e.id != event));
    assert_eq!(events[0].name, "Game Jam");
}

#[test]
fn deleting_missing_event_is_not_found() {
    let (mut db, _, _) = store_with_user_and_event();
    let missing = EntityId { value: 7 };
    assert_eq!(db.delete_event_by_id(&missing), Err(StoreError::NotFound));
    assert_eq!(db.get_event_list().unwrap().len(), 1);
}

#[test]
fn deleting_event_with_a_team_is_refused() {
    let (mut db, user, event) = store_with_user_and_event();
    db.create_team(&text_of(event), &text_of(user), &s("t"), &s("d")).unwrap();
    assert_eq!(
        db.delete_event_by_id(&event),
        Err(StoreError::Storage(StorageFault::StillReferenced))
    );
    assert_eq!(db.get_event_list().unwrap().len(), 1);
}

#[test]
fn second_request_for_same_pair_is_rejected() {
    let (mut db, user, event) = store_with_user_and_event();
    db.create_team(&text_of(event), &text_of(user), &s("t"), &s("d")).unwrap();
    let team = db.get_wanna_join_teams_by_event_id(&text_of(event)).unwrap()[0].id;
    assert_eq!(db.create_request(&text_of(team), &text_of(user), &s("let me in")), Ok(()));
    assert_eq!(
        db.create_request(&text_of(team), &text_of(user), &s("again")),
        Err(StoreError::Storage(StorageFault::DuplicateKey))
    );
    let requests = db.get_requests_from_user_id(&text_of(user)).unwrap();
    assert_eq!(requests.len(), 1);
    assert_eq!(requests[0].message, "let me in");
    assert_eq!(requests[0].team_id, team);
}

#[test]
fn second_join_for_same_pair_is_rejected() {
    let (mut db, user, event) = store_with_user_and_event();
    db.create_team(&text_of(event), &text_of(user), &s("t"), &s("d")).unwrap();
    let team = db.get_wanna_join_teams_by_event_id(&text_of(event)).unwrap()[0].id;
    assert_eq!(db.create_join(&text_of(team), &text_of(user)), Ok(()));
    assert_eq!(
        db.create_join(&text_of(team), &text_of(user)),
        Err(StoreError::Storage(StorageFault::DuplicateKey))
    );
}

#[test]
fn request_for_missing_team_is_refused() {
    let (mut db, user, _) = store_with_user_and_event();
    assert_eq!(
        db.create_request(&s("00000000-0000-4000-8000-000000000003"), &text_of(user), &s("hi")),
        Err(StoreError::Storage(StorageFault::MissingReference))
    );
    assert!(db.get_requests_from_user_id(&text_of(user)).unwrap().is_empty());
}

#[test]
fn solo_users_of_an_event_are_listed() {
    let (mut db, user, event) = store_with_user_and_event();
    db.create_user(&s("hubot"), &s(""), &s("bot")).unwrap();
    let other = db.get_user_info_by_name(&s("hubot")).unwrap().id;
    db.create_solo(&text_of(event), &text_of(other)).unwrap();
    db.create_solo(&text_of(event), &text_of(user)).unwrap();
    assert_eq!(
        db.create_solo(&text_of(event), &text_of(user)),
        Err(StoreError::Storage(StorageFault::DuplicateKey))
    );
    let users = db.get_wanna_join_users_by_event_id(&text_of(event)).unwrap();
    assert_eq!(users.len(), 2);
    assert_eq!(users[0].name, "hubot");
    assert_eq!(users[0].profile, "bot");
    assert_eq!(users[1].name, "octocat");
    assert_eq!(
        db.get_wanna_join_users_by_event_id(&s("nope")).unwrap_err(),
        StoreError::Validation
    );
}

#[test]
fn users_are_found_by_id_and_by_first_name() {
    let (mut db, user, _) = store_with_user_and_event();
    db.create_user(&s("octocat"), &s("second"), &s("")).unwrap();
    let first = db.get_user_info_by_name(&s("octocat")).unwrap();
    assert_eq!(first.id, user);
    assert_eq!(first.icon_url, "http://icons/octocat.png");
    assert_eq!(db.get_user_info_by_id(&text_of(user)).unwrap().name, "octocat");
    assert_eq!(db.get_user_info_by_name(&s("nobody")).unwrap_err(), StoreError::NotFound);
    assert_eq!(
        db.get_user_info_by_id(&s("00000000-0000-4000-8000-000000000004")).unwrap_err(),
        StoreError::NotFound
    );
    assert_eq!(db.get_user_info_by_id(&s("octocat")).unwrap_err(), StoreError::Validation);
}

#[test]
fn user_fields_longer_than_their_columns_are_refused() {
    let mut db = Database::new();
    let long_name = "n".repeat(101);
    let long_text = "t".repeat(401);
    let too_long = Err(StoreError::Storage(StorageFault::ValueTooLong));
    assert_eq!(db.create_user(&long_name, &s(""), &s("")), too_long);
    assert_eq!(db.create_user(&s("octocat"), &long_text, &s("")), too_long);
    assert_eq!(db.create_user(&s("octocat"), &s(""), &long_text), too_long);
    assert_eq!(db.get_user_info_by_name(&long_name).unwrap_err(), StoreError::NotFound);
    assert_eq!(db.create_user(&"n".repeat(100), &"t".repeat(400), &"t".repeat(400)), Ok(()));
}

#[test]
fn team_fields_longer_than_their_columns_are_refused() {
    let (mut db, user, event) = store_with_user_and_event();
    let too_long = Err(StoreError::Storage(StorageFault::ValueTooLong));
    assert_eq!(db.create_team(&text_of(event), &text_of(user), &"n".repeat(101), &s("d")), too_long);
    assert_eq!(db.create_team(&text_of(event), &text_of(user), &s("t"), &"d".repeat(401)), too_long);
    assert!(db.get_wanna_join_teams_by_event_id(&text_of(event)).unwrap().is_empty());
    assert_eq!(db.create_team(&text_of(event), &text_of(user), &"n".repeat(100), &"d".repeat(400)), Ok(()));
}

#[test]
fn request_message_longer_than_its_column_is_refused() {
    let (mut db, user, event) = store_with_user_and_event();
    db.create_team(&text_of(event), &text_of(user), &s("t"), &s("d")).unwrap();
    let team = db.get_wanna_join_teams_by_event_id(&text_of(event)).unwrap()[0].id;
    assert_eq!(
        db.create_request(&text_of(team), &text_of(user), &"m".repeat(401)),
        Err(StoreError::Storage(StorageFault::ValueTooLong))
    );
    assert!(db.get_requests_from_user_id(&text_of(user)).unwrap().is_empty());
    assert_eq!(db.create_request(&text_of(team), &text_of(user), &"m".repeat(400)), Ok(()));
}

#[test]
fn first_rows_are_created() {
    let mut db = Database::new();
    assert_eq!(db.create_event(&s("e"), &s(""), &s("")), Ok(()));
    assert_eq!(db.create_user(&s("u"), &s(""), &s("")), Ok(()));
    let user = db.get_user_info_by_name(&s("u")).unwrap().id;
    let event = db.get_event_list().unwrap()[0].id;
    assert_eq!(db.create_team(&text_of(event), &text_of(user), &s("t"), &s("")), Ok(()));
}
