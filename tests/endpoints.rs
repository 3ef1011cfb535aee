use teamup::auth::GithubUserData;
use teamup::cruds::{Database, StorageFault, StoreError};
use teamup::router::{
    create_event, create_join, create_request, create_solo, create_team, create_user,
    delete_event, error_status, get_event, get_request, get_solo, get_team, get_team_by_event,
    get_user, index, Payload,
};

fn who() -> Option<GithubUserData> {
    Some(GithubUserData { login: "octocat".to_string(), avatar_url: "http://a/o.png".to_string() })
}

fn s(t: &str) -> String {
    t.to_string()
}

fn text_of(id: teamup::ids::EntityId) -> String {
    uuid::Uuid::from_u128(id.value).to_string()
}

fn registered_with_event() -> (Database, String) {
    let mut db = Database::new();
    assert_eq!(create_user(&mut db, &who()).status, 201);
    assert_eq!(create_event(&mut db, &who(), &s("Hack Day"), &s("..."), &s("http://...")).status, 201);
    let event = match get_event(&db, &who()).payload {
        Payload::Events(v) => v[0].id,
        _ => panic!("expected events"),
    };
    (db, text_of(event))
}

#[test]
fn index_greets() {
    let r = index();
    assert_eq!(r.status, 200);
    assert!(matches!(r.payload, Payload::Greeting));
}

#[test]
fn error_statuses_follow_the_taxonomy() {
    assert_eq!(error_status(StoreError::Validation), 400);
    assert_eq!(error_status(StoreError::NotFound), 404);
    assert_eq!(error_status(StoreError::Storage(StorageFault::DuplicateKey)), 500);
    assert_eq!(error_status(StoreError::Storage(StorageFault::MissingReference)), 500);
    assert_eq!(error_status(StoreError::Storage(StorageFault::StillReferenced)), 500);
}

#[test]
fn no_identity_is_unauthorized_and_stores_nothing() {
    let (mut db, event) = registered_with_event();
    let none: Option<GithubUserData> = None;
    assert_eq!(create_user(&mut db, &none).status, 401);
    assert_eq!(create_event(&mut db, &none, &s("x"), &s("y"), &s("z")).status, 401);
    assert_eq!(delete_event(&mut db, &none, &event).status, 401);
    assert_eq!(create_solo(&mut db, &none, &event).status, 401);
    assert_eq!(create_team(&mut db, &none, &event, &s("t"), &s("d")).status, 401);
    assert_eq!(create_join(&mut db, &none, &event).status, 401);
    assert_eq!(create_request(&mut db, &none, &event, &event, &s("m")).status, 401);
    assert_eq!(get_user(&db, &none, &None).status, 401);
    assert_eq!(get_event(&db, &none).status, 401);
    assert_eq!(get_solo(&db, &none, &event).status, 401);
    assert_eq!(get_team(&db, &none, &event).status, 401);
    assert_eq!(get_team_by_event(&db, &none, &event).status, 401);
    assert_eq!(get_request(&db, &none).status, 401);
    assert_eq!(db.get_event_list().unwrap().len(), 1);
    assert_eq!(db.get_wanna_join_teams_by_event_id(&event).unwrap().len(), 0);
    assert_eq!(db.get_wanna_join_users_by_event_id(&event).unwrap().len(), 0);
}

#[test]
fn caller_is_found_by_login() {
    let (db, _) = registered_with_event();
    let r = get_user(&db, &who(), &None);
    assert_eq!(r.status, 200);
    match r.payload {
        Payload::User(u) => {
            assert_eq!(u.name, "octocat");
            assert_eq!(u.icon_url, "http://a/o.png");
            assert_eq!(u.profile, "");
        }
        _ => panic!("expected a user"),
    }
    assert_eq!(get_user(&db, &who(), &Some(s("bad"))).status, 400);
    assert_eq!(
        get_user(&db, &who(), &Some(s("00000000-0000-4000-8000-000000000009"))).status,
        404
    );
}

#[test]
fn unregistered_caller_is_not_found() {
    let mut db = Database::new();
    create_event(&mut db, &who(), &s("Hack Day"), &s(""), &s("")).status;
    let event = match get_event(&db, &who()).payload {
        Payload::Events(v) => text_of(v[0].id),
        _ => panic!("expected events"),
    };
    assert_eq!(create_solo(&mut db, &who(), &event).status, 404);
    assert_eq!(create_team(&mut db, &who(), &event, &s("t"), &s("d")).status, 404);
    assert_eq!(get_request(&db, &who()).status, 404);
    assert_eq!(get_user(&db, &who(), &None).status, 404);
}

#[test]
fn team_flow_through_the_endpoints() {
    let (mut db, event) = registered_with_event();
    assert_eq!(create_team(&mut db, &who(), &event, &s("Rustaceans"), &s("we ship")).status, 201);
    let team = match get_team_by_event(&db, &who(), &event).payload {
        Payload::Teams(v) => {
            assert_eq!(v.len(), 1);
            assert_eq!(v[0].name, "Rustaceans");
            v[0].id
        }
        _ => panic!("expected teams"),
    };
    let r = get_team(&db, &who(), &text_of(team));
    assert_eq!(r.status, 200);
    assert!(matches!(r.payload, Payload::Team(t) if t.id == team));
    assert_eq!(create_join(&mut db, &who(), &text_of(team)).status, 201);
    assert_eq!(create_join(&mut db, &who(), &text_of(team)).status, 500);
    let me = db.get_user_info_by_name(&s("octocat")).unwrap().id;
    assert_eq!(create_request(&mut db, &who(), &text_of(team), &text_of(me), &s("hi")).status, 201);
    assert_eq!(create_request(&mut db, &who(), &text_of(team), &text_of(me), &s("hi")).status, 500);
    assert_eq!(create_request(&mut db, &who(), &s("x"), &text_of(me), &s("hi")).status, 400);
    match get_request(&db, &who()).payload {
        Payload::Requests(v) => {
            assert_eq!(v.len(), 1);
            assert_eq!(v[0].message, "hi");
        }
        _ => panic!("expected requests"),
    }
    assert_eq!(delete_event(&mut db, &who(), &event).status, 500);
}

#[test]
fn team_of_missing_event_is_refused() {
    let (mut db, _) = registered_with_event();
    let missing = s("00000000-0000-4000-8000-00000000000a");
    assert_eq!(create_team(&mut db, &who(), &missing, &s("t"), &s("d")).status, 500);
    assert_eq!(create_team(&mut db, &who(), &s("nope"), &s("t"), &s("d")).status, 400);
}

#[test]
fn solo_flow_through_the_endpoints() {
    let (mut db, event) = registered_with_event();
    assert_eq!(create_solo(&mut db, &who(), &event).status, 201);
    assert_eq!(create_solo(&mut db, &who(), &event).status, 500);
    let r = get_solo(&db, &who(), &event);
    assert_eq!(r.status, 200);
    match r.payload {
        Payload::Users(v) => {
            assert_eq!(v.len(), 1);
            assert_eq!(v[0].name, "octocat");
        }
        _ => panic!("expected users"),
    }
    assert_eq!(get_solo(&db, &who(), &s("nope")).status, 400);
}

#[test]
fn event_delete_through_the_endpoint() {
    let (mut db, event) = registered_with_event();
    assert_eq!(delete_event(&mut db, &who(), &s("nope")).status, 400);
    assert_eq!(delete_event(&mut db, &who(), &event).status, 201);
    assert_eq!(delete_event(&mut db, &who(), &event).status, 404);
    match get_event(&db, &who()).payload {
        Payload::Events(v) => assert!(v.is_empty()),
        _ => panic!("expected events"),
    }
}

#[test]
fn overlong_login_is_refused() {
    let mut db = Database::new();
    let long = Some(GithubUserData { login: "l".repeat(101), avatar_url: String::new() });
    assert_eq!(create_user(&mut db, &long).status, 500);
    assert_eq!(get_user(&db, &long, &None).status, 404);
}

#[test]
fn overlong_team_name_is_refused_through_the_endpoint() {
    let (mut db, event) = registered_with_event();
    assert_eq!(create_team(&mut db, &who(), &event, &"n".repeat(101), &s("d")).status, 500);
    match get_team_by_event(&db, &who(), &event).payload {
        Payload::Teams(v) => assert!(v.is_empty()),
        _ => panic!("expected teams"),
    }
}
