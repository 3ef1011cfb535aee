//! The endpoints: for each, what the service answers and what it stores,
//! given the identity that the identity verification granted and the request's inputs.

use vstd::prelude::*;
use crate::auth::GithubUserData;
use crate::cruds::{
    Database, StoreError, conv_string_to_uuid, id_of_text, team_fits, user_fits,
};
use crate::ids::{new_id, now, EntityId};
use crate::models::{Event, Request, Solo, Team, User, NewSolo, NewTeam, NewJoin};

verus! {

pub const OK: u16 = 200;

pub const CREATED: u16 = 201;

pub const BAD_REQUEST: u16 = 400;

pub const UNAUTHORIZED: u16 = 401;

pub const NOT_FOUND: u16 = 404;

pub const INTERNAL_SERVER_ERROR: u16 = 500;

/// The body of an answer.
pub enum Payload {
    /// No body.
    Empty,
    /// The service's short greeting text.
    Greeting,
    User(User),
    Users(Vec<User>),
    Events(Vec<Event>),
    Team(Team),
    Teams(Vec<Team>),
    Requests(Vec<Request>),
}

/// An answer: an HTTP status and a body.
pub struct Reply {
    pub status: u16,
    pub payload: Payload,
}

/// The status that answers a failure of the persistence layer.
pub open spec fn status_for(e: StoreError) -> u16 {
    match e {
        StoreError::Validation => 400,
        StoreError::NotFound => 404,
        StoreError::Storage(_) => 500,
    }
}

/// An answer with the given status and no body.
pub open spec fn refusal(status: u16) -> Reply {
    Reply { status, payload: Payload::Empty }
}

/// The status that answers a failure of the persistence layer.
pub fn error_status(e: StoreError) -> (r: u16)
    ensures
        r == status_for(e),
{
    match e {
        StoreError::Validation => BAD_REQUEST,
        StoreError::NotFound => NOT_FOUND,
        StoreError::Storage(_) => INTERNAL_SERVER_ERROR,
    }
}

fn bare(status: u16) -> (r: Reply)
    ensures
        r == refusal(status),
{
    Reply { status, payload: Payload::Empty }
}

fn failure(e: StoreError) -> (r: Reply)
    ensures
        r == refusal(status_for(e)),
{
    bare(error_status(e))
}

fn created() -> (r: Reply)
    ensures
        r == refusal(201),
{
    bare(CREATED)
}

/// The identifier of the acting user: the first user, in the order of
/// creation, whose name is the login that the identity verification vouched for.
fn acting_user_id(db: &Database, login: &String) -> (r: Result<EntityId, StoreError>)
    ensures
        r is Err ==> r == Err::<EntityId, StoreError>(StoreError::NotFound) && !db.user_named(
            login@,
        ),
        r matches Ok(id) ==> db.user_named(login@) && forall|k: int|
            #[trigger] db.first_user_named(login@, k) ==> db.users()[k].id == id,
{
    match db.get_user_info_by_name(login) {
        Ok(u) => {
            proof {
                let i = choose|i: int| db.first_user_named(login@, i) && db.users()[i] == u;
                assert(db.users()[i].name@ == login@);
                assert forall|k: int| #[trigger] db.first_user_named(login@, k) implies
                    db.users()[k].id == u.id by {
                    if k < i {
                        assert(db.users()[k].name@ != login@);
                    } else if i < k {
                        assert(db.users()[i].name@ != login@);
                    }
                }
            }
            Ok(u.id)
        },
        Err(e) => Err(e),
    }
}

/// `GET /`: the greeting, to anyone.
pub fn index() -> (r: Reply)
    ensures
        r.status == 200 && r.payload is Greeting,
{
    Reply { status: OK, payload: Payload::Greeting }
}

/// `POST /api/users`: registers the caller under its login and avatar.
pub fn create_user(db: &mut Database, identity: &Option<GithubUserData>) -> (r: Reply)
    requires
        old(db).wf(),
    ensures
        final(db).wf(),
        identity is None ==> r == refusal(401) && *final(db) == *old(db),
        identity matches Some(who) ==> {
            ||| r == refusal(500) && *final(db) == *old(db)
            ||| r == refusal(201) && final(db).only_users_differ(old(db)) && final(db).users()
                == old(db).users().push(final(db).users().last()) && !old(db).has_user(
                final(db).users().last().id,
            ) && final(db).users().last().name == who.login && final(db).users().last().icon_url
                == who.avatar_url && final(db).users().last().profile@.len() == 0
        },
        identity matches Some(who) ==> {
            &&& !user_fits(who.login@, who.avatar_url@, Seq::empty()) ==> r == refusal(500)
                && *final(db) == *old(db)
            &&& user_fits(who.login@, who.avatar_url@, Seq::empty()) && old(db).users().len()
                == 0 ==> r == refusal(201)
        },
{
    let who = match identity {
        Some(u) => u,
        None => return bare(UNAUTHORIZED),
    };
    let empty = String::new();
    match db.create_user(&who.login, &who.avatar_url, &empty) {
        Ok(()) => created(),
        Err(e) => failure(e),
    }
}

/// `GET /api/users`: the user that `user_id` names, or else the caller.
pub fn get_user(db: &Database, identity: &Option<GithubUserData>, user_id: &Option<String>) -> (r:
    Reply)
    ensures
        identity is None ==> r == refusal(401),
        identity matches Some(who) ==> match user_id {
            Some(t) => match id_of_text(t@) {
                Err(_) => r == refusal(400),
                Ok(id) => {
                    &&& !db.has_user(id) ==> r == refusal(404)
                    &&& db.has_user(id) ==> r.status == 200 && (r.payload matches Payload::User(u)
                        && u.id == id && db.users().contains(u))
                },
            },
            None => {
                &&& !db.user_named(who.login@) ==> r == refusal(404)
                &&& forall|k: int| #[trigger]
                    db.first_user_named(who.login@, k) ==> r.status == 200 && r.payload
                        == Payload::User(db.users()[k])
            },
        },
{
    let who = match identity {
        Some(u) => u,
        None => return bare(UNAUTHORIZED),
    };
    let found = match user_id {
        Some(t) => db.get_user_info_by_id(t),
        None => db.get_user_info_by_name(&who.login),
    };
    match found {
        Ok(u) => {
            proof {
                if user_id is None {
                    let i = choose|i: int|
                        db.first_user_named(who.login@, i) && db.users()[i] == u;
                    assert forall|k: int| #[trigger]
                        db.first_user_named(who.login@, k) implies db.users()[k] == u by {
                        if k < i {
                            assert(db.users()[k].name@ != who.login@);
                        } else if i < k {
                            assert(db.users()[i].name@ != who.login@);
                        }
                    }
                }
            }
            Reply { status: OK, payload: Payload::User(u) }
        },
        Err(e) => failure(e),
    }
}

/// `POST /api/events`: creates an event.
pub fn create_event(
    db: &mut Database,
    identity: &Option<GithubUserData>,
    name: &String,
    desc: &String,
    url: &String,
) -> (r: Reply)
    requires
        old(db).wf(),
    ensures
        final(db).wf(),
        identity is None ==> r == refusal(401) && *final(db) == *old(db),
        identity is Some ==> {
            ||| r == refusal(500) && *final(db) == *old(db)
            ||| r == refusal(201) && final(db).only_events_differ(old(db)) && final(db).events()
                == old(db).events().push(final(db).events().last()) && !old(db).has_event(
                final(db).events().last().id,
            ) && final(db).events().last().name == *name && final(db).events().last().desc
                == *desc && final(db).events().last().url == *url
        },
        identity is Some && old(db).events().len() == 0 ==> r == refusal(201),
{
    if identity.is_none() {
        return bare(UNAUTHORIZED);
    }
    match db.create_event(name, desc, url) {
        Ok(()) => created(),
        Err(e) => failure(e),
    }
}

/// `GET /api/events`: all events.
pub fn get_event(db: &Database, identity: &Option<GithubUserData>) -> (r: Reply)
    ensures
        identity is None ==> r == refusal(401),
        identity is Some ==> r.status == 200 && (r.payload matches Payload::Events(v) && v@
            == db.events()),
{
    if identity.is_none() {
        return bare(UNAUTHORIZED);
    }
    match db.get_event_list() {
        Ok(v) => Reply { status: OK, payload: Payload::Events(v) },
        Err(e) => failure(e),
    }
}

/// `DELETE /api/events`: deletes the event that `event_id` names.
pub fn delete_event(db: &mut Database, identity: &Option<GithubUserData>, event_id: &String) -> (r:
    Reply)
    requires
        old(db).wf(),
    ensures
        final(db).wf(),
        identity is None ==> r == refusal(401) && *final(db) == *old(db),
        identity is Some ==> match id_of_text(event_id@) {
            Err(_) => r == refusal(400) && *final(db) == *old(db),
            Ok(e) => {
                &&& !old(db).has_event(e) ==> r == refusal(404) && *final(db) == *old(db)
                &&& old(db).has_event(e) && old(db).event_referenced(e) ==> r == refusal(500)
                    && *final(db) == *old(db)
                &&& old(db).has_event(e) && !old(db).event_referenced(e) ==> r == refusal(201)
                    && final(db).only_events_differ(old(db)) && exists|i: int|
                    0 <= i < old(db).events().len() && old(db).events()[i].id == e
                        && final(db).events() == old(db).events().remove(i)
            },
        },
{
    if identity.is_none() {
        return bare(UNAUTHORIZED);
    }
    let event = match conv_string_to_uuid(event_id.as_str()) {
        Ok(e) => e,
        Err(e) => return failure(e),
    };
    match db.delete_event_by_id(&event) {
        Ok(()) => created(),
        Err(e) => failure(e),
    }
}

/// `POST /api/solos`: records that the caller takes part in the event that
/// `event_id` names without a team.
pub fn create_solo(db: &mut Database, identity: &Option<GithubUserData>, event_id: &String) -> (r:
    Reply)
    requires
        old(db).wf(),
    ensures
        final(db).wf(),
        identity is None ==> r == refusal(401) && *final(db) == *old(db),
        identity matches Some(who) ==> match id_of_text(event_id@) {
            Err(_) => r == refusal(400) && *final(db) == *old(db),
            Ok(e) => {
                &&& !old(db).user_named(who.login@) ==> r == refusal(404) && *final(db)
                    == *old(db)
                &&& forall|k: int| #[trigger]
                    old(db).first_user_named(who.login@, k) ==> match old(db).solo_outcome(
                        e,
                        old(db).users()[k].id,
                    ) {
                        Err(_) => r == refusal(500) && *final(db) == *old(db),
                        Ok(_) => r == refusal(201) && final(db).only_solos_differ(old(db))
                            && final(db).solos() == old(db).solos().push(final(db).solos().last())
                            && final(db).solos().last().event_id == e
                            && final(db).solos().last().user_id == old(db).users()[k].id,
                    }
            },
        },
{
    let who = match identity {
        Some(u) => u,
        None => return bare(UNAUTHORIZED),
    };
    let event = match conv_string_to_uuid(event_id.as_str()) {
        Ok(e) => e,
        Err(e) => return failure(e),
    };
    let user = match acting_user_id(db, &who.login) {
        Ok(id) => id,
        Err(e) => return failure(e),
    };
    let new_solo = NewSolo { event_id: &event, user_id: &user };
    match db.insert_solo(now(), new_solo) {
        Ok(()) => created(),
        Err(e) => failure(e),
    }
}

/// `GET /api/solos`: the users who take part in the event that `event_id`
/// names without a team.
pub fn get_solo(db: &Database, identity: &Option<GithubUserData>, event_id: &String) -> (r: Reply)
    requires
        db.wf(),
    ensures
        identity is None ==> r == refusal(401),
        identity is Some ==> match id_of_text(event_id@) {
            Err(_) => r == refusal(400),
            Ok(e) => r.status == 200 && (r.payload matches Payload::Users(v) && v@.len()
                == db.solos().filter(|x: Solo| x.event_id == e).len() && forall|
                k: int,
            |
                0 <= k < v@.len() ==> (#[trigger] v@[k]).id == db.solos().filter(
                    |x: Solo| x.event_id == e,
                )[k].user_id && db.users().contains(v@[k])),
        },
{
    if identity.is_none() {
        return bare(UNAUTHORIZED);
    }
    match db.get_wanna_join_users_by_event_id(event_id) {
        Ok(v) => Reply { status: OK, payload: Payload::Users(v) },
        Err(e) => failure(e),
    }
}

/// `POST /api/teams`: creates a team of the event that `event_id` names, led
/// by the caller.
pub fn create_team(
    db: &mut Database,
    identity: &Option<GithubUserData>,
    event_id: &String,
    name: &String,
    desc: &String,
) -> (r: Reply)
    requires
        old(db).wf(),
    ensures
        final(db).wf(),
        identity is None ==> r == refusal(401) && *final(db) == *old(db),
        identity matches Some(who) ==> match id_of_text(event_id@) {
            Err(_) => r == refusal(400) && *final(db) == *old(db),
            Ok(e) => {
                &&& !old(db).user_named(who.login@) ==> r == refusal(404) && *final(db)
                    == *old(db)
                &&& old(db).user_named(who.login@) && !team_fits(name@, desc@) ==> r == refusal(
                    500,
                ) && *final(db) == *old(db)
                &&& old(db).user_named(who.login@) && !old(db).has_event(e) ==> r == refusal(500)
                    && *final(db) == *old(db)
                &&& forall|k: int| #[trigger]
                    old(db).first_user_named(who.login@, k) ==> {
                        ||| r == refusal(500) && *final(db) == *old(db)
                        ||| r == refusal(201) && old(db).has_event(e)
                            && final(db).only_teams_differ(old(db))
                            && final(db).teams() == old(db).teams().push(final(db).teams().last())
                            && !old(db).has_team(final(db).teams().last().id)
                            && final(db).teams().last().event_id == e
                            && final(db).teams().last().reader_id == old(db).users()[k].id
                            && final(db).teams().last().name == *name
                            && final(db).teams().last().desc == *desc
                    }
                &&& forall|k: int| #[trigger]
                    old(db).first_user_named(who.login@, k) ==> (team_fits(name@, desc@) && old(
                        db,
                    ).has_event(e) && old(db).teams().len() == 0 ==> r == refusal(201))
            },
        },
{
    let who = match identity {
        Some(u) => u,
        None => return bare(UNAUTHORIZED),
    };
    let event = match conv_string_to_uuid(event_id.as_str()) {
        Ok(e) => e,
        Err(e) => return failure(e),
    };
    let reader = match acting_user_id(db, &who.login) {
        Ok(id) => id,
        Err(e) => return failure(e),
    };
    let new_team = NewTeam { event_id: &event, reader_id: &reader, name, desc };
    match db.insert_team(new_id(), now(), new_team) {
        Ok(()) => created(),
        Err(e) => failure(e),
    }
}

/// `GET /api/teams`: the team that `team_id` names.
pub fn get_team(db: &Database, identity: &Option<GithubUserData>, team_id: &String) -> (r: Reply)
    ensures
        identity is None ==> r == refusal(401),
        identity is Some ==> match id_of_text(team_id@) {
            Err(_) => r == refusal(400),
            Ok(id) => {
                &&& !db.has_team(id) ==> r == refusal(404)
                &&& db.has_team(id) ==> r.status == 200 && (r.payload matches Payload::Team(t)
                    && t.id == id && db.teams().contains(t))
            },
        },
{
    if identity.is_none() {
        return bare(UNAUTHORIZED);
    }
    match db.get_team_info_by_id(team_id) {
        Ok(t) => Reply { status: OK, payload: Payload::Team(t) },
        Err(e) => failure(e),
    }
}

/// `GET /api/teams/event`: the teams of the event that `event_id` names.
pub fn get_team_by_event(db: &Database, identity: &Option<GithubUserData>, event_id: &String) -> (r:
    Reply)
    ensures
        identity is None ==> r == refusal(401),
        identity is Some ==> match id_of_text(event_id@) {
            Err(_) => r == refusal(400),
            Ok(e) => r.status == 200 && (r.payload matches Payload::Teams(v) && v@
                == db.teams().filter(|x: Team| x.event_id == e)),
        },
{
    if identity.is_none() {
        return bare(UNAUTHORIZED);
    }
    match db.get_wanna_join_teams_by_event_id(event_id) {
        Ok(v) => Reply { status: OK, payload: Payload::Teams(v) },
        Err(e) => failure(e),
    }
}

/// `POST /api/joins`: records the caller as a member of the team that
/// `team_id` names.
pub fn create_join(db: &mut Database, identity: &Option<GithubUserData>, team_id: &String) -> (r:
    Reply)
    requires
        old(db).wf(),
    ensures
        final(db).wf(),
        identity is None ==> r == refusal(401) && *final(db) == *old(db),
        identity matches Some(who) ==> match id_of_text(team_id@) {
            Err(_) => r == refusal(400) && *final(db) == *old(db),
            Ok(t) => {
                &&& !old(db).user_named(who.login@) ==> r == refusal(404) && *final(db)
                    == *old(db)
                &&& forall|k: int| #[trigger]
                    old(db).first_user_named(who.login@, k) ==> match old(db).join_outcome(
                        t,
                        old(db).users()[k].id,
                    ) {
                        Err(_) => r == refusal(500) && *final(db) == *old(db),
                        Ok(_) => r == refusal(201) && final(db).only_joins_differ(old(db))
                            && final(db).joins() == old(db).joins().push(final(db).joins().last())
                            && final(db).joins().last().team_id == t
                            && final(db).joins().last().user_id == old(db).users()[k].id,
                    }
            },
        },
{
    let who = match identity {
        Some(u) => u,
        None => return bare(UNAUTHORIZED),
    };
    let team = match conv_string_to_uuid(team_id.as_str()) {
        Ok(t) => t,
        Err(e) => return failure(e),
    };
    let user = match acting_user_id(db, &who.login) {
        Ok(id) => id,
        Err(e) => return failure(e),
    };
    let new_join = NewJoin { team_id: &team, user_id: &user };
    match db.insert_join(now(), new_join) {
        Ok(()) => created(),
        Err(e) => failure(e),
    }
}

/// `POST /api/requests`: records the request of the user that `user_id`
/// names to join the team that `team_id` names.
pub fn create_request(
    db: &mut Database,
    identity: &Option<GithubUserData>,
    team_id: &String,
    user_id: &String,
    message: &String,
) -> (r: Reply)
    requires
        old(db).wf(),
    ensures
        final(db).wf(),
        identity is None ==> r == refusal(401) && *final(db) == *old(db),
        identity is Some ==> match (id_of_text(team_id@), id_of_text(user_id@)) {
            (Ok(t), Ok(u)) => match old(db).request_outcome(t, u, message@) {
                Err(_) => r == refusal(500) && *final(db) == *old(db),
                Ok(_) => r == refusal(201) && final(db).only_requests_differ(old(db))
                    && final(db).requests() == old(db).requests().push(
                    final(db).requests().last(),
                ) && final(db).requests().last().team_id == t
                    && final(db).requests().last().user_id == u
                    && final(db).requests().last().message == *message,
            },
            _ => r == refusal(400) && *final(db) == *old(db),
        },
{
    if identity.is_none() {
        return bare(UNAUTHORIZED);
    }
    match db.create_request(team_id, user_id, message) {
        Ok(()) => created(),
        Err(e) => failure(e),
    }
}

/// `GET /api/requests`: the join requests that the caller made.
pub fn get_request(db: &Database, identity: &Option<GithubUserData>) -> (r: Reply)
    ensures
        identity is None ==> r == refusal(401),
        identity matches Some(who) ==> {
            &&& !db.user_named(who.login@) ==> r == refusal(404)
            &&& forall|k: int| #[trigger]
                db.first_user_named(who.login@, k) ==> r.status == 200 && (r.payload
                    matches Payload::Requests(v)
                    && v@ == db.requests().filter(|x: Request| x.user_id == db.users()[k].id))
        },
{
    let who = match identity {
        Some(u) => u,
        None => return bare(UNAUTHORIZED),
    };
    let user = match acting_user_id(db, &who.login) {
        Ok(id) => id,
        Err(e) => return failure(e),
    };
    Reply { status: OK, payload: Payload::Requests(db.requests_by_user(user)) }
}

} // verus!
