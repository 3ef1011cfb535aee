//! The tables as sequences of rows: which keys they list, which keys are
//! unique, and which foreign keys name a listed row.

use vstd::prelude::*;
use crate::ids::EntityId;
use crate::models::{Event, Join, Request, Solo, Team, User};

verus! {

/// Some event in `s` has the identifier `id`.
pub open spec fn event_listed(s: Seq<Event>, id: EntityId) -> bool {
    exists|i: int| 0 <= i < s.len() && #[trigger] s[i].id == id
}

/// Some user in `s` has the identifier `id`.
pub open spec fn user_listed(s: Seq<User>, id: EntityId) -> bool {
    exists|i: int| 0 <= i < s.len() && #[trigger] s[i].id == id
}

/// Some team in `s` has the identifier `id`.
pub open spec fn team_listed(s: Seq<Team>, id: EntityId) -> bool {
    exists|i: int| 0 <= i < s.len() && #[trigger] s[i].id == id
}

/// Some solo entry in `s` has the key `(event_id, user_id)`.
pub open spec fn solo_listed(s: Seq<Solo>, event_id: EntityId, user_id: EntityId) -> bool {
    exists|i: int|
        0 <= i < s.len() && #[trigger] s[i].event_id == event_id && s[i].user_id == user_id
}

/// Some membership in `s` has the key `(team_id, user_id)`.
pub open spec fn join_listed(s: Seq<Join>, team_id: EntityId, user_id: EntityId) -> bool {
    exists|i: int|
        0 <= i < s.len() && #[trigger] s[i].team_id == team_id && s[i].user_id == user_id
}

/// Some join request in `s` has the key `(team_id, user_id)`.
pub open spec fn request_listed(s: Seq<Request>, team_id: EntityId, user_id: EntityId) -> bool {
    exists|i: int|
        0 <= i < s.len() && #[trigger] s[i].team_id == team_id && s[i].user_id == user_id
}

/// No two events share an identifier.
pub open spec fn event_keys_unique(s: Seq<Event>) -> bool {
    forall|i: int, j: int| 0 <= i < j < s.len() ==> #[trigger] s[i].id != #[trigger] s[j].id
}

/// No two users share an identifier.
pub open spec fn user_keys_unique(s: Seq<User>) -> bool {
    forall|i: int, j: int| 0 <= i < j < s.len() ==> #[trigger] s[i].id != #[trigger] s[j].id
}

/// No two teams share an identifier.
pub open spec fn team_keys_unique(s: Seq<Team>) -> bool {
    forall|i: int, j: int| 0 <= i < j < s.len() ==> #[trigger] s[i].id != #[trigger] s[j].id
}

/// No two solo entries share a key.
pub open spec fn solo_keys_unique(s: Seq<Solo>) -> bool {
    forall|i: int, j: int|
        0 <= i < j < s.len() ==> !(#[trigger] s[i].event_id == #[trigger] s[j].event_id
            && s[i].user_id == s[j].user_id)
}

/// No two memberships share a key.
pub open spec fn join_keys_unique(s: Seq<Join>) -> bool {
    forall|i: int, j: int|
        0 <= i < j < s.len() ==> !(#[trigger] s[i].team_id == #[trigger] s[j].team_id
            && s[i].user_id == s[j].user_id)
}

/// No two join requests share a key.
pub open spec fn request_keys_unique(s: Seq<Request>) -> bool {
    forall|i: int, j: int|
        0 <= i < j < s.len() ==> !(#[trigger] s[i].team_id == #[trigger] s[j].team_id
            && s[i].user_id == s[j].user_id)
}

/// Every team belongs to a listed event and is led by a listed user.
pub open spec fn teams_linked(t: Seq<Team>, e: Seq<Event>, u: Seq<User>) -> bool {
    forall|i: int|
        0 <= i < t.len() ==> event_listed(e, (#[trigger] t[i]).event_id) && user_listed(
            u,
            t[i].reader_id,
        )
}

/// Every solo entry names a listed event and a listed user.
pub open spec fn solos_linked(s: Seq<Solo>, e: Seq<Event>, u: Seq<User>) -> bool {
    forall|i: int|
        0 <= i < s.len() ==> event_listed(e, (#[trigger] s[i]).event_id) && user_listed(
            u,
            s[i].user_id,
        )
}

/// Every membership names a listed team and a listed user.
pub open spec fn joins_linked(s: Seq<Join>, t: Seq<Team>, u: Seq<User>) -> bool {
    forall|i: int|
        0 <= i < s.len() ==> team_listed(t, (#[trigger] s[i]).team_id) && user_listed(
            u,
            s[i].user_id,
        )
}

/// Every join request names a listed team and a listed user.
pub open spec fn requests_linked(s: Seq<Request>, t: Seq<Team>, u: Seq<User>) -> bool {
    forall|i: int|
        0 <= i < s.len() ==> team_listed(t, (#[trigger] s[i]).team_id) && user_listed(
            u,
            s[i].user_id,
        )
}

} // verus!
