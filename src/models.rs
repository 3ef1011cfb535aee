//! The rows of the six tables, and the values from which new rows are made.

use vstd::prelude::*;
use crate::ids::{EntityId, Timestamp};

verus! {

/// An event that teams form for.
#[derive(Debug)]
pub struct Event {
    pub id: EntityId,
    pub name: String,
    pub desc: String,
    pub url: String,
    pub created_at: Timestamp,
    pub updated_at: Timestamp,
}

/// The caller-given fields of a new event.
pub struct NewEvent<'a> {
    pub name: &'a String,
    pub desc: &'a String,
    pub url: &'a String,
}

/// A user's membership in a team; keyed by the pair of both.
#[derive(Debug)]
pub struct Join {
    pub team_id: EntityId,
    pub user_id: EntityId,
    pub created_at: Timestamp,
    pub updated_at: Timestamp,
}

/// The caller-given fields of a new membership.
pub struct NewJoin<'a> {
    pub team_id: &'a EntityId,
    pub user_id: &'a EntityId,
}

/// A user's pending request to join a team; keyed by the pair of both.
#[derive(Debug)]
pub struct Request {
    pub team_id: EntityId,
    pub user_id: EntityId,
    pub message: String,
    pub created_at: Timestamp,
    pub updated_at: Timestamp,
}

/// The caller-given fields of a new join request.
pub struct NewRequest<'a> {
    pub team_id: &'a EntityId,
    pub user_id: &'a EntityId,
    pub message: &'a String,
}

/// A registered user.
#[derive(Debug)]
pub struct User {
    pub id: EntityId,
    pub name: String,
    pub icon_url: String,
    pub profile: String,
    pub created_at: Timestamp,
    pub updated_at: Timestamp,
}

/// The caller-given fields of a new user.
pub struct NewUser<'a> {
    pub name: &'a String,
    pub icon_url: &'a String,
    pub profile: &'a String,
}

/// A user's intent to take part in an event without a team; keyed by the
/// pair of both.
#[derive(Debug)]
pub struct Solo {
    pub event_id: EntityId,
    pub user_id: EntityId,
    pub created_at: Timestamp,
    pub updated_at: Timestamp,
}

/// The caller-given fields of a new solo entry.
pub struct NewSolo<'a> {
    pub event_id: &'a EntityId,
    pub user_id: &'a EntityId,
}

/// A team of an event, led by one user.
#[derive(Debug)]
pub struct Team {
    pub id: EntityId,
    pub event_id: EntityId,
    pub reader_id: EntityId,
    pub name: String,
    pub desc: String,
    pub created_at: Timestamp,
    pub updated_at: Timestamp,
}

/// The caller-given fields of a new team.
pub struct NewTeam<'a> {
    pub event_id: &'a EntityId,
    pub reader_id: &'a EntityId,
    pub name: &'a String,
    pub desc: &'a String,
}

impl Clone for Event {
    fn clone(&self) -> (r: Self)
        ensures
            r == *self,
    {
        Event {
            id: self.id,
            name: self.name.clone(),
            desc: self.desc.clone(),
            url: self.url.clone(),
            created_at: self.created_at,
            updated_at: self.updated_at,
        }
    }
}

impl Clone for Join {
    fn clone(&self) -> (r: Self)
        ensures
            r == *self,
    {
        Join {
            team_id: self.team_id,
            user_id: self.user_id,
            created_at: self.created_at,
            updated_at: self.updated_at,
        }
    }
}

impl Clone for Request {
    fn clone(&self) -> (r: Self)
        ensures
            r == *self,
    {
        Request {
            team_id: self.team_id,
            user_id: self.user_id,
            message: self.message.clone(),
            created_at: self.created_at,
            updated_at: self.updated_at,
        }
    }
}

impl Clone for User {
    fn clone(&self) -> (r: Self)
        ensures
            r == *self,
    {
        User {
            id: self.id,
            name: self.name.clone(),
            icon_url: self.icon_url.clone(),
            profile: self.profile.clone(),
            created_at: self.created_at,
            updated_at: self.updated_at,
        }
    }
}

impl Clone for Solo {
    fn clone(&self) -> (r: Self)
        ensures
            r == *self,
    {
        Solo {
            event_id: self.event_id,
            user_id: self.user_id,
            created_at: self.created_at,
            updated_at: self.updated_at,
        }
    }
}

impl Clone for Team {
    fn clone(&self) -> (r: Self)
        ensures
            r == *self,
    {
        Team {
            id: self.id,
            event_id: self.event_id,
            reader_id: self.reader_id,
            name: self.name.clone(),
            desc: self.desc.clone(),
            created_at: self.created_at,
            updated_at: self.updated_at,
        }
    }
}

} // verus!
