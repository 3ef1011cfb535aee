//! The persistence layer: six tables held together with their referential
//! invariants, and the create, read and delete operations on them.

use vstd::prelude::*;
use vstd::string::StrSliceExecFns;
use crate::ids::{EntityId, Timestamp, parse_uuid, parsed_uuid, new_id, now};
use crate::models::{
    Event, Join, Request, User, Solo, Team, NewEvent, NewJoin, NewRequest, NewUser, NewSolo,
    NewTeam,
};
use crate::schema::{
    event_listed, user_listed, team_listed, solo_listed, join_listed, request_listed,
    event_keys_unique, user_keys_unique, team_keys_unique, solo_keys_unique, join_keys_unique,
    request_keys_unique, teams_linked, solos_linked, joins_linked, requests_linked,
};

verus! {

/// Why a storage operation failed below the validation of its input.
#[derive(Clone, Copy, Debug, PartialEq, Eq, Structural)]
pub enum StorageFault {
    /// A row with the same key is already stored.
    DuplicateKey,
    /// A foreign key names no stored row.
    MissingReference,
    /// The row is still referenced by rows of another table.
    StillReferenced,
    /// A value is longer than its column holds.
    ValueTooLong,
}

/// The most characters that a user's or a team's name holds.
pub const NAME_MAX_CHARS: usize = 100;

/// The most characters that an icon URL, a profile, a team's description or
/// a request's message holds.
pub const TEXT_MAX_CHARS: usize = 400;

/// The user fields fit their columns.
pub open spec fn user_fits(name: Seq<char>, icon_url: Seq<char>, profile: Seq<char>) -> bool {
    name.len() <= NAME_MAX_CHARS && icon_url.len() <= TEXT_MAX_CHARS && profile.len()
        <= TEXT_MAX_CHARS
}

/// The team fields fit their columns.
pub open spec fn team_fits(name: Seq<char>, desc: Seq<char>) -> bool {
    name.len() <= NAME_MAX_CHARS && desc.len() <= TEXT_MAX_CHARS
}

/// A join request's message fits its column.
pub open spec fn message_fits(message: Seq<char>) -> bool {
    message.len() <= TEXT_MAX_CHARS
}

/// Whether a text has at most `max` characters.
fn fits(text: &String, max: usize) -> (r: bool)
    ensures
        r == (text@.len() <= max),
{
    text.as_str().unicode_len() <= max
}

/// The failures that the persistence layer reports upward.
#[derive(Clone, Copy, Debug, PartialEq, Eq, Structural)]
pub enum StoreError {
    /// An input, such as an identifier text, is malformed.
    Validation,
    /// No row matches.
    NotFound,
    /// The store refused the operation.
    Storage(StorageFault),
}

/// What `conv_string_to_uuid` yields for a text.
pub open spec fn id_of_text(s: Seq<char>) -> Result<EntityId, StoreError> {
    match parsed_uuid(s) {
        Some(v) => Ok(EntityId { value: v }),
        None => Err(StoreError::Validation),
    }
}

/// Reads an identifier from its text; a malformed text is a validation error.
pub fn conv_string_to_uuid(str_uuid: &str) -> (r: Result<EntityId, StoreError>)
    ensures
        r == id_of_text(str_uuid@),
{
    match parse_uuid(str_uuid) {
        Ok(v) => Ok(EntityId { value: v }),
        Err(_) => Err(StoreError::Validation),
    }
}

/// The six tables of the service, held in memory and kept consistent with
/// each other: see `wf`.
pub struct Database {
    events: Vec<Event>,
    users: Vec<User>,
    teams: Vec<Team>,
    solos: Vec<Solo>,
    joins: Vec<Join>,
    requests: Vec<Request>,
}

impl Database {
    /// The stored events, in the order of their creation.
    pub closed spec fn events(&self) -> Seq<Event> {
        self.events@
    }

    /// The stored users, in the order of their creation.
    pub closed spec fn users(&self) -> Seq<User> {
        self.users@
    }

    /// The stored teams, in the order of their creation.
    pub closed spec fn teams(&self) -> Seq<Team> {
        self.teams@
    }

    /// The stored solo entries, in the order of their creation.
    pub closed spec fn solos(&self) -> Seq<Solo> {
        self.solos@
    }

    /// The stored memberships, in the order of their creation.
    pub closed spec fn joins(&self) -> Seq<Join> {
        self.joins@
    }

    /// The stored join requests, in the order of their creation.
    pub closed spec fn requests(&self) -> Seq<Request> {
        self.requests@
    }

    /// An event with this identifier is stored.
    pub open spec fn has_event(&self, id: EntityId) -> bool {
        event_listed(self.events(), id)
    }

    /// A user with this identifier is stored.
    pub open spec fn has_user(&self, id: EntityId) -> bool {
        user_listed(self.users(), id)
    }

    /// A team with this identifier is stored.
    pub open spec fn has_team(&self, id: EntityId) -> bool {
        team_listed(self.teams(), id)
    }

    /// A solo entry with this key is stored.
    pub open spec fn has_solo(&self, event_id: EntityId, user_id: EntityId) -> bool {
        solo_listed(self.solos(), event_id, user_id)
    }

    /// A membership with this key is stored.
    pub open spec fn has_join(&self, team_id: EntityId, user_id: EntityId) -> bool {
        join_listed(self.joins(), team_id, user_id)
    }

    /// A join request with this key is stored.
    pub open spec fn has_request(&self, team_id: EntityId, user_id: EntityId) -> bool {
        request_listed(self.requests(), team_id, user_id)
    }

    /// `i` is the position of the first user, in the order of creation,
    /// named `name`.
    pub open spec fn first_user_named(&self, name: Seq<char>, i: int) -> bool {
        &&& 0 <= i < self.users().len()
        &&& self.users()[i].name@ == name
        &&& forall|k: int| 0 <= k < i ==> (#[trigger] self.users()[k]).name@ != name
    }

    /// Some user is named `name`.
    pub open spec fn user_named(&self, name: Seq<char>) -> bool {
        exists|k: int| 0 <= k < self.users().len() && (#[trigger] self.users()[k]).name@ == name
    }

    /// What adding a solo entry with the given key comes to: a missing event
    /// or user, a key already stored, or success.
    pub open spec fn solo_outcome(&self, event_id: EntityId, user_id: EntityId) -> Result<
        (),
        StoreError,
    > {
        if !self.has_event(event_id) || !self.has_user(user_id) {
            Err(StoreError::Storage(StorageFault::MissingReference))
        } else if self.has_solo(event_id, user_id) {
            Err(StoreError::Storage(StorageFault::DuplicateKey))
        } else {
            Ok(())
        }
    }

    /// What adding a membership with the given key comes to.
    pub open spec fn join_outcome(&self, team_id: EntityId, user_id: EntityId) -> Result<
        (),
        StoreError,
    > {
        if !self.has_team(team_id) || !self.has_user(user_id) {
            Err(StoreError::Storage(StorageFault::MissingReference))
        } else if self.has_join(team_id, user_id) {
            Err(StoreError::Storage(StorageFault::DuplicateKey))
        } else {
            Ok(())
        }
    }

    /// What adding a join request with the given key and message comes to:
    /// a message too long, a missing team or user, a key already stored, or
    /// success.
    pub open spec fn request_outcome(
        &self,
        team_id: EntityId,
        user_id: EntityId,
        message: Seq<char>,
    ) -> Result<(), StoreError> {
        if !message_fits(message) {
            Err(StoreError::Storage(StorageFault::ValueTooLong))
        } else if !self.has_team(team_id) || !self.has_user(user_id) {
            Err(StoreError::Storage(StorageFault::MissingReference))
        } else if self.has_request(team_id, user_id) {
            Err(StoreError::Storage(StorageFault::DuplicateKey))
        } else {
            Ok(())
        }
    }

    /// Keys are unique in each table, and every foreign key names a stored row.
    pub open spec fn wf(&self) -> bool {
        &&& event_keys_unique(self.events())
        &&& user_keys_unique(self.users())
        &&& team_keys_unique(self.teams())
        &&& teams_linked(self.teams(), self.events(), self.users())
        &&& solos_linked(self.solos(), self.events(), self.users())
        &&& solo_keys_unique(self.solos())
        &&& joins_linked(self.joins(), self.teams(), self.users())
        &&& join_keys_unique(self.joins())
        &&& requests_linked(self.requests(), self.teams(), self.users())
        &&& request_keys_unique(self.requests())
    }

    /// Only the events may differ between the two stores.
    pub open spec fn only_events_differ(&self, o: &Database) -> bool {
        &&& self.users() == o.users()
        &&& self.teams() == o.teams()
        &&& self.solos() == o.solos()
        &&& self.joins() == o.joins()
        &&& self.requests() == o.requests()
    }

    /// Only the users may differ between the two stores.
    pub open spec fn only_users_differ(&self, o: &Database) -> bool {
        &&& self.events() == o.events()
        &&& self.teams() == o.teams()
        &&& self.solos() == o.solos()
        &&& self.joins() == o.joins()
        &&& self.requests() == o.requests()
    }

    /// Only the teams may differ between the two stores.
    pub open spec fn only_teams_differ(&self, o: &Database) -> bool {
        &&& self.events() == o.events()
        &&& self.users() == o.users()
        &&& self.solos() == o.solos()
        &&& self.joins() == o.joins()
        &&& self.requests() == o.requests()
    }

    /// Only the solo entries may differ between the two stores.
    pub open spec fn only_solos_differ(&self, o: &Database) -> bool {
        &&& self.events() == o.events()
        &&& self.users() == o.users()
        &&& self.teams() == o.teams()
        &&& self.joins() == o.joins()
        &&& self.requests() == o.requests()
    }

    /// Only the memberships may differ between the two stores.
    pub open spec fn only_joins_differ(&self, o: &Database) -> bool {
        &&& self.events() == o.events()
        &&& self.users() == o.users()
        &&& self.teams() == o.teams()
        &&& self.solos() == o.solos()
        &&& self.requests() == o.requests()
    }

    /// Only the join requests may differ between the two stores.
    pub open spec fn only_requests_differ(&self, o: &Database) -> bool {
        &&& self.events() == o.events()
        &&& self.users() == o.users()
        &&& self.teams() == o.teams()
        &&& self.solos() == o.solos()
        &&& self.joins() == o.joins()
    }

    /// An empty store.
    pub fn new() -> (r: Database)
        ensures
            r.wf(),
            r.events().len() == 0,
            r.users().len() == 0,
            r.teams().len() == 0,
            r.solos().len() == 0,
            r.joins().len() == 0,
            r.requests().len() == 0,
    {
        Database {
            events: Vec::new(),
            users: Vec::new(),
            teams: Vec::new(),
            solos: Vec::new(),
            joins: Vec::new(),
            requests: Vec::new(),
        }
    }

    /// The position of the user with the given identifier.
    fn find_user(&self, id: EntityId) -> (r: Option<usize>)
        ensures
            match r {
                Some(i) => i < self.users().len() && self.users()[i as int].id == id,
                None => !self.has_user(id),
            },
    {
        let mut i: usize = 0;
        while i < self.users.len()
            invariant
                i <= self.users@.len(),
                forall|k: int| 0 <= k < i ==> self.users@[k].id != id,
            decreases self.users@.len() - i,
        {
            if self.users[i].id == id {
                return Some(i);
            }
            i = i + 1;
        }
        None
    }

    /// The position of the team with the given identifier.
    fn find_team(&self, id: EntityId) -> (r: Option<usize>)
        ensures
            match r {
                Some(i) => i < self.teams().len() && self.teams()[i as int].id == id,
                None => !self.has_team(id),
            },
    {
        let mut i: usize = 0;
        while i < self.teams.len()
            invariant
                i <= self.teams@.len(),
                forall|k: int| 0 <= k < i ==> self.teams@[k].id != id,
            decreases self.teams@.len() - i,
        {
            if self.teams[i].id == id {
                return Some(i);
            }
            i = i + 1;
        }
        None
    }

    /// Whether a solo entry with the given key is stored.
    fn contains_solo(&self, event_id: EntityId, user_id: EntityId) -> (r: bool)
        ensures
            r == self.has_solo(event_id, user_id),
    {
        let mut i: usize = 0;
        while i < self.solos.len()
            invariant
                i <= self.solos@.len(),
                forall|k: int|
                    0 <= k < i ==> !(self.solos@[k].event_id == event_id
                        && self.solos@[k].user_id == user_id),
            decreases self.solos@.len() - i,
        {
            if self.solos[i].event_id == event_id && self.solos[i].user_id == user_id {
                return true;
            }
            i = i + 1;
        }
        false
    }

    /// Whether a membership with the given key is stored.
    fn contains_join(&self, team_id: EntityId, user_id: EntityId) -> (r: bool)
        ensures
            r == self.has_join(team_id, user_id),
    {
        let mut i: usize = 0;
        while i < self.joins.len()
            invariant
                i <= self.joins@.len(),
                forall|k: int|
                    0 <= k < i ==> !(self.joins@[k].team_id == team_id
                        && self.joins@[k].user_id == user_id),
            decreases self.joins@.len() - i,
        {
            if self.joins[i].team_id == team_id && self.joins[i].user_id == user_id {
                return true;
            }
            i = i + 1;
        }
        false
    }

    /// Whether a join request with the given key is stored.
    fn contains_request(&self, team_id: EntityId, user_id: EntityId) -> (r: bool)
        ensures
            r == self.has_request(team_id, user_id),
    {
        let mut i: usize = 0;
        while i < self.requests.len()
            invariant
                i <= self.requests@.len(),
                forall|k: int|
                    0 <= k < i ==> !(self.requests@[k].team_id == team_id
                        && self.requests@[k].user_id == user_id),
            decreases self.requests@.len() - i,
        {
            if self.requests[i].team_id == team_id && self.requests[i].user_id == user_id {
                return true;
            }
            i = i + 1;
        }
        false
    }

    /// The position of the event with the given identifier.
    fn find_event(&self, id: EntityId) -> (r: Option<usize>)
        ensures
            match r {
                Some(i) => i < self.events().len() && self.events()[i as int].id == id,
                None => !self.has_event(id),
            },
    {
        let mut i: usize = 0;
        while i < self.events.len()
            invariant
                i <= self.events@.len(),
                forall|k: int| 0 <= k < i ==> self.events@[k].id != id,
            decreases self.events@.len() - i,
        {
            if self.events[i].id == id {
                return Some(i);
            }
            i = i + 1;
        }
        None
    }

    /// Stores a new event under the given identifier and time; the identifier
    /// must not be taken.
    pub(crate) fn insert_event(
        &mut self,
        id: EntityId,
        at: Timestamp,
        row: NewEvent,
    ) -> (r: Result<(), StoreError>)
        requires
            old(self).wf(),
        ensures
            final(self).wf(),
            old(self).has_event(id) ==> r == Err::<(), StoreError>(
                StoreError::Storage(StorageFault::DuplicateKey),
            ) && *final(self) == *old(self),
            !old(self).has_event(id) ==> r is Ok && final(self).only_events_differ(old(self))
                && final(self).events() == old(self).events().push(
                (Event {
                    id,
                    name: *row.name,
                    desc: *row.desc,
                    url: *row.url,
                    created_at: at,
                    updated_at: at,
                }),
            ),
    {
        if self.find_event(id).is_some() {
            return Err(StoreError::Storage(StorageFault::DuplicateKey));
        }
        let ev = Event {
            id,
            name: row.name.clone(),
            desc: row.desc.clone(),
            url: row.url.clone(),
            created_at: at,
            updated_at: at,
        };
        let ghost e = ev;
        self.events.push(ev);
        proof {
            Self::lemma_event_appended(*old(self), *self, e);
        }
        Ok(())
    }

    /// Creates an event with a freshly drawn identifier, stamped with the
    /// current time.
    pub fn create_event(&mut self, name: &String, desc: &String, url: &String) -> (r: Result<
        (),
        StoreError,
    >)
        requires
            old(self).wf(),
        ensures
            final(self).wf(),
            r is Err ==> r == Err::<(), StoreError>(
                StoreError::Storage(StorageFault::DuplicateKey),
            ) && *final(self) == *old(self),
            old(self).events().len() == 0 ==> r is Ok,
            r is Ok ==> final(self).only_events_differ(old(self)) && final(self).events()
                == old(self).events().push(final(self).events().last()) && !old(self).has_event(
                final(self).events().last().id,
            ) && final(self).events().last().name == *name && final(self).events().last().desc
                == *desc && final(self).events().last().url == *url
                && final(self).events().last().created_at
                == final(self).events().last().updated_at,
    {
        let id = new_id();
        let at = now();
        let new_event = NewEvent { name, desc, url };
        self.insert_event(id, at, new_event)
    }

    /// Stores a new user under the given identifier and time; the identifier
    /// must not be taken.
    pub(crate) fn insert_user(
        &mut self,
        id: EntityId,
        at: Timestamp,
        row: NewUser,
    ) -> (r: Result<(), StoreError>)
        requires
            old(self).wf(),
        ensures
            final(self).wf(),
            !user_fits(row.name@, row.icon_url@, row.profile@) ==> r == Err::<(), StoreError>(
                StoreError::Storage(StorageFault::ValueTooLong),
            ) && *final(self) == *old(self),
            user_fits(row.name@, row.icon_url@, row.profile@) && old(self).has_user(id) ==> r
                == Err::<(), StoreError>(StoreError::Storage(StorageFault::DuplicateKey))
                && *final(self) == *old(self),
            user_fits(row.name@, row.icon_url@, row.profile@) && !old(self).has_user(id) ==> r is Ok
                && final(self).only_users_differ(old(self))
                && final(self).users() == old(self).users().push(
                (User {
                    id,
                    name: *row.name,
                    icon_url: *row.icon_url,
                    profile: *row.profile,
                    created_at: at,
                    updated_at: at,
                }),
            ),
    {
        if !fits(row.name, NAME_MAX_CHARS) || !fits(row.icon_url, TEXT_MAX_CHARS) || !fits(
            row.profile,
            TEXT_MAX_CHARS,
        ) {
            return Err(StoreError::Storage(StorageFault::ValueTooLong));
        }
        if self.find_user(id).is_some() {
            return Err(StoreError::Storage(StorageFault::DuplicateKey));
        }
        let user = User {
            id,
            name: row.name.clone(),
            icon_url: row.icon_url.clone(),
            profile: row.profile.clone(),
            created_at: at,
            updated_at: at,
        };
        let ghost u = user;
        self.users.push(user);
        proof {
            Self::lemma_user_appended(*old(self), *self, u);
        }
        Ok(())
    }

    /// Creates a user with a freshly drawn identifier, stamped with the
    /// current time.
    pub fn create_user(&mut self, name: &String, icon_url: &String, profile: &String) -> (r:
        Result<(), StoreError>)
        requires
            old(self).wf(),
        ensures
            final(self).wf(),
            !user_fits(name@, icon_url@, profile@) ==> r == Err::<(), StoreError>(
                StoreError::Storage(StorageFault::ValueTooLong),
            ) && *final(self) == *old(self),
            user_fits(name@, icon_url@, profile@) && r is Err ==> r == Err::<(), StoreError>(
                StoreError::Storage(StorageFault::DuplicateKey),
            ) && *final(self) == *old(self),
            user_fits(name@, icon_url@, profile@) && old(self).users().len() == 0 ==> r is Ok,
            r is Ok ==> final(self).only_users_differ(old(self)) && final(self).users()
                == old(self).users().push(final(self).users().last()) && !old(self).has_user(
                final(self).users().last().id,
            ) && final(self).users().last().name == *name && final(self).users().last().icon_url
                == *icon_url && final(self).users().last().profile == *profile
                && final(self).users().last().created_at
                == final(self).users().last().updated_at,
    {
        let id = new_id();
        let at = now();
        let new_user = NewUser { name, icon_url, profile };
        self.insert_user(id, at, new_user)
    }

    /// Stores a new team under the given identifier and time. Its event and
    /// its leader must be stored, and the identifier must not be taken.
    pub(crate) fn insert_team(
        &mut self,
        id: EntityId,
        at: Timestamp,
        row: NewTeam,
    ) -> (r: Result<(), StoreError>)
        requires
            old(self).wf(),
        ensures
            final(self).wf(),
            !team_fits(row.name@, row.desc@) ==> r == Err::<(), StoreError>(
                StoreError::Storage(StorageFault::ValueTooLong),
            ) && *final(self) == *old(self),
            team_fits(row.name@, row.desc@) && (!old(self).has_event(*row.event_id) || !old(
                self,
            ).has_user(*row.reader_id)) ==> r == Err::<(), StoreError>(
                StoreError::Storage(StorageFault::MissingReference),
            ) && *final(self) == *old(self),
            team_fits(row.name@, row.desc@) && old(self).has_event(*row.event_id) && old(
                self,
            ).has_user(*row.reader_id) ==> {
                &&& old(self).has_team(id) ==> r == Err::<(), StoreError>(
                    StoreError::Storage(StorageFault::DuplicateKey),
                ) && *final(self) == *old(self)
                &&& !old(self).has_team(id) ==> r is Ok && final(self).only_teams_differ(old(self))
                    && final(self).teams() == old(self).teams().push(
                    (Team {
                        id,
                        event_id: *row.event_id,
                        reader_id: *row.reader_id,
                        name: *row.name,
                        desc: *row.desc,
                        created_at: at,
                        updated_at: at,
                    }),
                )
            },
    {
        if !fits(row.name, NAME_MAX_CHARS) || !fits(row.desc, TEXT_MAX_CHARS) {
            return Err(StoreError::Storage(StorageFault::ValueTooLong));
        }
        if self.find_event(*row.event_id).is_none() || self.find_user(*row.reader_id).is_none() {
            return Err(StoreError::Storage(StorageFault::MissingReference));
        }
        if self.find_team(id).is_some() {
            return Err(StoreError::Storage(StorageFault::DuplicateKey));
        }
        let team = Team {
            id,
            event_id: *row.event_id,
            reader_id: *row.reader_id,
            name: row.name.clone(),
            desc: row.desc.clone(),
            created_at: at,
            updated_at: at,
        };
        let ghost t = team;
        self.teams.push(team);
        proof {
            Self::lemma_team_appended(*old(self), *self, t);
        }
        Ok(())
    }

    /// Creates a team of the event named by `event_id`, led by the user named
    /// by `reader_id`, with a freshly drawn identifier and the current time.
    pub fn create_team(
        &mut self,
        event_id: &String,
        reader_id: &String,
        name: &String,
        desc: &String,
    ) -> (r: Result<(), StoreError>)
        requires
            old(self).wf(),
        ensures
            final(self).wf(),
            id_of_text(event_id@) is Err || id_of_text(reader_id@) is Err ==> r == Err::<
                (),
                StoreError,
            >(StoreError::Validation) && *final(self) == *old(self),
            id_of_text(event_id@) matches Ok(e) ==> id_of_text(reader_id@) matches Ok(u) ==> {
                &&& !team_fits(name@, desc@) ==> r == Err::<(), StoreError>(
                    StoreError::Storage(StorageFault::ValueTooLong),
                ) && *final(self) == *old(self)
                &&& team_fits(name@, desc@) && (!old(self).has_event(e) || !old(self).has_user(u))
                    ==> r == Err::<(), StoreError>(
                    StoreError::Storage(StorageFault::MissingReference),
                ) && *final(self) == *old(self)
                &&& team_fits(name@, desc@) && old(self).has_event(e) && old(self).has_user(u)
                    && r is Err ==> r == Err::<(), StoreError>(
                    StoreError::Storage(StorageFault::DuplicateKey),
                ) && *final(self) == *old(self)
                &&& team_fits(name@, desc@) && old(self).has_event(e) && old(self).has_user(u)
                    && old(self).teams().len() == 0 ==> r is Ok
                &&& r is Ok ==> final(self).only_teams_differ(old(self)) && final(self).teams()
                    == old(self).teams().push(final(self).teams().last()) && !old(self).has_team(
                    final(self).teams().last().id,
                ) && final(self).teams().last().event_id == e
                    && final(self).teams().last().reader_id == u
                    && final(self).teams().last().name == *name
                    && final(self).teams().last().desc == *desc
                    && final(self).teams().last().created_at
                    == final(self).teams().last().updated_at
            },
    {
        let event_id = match conv_string_to_uuid(event_id.as_str()) {
            Ok(u) => u,
            Err(e) => return Err(e),
        };
        let reader_id = match conv_string_to_uuid(reader_id.as_str()) {
            Ok(u) => u,
            Err(e) => return Err(e),
        };
        let id = new_id();
        let at = now();
        let new_team = NewTeam { event_id: &event_id, reader_id: &reader_id, name, desc };
        self.insert_team(id, at, new_team)
    }

    /// Stores a new solo entry at the given time. Its event and user must be
    /// stored, and the pair must not be stored yet.
    pub(crate) fn insert_solo(
        &mut self,
        at: Timestamp,
        row: NewSolo,
    ) -> (r: Result<(), StoreError>)
        requires
            old(self).wf(),
        ensures
            final(self).wf(),
            r == old(self).solo_outcome(*row.event_id, *row.user_id),
            r is Err ==> *final(self) == *old(self),
            r is Ok ==> final(self).only_solos_differ(old(self)) && final(self).solos()
                == old(self).solos().push(
                (Solo {
                    event_id: *row.event_id,
                    user_id: *row.user_id,
                    created_at: at,
                    updated_at: at,
                }),
            ),
    {
        if self.find_event(*row.event_id).is_none() || self.find_user(*row.user_id).is_none() {
            return Err(StoreError::Storage(StorageFault::MissingReference));
        }
        if self.contains_solo(*row.event_id, *row.user_id) {
            return Err(StoreError::Storage(StorageFault::DuplicateKey));
        }
        let solo = Solo {
            event_id: *row.event_id,
            user_id: *row.user_id,
            created_at: at,
            updated_at: at,
        };
        let ghost x = solo;
        self.solos.push(solo);
        proof {
            Self::lemma_solo_appended(*old(self), *self, x);
        }
        Ok(())
    }

    /// Records that the user named by `user_id` takes part in the event named
    /// by `event_id` without a team, at the current time.
    pub fn create_solo(&mut self, event_id: &String, user_id: &String) -> (r: Result<
        (),
        StoreError,
    >)
        requires
            old(self).wf(),
        ensures
            final(self).wf(),
            r == match (id_of_text(event_id@), id_of_text(user_id@)) {
                (Ok(e), Ok(u)) => old(self).solo_outcome(e, u),
                _ => Err(StoreError::Validation),
            },
            r is Err ==> *final(self) == *old(self),
            r is Ok ==> final(self).only_solos_differ(old(self)) && final(self).solos()
                == old(self).solos().push(final(self).solos().last())
                && final(self).solos().last().event_id == id_of_text(event_id@)->Ok_0
                && final(self).solos().last().user_id == id_of_text(user_id@)->Ok_0
                && final(self).solos().last().created_at
                == final(self).solos().last().updated_at,
    {
        let event_id = match conv_string_to_uuid(event_id.as_str()) {
            Ok(u) => u,
            Err(e) => return Err(e),
        };
        let user_id = match conv_string_to_uuid(user_id.as_str()) {
            Ok(u) => u,
            Err(e) => return Err(e),
        };
        let new_solo = NewSolo { event_id: &event_id, user_id: &user_id };
        self.insert_solo(now(), new_solo)
    }

    /// Stores a new membership at the given time. Its team and user must be
    /// stored, and the pair must not be stored yet.
    pub(crate) fn insert_join(
        &mut self,
        at: Timestamp,
        row: NewJoin,
    ) -> (r: Result<(), StoreError>)
        requires
            old(self).wf(),
        ensures
            final(self).wf(),
            r == old(self).join_outcome(*row.team_id, *row.user_id),
            r is Err ==> *final(self) == *old(self),
            r is Ok ==> final(self).only_joins_differ(old(self)) && final(self).joins()
                == old(self).joins().push(
                (Join {
                    team_id: *row.team_id,
                    user_id: *row.user_id,
                    created_at: at,
                    updated_at: at,
                }),
            ),
    {
        if self.find_team(*row.team_id).is_none() || self.find_user(*row.user_id).is_none() {
            return Err(StoreError::Storage(StorageFault::MissingReference));
        }
        if self.contains_join(*row.team_id, *row.user_id) {
            return Err(StoreError::Storage(StorageFault::DuplicateKey));
        }
        let join = Join {
            team_id: *row.team_id,
            user_id: *row.user_id,
            created_at: at,
            updated_at: at,
        };
        let ghost x = join;
        self.joins.push(join);
        proof {
            Self::lemma_join_appended(*old(self), *self, x);
        }
        Ok(())
    }

    /// Records that the user named by `user_id` is a member of the team named
    /// by `team_id`, at the current time.
    pub fn create_join(&mut self, team_id: &String, user_id: &String) -> (r: Result<
        (),
        StoreError,
    >)
        requires
            old(self).wf(),
        ensures
            final(self).wf(),
            r == match (id_of_text(team_id@), id_of_text(user_id@)) {
                (Ok(t), Ok(u)) => old(self).join_outcome(t, u),
                _ => Err(StoreError::Validation),
            },
            r is Err ==> *final(self) == *old(self),
            r is Ok ==> final(self).only_joins_differ(old(self)) && final(self).joins()
                == old(self).joins().push(final(self).joins().last())
                && final(self).joins().last().team_id == id_of_text(team_id@)->Ok_0
                && final(self).joins().last().user_id == id_of_text(user_id@)->Ok_0
                && final(self).joins().last().created_at
                == final(self).joins().last().updated_at,
    {
        let team_id = match conv_string_to_uuid(team_id.as_str()) {
            Ok(u) => u,
            Err(e) => return Err(e),
        };
        let user_id = match conv_string_to_uuid(user_id.as_str()) {
            Ok(u) => u,
            Err(e) => return Err(e),
        };
        let new_join = NewJoin { team_id: &team_id, user_id: &user_id };
        self.insert_join(now(), new_join)
    }

    /// Stores a new join request at the given time. Its team and user must be
    /// stored, and the pair must not be stored yet.
    pub(crate) fn insert_request(
        &mut self,
        at: Timestamp,
        row: NewRequest,
    ) -> (r: Result<(), StoreError>)
        requires
            old(self).wf(),
        ensures
            final(self).wf(),
            r == old(self).request_outcome(*row.team_id, *row.user_id, row.message@),
            r is Err ==> *final(self) == *old(self),
            r is Ok ==> final(self).only_requests_differ(old(self)) && final(self).requests()
                == old(self).requests().push(
                (Request {
                    team_id: *row.team_id,
                    user_id: *row.user_id,
                    message: *row.message,
                    created_at: at,
                    updated_at: at,
                }),
            ),
    {
        if !fits(row.message, TEXT_MAX_CHARS) {
            return Err(StoreError::Storage(StorageFault::ValueTooLong));
        }
        if self.find_team(*row.team_id).is_none() || self.find_user(*row.user_id).is_none() {
            return Err(StoreError::Storage(StorageFault::MissingReference));
        }
        if self.contains_request(*row.team_id, *row.user_id) {
            return Err(StoreError::Storage(StorageFault::DuplicateKey));
        }
        let request = Request {
            team_id: *row.team_id,
            user_id: *row.user_id,
            message: row.message.clone(),
            created_at: at,
            updated_at: at,
        };
        let ghost x = request;
        self.requests.push(request);
        proof {
            Self::lemma_request_appended(*old(self), *self, x);
        }
        Ok(())
    }

    /// Records the request of the user named by `user_id` to join the team
    /// named by `team_id`, with a message, at the current time.
    pub fn create_request(&mut self, team_id: &String, user_id: &String, message: &String) -> (r:
        Result<(), StoreError>)
        requires
            old(self).wf(),
        ensures
            final(self).wf(),
            r == match (id_of_text(team_id@), id_of_text(user_id@)) {
                (Ok(t), Ok(u)) => old(self).request_outcome(t, u, message@),
                _ => Err(StoreError::Validation),
            },
            r is Err ==> *final(self) == *old(self),
            r is Ok ==> final(self).only_requests_differ(old(self)) && final(self).requests()
                == old(self).requests().push(final(self).requests().last())
                && final(self).requests().last().team_id == id_of_text(team_id@)->Ok_0
                && final(self).requests().last().user_id == id_of_text(user_id@)->Ok_0
                && final(self).requests().last().message == *message
                && final(self).requests().last().created_at
                == final(self).requests().last().updated_at,
    {
        let team_id = match conv_string_to_uuid(team_id.as_str()) {
            Ok(u) => u,
            Err(e) => return Err(e),
        };
        let user_id = match conv_string_to_uuid(user_id.as_str()) {
            Ok(u) => u,
            Err(e) => return Err(e),
        };
        let new_request = NewRequest { team_id: &team_id, user_id: &user_id, message };
        self.insert_request(now(), new_request)
    }

    /// Whether a team or a solo entry names the event.
    pub open spec fn event_referenced(&self, id: EntityId) -> bool {
        (exists|i: int| 0 <= i < self.teams().len() && #[trigger] self.teams()[i].event_id == id)
            || (exists|i: int|
            0 <= i < self.solos().len() && #[trigger] self.solos()[i].event_id == id)
    }

    /// All events, in the order of their creation.
    pub fn get_event_list(&self) -> (r: Result<Vec<Event>, StoreError>)
        ensures
            r matches Ok(v) && v@ == self.events(),
    {
        let mut out: Vec<Event> = Vec::new();
        let mut i: usize = 0;
        while i < self.events.len()
            invariant
                i <= self.events@.len(),
                out@ == self.events@.subrange(0, i as int),
            decreases self.events@.len() - i,
        {
            out.push(self.events[i].clone());
            i = i + 1;
            assert(out@ =~= self.events@.subrange(0, i as int));
        }
        assert(out@ =~= self.events@);
        Ok(out)
    }

    /// The join requests made by the user with the given identifier, in the
    /// order of their creation.
    pub fn requests_by_user(&self, user_id: EntityId) -> (r: Vec<Request>)
        ensures
            r@ == self.requests().filter(|x: Request| x.user_id == user_id),
    {
        let ghost pred = |x: Request| x.user_id == user_id;
        let mut out: Vec<Request> = Vec::new();
        let mut i: usize = 0;
        while i < self.requests.len()
            invariant
                i <= self.requests@.len(),
                pred == (|x: Request| x.user_id == user_id),
                out@ == self.requests@.subrange(0, i as int).filter(pred),
            decreases self.requests@.len() - i,
        {
            proof {
                reveal(Seq::filter);
                assert(self.requests@.subrange(0, i + 1).drop_last() =~= self.requests@.subrange(
                    0,
                    i as int,
                ));
            }
            if self.requests[i].user_id == user_id {
                out.push(self.requests[i].clone());
            }
            i = i + 1;
        }
        assert(self.requests@.subrange(0, i as int) =~= self.requests@);
        out
    }

    /// The join requests made by the user named by `user_id`, in the order of
    /// their creation.
    pub fn get_requests_from_user_id(&self, user_id: &String) -> (r: Result<
        Vec<Request>,
        StoreError,
    >)
        ensures
            match id_of_text(user_id@) {
                Ok(u) => r matches Ok(v) && v@ == self.requests().filter(
                    |x: Request| x.user_id == u,
                ),
                Err(e) => r == Err::<Vec<Request>, StoreError>(e),
            },
    {
        let user_id = match conv_string_to_uuid(user_id.as_str()) {
            Ok(u) => u,
            Err(e) => return Err(e),
        };
        Ok(self.requests_by_user(user_id))
    }

    /// The teams of the event named by `event_id`, in the order of their
    /// creation.
    pub fn get_wanna_join_teams_by_event_id(&self, event_id: &String) -> (r: Result<
        Vec<Team>,
        StoreError,
    >)
        ensures
            match id_of_text(event_id@) {
                Ok(e) => r matches Ok(v) && v@ == self.teams().filter(|x: Team| x.event_id == e),
                Err(err) => r == Err::<Vec<Team>, StoreError>(err),
            },
    {
        let event_id = match conv_string_to_uuid(event_id.as_str()) {
            Ok(u) => u,
            Err(e) => return Err(e),
        };
        let ghost pred = |x: Team| x.event_id == event_id;
        let mut out: Vec<Team> = Vec::new();
        let mut i: usize = 0;
        while i < self.teams.len()
            invariant
                i <= self.teams@.len(),
                pred == (|x: Team| x.event_id == event_id),
                out@ == self.teams@.subrange(0, i as int).filter(pred),
            decreases self.teams@.len() - i,
        {
            proof {
                reveal(Seq::filter);
                assert(self.teams@.subrange(0, i + 1).drop_last() =~= self.teams@.subrange(
                    0,
                    i as int,
                ));
            }
            if self.teams[i].event_id == event_id {
                out.push(self.teams[i].clone());
            }
            i = i + 1;
        }
        assert(self.teams@.subrange(0, i as int) =~= self.teams@);
        Ok(out)
    }

    /// The user with the given identifier.
    fn search_user_by_id(&self, id: EntityId) -> (r: Result<User, StoreError>)
        ensures
            self.has_user(id) <==> r is Ok,
            r is Err ==> r == Err::<User, StoreError>(StoreError::NotFound),
            r matches Ok(u) ==> u.id == id && self.users().contains(u),
    {
        match self.find_user(id) {
            Some(i) => Ok(self.users[i].clone()),
            None => Err(StoreError::NotFound),
        }
    }

    /// The team with the given identifier.
    fn search_team_by_id(&self, id: EntityId) -> (r: Result<Team, StoreError>)
        ensures
            self.has_team(id) <==> r is Ok,
            r is Err ==> r == Err::<Team, StoreError>(StoreError::NotFound),
            r matches Ok(t) ==> t.id == id && self.teams().contains(t),
    {
        match self.find_team(id) {
            Some(i) => Ok(self.teams[i].clone()),
            None => Err(StoreError::NotFound),
        }
    }

    /// The first user, in the order of creation, with the given name.
    fn search_user_by_name(&self, name: &String) -> (r: Result<User, StoreError>)
        ensures
            match r {
                Ok(u) => exists|i: int| self.first_user_named(name@, i) && self.users()[i] == u,
                Err(e) => e == StoreError::NotFound && !self.user_named(name@),
            },
    {
        let mut i: usize = 0;
        while i < self.users.len()
            invariant
                i <= self.users@.len(),
                forall|k: int| 0 <= k < i ==> (#[trigger] self.users@[k]).name@ != name@,
            decreases self.users@.len() - i,
        {
            if self.users[i].name == *name {
                let u = self.users[i].clone();
                assert(self.first_user_named(name@, i as int));
                return Ok(u);
            }
            i = i + 1;
        }
        Err(StoreError::NotFound)
    }

    /// The user named by the identifier text `user_id`.
    pub fn get_user_info_by_id(&self, user_id: &String) -> (r: Result<User, StoreError>)
        ensures
            match id_of_text(user_id@) {
                Ok(id) => {
                    &&& self.has_user(id) <==> r is Ok
                    &&& r is Err ==> r == Err::<User, StoreError>(StoreError::NotFound)
                    &&& r matches Ok(u) ==> u.id == id && self.users().contains(u)
                },
                Err(e) => r == Err::<User, StoreError>(e),
            },
    {
        let user_id = match conv_string_to_uuid(user_id.as_str()) {
            Ok(u) => u,
            Err(e) => return Err(e),
        };
        self.search_user_by_id(user_id)
    }

    /// The first user, in the order of creation, with the given name.
    pub fn get_user_info_by_name(&self, user_name: &String) -> (r: Result<User, StoreError>)
        ensures
            match r {
                Ok(u) => exists|i: int|
                    self.first_user_named(user_name@, i) && self.users()[i] == u,
                Err(e) => e == StoreError::NotFound && !self.user_named(user_name@),
            },
    {
        self.search_user_by_name(user_name)
    }

    /// The team named by the identifier text `team_id`.
    pub fn get_team_info_by_id(&self, team_id: &String) -> (r: Result<Team, StoreError>)
        ensures
            match id_of_text(team_id@) {
                Ok(id) => {
                    &&& self.has_team(id) <==> r is Ok
                    &&& r is Err ==> r == Err::<Team, StoreError>(StoreError::NotFound)
                    &&& r matches Ok(t) ==> t.id == id && self.teams().contains(t)
                },
                Err(e) => r == Err::<Team, StoreError>(e),
            },
    {
        let team_id = match conv_string_to_uuid(team_id.as_str()) {
            Ok(u) => u,
            Err(e) => return Err(e),
        };
        self.search_team_by_id(team_id)
    }

    /// The users who take part in the event named by `event_id` without a
    /// team: one for each of its solo entries, in the order of those entries.
    pub fn get_wanna_join_users_by_event_id(&self, event_id: &String) -> (r: Result<
        Vec<User>,
        StoreError,
    >)
        requires
            self.wf(),
        ensures
            match id_of_text(event_id@) {
                Ok(e) => r matches Ok(v) && v@.len() == self.solos().filter(
                    |x: Solo| x.event_id == e,
                ).len() && forall|k: int|
                    0 <= k < v@.len() ==> (#[trigger] v@[k]).id == self.solos().filter(
                        |x: Solo| x.event_id == e,
                    )[k].user_id && self.users().contains(v@[k]),
                Err(err) => r == Err::<Vec<User>, StoreError>(err),
            },
    {
        let event_id = match conv_string_to_uuid(event_id.as_str()) {
            Ok(u) => u,
            Err(e) => return Err(e),
        };
        let ghost pred = |x: Solo| x.event_id == event_id;
        let mut result: Vec<User> = Vec::new();
        let mut i: usize = 0;
        while i < self.solos.len()
            invariant
                self.wf(),
                i <= self.solos@.len(),
                pred == (|x: Solo| x.event_id == event_id),
                result@.len() == self.solos@.subrange(0, i as int).filter(pred).len(),
                forall|k: int|
                    0 <= k < result@.len() ==> (#[trigger] result@[k]).id == self.solos@.subrange(
                        0,
                        i as int,
                    ).filter(pred)[k].user_id && self.users().contains(result@[k]),
            decreases self.solos@.len() - i,
        {
            proof {
                reveal(Seq::filter);
                assert(self.solos@.subrange(0, i + 1).drop_last() =~= self.solos@.subrange(
                    0,
                    i as int,
                ));
                assert(self.solos()[i as int] == self.solos@[i as int]);
            }
            if self.solos[i].event_id == event_id {
                let user = match self.search_user_by_id(self.solos[i].user_id) {
                    Ok(u) => u,
                    Err(e) => return Err(e),
                };
                result.push(user);
            }
            i = i + 1;
        }
        assert(self.solos@.subrange(0, i as int) =~= self.solos@);
        Ok(result)
    }

    /// Whether a team or a solo entry names the event.
    fn event_in_use(&self, id: EntityId) -> (r: bool)
        ensures
            r == self.event_referenced(id),
    {
        let mut i: usize = 0;
        while i < self.teams.len()
            invariant
                i <= self.teams@.len(),
                forall|k: int| 0 <= k < i ==> self.teams@[k].event_id != id,
            decreases self.teams@.len() - i,
        {
            if self.teams[i].event_id == id {
                assert(self.teams()[i as int].event_id == id);
                return true;
            }
            i = i + 1;
        }
        let mut j: usize = 0;
        while j < self.solos.len()
            invariant
                j <= self.solos@.len(),
                forall|k: int| 0 <= k < self.teams@.len() ==> self.teams@[k].event_id != id,
                forall|k: int| 0 <= k < j ==> self.solos@[k].event_id != id,
            decreases self.solos@.len() - j,
        {
            if self.solos[j].event_id == id {
                assert(self.solos()[j as int].event_id == id);
                return true;
            }
            j = j + 1;
        }
        false
    }

    /// Deletes the event with the given identifier. An event that no row
    /// holds is not found; one that a team or a solo entry still names is
    /// kept, and the store refuses the deletion.
    pub fn delete_event_by_id(&mut self, event_id: &EntityId) -> (r: Result<(), StoreError>)
        requires
            old(self).wf(),
        ensures
            final(self).wf(),
            !old(self).has_event(*event_id) ==> r == Err::<(), StoreError>(StoreError::NotFound)
                && *final(self) == *old(self),
            old(self).has_event(*event_id) && old(self).event_referenced(*event_id) ==> r
                == Err::<(), StoreError>(StoreError::Storage(StorageFault::StillReferenced))
                && *final(self) == *old(self),
            old(self).has_event(*event_id) && !old(self).event_referenced(*event_id) ==> r is Ok
                && final(self).only_events_differ(old(self)) && exists|i: int|
                0 <= i < old(self).events().len() && old(self).events()[i].id == *event_id
                    && final(self).events() == old(self).events().remove(i),
            r is Ok ==> !final(self).has_event(*event_id),
    {
        let i = match self.find_event(*event_id) {
            Some(i) => i,
            None => return Err(StoreError::NotFound),
        };
        if self.event_in_use(*event_id) {
            return Err(StoreError::Storage(StorageFault::StillReferenced));
        }
        self.events.remove(i);
        proof {
            Self::lemma_event_removed(*old(self), *self, i as int);
        }
        Ok(())
    }
}

/// Creating an event adds exactly one event of its name to the listing: the
/// events named `name` after the creation are those before it, and one more.
pub proof fn lemma_created_event_listed_once(a: Database, b: Database, name: Seq<char>)
    requires
        a.wf(),
        b.events() == a.events().push(b.events().last()),
        b.events().last().name@ == name,
    ensures
        b.events().filter(|x: Event| x.name@ == name).len() == a.events().filter(
            |x: Event| x.name@ == name,
        ).len() + 1,
{
    reveal(Seq::filter);
    assert(b.events().drop_last() =~= a.events());
}

/// An event that was deleted is in no later listing of the events.
pub proof fn lemma_deleted_event_unlisted(a: Database, b: Database, id: EntityId)
    requires
        a.wf(),
        exists|i: int|
            0 <= i < a.events().len() && a.events()[i].id == id && b.events() == a.events().remove(
                i,
            ),
    ensures
        forall|k: int| 0 <= k < b.events().len() ==> (#[trigger] b.events()[k]).id != id,
{
    let i = choose|i: int|
        0 <= i < a.events().len() && a.events()[i].id == id && b.events() == a.events().remove(i);
    a.events().remove_ensures(i);
    assert forall|k: int| 0 <= k < b.events().len() implies (#[trigger] b.events()[k]).id != id by {
        if k < i {
            assert(a.events()[k].id != a.events()[i].id);
        } else {
            assert(a.events()[i].id != a.events()[k + 1].id);
        }
    }
}

/// A join request that was stored for a team and a user makes a second one
/// for the same pair, with any message that fits, fail on the key.
pub proof fn lemma_second_request_rejected(
    a: Database,
    b: Database,
    team_id: EntityId,
    user_id: EntityId,
    message: Seq<char>,
)
    requires
        a.wf(),
        a.request_outcome(team_id, user_id, b.requests().last().message@) is Ok,
        message_fits(message),
        b.only_requests_differ(&a),
        b.requests() == a.requests().push(b.requests().last()),
        b.requests().last().team_id == team_id,
        b.requests().last().user_id == user_id,
    ensures
        b.request_outcome(team_id, user_id, message) == Err::<(), StoreError>(
            StoreError::Storage(StorageFault::DuplicateKey),
        ),
{
    assert(b.requests()[a.requests().len() as int] == b.requests().last());
}

/// A membership that was stored for a team and a user makes a second one for
/// the same pair fail on the key.
pub proof fn lemma_second_join_rejected(
    a: Database,
    b: Database,
    team_id: EntityId,
    user_id: EntityId,
)
    requires
        a.wf(),
        a.join_outcome(team_id, user_id) is Ok,
        b.only_joins_differ(&a),
        b.joins() == a.joins().push(b.joins().last()),
        b.joins().last().team_id == team_id,
        b.joins().last().user_id == user_id,
    ensures
        b.join_outcome(team_id, user_id) == Err::<(), StoreError>(
            StoreError::Storage(StorageFault::DuplicateKey),
        ),
{
    assert(b.joins()[a.joins().len() as int] == b.joins().last());
}

} // verus!
