//! Why each change that the store makes keeps its tables consistent.

use vstd::prelude::*;
use crate::cruds::Database;
use crate::ids::EntityId;
use crate::models::{Event, Solo, Join, Request, Team, User};

verus! {

impl Database {
    /// Events that a store holds are still held where the rows are only appended to.
    pub(crate) proof fn lemma_events_grow(a: Database, b: Database)
        requires
            a.events().len() <= b.events().len(),
            forall|i: int| 0 <= i < a.events().len() ==> b.events()[i] == a.events()[i],
        ensures
            forall|id: EntityId| a.has_event(id) ==> b.has_event(id),
    {
        assert forall|id: EntityId| a.has_event(id) implies b.has_event(id) by {
            let i = choose|i: int| 0 <= i < a.events().len() && #[trigger] a.events()[i].id == id;
            assert(b.events()[i].id == id);
        }
    }

    /// Users that a store holds are still held where the rows are only appended to.
    pub(crate) proof fn lemma_users_grow(a: Database, b: Database)
        requires
            a.users().len() <= b.users().len(),
            forall|i: int| 0 <= i < a.users().len() ==> b.users()[i] == a.users()[i],
        ensures
            forall|id: EntityId| a.has_user(id) ==> b.has_user(id),
    {
        assert forall|id: EntityId| a.has_user(id) implies b.has_user(id) by {
            let i = choose|i: int| 0 <= i < a.users().len() && #[trigger] a.users()[i].id == id;
            assert(b.users()[i].id == id);
        }
    }

    /// Teams that a store holds are still held where the rows are only appended to.
    pub(crate) proof fn lemma_teams_grow(a: Database, b: Database)
        requires
            a.teams().len() <= b.teams().len(),
            forall|i: int| 0 <= i < a.teams().len() ==> b.teams()[i] == a.teams()[i],
        ensures
            forall|id: EntityId| a.has_team(id) ==> b.has_team(id),
    {
        assert forall|id: EntityId| a.has_team(id) implies b.has_team(id) by {
            let i = choose|i: int| 0 <= i < a.teams().len() && #[trigger] a.teams()[i].id == id;
            assert(b.teams()[i].id == id);
        }
    }

    /// Appending an event under a fresh identifier keeps the store well formed.
    pub(crate) proof fn lemma_event_appended(a: Database, b: Database, e: Event)
        requires
            a.wf(),
            !a.has_event(e.id),
            b.only_events_differ(&a),
            b.events() == a.events().push(e),
        ensures
            b.wf(),
    {
        Self::lemma_events_grow(a, b);
        assert forall|i: int, j: int| 0 <= i < j < b.events().len() implies
            #[trigger] b.events()[i].id != #[trigger] b.events()[j].id by {
            if j == a.events().len() {
                assert(a.events()[i].id != e.id);
            } else {
                assert(a.events()[i].id != a.events()[j].id);
            }
        }
        assert forall|i: int| 0 <= i < b.teams().len() implies b.has_event(
            #[trigger] b.teams()[i].event_id,
        ) by {
            assert(a.has_event(a.teams()[i].event_id));
        }
        assert forall|i: int| 0 <= i < b.solos().len() implies b.has_event(
            #[trigger] b.solos()[i].event_id,
        ) by {
            assert(a.has_event(a.solos()[i].event_id));
        }
    }

    /// Appending a user under a fresh identifier keeps the store well formed.
    pub(crate) proof fn lemma_user_appended(a: Database, b: Database, u: User)
        requires
            a.wf(),
            !a.has_user(u.id),
            b.only_users_differ(&a),
            b.users() == a.users().push(u),
        ensures
            b.wf(),
    {
        Self::lemma_users_grow(a, b);
        assert forall|i: int, j: int| 0 <= i < j < b.users().len() implies
            #[trigger] b.users()[i].id != #[trigger] b.users()[j].id by {
            if j == a.users().len() {
                assert(a.users()[i].id != u.id);
            } else {
                assert(a.users()[i].id != a.users()[j].id);
            }
        }
        assert forall|i: int| 0 <= i < b.teams().len() implies b.has_user(
            #[trigger] b.teams()[i].reader_id,
        ) by {
            assert(a.has_user(a.teams()[i].reader_id));
        }
        assert forall|i: int| 0 <= i < b.solos().len() implies b.has_user(
            #[trigger] b.solos()[i].user_id,
        ) by {
            assert(a.has_user(a.solos()[i].user_id));
        }
        assert forall|i: int| 0 <= i < b.joins().len() implies b.has_user(
            #[trigger] b.joins()[i].user_id,
        ) by {
            assert(a.has_user(a.joins()[i].user_id));
        }
        assert forall|i: int| 0 <= i < b.requests().len() implies b.has_user(
            #[trigger] b.requests()[i].user_id,
        ) by {
            assert(a.has_user(a.requests()[i].user_id));
        }
    }

    /// Appending a team under a fresh identifier, of a stored event and led
    /// by a stored user, keeps the store well formed.
    pub(crate) proof fn lemma_team_appended(a: Database, b: Database, t: Team)
        requires
            a.wf(),
            !a.has_team(t.id),
            a.has_event(t.event_id),
            a.has_user(t.reader_id),
            b.only_teams_differ(&a),
            b.teams() == a.teams().push(t),
        ensures
            b.wf(),
    {
        Self::lemma_teams_grow(a, b);
        assert forall|i: int, j: int| 0 <= i < j < b.teams().len() implies
            #[trigger] b.teams()[i].id != #[trigger] b.teams()[j].id by {
            if j == a.teams().len() {
                assert(a.teams()[i].id != t.id);
            } else {
                assert(a.teams()[i].id != a.teams()[j].id);
            }
        }
        assert forall|i: int| 0 <= i < b.teams().len() implies b.has_event(
            #[trigger] b.teams()[i].event_id,
        ) && b.has_user(b.teams()[i].reader_id) by {
            if i < a.teams().len() {
                assert(a.has_event(a.teams()[i].event_id));
            }
        }
        assert forall|i: int| 0 <= i < b.joins().len() implies b.has_team(
            #[trigger] b.joins()[i].team_id,
        ) by {
            assert(a.has_team(a.joins()[i].team_id));
        }
        assert forall|i: int| 0 <= i < b.requests().len() implies b.has_team(
            #[trigger] b.requests()[i].team_id,
        ) by {
            assert(a.has_team(a.requests()[i].team_id));
        }
    }

    /// Appending a solo entry under a fresh key, of a stored event and user,
    /// keeps the store well formed.
    pub(crate) proof fn lemma_solo_appended(a: Database, b: Database, x: Solo)
        requires
            a.wf(),
            !a.has_solo(x.event_id, x.user_id),
            a.has_event(x.event_id),
            a.has_user(x.user_id),
            b.only_solos_differ(&a),
            b.solos() == a.solos().push(x),
        ensures
            b.wf(),
    {
        assert forall|i: int, j: int| 0 <= i < j < b.solos().len() implies !(
        #[trigger] b.solos()[i].event_id == #[trigger] b.solos()[j].event_id && b.solos()[i].user_id
            == b.solos()[j].user_id) by {
            if j == a.solos().len() {
                assert(!(a.solos()[i].event_id == x.event_id && a.solos()[i].user_id
                    == x.user_id));
            } else {
                assert(!(a.solos()[i].event_id == a.solos()[j].event_id && a.solos()[i].user_id
                    == a.solos()[j].user_id));
            }
        }
        assert forall|i: int| 0 <= i < b.solos().len() implies b.has_event(
            #[trigger] b.solos()[i].event_id,
        ) && b.has_user(b.solos()[i].user_id) by {
            if i < a.solos().len() {
                assert(a.has_event(a.solos()[i].event_id));
            }
        }
    }

    /// Appending a membership under a fresh key, of a stored team and user,
    /// keeps the store well formed.
    pub(crate) proof fn lemma_join_appended(a: Database, b: Database, x: Join)
        requires
            a.wf(),
            !a.has_join(x.team_id, x.user_id),
            a.has_team(x.team_id),
            a.has_user(x.user_id),
            b.only_joins_differ(&a),
            b.joins() == a.joins().push(x),
        ensures
            b.wf(),
    {
        assert forall|i: int, j: int| 0 <= i < j < b.joins().len() implies !(
        #[trigger] b.joins()[i].team_id == #[trigger] b.joins()[j].team_id && b.joins()[i].user_id
            == b.joins()[j].user_id) by {
            if j == a.joins().len() {
                assert(!(a.joins()[i].team_id == x.team_id && a.joins()[i].user_id
                    == x.user_id));
            } else {
                assert(!(a.joins()[i].team_id == a.joins()[j].team_id && a.joins()[i].user_id
                    == a.joins()[j].user_id));
            }
        }
        assert forall|i: int| 0 <= i < b.joins().len() implies b.has_team(
            #[trigger] b.joins()[i].team_id,
        ) && b.has_user(b.joins()[i].user_id) by {
            if i < a.joins().len() {
                assert(a.has_team(a.joins()[i].team_id));
            }
        }
    }

    /// Appending a join request under a fresh key, of a stored team and user,
    /// keeps the store well formed.
    pub(crate) proof fn lemma_request_appended(a: Database, b: Database, x: Request)
        requires
            a.wf(),
            !a.has_request(x.team_id, x.user_id),
            a.has_team(x.team_id),
            a.has_user(x.user_id),
            b.only_requests_differ(&a),
            b.requests() == a.requests().push(x),
        ensures
            b.wf(),
    {
        assert forall|i: int, j: int| 0 <= i < j < b.requests().len() implies !(
        #[trigger] b.requests()[i].team_id == #[trigger] b.requests()[j].team_id
            && b.requests()[i].user_id == b.requests()[j].user_id) by {
            if j == a.requests().len() {
                assert(!(a.requests()[i].team_id == x.team_id && a.requests()[i].user_id
                    == x.user_id));
            } else {
                assert(!(a.requests()[i].team_id == a.requests()[j].team_id
                    && a.requests()[i].user_id == a.requests()[j].user_id));
            }
        }
        assert forall|i: int| 0 <= i < b.requests().len() implies b.has_team(
            #[trigger] b.requests()[i].team_id,
        ) && b.has_user(b.requests()[i].user_id) by {
            if i < a.requests().len() {
                assert(a.has_team(a.requests()[i].team_id));
            }
        }
    }

    /// Removing an event that nothing names keeps the store well formed.
    pub(crate) proof fn lemma_event_removed(a: Database, b: Database, i: int)
        requires
            a.wf(),
            0 <= i < a.events().len(),
            !a.event_referenced(a.events()[i].id),
            b.only_events_differ(&a),
            b.events() == a.events().remove(i),
        ensures
            b.wf(),
            !b.has_event(a.events()[i].id),
    {
        let id = a.events()[i].id;
        a.events().remove_ensures(i);
        assert forall|x: int, y: int| 0 <= x < y < b.events().len() implies
            #[trigger] b.events()[x].id != #[trigger] b.events()[y].id by {
            let xa = if x < i { x } else { x + 1 };
            let ya = if y < i { y } else { y + 1 };
            assert(a.events()[xa].id != a.events()[ya].id);
        }
        assert forall|e: EntityId| a.has_event(e) && e != id implies b.has_event(e) by {
            let k = choose|k: int| 0 <= k < a.events().len() && #[trigger] a.events()[k].id == e;
            if k < i {
                assert(b.events()[k].id == e);
            } else {
                assert(k != i);
                assert(b.events()[k - 1].id == e);
            }
        }
        assert forall|k: int| 0 <= k < b.teams().len() implies b.has_event(
            (#[trigger] b.teams()[k]).event_id,
        ) by {
            assert(a.has_event(a.teams()[k].event_id));
            assert(a.teams()[k].event_id != id);
        }
        assert forall|k: int| 0 <= k < b.solos().len() implies b.has_event(
            (#[trigger] b.solos()[k]).event_id,
        ) by {
            assert(a.has_event(a.solos()[k].event_id));
            assert(a.solos()[k].event_id != id);
        }
        assert forall|k: int| 0 <= k < b.events().len() implies #[trigger] b.events()[k].id
            != id by {
            if k < i {
                assert(a.events()[k].id != a.events()[i].id);
            } else {
                assert(a.events()[i].id != a.events()[k + 1].id);
            }
        }
    }
}

} // verus!
