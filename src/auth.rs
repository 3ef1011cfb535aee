//! The identity verification: a bearer token read from the `Authorization` header is
//! exchanged with the identity provider for the caller's identity.

use vstd::prelude::*;
use vstd::string::StrSliceExecFns;

verus! {

/// The identity that the provider vouches for.
#[derive(Debug)]
pub struct GithubUserData {
    pub login: String,
    pub avatar_url: String,
}

impl Clone for GithubUserData {
    fn clone(&self) -> (r: Self)
        ensures
            r == *self,
    {
        GithubUserData { login: self.login.clone(), avatar_url: self.avatar_url.clone() }
    }
}

/// The HTTP status with which the provider confirms a token.
pub const PROVIDER_OK: u16 = 200;

/// The scheme word, with its space, that opens a bearer credential.
pub open spec fn bearer_prefix() -> Seq<char> {
    seq!['B', 'e', 'a', 'r', 'e', 'r', ' ']
}

/// The token that an `Authorization` header carries: what follows `Bearer `.
pub open spec fn token_of(header: Seq<char>) -> Option<Seq<char>> {
    if header.len() >= 7 && header.subrange(0, 7) == bearer_prefix() {
        Some(header.subrange(7, header.len() as int))
    } else {
        None
    }
}

/// The token of a request, given the text of its `Authorization` header
/// where it has one.
pub open spec fn token_of_header(header: Option<Seq<char>>) -> Option<Seq<char>> {
    match header {
        Some(h) => token_of(h),
        None => None,
    }
}

/// The text of a header that may be missing.
pub open spec fn header_text(h: Option<&str>) -> Option<Seq<char>> {
    match h {
        Some(s) => Some(s@),
        None => None,
    }
}

/// Reads the bearer token from the text of an `Authorization` header; a
/// missing header or another scheme gives none.
pub fn parse_token(auth_header: Option<&str>) -> (r: Option<String>)
    ensures
        match r {
            Some(t) => token_of_header(header_text(auth_header)) == Some(t@),
            None => token_of_header(header_text(auth_header)) is None,
        },
{
    let auth_str = match auth_header {
        Some(h) => h,
        None => return None,
    };
    let n = auth_str.unicode_len();
    if n < 7 {
        return None;
    }
    let prefix = ['B', 'e', 'a', 'r', 'e', 'r', ' '];
    let mut i: usize = 0;
    while i < 7
        invariant
            i <= 7,
            auth_header == Some(auth_str),
            n == auth_str@.len(),
            n >= 7,
            prefix@ == bearer_prefix(),
            forall|k: int| 0 <= k < i ==> auth_str@[k] == bearer_prefix()[k],
        decreases 7 - i,
    {
        if auth_str.get_char(i) != prefix[i] {
            assert(auth_str@.subrange(0, 7)[i as int] != bearer_prefix()[i as int]);
            return None;
        }
        i = i + 1;
    }
    assert(auth_str@.subrange(0, 7) =~= bearer_prefix());
    Some(auth_str.substring_char(7, n).to_owned())
}

/// How the identity provider answered a token.
pub enum ProviderReply {
    /// An HTTP answer: its status and, where the body reads as a user
    /// record, that record.
    Answered { status: u16, user: Option<GithubUserData> },
    /// No answer: the network or the connection failed.
    Unreachable,
}

/// The identity that a reply confirms: a user with a non-empty login, sent
/// with status 200.
pub open spec fn confirmed(reply: ProviderReply) -> Option<GithubUserData> {
    match reply {
        ProviderReply::Answered { status, user: Some(u) } => {
            if status == PROVIDER_OK && u.login@.len() > 0 {
                Some(u)
            } else {
                None
            }
        },
        _ => None,
    }
}

/// What the identity verification learns while it handles one request.
pub enum GateEvent {
    /// The request arrived, with the text of its `Authorization` header
    /// where it has one.
    HeaderSeen(Option<String>),
    /// The identity provider answered the token.
    ProviderReplied(ProviderReply),
}

/// Where the identity verification stands on one request.
pub enum GateState {
    Unauthenticated,
    /// A token was found; the provider must be asked about it.
    PendingVerification { token: String },
    Authenticated { user: GithubUserData },
    Rejected,
}

/// The move of the identity verification from `s` on `e` to `r`. A token leads to its
/// verification and a confirmed reply to the identity; everything else
/// rejects, and a settled verdict stands.
pub open spec fn steps_to(s: GateState, e: GateEvent, r: GateState) -> bool {
    match (s, e) {
        (GateState::Unauthenticated, GateEvent::HeaderSeen(h)) => match token_of_header(
            match h {
                Some(t) => Some(t@),
                None => None,
            },
        ) {
            Some(t) => r matches GateState::PendingVerification { token } && token@ == t,
            None => r is Rejected,
        },
        (GateState::PendingVerification { .. }, GateEvent::ProviderReplied(p)) => match confirmed(
            p,
        ) {
            Some(u) => r == GateState::Authenticated { user: u },
            None => r is Rejected,
        },
        (GateState::Authenticated { user }, _) => r == GateState::Authenticated { user },
        _ => r is Rejected,
    }
}

impl GateState {
    /// Moves the identity verification on an event.
    pub fn step(self, event: GateEvent) -> (r: GateState)
        ensures
            steps_to(self, event, r),
    {
        match self {
            GateState::Unauthenticated => match event {
                GateEvent::HeaderSeen(h) => {
                    let token = match &h {
                        Some(t) => parse_token(Some(t.as_str())),
                        None => parse_token(None),
                    };
                    match token {
                        Some(token) => GateState::PendingVerification { token },
                        None => GateState::Rejected,
                    }
                },
                GateEvent::ProviderReplied(_) => GateState::Rejected,
            },
            GateState::PendingVerification { .. } => match event {
                GateEvent::ProviderReplied(ProviderReply::Answered { status, user: Some(u) }) => {
                    if status == PROVIDER_OK && u.login.unicode_len() > 0 {
                        GateState::Authenticated { user: u }
                    } else {
                        GateState::Rejected
                    }
                },
                _ => GateState::Rejected,
            },
            GateState::Authenticated { user } => GateState::Authenticated { user },
            GateState::Rejected => GateState::Rejected,
        }
    }

    /// The identity that the identity verification granted, if it did.
    pub fn identity(&self) -> (r: Option<GithubUserData>)
        ensures
            match self {
                GateState::Authenticated { user } => r == Some(*user),
                _ => r is None,
            },
    {
        match self {
            GateState::Authenticated { user } => Some(user.clone()),
            _ => None,
        }
    }
}

/// The verdict of the identity verification on one request, from its header through the
/// provider's reply: an identity, with a non-empty login, exactly where the
/// header holds a bearer token and the provider confirms it with status 200;
/// no identity on a missing header, another scheme, a refusal or a network
/// failure.
pub proof fn lemma_gate_verdict(
    header: Option<String>,
    reply: ProviderReply,
    s1: GateState,
    s2: GateState,
)
    requires
        steps_to(GateState::Unauthenticated, GateEvent::HeaderSeen(header), s1),
        s1 is PendingVerification ==> steps_to(s1, GateEvent::ProviderReplied(reply), s2),
        !(s1 is PendingVerification) ==> s2 == s1,
    ensures
        s2 is Authenticated <==> token_of_header(
            match header {
                Some(t) => Some(t@),
                None => None,
            },
        ) is Some && confirmed(reply) is Some,
        s2 matches GateState::Authenticated { user } ==> user.login@.len() > 0 && confirmed(reply)
            == Some(user),
{
}

} // verus!
