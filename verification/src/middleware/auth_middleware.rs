//! The guard every protected request passes: a bearer token that verifies,
//! for a user whose account is switched on.
//!
//! The guard decides; it does not verify tokens, keep the cache or query the
//! user table itself. It says what to ask next and is handed the answer.

use vstd::prelude::*;
use vstd::string::StrSliceExecFns;
use crate::models::user::Claims;

verus! {

/// What the cache of users let through before holds for a user. Only users
/// found active are ever entered, so finding an entry at all lets the user
/// through.
#[derive(Clone, Copy, Debug, PartialEq, Eq, Structural)]
pub struct UserActiveCache {
    pub is_active: bool,
}

/// Why a request is turned away.
#[derive(Clone, Copy, Debug, PartialEq, Eq, Structural)]
pub enum Denial {
    /// No `Authorization` header, or one that is not `Bearer ` and a token.
    MissingCredentials,
    /// The token did not verify.
    InvalidToken,
    /// The account is switched off.
    Inactive,
    /// No live account belongs to the token.
    UnknownUser,
    /// The user table could not be asked.
    LookupFailed,
}

impl Denial {
    /// The HTTP status a denial is answered with.
    pub open spec fn status(self) -> u16 {
        match self {
            Denial::MissingCredentials => 401,
            Denial::InvalidToken => 401,
            Denial::Inactive => 403,
            Denial::UnknownUser => 401,
            Denial::LookupFailed => 500,
        }
    }

    /// The text a denial is answered with.
    pub open spec fn text(self) -> Seq<char> {
        match self {
            Denial::MissingCredentials => "Missing or invalid Authorization header"@,
            Denial::InvalidToken => "Invalid token"@,
            Denial::Inactive => "User account is inactive"@,
            Denial::UnknownUser => "User not found"@,
            Denial::LookupFailed => "Failed to verify user status"@,
        }
    }

    pub fn status_code(&self) -> (r: u16)
        ensures
            r == self.status(),
    {
        match self {
            Denial::MissingCredentials => 401,
            Denial::InvalidToken => 401,
            Denial::Inactive => 403,
            Denial::UnknownUser => 401,
            Denial::LookupFailed => 500,
        }
    }

    pub fn message(&self) -> (r: String)
        ensures
            r@ == self.text(),
    {
        let text: &str = match self {
            Denial::MissingCredentials => "Missing or invalid Authorization header",
            Denial::InvalidToken => "Invalid token",
            Denial::Inactive => "User account is inactive",
            Denial::UnknownUser => "User not found",
            Denial::LookupFailed => "Failed to verify user status",
        };
        text.to_owned()
    }
}

/// The scheme word and the blank that a bearer header starts with.
pub open spec fn bearer_prefix() -> Seq<char> {
    seq!['B', 'e', 'a', 'r', 'e', 'r', ' ']
}

/// The token a header carries: what follows `Bearer `, if the header starts
/// with exactly that. The token may be empty.
pub open spec fn token_of(header: Seq<char>) -> Option<Seq<char>> {
    if header.len() >= 7 && header.subrange(0, 7) == bearer_prefix() {
        Some(header.subrange(7, header.len() as int))
    } else {
        None
    }
}

/// The token the `Authorization` header `header` carries.
pub fn bearer_token(header: &str) -> (token: Option<String>)
    ensures
        match token {
            Some(t) => token_of(header@) == Some(t@),
            None => token_of(header@) is None,
        },
{
    let n = header.unicode_len();
    if n < 7 {
        return None;
    }
    let starts = header.get_char(0) == 'B' && header.get_char(1) == 'e' && header.get_char(2) == 'a'
        && header.get_char(3) == 'r' && header.get_char(4) == 'e' && header.get_char(5) == 'r'
        && header.get_char(6) == ' ';
    proof {
        let head = header@.subrange(0, 7);
        if starts {
            assert(head =~= bearer_prefix());
        } else {
            assert(head[0] == header@[0] && head[1] == header@[1] && head[2] == header@[2] && head[3]
                == header@[3] && head[4] == header@[4] && head[5] == header@[5] && head[6]
                == header@[6]);
            assert(bearer_prefix()[0] == 'B' && bearer_prefix()[1] == 'e' && bearer_prefix()[2] == 'a'
                && bearer_prefix()[3] == 'r' && bearer_prefix()[4] == 'e' && bearer_prefix()[5] == 'r'
                && bearer_prefix()[6] == ' ');
        }
    }
    if starts {
        Some(header.substring_char(7, n).to_owned())
    } else {
        None
    }
}

/// One thing the guard asks for.
#[derive(Clone, Debug, PartialEq, Eq)]
pub enum GuardRequest {
    /// Verify this token and read its claims.
    VerifyToken(String),
    /// Look the user up in the cache of users let through before.
    ReadCache(u128),
    /// Read from the user table whether the live account under the
    /// identifier is switched on.
    QueryActive(u128),
    /// Enter the user in that cache.
    WriteCache(u128, UserActiveCache),
}

/// A `GuardRequest` with its token as a sequence of characters.
pub enum GuardRequestView {
    VerifyToken(Seq<char>),
    ReadCache(u128),
    QueryActive(u128),
    WriteCache(u128, UserActiveCache),
}

impl View for GuardRequest {
    type V = GuardRequestView;

    open spec fn view(&self) -> GuardRequestView {
        match *self {
            GuardRequest::VerifyToken(token) => GuardRequestView::VerifyToken(token@),
            GuardRequest::ReadCache(user_id) => GuardRequestView::ReadCache(user_id),
            GuardRequest::QueryActive(user_id) => GuardRequestView::QueryActive(user_id),
            GuardRequest::WriteCache(user_id, entry) => GuardRequestView::WriteCache(user_id, entry),
        }
    }
}

/// The answer to what the guard asked.
#[derive(Clone, Debug, PartialEq, Eq)]
pub enum GuardReply {
    /// The request's `Authorization` header, if it has one that is text.
    Header(Option<String>),
    /// The claims of the token, if it verified.
    Token(Option<Claims>),
    /// The user's entry in the cache, if there is one.
    Cached(Option<UserActiveCache>),
    /// Whether the account is switched on; `None` when no live account is
    /// under the identifier.
    Active(Option<bool>),
    /// The cache was asked to take the entry.
    Written,
    /// What was asked could not be done.
    Failed,
}

/// What to do next with the request.
#[derive(Clone, Debug, PartialEq, Eq)]
pub enum GuardStep {
    /// Ask this, and come back with the answer.
    Ask(GuardRequest),
    /// Let the request through, with these claims attached.
    Allow(Claims),
    /// Turn the request away.
    Deny(Denial),
}

/// A `GuardStep` with its request viewed.
pub enum GuardStepView {
    Ask(GuardRequestView),
    Allow(Claims),
    Deny(Denial),
}

impl View for GuardStep {
    type V = GuardStepView;

    open spec fn view(&self) -> GuardStepView {
        match *self {
            GuardStep::Ask(request) => GuardStepView::Ask(request@),
            GuardStep::Allow(claims) => GuardStepView::Allow(claims),
            GuardStep::Deny(denial) => GuardStepView::Deny(denial),
        }
    }
}

/// What the guard asked last, and so which answer it is waiting for.
#[derive(Clone, Copy, Debug, PartialEq, Eq, Structural)]
pub enum GuardStage {
    AwaitingHeader,
    Verifying,
    ReadingCache,
    Querying,
    Caching,
    Closed,
}

/// One request at the guard.
#[derive(Clone, Copy, Debug, PartialEq, Eq, Structural)]
pub struct AuthGuard {
    pub stage: GuardStage,
    /// The claims of the token, once it has verified.
    pub claims: Option<Claims>,
}

impl AuthGuard {
    /// A guard that has seen nothing of the request yet.
    pub open spec fn fresh() -> AuthGuard {
        AuthGuard { stage: GuardStage::AwaitingHeader, claims: None }
    }

    /// Turn the request away.
    pub open spec fn denying(self, denial: Denial) -> (AuthGuard, GuardStepView) {
        (AuthGuard { stage: GuardStage::Closed, ..self }, GuardStepView::Deny(denial))
    }

    /// The verdict of a guard that has verified the token and has nothing
    /// left to ask.
    pub open spec fn allowing(self) -> (AuthGuard, GuardStepView) {
        match self.claims {
            Some(claims) => (AuthGuard { stage: GuardStage::Closed, ..self }, GuardStepView::Allow(claims)),
            None => self.denying(Denial::InvalidToken),
        }
    }

    /// The guard after `reply`, and what to do next.
    ///
    /// The header must carry a bearer token, and the token must verify. A
    /// user found in the cache is let through at once. Otherwise the user table
    /// decides: an account switched on is entered in the cache and let through,
    /// whether or not the cache took the entry; one switched off, one that
    /// is not there, and a table that cannot be asked each turn the request
    /// away. An answer that is not the one asked for turns it away too.
    pub open spec fn next(self, reply: GuardReply) -> (AuthGuard, GuardStepView) {
        match self.stage {
            GuardStage::AwaitingHeader => match reply {
                GuardReply::Header(Some(header)) => match token_of(header@) {
                    Some(token) => (
                        AuthGuard { stage: GuardStage::Verifying, ..self },
                        GuardStepView::Ask(GuardRequestView::VerifyToken(token)),
                    ),
                    None => self.denying(Denial::MissingCredentials),
                },
                _ => self.denying(Denial::MissingCredentials),
            },
            GuardStage::Verifying => match reply {
                GuardReply::Token(Some(claims)) => (
                    AuthGuard { stage: GuardStage::ReadingCache, claims: Some(claims) },
                    GuardStepView::Ask(GuardRequestView::ReadCache(claims.sub)),
                ),
                _ => self.denying(Denial::InvalidToken),
            },
            GuardStage::ReadingCache => match (self.claims, reply) {
                (Some(_), GuardReply::Cached(Some(_))) => self.allowing(),
                (Some(claims), _) => (
                    AuthGuard { stage: GuardStage::Querying, ..self },
                    GuardStepView::Ask(GuardRequestView::QueryActive(claims.sub)),
                ),
                (None, _) => self.denying(Denial::InvalidToken),
            },
            GuardStage::Querying => match (self.claims, reply) {
                (Some(claims), GuardReply::Active(Some(true))) => (
                    AuthGuard { stage: GuardStage::Caching, ..self },
                    GuardStepView::Ask(
                        GuardRequestView::WriteCache(claims.sub, UserActiveCache { is_active: true }),
                    ),
                ),
                (Some(_), GuardReply::Active(Some(false))) => self.denying(Denial::Inactive),
                (Some(_), GuardReply::Active(None)) => self.denying(Denial::UnknownUser),
                (Some(_), _) => self.denying(Denial::LookupFailed),
                (None, _) => self.denying(Denial::InvalidToken),
            },
            GuardStage::Caching => self.allowing(),
            GuardStage::Closed => self.denying(Denial::MissingCredentials),
        }
    }

    /// A guard for a request that has just come in. Its first step takes the
    /// request's `Authorization` header.
    pub fn new() -> (guard: AuthGuard)
        ensures
            guard == AuthGuard::fresh(),
    {
        AuthGuard { stage: GuardStage::AwaitingHeader, claims: None }
    }

    fn deny(self, denial: Denial) -> (r: (AuthGuard, GuardStep))
        ensures
            r.0 == self.denying(denial).0,
            r.1@ == self.denying(denial).1,
    {
        (AuthGuard { stage: GuardStage::Closed, claims: self.claims }, GuardStep::Deny(denial))
    }

    fn allow(self) -> (r: (AuthGuard, GuardStep))
        ensures
            r.0 == self.allowing().0,
            r.1@ == self.allowing().1,
    {
        match self.claims {
            Some(claims) => (
                AuthGuard { stage: GuardStage::Closed, claims: self.claims },
                GuardStep::Allow(claims),
            ),
            None => self.deny(Denial::InvalidToken),
        }
    }

    /// Takes the answer to what was asked last and says what to do with the
    /// request next.
    pub fn step(self, reply: GuardReply) -> (r: (AuthGuard, GuardStep))
        ensures
            r.0 == self.next(reply).0,
            r.1@ == self.next(reply).1,
    {
        match self.stage {
            GuardStage::AwaitingHeader => match reply {
                GuardReply::Header(Some(header)) => match bearer_token(header.as_str()) {
                    Some(token) => (
                        AuthGuard { stage: GuardStage::Verifying, claims: self.claims },
                        GuardStep::Ask(GuardRequest::VerifyToken(token)),
                    ),
                    None => self.deny(Denial::MissingCredentials),
                },
                _ => self.deny(Denial::MissingCredentials),
            },
            GuardStage::Verifying => match reply {
                GuardReply::Token(Some(claims)) => (
                    AuthGuard { stage: GuardStage::ReadingCache, claims: Some(claims) },
                    GuardStep::Ask(GuardRequest::ReadCache(claims.sub)),
                ),
                _ => self.deny(Denial::InvalidToken),
            },
            GuardStage::ReadingCache => match (self.claims, reply) {
                (Some(_), GuardReply::Cached(Some(_))) => self.allow(),
                (Some(claims), _) => (
                    AuthGuard { stage: GuardStage::Querying, claims: self.claims },
                    GuardStep::Ask(GuardRequest::QueryActive(claims.sub)),
                ),
                (None, _) => self.deny(Denial::InvalidToken),
            },
            GuardStage::Querying => match (self.claims, reply) {
                (Some(claims), GuardReply::Active(Some(true))) => (
                    AuthGuard { stage: GuardStage::Caching, claims: self.claims },
                    GuardStep::Ask(
                        GuardRequest::WriteCache(claims.sub, UserActiveCache { is_active: true }),
                    ),
                ),
                (Some(_), GuardReply::Active(Some(false))) => self.deny(Denial::Inactive),
                (Some(_), GuardReply::Active(None)) => self.deny(Denial::UnknownUser),
                (Some(_), _) => self.deny(Denial::LookupFailed),
                (None, _) => self.deny(Denial::InvalidToken),
            },
            GuardStage::Caching => self.allow(),
            GuardStage::Closed => self.deny(Denial::MissingCredentials),
        }
    }
}

/// Nobody gets past the guard on an answer alone. A request is let through
/// only with claims the guard already held, and only when the cache knew the
/// user or the guard had just asked for the user to be cached, which it
/// asks only after the user table said the account is switched on.
pub proof fn law_only_vouched_users_pass(guard: AuthGuard, reply: GuardReply, claims: Claims)
    requires
        guard.next(reply).1 == GuardStepView::Allow(claims),
    ensures
        guard.claims == Some(claims),
        guard.stage == GuardStage::Caching || (guard.stage == GuardStage::ReadingCache
            && reply matches GuardReply::Cached(Some(_))),
{
}

/// The guard holds claims only from a token that verified, and asks for a
/// user to be cached only on the user table's word that the account is
/// switched on.
pub proof fn law_claims_come_from_verified_tokens(guard: AuthGuard, reply: GuardReply)
    ensures
        guard.next(reply).0.claims != guard.claims ==> guard.stage == GuardStage::Verifying
            && reply == GuardReply::Token(guard.next(reply).0.claims),
        guard.next(reply).0.stage == GuardStage::Caching ==> guard.stage == GuardStage::Querying
            && reply == GuardReply::Active(Some(true)),
{
}

} // verus!
