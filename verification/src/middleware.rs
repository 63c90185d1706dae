//! The admission decision for a protected request: find the bearer token,
//! have it validated, compare the roles it grants with those the operation
//! asks for. The store is never consulted: the roles in the token count.

use vstd::prelude::*;
use crate::errors::TokenError;
use crate::token::{validation, Token, TokenService};

verus! {

/// Answered where no acceptable token was presented.
pub const UNAUTHORIZED: u16 = 401;

/// Answered where the token's roles do not cover the operation.
pub const FORBIDDEN: u16 = 403;

/// The bytes of `Bearer `, the scheme and the blank after it.
pub open spec fn bearer_scheme() -> Seq<u8> {
    seq![66u8, 101u8, 97u8, 114u8, 101u8, 114u8, 32u8]
}

/// The token in an authorization header: what follows `Bearer `, where the
/// header starts with it and something follows.
pub open spec fn bearer_of(header: Seq<u8>) -> Option<Seq<u8>> {
    if header.len() > 7 && header.subrange(0, 7) == bearer_scheme() {
        Some(header.subrange(7, header.len() as int))
    } else {
        None
    }
}

/// Whether some granted role is among the required ones.
pub open spec fn roles_meet(granted: Seq<String>, required: Seq<String>) -> bool {
    exists|i: int, j: int|
        0 <= i < granted.len() && 0 <= j < required.len() && (#[trigger] granted[i])@ == (
        #[trigger] required[j])@
}

/// An operation that asks for no role is open to every authenticated
/// caller; any other is open to callers that hold one of its roles.
pub open spec fn roles_suffice(granted: Seq<String>, required: Seq<String>) -> bool {
    required.len() == 0 || roles_meet(granted, required)
}

/// Where a request stands on its way through the middleware.
#[derive(Clone, Copy, Debug, PartialEq, Eq, Structural)]
pub enum AccessState {
    Unauthenticated,
    TokenExtracted,
    TokenValidated,
    RoleChecked { granted: bool },
    Admitted,
    Rejected(u16),
}

/// What was learnt at a step.
#[derive(Clone, Copy, Debug, PartialEq, Eq, Structural)]
pub enum AccessEvent {
    /// The authorization header was read; `found` says whether it held a
    /// bearer token.
    Header { found: bool },
    /// The token was validated; `valid` is false for an invalid and for an
    /// expired one.
    Validation { valid: bool },
    /// The roles were compared; `granted` says whether they suffice.
    Roles { granted: bool },
    /// Nothing new: conclude.
    Conclude,
}

/// `Admitted` and `Rejected` end a request.
pub open spec fn is_terminal(s: AccessState) -> bool {
    s is Admitted || s is Rejected
}

/// The transition relation. A state moves on only by the event that belongs
/// to it; any other event, and any event in a terminal state, fails closed:
/// a request that is not yet authenticated is rejected as unauthorized, one
/// that is, as forbidden, and a terminal state stays.
pub open spec fn next_state(s: AccessState, e: AccessEvent) -> AccessState {
    match s {
        AccessState::Unauthenticated => match e {
            AccessEvent::Header { found } => if found {
                AccessState::TokenExtracted
            } else {
                AccessState::Rejected(UNAUTHORIZED)
            },
            _ => AccessState::Rejected(UNAUTHORIZED),
        },
        AccessState::TokenExtracted => match e {
            AccessEvent::Validation { valid } => if valid {
                AccessState::TokenValidated
            } else {
                AccessState::Rejected(UNAUTHORIZED)
            },
            _ => AccessState::Rejected(UNAUTHORIZED),
        },
        AccessState::TokenValidated => match e {
            AccessEvent::Roles { granted } => AccessState::RoleChecked { granted },
            _ => AccessState::Rejected(FORBIDDEN),
        },
        AccessState::RoleChecked { granted } => match e {
            AccessEvent::Conclude => if granted {
                AccessState::Admitted
            } else {
                AccessState::Rejected(FORBIDDEN)
            },
            _ => AccessState::Rejected(FORBIDDEN),
        },
        AccessState::Admitted => AccessState::Admitted,
        AccessState::Rejected(code) => AccessState::Rejected(code),
    }
}

/// Moves a request one step on.
pub fn step(s: AccessState, e: AccessEvent) -> (n: AccessState)
    ensures
        n == next_state(s, e),
{
    match s {
        AccessState::Unauthenticated => match e {
            AccessEvent::Header { found } => if found {
                AccessState::TokenExtracted
            } else {
                AccessState::Rejected(UNAUTHORIZED)
            },
            _ => AccessState::Rejected(UNAUTHORIZED),
        },
        AccessState::TokenExtracted => match e {
            AccessEvent::Validation { valid } => if valid {
                AccessState::TokenValidated
            } else {
                AccessState::Rejected(UNAUTHORIZED)
            },
            _ => AccessState::Rejected(UNAUTHORIZED),
        },
        AccessState::TokenValidated => match e {
            AccessEvent::Roles { granted } => AccessState::RoleChecked { granted },
            _ => AccessState::Rejected(FORBIDDEN),
        },
        AccessState::RoleChecked { granted } => match e {
            AccessEvent::Conclude => if granted {
                AccessState::Admitted
            } else {
                AccessState::Rejected(FORBIDDEN)
            },
            _ => AccessState::Rejected(FORBIDDEN),
        },
        AccessState::Admitted => AccessState::Admitted,
        AccessState::Rejected(code) => AccessState::Rejected(code),
    }
}

/// The state that a request reaches from `Unauthenticated` when each step
/// reports what it found.
pub open spec fn outcome(found: bool, valid: bool, granted: bool) -> AccessState {
    next_state(
        next_state(
            next_state(
                next_state(AccessState::Unauthenticated, AccessEvent::Header { found }),
                AccessEvent::Validation { valid },
            ),
            AccessEvent::Roles { granted },
        ),
        AccessEvent::Conclude,
    )
}

/// A terminal state never changes, and a request is admitted only when a
/// token was found, it was valid and the roles sufficed; without a valid
/// token the answer is 401, with one but without the roles 403.
pub proof fn law_admission(s: AccessState, e: AccessEvent, found: bool, valid: bool, granted: bool)
    ensures
        is_terminal(s) ==> next_state(s, e) == s,
        is_terminal(outcome(found, valid, granted)),
        outcome(found, valid, granted) == AccessState::Admitted <==> found && valid && granted,
        !(found && valid) ==> outcome(found, valid, granted) == AccessState::Rejected(UNAUTHORIZED),
        found && valid && !granted ==> outcome(found, valid, granted) == AccessState::Rejected(
            FORBIDDEN,
        ),
{
}

/// Takes the bearer token out of an authorization header's value. `None`
/// where the header does not start with `Bearer ` or nothing follows it.
pub fn bearer_token(header: &[u8]) -> (r: Option<Vec<u8>>)
    ensures
        match r {
            Some(t) => bearer_of(header@) == Some(t@),
            None => bearer_of(header@).is_none(),
        },
{
    let n: usize = header.len();
    if n <= 7 {
        return None;
    }
    if !(header[0] == 66 && header[1] == 101 && header[2] == 97 && header[3] == 114 && header[4]
        == 101 && header[5] == 114 && header[6] == 32) {
        proof {
            let head = header@.subrange(0, 7);
            assert(head[0] == header@[0] && head[1] == header@[1] && head[2] == header@[2]
                && head[3] == header@[3] && head[4] == header@[4] && head[5] == header@[5]
                && head[6] == header@[6]);
        }
        return None;
    }
    assert(header@.subrange(0, 7) =~= bearer_scheme());
    let mut token: Vec<u8> = Vec::new();
    let mut i: usize = 7;
    while i < n
        invariant
            n == header@.len(),
            7 <= i <= n,
            token@ == header@.subrange(7, i as int),
        decreases n - i,
    {
        token.push(header[i]);
        i += 1;
        assert(token@ =~= header@.subrange(7, i as int));
    }
    Some(token)
}

/// Whether `name` is among `names`.
fn holds_role(names: &Vec<String>, name: &String) -> (b: bool)
    ensures
        b == exists|j: int| 0 <= j < names@.len() && (#[trigger] names@[j])@ == name@,
{
    let mut j: usize = 0;
    while j < names.len()
        invariant
            j <= names@.len(),
            forall|k: int| 0 <= k < j ==> (#[trigger] names@[k])@ != name@,
        decreases names@.len() - j,
    {
        if names[j] == *name {
            return true;
        }
        j += 1;
    }
    false
}

/// Whether the granted roles cover an operation that asks for `required`.
pub fn check_roles(granted: &Vec<String>, required: &Vec<String>) -> (b: bool)
    ensures
        b == roles_suffice(granted@, required@),
{
    if required.len() == 0 {
        return true;
    }
    let mut i: usize = 0;
    while i < granted.len()
        invariant
            i <= granted@.len(),
            forall|k: int, j: int|
                0 <= k < i && 0 <= j < required@.len() ==> (#[trigger] granted@[k])@ != (
                #[trigger] required@[j])@,
        decreases granted@.len() - i,
    {
        if holds_role(required, &granted[i]) {
            return true;
        }
        i += 1;
    }
    false
}

/// The answer to a request whose token was decoded.
#[derive(Clone, Debug, PartialEq, Eq)]
pub enum Admission {
    /// Let the request through as this caller.
    Admitted { user_id: i32, roles: Vec<String> },
    /// Turn it down with this status.
    Rejected(u16),
}

/// What `authorize` answers under `key`: 401 where validation fails, 403
/// where the token is good but its roles do not suffice, else admission
/// with the token's subject and roles.
pub open spec fn admission(key: Seq<u8>, presented: Option<Token>, now: i64, required: Seq<String>) -> Admission {
    match validation(key, presented, now) {
        Err(_) => Admission::Rejected(UNAUTHORIZED),
        Ok((user_id, roles)) => if roles_suffice(roles@, required) {
            Admission::Admitted { user_id, roles }
        } else {
            Admission::Rejected(FORBIDDEN)
        },
    }
}

/// `authorize` answers as the state machine does when fed what each step
/// finds: whether a token was presented, whether it is valid, and whether
/// its roles suffice.
pub proof fn law_authorize_follows_the_states(
    key: Seq<u8>,
    presented: Option<Token>,
    now: i64,
    required: Seq<String>,
)
    ensures
        match admission(key, presented, now, required) {
            Admission::Admitted { user_id, roles } => {
                &&& validation(key, presented, now) == Ok::<(i32, Vec<String>), TokenError>(
                    (user_id, roles),
                )
                &&& outcome(true, true, roles_suffice(roles@, required)) == AccessState::Admitted
            },
            Admission::Rejected(code) => match validation(key, presented, now) {
                Ok((_, roles)) => outcome(presented.is_some(), true, roles_suffice(roles@, required))
                    == AccessState::Rejected(code),
                Err(_) => outcome(presented.is_some(), false, false) == AccessState::Rejected(code),
            },
        },
{
}

/// Validates a presented token at `now` and checks its roles against those
/// the operation asks for. `None` stands for a request without a bearer
/// token, or with one that could not be taken apart.
pub fn authorize(service: &TokenService, presented: Option<Token>, now: i64, required: &Vec<String>) -> (r:
    Admission)
    ensures
        r == admission(service.key(), presented, now, required@),
{
    match service.validate(presented, now) {
        Err(_) => Admission::Rejected(UNAUTHORIZED),
        Ok((user_id, roles)) => {
            if check_roles(&roles, required) {
                Admission::Admitted { user_id, roles }
            } else {
                Admission::Rejected(FORBIDDEN)
            }
        },
    }
}

} // verus!
