//! The token service: it issues signed, time-bound credentials and decides
//! whether a presented one is honoured. It holds the signing key and looks
//! at nothing else; how a token travels as text is the caller's business.

use vstd::prelude::*;
use crate::errors::TokenError;
use crate::signing::{claims_bytes, encode_claims, hmac_sha256, hmac_tag};

verus! {

/// The claims that a bearer token carries.
#[derive(Clone, Debug, PartialEq, Eq)]
pub struct SignedCredential {
    pub user_id: i32,
    pub roles: Vec<String>,
    pub issued_at: i64,
    pub expiry: i64,
}

/// A bearer token: the claims and the tag that signs them.
#[derive(Clone, Debug, PartialEq, Eq)]
pub struct Token {
    pub claims: SignedCredential,
    pub tag: Vec<u8>,
}

/// The instant `ttl` after `now`, kept within `i64`.
pub open spec fn expiry_of(now: i64, ttl: i64) -> i64 {
    if now + ttl > i64::MAX {
        i64::MAX
    } else if now + ttl < i64::MIN {
        i64::MIN
    } else {
        (now + ttl) as i64
    }
}

/// The claims issued at `now` for `ttl`.
pub open spec fn issued(user_id: i32, roles: Vec<String>, now: i64, ttl: i64) -> SignedCredential {
    SignedCredential { user_id, roles, issued_at: now, expiry: expiry_of(now, ttl) }
}

/// The tag that signs `claims` under `key`.
pub open spec fn signature(key: Seq<u8>, claims: SignedCredential) -> Seq<u8> {
    hmac_sha256(key, claims_bytes(claims))
}

/// The decision on a token, given the tag its claims ought to carry: a token
/// with another tag is invalid, a well-signed one is expired once `now` has
/// passed its expiry, and is otherwise honoured with its subject and roles.
pub open spec fn judgement(token: Token, expected: Seq<u8>, now: i64) -> Result<
    (i32, Vec<String>),
    TokenError,
> {
    if token.tag@ != expected {
        Err(TokenError::InvalidToken)
    } else if now > token.claims.expiry {
        Err(TokenError::ExpiredToken)
    } else {
        Ok((token.claims.user_id, token.claims.roles))
    }
}

/// What `validate` answers under `key`. A token that could not be taken
/// apart is invalid; any other is judged against its claims' signature.
pub open spec fn validation(key: Seq<u8>, presented: Option<Token>, now: i64) -> Result<
    (i32, Vec<String>),
    TokenError,
> {
    match presented {
        None => Err(TokenError::InvalidToken),
        Some(token) => judgement(token, signature(key, token.claims), now),
    }
}

/// Whether two byte strings are equal. Every byte is looked at, wherever
/// the first difference stands.
pub fn same_bytes(a: &Vec<u8>, b: &Vec<u8>) -> (same: bool)
    ensures
        same == (a@ == b@),
{
    if a.len() != b.len() {
        return false;
    }
    let mut same: bool = true;
    let mut i: usize = 0;
    while i < a.len()
        invariant
            a@.len() == b@.len(),
            i <= a@.len(),
            same == (a@.subrange(0, i as int) =~= b@.subrange(0, i as int)),
        decreases a@.len() - i,
    {
        let eq: bool = a[i] == b[i];
        proof {
            let a0 = a@.subrange(0, i as int);
            let b0 = b@.subrange(0, i as int);
            let a1 = a@.subrange(0, i + 1);
            let b1 = b@.subrange(0, i + 1);
            assert(a1.drop_last() =~= a0);
            assert(b1.drop_last() =~= b0);
            assert(a1.last() == a@[i as int]);
            assert(b1.last() == b@[i as int]);
            if same && eq {
                assert(a1 =~= b1);
            }
        }
        same = same && eq;
        i += 1;
    }
    assert(a@.subrange(0, a@.len() as int) =~= a@);
    assert(b@.subrange(0, b@.len() as int) =~= b@);
    same
}

/// Decides on a token, given the tag that its claims ought to carry.
pub fn judge(token: Token, expected: &Vec<u8>, now: i64) -> (r: Result<(i32, Vec<String>), TokenError>)
    ensures
        r == judgement(token, expected@, now),
{
    if !same_bytes(&token.tag, expected) {
        Err(TokenError::InvalidToken)
    } else if now > token.claims.expiry {
        Err(TokenError::ExpiredToken)
    } else {
        Ok((token.claims.user_id, token.claims.roles))
    }
}

/// The token service. Its key is fixed when it is made.
pub struct TokenService {
    key: Vec<u8>,
}

impl TokenService {
    /// The signing key.
    pub closed spec fn key(&self) -> Seq<u8> {
        self.key@
    }

    pub fn new(key: Vec<u8>) -> (s: TokenService)
        ensures
            s.key() == key@,
    {
        TokenService { key }
    }

    /// Issues a token for a user: subject, roles, issue time `now`, expiry
    /// `ttl` later, signed under the service's key.
    pub fn issue(&self, user_id: i32, roles: Vec<String>, now: i64, ttl: i64) -> (t: Token)
        ensures
            t.claims == issued(user_id, roles, now, ttl),
            t.tag@ == signature(self.key(), t.claims),
    {
        let expiry: i64 = if ttl > 0 && now > i64::MAX - ttl {
            i64::MAX
        } else if ttl < 0 && now < i64::MIN - ttl {
            i64::MIN
        } else {
            now + ttl
        };
        let claims = SignedCredential { user_id, roles, issued_at: now, expiry };
        let message = encode_claims(&claims);
        let tag = hmac_tag(self.key.as_slice(), message.as_slice());
        Token { claims, tag }
    }

    /// Decides on a presented token at `now`; `None` stands for one that
    /// could not be taken apart. The store is never consulted.
    pub fn validate(&self, presented: Option<Token>, now: i64) -> (r: Result<
        (i32, Vec<String>),
        TokenError,
    >)
        ensures
            r == validation(self.key(), presented, now),
    {
        match presented {
            None => Err(TokenError::InvalidToken),
            Some(token) => {
                let message = encode_claims(&token.claims);
                let expected = hmac_tag(self.key.as_slice(), message.as_slice());
                judge(token, &expected, now)
            },
        }
    }
}

/// A token whose expiry lies before `now` is turned down, whatever its tag
/// and whatever the key; one that is well signed is turned down as expired.
pub proof fn law_expired_token_rejected(key: Seq<u8>, token: Token, now: i64)
    requires
        token.claims.expiry < now,
    ensures
        validation(key, Some(token), now).is_err(),
        token.tag@ == signature(key, token.claims) ==> validation(key, Some(token), now) == Err::<
            (i32, Vec<String>),
            TokenError,
        >(TokenError::ExpiredToken),
{
}

/// A token as the service issues it is honoured under the same key, with
/// the subject and roles it was issued for, at every instant up to its
/// expiry.
pub proof fn law_issued_token_validates(
    key: Seq<u8>,
    token: Token,
    user_id: i32,
    roles: Vec<String>,
    now: i64,
    ttl: i64,
    at: i64,
)
    requires
        token.claims == issued(user_id, roles, now, ttl),
        token.tag@ == signature(key, token.claims),
        at <= expiry_of(now, ttl),
    ensures
        validation(key, Some(token), at) == Ok::<(i32, Vec<String>), TokenError>((user_id, roles)),
{
}

} // verus!
