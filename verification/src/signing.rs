//! What a token's signature is taken over, and the keyed hash that signs it.

use vstd::prelude::*;
use vstd::bytes::{spec_u64_to_le_bytes, u64_to_le_bytes};
use vstd::utf8::encode_utf8;
use hmac::{Hmac, KeyInit, Mac};
use sha2::Sha256;
use crate::token::SignedCredential;

verus! {

/// The HMAC-SHA256 tag of `message` under `key`.
pub uninterp spec fn hmac_sha256(key: Seq<u8>, message: Seq<u8>) -> Seq<u8>;

/// Computes the tag with the `hmac` and `sha2` crates: `Hmac::<Sha256>`,
/// keyed by `KeyInit::new_from_slice`, fed by `Mac::update`, read out by
/// `Mac::finalize`. The contract only gives the result its name: the tag is
/// a function of key and message. `new_from_slice` takes a key of any length,
/// so its error arm is never taken.
#[verifier::external_body]
pub(crate) fn hmac_tag(key: &[u8], message: &[u8]) -> (tag: Vec<u8>)
    ensures
        tag@ == hmac_sha256(key@, message@),
{
    match Hmac::<Sha256>::new_from_slice(key) {
        Ok(mut mac) => {
            mac.update(message);
            mac.finalize().into_bytes().to_vec()
        },
        Err(_) => Vec::new(),
    }
}

/// A signed number as an unsigned one that keeps the order: `i64::MIN`
/// becomes zero.
pub open spec fn biased(x: i64) -> u64 {
    (x - i64::MIN) as u64
}

/// The bytes of the first `n` roles: each role's length in bytes, as eight
/// little-endian bytes, then its UTF-8 bytes.
pub open spec fn roles_bytes(roles: Seq<String>, n: int) -> Seq<u8>
    decreases n,
{
    if n <= 0 || n > roles.len() {
        Seq::empty()
    } else {
        roles_bytes(roles, n - 1) + spec_u64_to_le_bytes(encode_utf8(roles[n - 1]@).len() as u64)
            + encode_utf8(roles[n - 1]@)
    }
}

/// The bytes that are signed: subject, issue time and expiry as eight
/// little-endian bytes each, then the roles.
pub open spec fn claims_bytes(c: SignedCredential) -> Seq<u8> {
    spec_u64_to_le_bytes(biased(c.user_id as i64)) + spec_u64_to_le_bytes(biased(c.issued_at))
        + spec_u64_to_le_bytes(biased(c.expiry)) + roles_bytes(c.roles@, c.roles@.len() as int)
}

fn bias(x: i64) -> (u: u64)
    ensures
        u == biased(x),
{
    if x >= 0 {
        (x as u64) + 0x8000_0000_0000_0000u64
    } else {
        (x - i64::MIN) as u64
    }
}

fn push_all(out: &mut Vec<u8>, bytes: &[u8])
    ensures
        final(out)@ == old(out)@ + bytes@,
{
    let ghost before = out@;
    let mut i: usize = 0;
    while i < bytes.len()
        invariant
            i <= bytes@.len(),
            out@ == before + bytes@.subrange(0, i as int),
        decreases bytes@.len() - i,
    {
        out.push(bytes[i]);
        i += 1;
        assert(out@ =~= before + bytes@.subrange(0, i as int));
    }
    assert(bytes@.subrange(0, bytes@.len() as int) =~= bytes@);
}

fn push_u64(out: &mut Vec<u8>, x: u64)
    ensures
        final(out)@ == old(out)@ + spec_u64_to_le_bytes(x),
{
    let b = u64_to_le_bytes(x);
    push_all(out, b.as_slice());
}

/// Writes out the bytes that a signature is taken over.
pub fn encode_claims(c: &SignedCredential) -> (out: Vec<u8>)
    ensures
        out@ == claims_bytes(*c),
{
    let mut out: Vec<u8> = Vec::new();
    push_u64(&mut out, bias(c.user_id as i64));
    push_u64(&mut out, bias(c.issued_at));
    push_u64(&mut out, bias(c.expiry));
    let ghost head = out@;
    assert(head =~= spec_u64_to_le_bytes(biased(c.user_id as i64)) + spec_u64_to_le_bytes(
        biased(c.issued_at),
    ) + spec_u64_to_le_bytes(biased(c.expiry)));
    let n: usize = c.roles.len();
    let mut i: usize = 0;
    while i < n
        invariant
            n == c.roles@.len(),
            i <= n,
            out@ == head + roles_bytes(c.roles@, i as int),
        decreases n - i,
    {
        let bytes = c.roles[i].as_str().as_bytes();
        push_u64(&mut out, bytes.len() as u64);
        push_all(&mut out, bytes);
        i += 1;
        assert(out@ =~= head + roles_bytes(c.roles@, i as int));
    }
    out
}

} // verus!
