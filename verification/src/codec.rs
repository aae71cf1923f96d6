//! Token codec: signs a claims payload into a compact bearer token and
//! verifies it, enforcing signature integrity first and expiry second.
//!
//! A token is a byte string: a fixed-layout payload followed by an
//! eight-byte authentication tag computed from the payload under a
//! server-held key.  The two failure reasons are surfaced distinctly:
//! `TokenExpired` (valid signature, past expiry) may prompt a refresh
//! attempt, `TokenInvalid` (bad tag or malformed payload) never may.
//!
//! The tag is a keyed polynomial checksum, strong enough to make any
//! accidental corruption detectable; a deployment hardening against a
//! forging adversary would put a vetted MAC primitive behind the same
//! contract.

use vstd::prelude::*;
use vstd::bytes::*;
use vstd::slice::*;

use crate::claims::{AuthClaims, JwtClaims, SessionClaims, TokenKind, TtlPolicy};
use crate::errors::AuthError;

verus! {

/// Offset basis the tag computation starts from.
pub const MAC_OFFSET_BASIS: u64 = 0xcbf29ce484222325;

/// Multiplier of one tag step.
pub const MAC_PRIME: u64 = 0x100000001b3;

/// Length in bytes of an encoded claims payload.
pub const PAYLOAD_LEN: usize = 29;

/// Length in bytes of a complete signed token.
pub const TOKEN_LEN: usize = 37;

/// The process-wide signing key: initialized once, read-only
/// thereafter.  Whoever holds it can mint tokens, so it never leaves
/// the server.
#[derive(Clone, Copy, Debug, PartialEq, Eq, Structural)]
pub struct SigningKey {
    pub key: u64,
}

/// One mixing step of the authentication tag.
pub open spec fn mac_step(h: u64, b: u8) -> u64 {
    vstd::wrapping::u64_specs::wrapping_mul(h ^ (b as u64), MAC_PRIME)
}

/// Tag state after folding `s` into state `h`, front to back.
pub open spec fn mac_fold(h: u64, s: Seq<u8>) -> u64
    decreases s.len(),
{
    if s.len() == 0 {
        h
    } else {
        mac_fold(mac_step(h, s[0]), s.subrange(1, s.len() as int))
    }
}

/// Authentication tag of `s` under `key`.
pub open spec fn mac(key: u64, s: Seq<u8>) -> u64 {
    mac_fold(key ^ MAC_OFFSET_BASIS, s)
}

/// Folding one more byte is one more step.
pub proof fn lemma_mac_fold_push(h: u64, s: Seq<u8>, x: u8)
    ensures
        mac_fold(h, s.push(x)) == mac_step(mac_fold(h, s), x),
    decreases s.len(),
{
    if s.len() == 0 {
        assert(s.push(x)[0] == x);
        assert(s.push(x).subrange(1, 1) =~= Seq::<u8>::empty());
        assert(mac_fold(h, s.push(x)) == mac_fold(mac_step(h, x), Seq::<u8>::empty()));
    } else {
        let t = s.subrange(1, s.len() as int);
        assert(s.push(x)[0] == s[0]);
        assert(s.push(x).subrange(1, (s.len() + 1) as int) =~= t.push(x));
        lemma_mac_fold_push(mac_step(h, s[0]), t, x);
        assert(mac_fold(h, s.push(x)) == mac_fold(mac_step(h, s[0]), t.push(x)));
        assert(mac_fold(h, s) == mac_fold(mac_step(h, s[0]), t));
    }
}

/// Compute the authentication tag of `data` under `key`.
pub fn compute_mac(key: u64, data: &[u8]) -> (r: u64)
    ensures
        r == mac(key, data@),
{
    let mut h: u64 = key ^ MAC_OFFSET_BASIS;
    let mut i: usize = 0;
    proof {
        assert(data@.subrange(0, 0) =~= Seq::<u8>::empty());
    }
    while i < data.len()
        invariant
            i <= data@.len(),
            h == mac_fold(key ^ MAC_OFFSET_BASIS, data@.subrange(0, i as int)),
        decreases data@.len() - i,
    {
        let b = *slice_index_get(data, i);
        proof {
            assert(data@.subrange(0, i + 1 as int) =~= data@.subrange(0, i as int).push(b));
            lemma_mac_fold_push(key ^ MAC_OFFSET_BASIS, data@.subrange(0, i as int), b);
        }
        h = (h ^ (b as u64)).wrapping_mul(MAC_PRIME);
        i = i + 1;
    }
    proof {
        assert(data@.subrange(0, data@.len() as int) =~= data@);
    }
    h
}

/// Byte marking the token's kind in the payload.
pub open spec fn spec_kind_byte(k: TokenKind) -> u8 {
    match k {
        TokenKind::Access => 0u8,
        TokenKind::Refresh => 1u8,
    }
}

/// Fixed-layout encoding of a claims payload: one kind byte, then the
/// user id, session id, issue time and expiry, little endian.
pub open spec fn spec_encode_claims(p: JwtClaims) -> Seq<u8> {
    seq![spec_kind_byte(p.kind)] + spec_u32_to_le_bytes(p.claims.claims.user_id as u32)
        + spec_u64_to_le_bytes(p.claims.session as u64) + spec_u64_to_le_bytes(p.iat)
        + spec_u64_to_le_bytes(p.exp)
}

/// Decoding of a payload; `None` where it is malformed.
pub open spec fn spec_decode_claims(s: Seq<u8>) -> Option<JwtClaims> {
    if s.len() != PAYLOAD_LEN {
        None
    } else if s[0] != 0 && s[0] != 1 {
        None
    } else {
        Some(
            JwtClaims {
                claims: SessionClaims {
                    session: spec_u64_from_le_bytes(s.subrange(5, 13)) as i64,
                    claims: AuthClaims {
                        user_id: spec_u32_from_le_bytes(s.subrange(1, 5)) as i32,
                    },
                },
                iat: spec_u64_from_le_bytes(s.subrange(13, 21)),
                exp: spec_u64_from_le_bytes(s.subrange(21, 29)),
                kind: if s[0] == 0 {
                    TokenKind::Access
                } else {
                    TokenKind::Refresh
                },
            },
        )
    }
}

/// A payload decodes back to the claims it encodes.
pub proof fn lemma_encode_decode_claims(p: JwtClaims)
    ensures
        spec_encode_claims(p).len() == PAYLOAD_LEN,
        spec_decode_claims(spec_encode_claims(p)) == Some(p),
{
    let s = spec_encode_claims(p);
    lemma_auto_spec_u32_to_from_le_bytes();
    lemma_auto_spec_u64_to_from_le_bytes();
    assert(s.len() == PAYLOAD_LEN);
    assert(s[0] == spec_kind_byte(p.kind));
    assert(s.subrange(1, 5) =~= spec_u32_to_le_bytes(p.claims.claims.user_id as u32));
    assert(s.subrange(5, 13) =~= spec_u64_to_le_bytes(p.claims.session as u64));
    assert(s.subrange(13, 21) =~= spec_u64_to_le_bytes(p.iat));
    assert(s.subrange(21, 29) =~= spec_u64_to_le_bytes(p.exp));
    let uid = p.claims.claims.user_id;
    let sid = p.claims.session;
    assert(((uid as u32) as i32) == uid) by (bit_vector);
    assert(((sid as u64) as i64) == sid) by (bit_vector);
}

/// The complete signed token for payload `p` under `key`.
pub open spec fn spec_issue(p: JwtClaims, key: u64) -> Seq<u8> {
    spec_encode_claims(p) + spec_u64_to_le_bytes(mac(key, spec_encode_claims(p)))
}

/// What `verify` says of a token: malformed bytes or a wrong tag are
/// `TokenInvalid`; a well-signed, well-formed payload past its expiry
/// is `TokenExpired`; otherwise the payload is returned.
pub open spec fn spec_verify(token: Seq<u8>, key: u64, now: u64) -> Result<JwtClaims, AuthError> {
    if token.len() != TOKEN_LEN {
        Err(AuthError::TokenInvalid)
    } else if spec_u64_from_le_bytes(token.subrange(PAYLOAD_LEN as int, TOKEN_LEN as int)) != mac(
        key,
        token.subrange(0, PAYLOAD_LEN as int),
    ) {
        Err(AuthError::TokenInvalid)
    } else {
        match spec_decode_claims(token.subrange(0, PAYLOAD_LEN as int)) {
            None => Err(AuthError::TokenInvalid),
            Some(p) => if now >= p.exp {
                Err(AuthError::TokenExpired)
            } else {
                Ok(p)
            },
        }
    }
}

/// Encode a claims payload into its fixed byte layout.
pub fn encode_claims(p: &JwtClaims) -> (r: Vec<u8>)
    ensures
        r@ == spec_encode_claims(*p),
{
    let mut out: Vec<u8> = Vec::new();
    let kb: u8 = match p.kind {
        TokenKind::Access => 0u8,
        TokenKind::Refresh => 1u8,
    };
    out.push(kb);
    let mut b1 = u32_to_le_bytes(p.claims.claims.user_id as u32);
    out.append(&mut b1);
    let mut b2 = u64_to_le_bytes(p.claims.session as u64);
    out.append(&mut b2);
    let mut b3 = u64_to_le_bytes(p.iat);
    out.append(&mut b3);
    let mut b4 = u64_to_le_bytes(p.exp);
    out.append(&mut b4);
    proof {
        assert(out@ =~= spec_encode_claims(*p));
    }
    out
}

/// Decode a payload, rejecting malformed bytes.
pub fn decode_claims(payload: &[u8]) -> (r: Option<JwtClaims>)
    ensures
        r == spec_decode_claims(payload@),
{
    if payload.len() != PAYLOAD_LEN {
        return None;
    }
    let kb = *slice_index_get(payload, 0);
    let kind = if kb == 0 {
        TokenKind::Access
    } else if kb == 1 {
        TokenKind::Refresh
    } else {
        return None;
    };
    let user_id_raw = u32_from_le_bytes(slice_subrange(payload, 1, 5));
    let session_raw = u64_from_le_bytes(slice_subrange(payload, 5, 13));
    let iat = u64_from_le_bytes(slice_subrange(payload, 13, 21));
    let exp = u64_from_le_bytes(slice_subrange(payload, 21, 29));
    let user_id = user_id_raw as i32;
    let session = session_raw as i64;
    Some(JwtClaims { claims: SessionClaims { session, claims: AuthClaims { user_id } }, iat, exp, kind })
}

/// Sign `p` under `key`: the encoded payload followed by its tag.
pub fn sign_claims(p: &JwtClaims, key: &SigningKey) -> (r: Vec<u8>)
    ensures
        r@ == spec_issue(*p, key.key),
        r@.len() == TOKEN_LEN,
{
    let mut out = encode_claims(p);
    let tag = compute_mac(key.key, out.as_slice());
    let mut tb = u64_to_le_bytes(tag);
    out.append(&mut tb);
    proof {
        lemma_encode_decode_claims(*p);
        assert(out@ =~= spec_issue(*p, key.key));
    }
    out
}

/// Mint a signed access token for `claims` at `now` under `policy`.
pub fn issue(claims: SessionClaims, policy: TtlPolicy, now: u64, key: &SigningKey) -> (r: Vec<u8>)
    requires
        now + policy.spec_ttl_seconds() <= u64::MAX,
    ensures
        r@ == spec_issue(JwtClaims::spec_with_policy(claims, policy, now), key.key),
{
    let p = JwtClaims::with_policy(claims, policy, now);
    sign_claims(&p, key)
}

/// Verify a token: tag first, then payload shape, then expiry.
pub fn verify(token: &[u8], key: &SigningKey, now: u64) -> (r: Result<JwtClaims, AuthError>)
    ensures
        r == spec_verify(token@, key.key, now),
{
    if token.len() != TOKEN_LEN {
        return Err(AuthError::TokenInvalid);
    }
    let payload = slice_subrange(token, 0, PAYLOAD_LEN);
    let sig = slice_subrange(token, PAYLOAD_LEN, TOKEN_LEN);
    let presented = u64_from_le_bytes(sig);
    let expected = compute_mac(key.key, payload);
    if presented != expected {
        return Err(AuthError::TokenInvalid);
    }
    match decode_claims(payload) {
        None => Err(AuthError::TokenInvalid),
        Some(p) => if now >= p.exp {
            Err(AuthError::TokenExpired)
        } else {
            Ok(p)
        },
    }
}

/// The compact text of a signed token: its bytes written as lowercase
/// hexadecimal.
pub open spec fn spec_token_text(p: JwtClaims, key: u64) -> Seq<char> {
    crate::hex::spec_hex_text(spec_issue(p, key))
}

/// What `verify_text` says of a bearer string: text that is not
/// well-formed hexadecimal is `TokenInvalid`; otherwise the bytes it
/// stands for are verified.
pub open spec fn spec_verify_text(s: Seq<char>, key: u64, now: u64) -> Result<
    JwtClaims,
    AuthError,
> {
    match crate::hex::spec_hex_decode_text(s) {
        None => Err(AuthError::TokenInvalid),
        Some(b) => spec_verify(b, key, now),
    }
}

/// Mint a signed access token for `claims` at `now` under `policy`,
/// as opaque compact text.
pub fn issue_text(claims: SessionClaims, policy: TtlPolicy, now: u64, key: &SigningKey) -> (r:
    String)
    requires
        now + policy.spec_ttl_seconds() <= u64::MAX,
    ensures
        r@ == spec_token_text(JwtClaims::spec_with_policy(claims, policy, now), key.key),
{
    let token = issue(claims, policy, now, key);
    crate::hex::hex_encode_text(token.as_slice())
}

/// Verify a bearer string: hexadecimal shape, then tag, then payload
/// shape, then expiry.
pub fn verify_text(token: &str, key: &SigningKey, now: u64) -> (r: Result<JwtClaims, AuthError>)
    ensures
        r == spec_verify_text(token@, key.key, now),
{
    match crate::hex::hex_decode_text(token) {
        None => Err(AuthError::TokenInvalid),
        Some(bytes) => verify(bytes.as_slice(), key, now),
    }
}

/// The text form verifies exactly as the bytes it frames: hexadecimal
/// framing neither hides a failure nor invents a success.
pub proof fn lemma_verify_text_of_token(p: JwtClaims, key: u64, now: u64)
    ensures
        spec_verify_text(spec_token_text(p, key), key, now) == spec_verify(
            spec_issue(p, key),
            key,
            now,
        ),
{
    crate::hex::lemma_hex_text_roundtrip(spec_issue(p, key));
}

/// A freshly issued token verifies back to the very claims it was
/// minted for, at any instant before its expiry.
pub proof fn lemma_verify_of_issued(
    claims: SessionClaims,
    policy: TtlPolicy,
    key: u64,
    issued_at: u64,
    now: u64,
)
    requires
        issued_at + policy.spec_ttl_seconds() <= u64::MAX,
        now < issued_at + policy.spec_ttl_seconds(),
    ensures
        spec_verify(spec_issue(JwtClaims::spec_with_policy(claims, policy, issued_at), key), key, now)
            matches Ok(p) && p.claims == claims && p.exp == issued_at
            + policy.spec_ttl_seconds(),
{
    let p = JwtClaims::spec_with_policy(claims, policy, issued_at);
    let enc = spec_encode_claims(p);
    let token = spec_issue(p, key);
    lemma_encode_decode_claims(p);
    lemma_auto_spec_u64_to_from_le_bytes();
    assert(token.subrange(0, PAYLOAD_LEN as int) =~= enc);
    assert(token.subrange(PAYLOAD_LEN as int, TOKEN_LEN as int) =~= spec_u64_to_le_bytes(
        mac(key, enc),
    ));
}

/// Once a token's expiry has passed, verification of a well-signed,
/// well-formed token always says `TokenExpired`, never `TokenInvalid`.
pub proof fn lemma_verify_expired(token: Seq<u8>, key: u64, now: u64)
    requires
        token.len() == TOKEN_LEN,
        spec_u64_from_le_bytes(token.subrange(PAYLOAD_LEN as int, TOKEN_LEN as int)) == mac(
            key,
            token.subrange(0, PAYLOAD_LEN as int),
        ),
        spec_decode_claims(token.subrange(0, PAYLOAD_LEN as int)) is Some,
        now >= spec_decode_claims(token.subrange(0, PAYLOAD_LEN as int)).unwrap().exp,
    ensures
        spec_verify(token, key, now) == Err::<JwtClaims, AuthError>(AuthError::TokenExpired),
{
}

/// A token whose shape or tag is wrong is `TokenInvalid`, whatever the
/// clock says: tampering that breaks the tag can never be mistaken for
/// mere expiry.
pub proof fn lemma_verify_tampered(token: Seq<u8>, key: u64, now: u64)
    requires
        token.len() != TOKEN_LEN || spec_u64_from_le_bytes(
            token.subrange(PAYLOAD_LEN as int, TOKEN_LEN as int),
        ) != mac(key, token.subrange(0, PAYLOAD_LEN as int)) || spec_decode_claims(
            token.subrange(0, PAYLOAD_LEN as int),
        ) is None,
    ensures
        spec_verify(token, key, now) == Err::<JwtClaims, AuthError>(AuthError::TokenInvalid),
{
}

} // verus!
