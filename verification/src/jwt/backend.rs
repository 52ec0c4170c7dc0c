//! The calls into `jsonwebtoken`, and what this library takes on trust about
//! them. Nothing in this file is proved: each contract restates what the
//! signing crate's source shows, and every proof about tokens rests on them.

use crate::jwt::jwt_struct::{Claims, ClaimsView};
use crate::text::split_at_last;
use jsonwebtoken::{Algorithm, DecodingKey, EncodingKey, Header, Validation};
use serde_json::Value;
use vstd::prelude::*;

verus! {

/// What the part of a token before its signature says once decoded: whether
/// its header names HS256, and the claims of its payload.
#[derive(Debug)]
pub struct DecodedToken {
    pub hs256: bool,
    pub claims: Claims,
}

/// The mathematical content of a [`DecodedToken`].
pub ghost struct DecodedTokenView {
    pub hs256: bool,
    pub claims: ClaimsView,
}

impl View for DecodedToken {
    type V = DecodedTokenView;

    open spec fn view(&self) -> DecodedTokenView {
        DecodedTokenView { hs256: self.hs256, claims: self.claims@ }
    }
}

/// The view of an optional decoded token.
pub open spec fn decoded_view(decoded: Option<DecodedToken>) -> Option<DecodedTokenView> {
    match decoded {
        Some(d) => Some(d@),
        None => None,
    }
}

/// The text that `jsonwebtoken::encode` signs for a claims object with the
/// members `sub`, `roles` and `exp` under the default header: the encoded
/// header, a dot, the encoded claims.
pub uninterp spec fn signing_input(sub: Seq<char>, roles: Seq<Seq<char>>, exp: u64) -> Seq<char>;

/// The signature segment that `jsonwebtoken::crypto::sign` computes for
/// `message` with HS256 under the bytes of `secret`.
pub uninterp spec fn hs256_signature(message: Seq<char>, secret: Seq<char>) -> Seq<char>;

/// What `jsonwebtoken::decode` reads, with signature and expiry checks switched
/// off, from a token whose part before the last dot is `message`; `None` where
/// it reports an error or the payload lacks a textual `sub`, a list of texts
/// `roles` or a non-negative integer `exp`.
pub uninterp spec fn unverified_token(message: Seq<char>) -> Option<DecodedTokenView>;

/// `token` is the token that encoding `claims` under `secret` yields.
///
/// Its last dot parts the signed text from the signature (a signature segment
/// is base64url text and holds no dot), and decoding the signed text reads
/// back exactly the claims that encoding wrote, under a header that names
/// HS256.
pub open spec fn issued(token: Seq<char>, claims: ClaimsView, secret: Seq<char>) -> bool {
    let message = signing_input(claims.sub, claims.roles, claims.exp);
    &&& split_at_last(token, '.') == Some((message, hs256_signature(message, secret)))
    &&& unverified_token(message) == Some(DecodedTokenView { hs256: true, claims })
}

/// Calls `jsonwebtoken::encode` with the default header (HS256), a JSON object
/// holding `sub`, `roles` and `exp` in that order, and an HMAC key made of the
/// bytes of `secret`.
///
/// Trusted: the call succeeds (an HMAC key fits the header's algorithm, a JSON
/// object of texts and an integer always serialises, HMAC signing has no
/// failure case); the token is the signed text, a dot and the signature of
/// that text, and the signature holds no dot; decoding the signed text gives
/// the claims back.
#[verifier::external_body]
pub(crate) fn encode_hs256(claims: &Claims, secret: &str) -> (token: Option<String>)
    ensures
        token is Some,
        split_at_last(token.unwrap()@, '.') == Some(
            (
                signing_input(claims@.sub, claims@.roles, claims@.exp),
                hs256_signature(
                    signing_input(claims@.sub, claims@.roles, claims@.exp),
                    secret@,
                ),
            ),
        ),
        unverified_token(split_at_last(token.unwrap()@, '.').unwrap().0) == Some(
            (DecodedTokenView { hs256: true, claims: claims@ }),
        ),
{
    let mut body = serde_json::Map::new();
    body.insert("sub".to_owned(), Value::from(claims.sub.as_str()));
    body.insert("roles".to_owned(), Value::from(claims.roles.clone()));
    body.insert("exp".to_owned(), Value::from(claims.exp));
    let key = EncodingKey::from_secret(secret.as_bytes());
    jsonwebtoken::encode(&Header::default(), &body, &key).ok()
}

/// Calls `jsonwebtoken::decode` on `message` followed by a dot and an empty
/// signature, with signature and expiry validation switched off, and moves
/// the payload's `sub`, `roles` and `exp` into a [`Claims`].
///
/// Trusted: the result is a function of `message` alone.
#[verifier::external_body]
pub(crate) fn decode_unverified(message: &str) -> (decoded: Option<DecodedToken>)
    ensures
        decoded_view(decoded) == unverified_token(message@),
{
    let mut rules = Validation::default();
    rules.insecure_disable_signature_validation();
    rules.validate_exp = false;
    let unsigned = format!("{}.", message);
    let data = jsonwebtoken::decode::<Value>(&unsigned, &DecodingKey::from_secret(&[]), &rules).ok()?;
    let body = &data.claims;
    let members = Value::Array(vec![body["sub"].clone(), body["roles"].clone(), body["exp"].clone()]);
    let (sub, roles, exp) = serde_json::from_value(members).ok()?;
    Some(DecodedToken { hs256: data.header.alg == Algorithm::HS256, claims: Claims { sub, roles, exp } })
}

/// Calls `jsonwebtoken::crypto::verify` with HS256 and an HMAC key made of the
/// bytes of `secret`.
///
/// Trusted: for HS256 the crate signs `message` again and compares the two
/// signature segments, so the answer is whether `signature` is the segment
/// that signing yields.
#[verifier::external_body]
pub(crate) fn verify_hs256(signature: &str, message: &str, secret: &str) -> (matches: bool)
    ensures
        matches == (signature@ == hs256_signature(message@, secret@)),
{
    let key = DecodingKey::from_secret(secret.as_bytes());
    jsonwebtoken::crypto::verify(signature, message.as_bytes(), &key, Algorithm::HS256).unwrap_or(false)
}

/// Calls `jsonwebtoken::get_current_timestamp`: the seconds since the Unix
/// epoch on the system clock. Nothing is promised of the value. The crate
/// panics where the clock stands before the epoch.
#[verifier::external_body]
pub(crate) fn current_timestamp() -> u64 {
    jsonwebtoken::get_current_timestamp()
}

} // verus!
