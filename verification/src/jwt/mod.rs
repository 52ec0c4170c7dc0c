//! The token codec: issuing signed tokens and verifying them.
//!
//! A token is a signed text and a signature segment, joined by a dot. It is
//! accepted when the signed text decodes to claims, those claims have not
//! expired, and the signature is the one that the secret yields for the text.

pub mod backend;
pub mod jwt_struct;

use crate::jwt::backend::{
    current_timestamp, decode_unverified, decoded_view, encode_hs256, hs256_signature, issued,
    signing_input, unverified_token, verify_hs256, DecodedToken, DecodedTokenView,
};
use crate::jwt::jwt_struct::{Claims, ClaimsView};
use crate::text::{
    lemma_last_index_of, lemma_last_index_of_is, last_index_of, rsplit_once_char, split_at_last,
};
use vstd::prelude::*;

verus! {

/// The expiry written into every token that [`create_jwt`] issues.
pub const FAR_FUTURE_EXPIRY: u64 = 10000000000;

/// Why a token was rejected.
#[derive(Debug, Clone, Copy, PartialEq, Eq, Structural)]
pub enum TokenError {
    /// The token has no signed part that decodes to claims.
    Malformed,
    /// The signature is not the one that the secret yields, or the header
    /// names another algorithm than HS256.
    SignatureInvalid,
    /// The expiry of the claims is at or before the current time.
    Expired,
}

/// The view of a verification result.
pub open spec fn outcome_view(result: Result<Claims, TokenError>) -> Result<ClaimsView, TokenError> {
    match result {
        Ok(claims) => Ok(claims@),
        Err(e) => Err(e),
    }
}

/// The verdict on a token, given what its signed part decodes to, whether its
/// signature matches, and the current time. A token that does not decode is
/// malformed; of one that decodes, expiry is judged before the signature.
pub open spec fn verdict(
    decoded: Option<DecodedTokenView>,
    signature_matches: bool,
    now: u64,
) -> Result<ClaimsView, TokenError> {
    match decoded {
        None => Err(TokenError::Malformed),
        Some(d) => if d.claims.exp <= now {
            Err(TokenError::Expired)
        } else if !d.hs256 || !signature_matches {
            Err(TokenError::SignatureInvalid)
        } else {
            Ok(d.claims)
        },
    }
}

/// What verifying `token` under `secret` at time `now` yields.
pub open spec fn validation_outcome(token: Seq<char>, secret: Seq<char>, now: u64) -> Result<
    ClaimsView,
    TokenError,
> {
    match split_at_last(token, '.') {
        None => Err(TokenError::Malformed),
        Some((message, signature)) => verdict(
            unverified_token(message),
            signature == hs256_signature(message, secret),
            now,
        ),
    }
}

/// Judges a token from what its signed part decoded to, whether its signature
/// matched, and the current time.
pub fn judge(decoded: Option<DecodedToken>, signature_matches: bool, now: u64) -> (result: Result<
    Claims,
    TokenError,
>)
    ensures
        outcome_view(result) == verdict(decoded_view(decoded), signature_matches, now),
{
    match decoded {
        None => Err(TokenError::Malformed),
        Some(d) => {
            if d.claims.exp <= now {
                Err(TokenError::Expired)
            } else if !d.hs256 || !signature_matches {
                Err(TokenError::SignatureInvalid)
            } else {
                Ok(d.claims)
            }
        },
    }
}

/// What examining a token yields before the time is consulted: what its
/// signed part decodes to, and whether its signature is the one that
/// `secret` yields. `None` for a token without a signed part that decodes.
pub open spec fn examination(token: Seq<char>, secret: Seq<char>) -> Option<
    (DecodedTokenView, bool),
> {
    match split_at_last(token, '.') {
        None => None,
        Some((message, signature)) => match unverified_token(message) {
            None => None,
            Some(d) => Some((d, signature == hs256_signature(message, secret))),
        },
    }
}

/// The view of an examined token.
pub open spec fn examined_view(examined: Option<(DecodedToken, bool)>) -> Option<
    (DecodedTokenView, bool),
> {
    match examined {
        Some((d, matches)) => Some((d@, matches)),
        None => None,
    }
}

fn examine(token: &str, secret: &str) -> (examined: Option<(DecodedToken, bool)>)
    ensures
        examined_view(examined) == examination(token@, secret@),
{
    match rsplit_once_char(token, '.') {
        None => None,
        Some((message, signature)) => match decode_unverified(message) {
            None => None,
            Some(d) => Some((d, verify_hs256(signature, message, secret))),
        },
    }
}

/// Verifies `token` under `secret`, taking `now` as the current time in
/// seconds since the Unix epoch.
pub fn validate_jwt_at(token: &str, secret: &str, now: u64) -> (result: Result<Claims, TokenError>)
    ensures
        outcome_view(result) == validation_outcome(token@, secret@, now),
{
    match examine(token, secret) {
        None => Err(TokenError::Malformed),
        Some((d, signature_matches)) => judge(Some(d), signature_matches, now),
    }
}

/// Verifies `token` under `secret` against the system clock: the result is
/// the one that [`validate_jwt_at`] gives for the clock's reading. The clock
/// is read only for a token that decodes; a malformed one is rejected
/// without it.
pub fn validate_jwt(token: &str, secret: &str) -> (result: Result<Claims, TokenError>)
    ensures
        exists|now: u64| outcome_view(result) == validation_outcome(token@, secret@, now),
{
    match examine(token, secret) {
        None => {
            assert(validation_outcome(token@, secret@, 0) == Err::<ClaimsView, TokenError>(
                TokenError::Malformed,
            ));
            Err(TokenError::Malformed)
        },
        Some((d, signature_matches)) => {
            let now: u64 = current_timestamp();
            let result = judge(Some(d), signature_matches, now);
            assert(outcome_view(result) == validation_outcome(token@, secret@, now));
            result
        },
    }
}

/// Signs `claims` under `secret`.
pub fn sign_claims(claims: &Claims, secret: &str) -> (token: String)
    ensures
        issued(token@, claims@, secret@),
{
    encode_hs256(claims, secret).unwrap()
}

/// Issues a token for `username` with the given role codes, expiring at
/// [`FAR_FUTURE_EXPIRY`].
pub fn create_jwt(username: &str, roles: Vec<String>, secret: &str) -> (token: String)
    ensures
        issued(
            token@,
            ClaimsView { sub: username@, roles: roles.deep_view(), exp: FAR_FUTURE_EXPIRY },
            secret@,
        ),
{
    let claims = Claims { sub: username.to_owned(), roles, exp: FAR_FUTURE_EXPIRY };
    sign_claims(&claims, secret)
}

/// Round trip: a token issued for some claims under a secret verifies under
/// that secret, at any time before the claims expire, and yields those claims.
pub proof fn lemma_issued_token_verifies(
    token: Seq<char>,
    claims: ClaimsView,
    secret: Seq<char>,
    now: u64,
)
    requires
        issued(token, claims, secret),
        now < claims.exp,
    ensures
        validation_outcome(token, secret, now) == Ok::<ClaimsView, TokenError>(claims),
{
}

/// Expiry: a token whose claims expire at or before the current time is
/// rejected as expired, whatever its signature and whatever the secret.
pub proof fn lemma_expired_token_rejected(token: Seq<char>, secret: Seq<char>, now: u64)
    requires
        split_at_last(token, '.') matches Some((message, _)) && unverified_token(message) matches Some(
            d,
        ) && d.claims.exp <= now,
    ensures
        validation_outcome(token, secret, now) == Err::<ClaimsView, TokenError>(TokenError::Expired),
{
}

/// Tamper rejection: replacing one character of an issued token's signature
/// segment by another one, other than a dot, makes verification under the
/// issuing secret fail with `SignatureInvalid` at any time before expiry.
pub proof fn lemma_tampered_signature_rejected(
    token: Seq<char>,
    claims: ClaimsView,
    secret: Seq<char>,
    at: int,
    replacement: char,
    now: u64,
)
    requires
        issued(token, claims, secret),
        now < claims.exp,
        last_index_of(token, '.') < at < token.len(),
        replacement != token[at],
        replacement != '.',
    ensures
        validation_outcome(token.update(at, replacement), secret, now) == Err::<
            ClaimsView,
            TokenError,
        >(TokenError::SignatureInvalid),
{
    let dot = last_index_of(token, '.');
    let forged = token.update(at, replacement);
    lemma_last_index_of(token, '.');
    assert forall|j: int| dot < j < forged.len() implies forged[j] != '.' by {
        if j != at {
            assert(forged[j] == token[j]);
        }
    }
    lemma_last_index_of_is(forged, '.', dot);
    assert(forged.subrange(0, dot) =~= token.subrange(0, dot));
    let signature = token.subrange(dot + 1, token.len() as int);
    let forged_signature = forged.subrange(dot + 1, forged.len() as int);
    assert(forged_signature[at - dot - 1] != signature[at - dot - 1]);
}

/// Another secret: an issued token verifies under a second secret, before it
/// expires, exactly when that secret yields the same signature for the signed
/// text; otherwise it is rejected with `SignatureInvalid`.
pub proof fn lemma_verification_under_another_secret(
    token: Seq<char>,
    claims: ClaimsView,
    secret: Seq<char>,
    other: Seq<char>,
    now: u64,
)
    requires
        issued(token, claims, secret),
        now < claims.exp,
    ensures
        ({
            let message = signing_input(claims.sub, claims.roles, claims.exp);
            validation_outcome(token, other, now) == if hs256_signature(message, other)
                == hs256_signature(message, secret) {
                Ok::<ClaimsView, TokenError>(claims)
            } else {
                Err::<ClaimsView, TokenError>(TokenError::SignatureInvalid)
            }
        }),
{
}

} // verus!
