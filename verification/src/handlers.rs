//! The decisions behind the routes: who gets a token, who may pass, and what
//! a failed operation tells the client.

use crate::fault::{
    diagnostic_lines, generic_message, lines_view, translate_to_response, ContextualError,
    ContextualErrorView, INTERNAL_SERVER_ERROR,
};
use crate::jwt::backend::issued;
use crate::jwt::jwt_struct::{Claims, ClaimsView};
use crate::jwt::{
    create_jwt, lemma_issued_token_verifies, validate_jwt_at, validation_outcome, TokenError,
    FAR_FUTURE_EXPIRY,
};
use crate::text::decimal;
use crate::utils::{
    bearer_marker, bearer_token, credential, first_values, get_bearer_token, grants_admin,
    is_admin, request_time, JsonResponseToken, Roles,
};
use axum::http::HeaderMap;
use vstd::prelude::*;

verus! {

/// The status of a granted request.
pub const OK: u16 = 200;

/// The status of a refused request.
pub const FORBIDDEN: u16 = 403;

/// What a route answers: a status and a fixed body.
#[derive(Debug)]
pub struct Reply {
    pub status: u16,
    pub body: &'static str,
}

/// The mathematical content of a [`Reply`].
pub ghost struct ReplyView {
    pub status: u16,
    pub body: Seq<char>,
}

impl View for Reply {
    type V = ReplyView;

    open spec fn view(&self) -> ReplyView {
        ReplyView { status: self.status, body: self.body@ }
    }
}

/// Why a request did not end in what it asked for.
#[derive(Debug, Clone, Copy, PartialEq, Eq, Structural)]
pub enum ErrorKind {
    /// The bearer token cannot be parsed.
    Malformed,
    /// The bearer token's signature does not match.
    SignatureInvalid,
    /// The bearer token's expiry has passed.
    Expired,
    /// The request carries no bearer token.
    MissingCredential,
    /// The token is valid but grants another role than the route asks for.
    InsufficientRole,
    /// A failure that has nothing to do with the caller's credentials.
    InternalFault,
}

/// The kind under which a rejected token is reported.
pub open spec fn token_error_kind(e: TokenError) -> ErrorKind {
    match e {
        TokenError::Malformed => ErrorKind::Malformed,
        TokenError::SignatureInvalid => ErrorKind::SignatureInvalid,
        TokenError::Expired => ErrorKind::Expired,
    }
}

/// The answer to a request that may not pass.
pub open spec fn refusal() -> ReplyView {
    ReplyView { status: FORBIDDEN, body: "Forbidden"@ }
}

/// The answer to a caller whom the user route lets pass.
pub open spec fn user_granted() -> ReplyView {
    ReplyView { status: OK, body: "User access granted!"@ }
}

/// The answer to a caller whom the admin route lets pass.
pub open spec fn admin_granted() -> ReplyView {
    ReplyView { status: OK, body: "Admin access granted!"@ }
}

/// What the client is told of each kind of error: a refusal for everything
/// that concerns its credentials, the generic failure otherwise. No kind
/// puts anything of the token or of the failure in the answer.
pub open spec fn error_reply(kind: ErrorKind) -> ReplyView {
    match kind {
        ErrorKind::InternalFault => ReplyView {
            status: INTERNAL_SERVER_ERROR,
            body: generic_message(),
        },
        _ => refusal(),
    }
}

/// Whom the user route lets pass: the claims of a bearer token that verifies.
pub open spec fn user_access(values: Map<Seq<char>, Seq<u8>>, secret: Seq<char>, now: u64) -> Result<
    ClaimsView,
    ErrorKind,
> {
    match bearer_token(values) {
        None => Err(ErrorKind::MissingCredential),
        Some(token) => match validation_outcome(token, secret, now) {
            Err(e) => Err(token_error_kind(e)),
            Ok(claims) => Ok(claims),
        },
    }
}

/// Whom the admin route lets pass: the claims of a bearer token that verifies
/// and grants the admin role.
pub open spec fn admin_access(values: Map<Seq<char>, Seq<u8>>, secret: Seq<char>, now: u64) -> Result<
    ClaimsView,
    ErrorKind,
> {
    match user_access(values, secret, now) {
        Err(kind) => Err(kind),
        Ok(claims) => if grants_admin(claims) {
            Ok(claims)
        } else {
            Err(ErrorKind::InsufficientRole)
        },
    }
}

/// The answer of the user route.
pub open spec fn user_reply(values: Map<Seq<char>, Seq<u8>>, secret: Seq<char>, now: u64) -> ReplyView {
    match user_access(values, secret, now) {
        Ok(_) => user_granted(),
        Err(kind) => error_reply(kind),
    }
}

/// The answer of the admin route.
pub open spec fn admin_reply(values: Map<Seq<char>, Seq<u8>>, secret: Seq<char>, now: u64) -> ReplyView {
    match admin_access(values, secret, now) {
        Ok(_) => admin_granted(),
        Err(kind) => error_reply(kind),
    }
}

/// The view of an access decision.
pub open spec fn access_view(access: Result<Claims, ErrorKind>) -> Result<ClaimsView, ErrorKind> {
    match access {
        Ok(claims) => Ok(claims@),
        Err(kind) => Err(kind),
    }
}

/// Answers a request that ended in an error of the given kind.
pub fn respond_to_error(kind: ErrorKind) -> (reply: Reply)
    ensures
        reply@ == error_reply(kind),
{
    match kind {
        ErrorKind::InternalFault => Reply {
            status: INTERNAL_SERVER_ERROR,
            body: "Internal Server Error",
        },
        _ => Reply { status: FORBIDDEN, body: "Forbidden" },
    }
}

/// Decides whether the caller may pass the user route, taking `now` as the
/// current time.
pub fn authorize_user_at(headers: &HeaderMap, secret: &str, now: u64) -> (access: Result<
    Claims,
    ErrorKind,
>)
    ensures
        access_view(access) == user_access(first_values(*headers), secret@, now),
{
    match get_bearer_token(headers) {
        None => Err(ErrorKind::MissingCredential),
        Some(token) => match validate_jwt_at(token, secret, now) {
            Err(TokenError::Malformed) => Err(ErrorKind::Malformed),
            Err(TokenError::SignatureInvalid) => Err(ErrorKind::SignatureInvalid),
            Err(TokenError::Expired) => Err(ErrorKind::Expired),
            Ok(claims) => Ok(claims),
        },
    }
}

/// Decides whether the caller may pass the admin route, taking `now` as the
/// current time.
pub fn authorize_admin_at(headers: &HeaderMap, secret: &str, now: u64) -> (access: Result<
    Claims,
    ErrorKind,
>)
    ensures
        access_view(access) == admin_access(first_values(*headers), secret@, now),
{
    match authorize_user_at(headers, secret, now) {
        Err(kind) => Err(kind),
        Ok(claims) => if is_admin(&claims) {
            Ok(claims)
        } else {
            Err(ErrorKind::InsufficientRole)
        },
    }
}

/// Answers a request to the user route, taking `now` as the current time.
pub fn test_user_at(headers: &HeaderMap, secret: &str, now: u64) -> (reply: Reply)
    ensures
        reply@ == user_reply(first_values(*headers), secret@, now),
{
    match authorize_user_at(headers, secret, now) {
        Ok(_) => Reply { status: OK, body: "User access granted!" },
        Err(kind) => respond_to_error(kind),
    }
}

/// Answers a request to the user route against the system clock.
pub fn test_user(headers: &HeaderMap, secret: &str) -> (reply: Reply)
    ensures
        exists|now: u64| reply@ == user_reply(first_values(*headers), secret@, now),
{
    let now: u64 = request_time(headers);
    test_user_at(headers, secret, now)
}

/// Answers a request to the admin route, taking `now` as the current time.
pub fn test_admin_at(headers: &HeaderMap, secret: &str, now: u64) -> (reply: Reply)
    ensures
        reply@ == admin_reply(first_values(*headers), secret@, now),
{
    match authorize_admin_at(headers, secret, now) {
        Ok(_) => Reply { status: OK, body: "Admin access granted!" },
        Err(kind) => respond_to_error(kind),
    }
}

/// Answers a request to the admin route against the system clock.
pub fn test_admin(headers: &HeaderMap, secret: &str) -> (reply: Reply)
    ensures
        exists|now: u64| reply@ == admin_reply(first_values(*headers), secret@, now),
{
    let now: u64 = request_time(headers);
    test_admin_at(headers, secret, now)
}

/// The claims of the token that a demo route issues for `subject` in `role`.
pub open spec fn demo_claims(subject: Seq<char>, role: Roles) -> ClaimsView {
    ClaimsView { sub: subject, roles: seq![decimal(role.code() as nat)], exp: FAR_FUTURE_EXPIRY }
}

/// The token carried by an issuance response.
pub open spec fn issued_text(response: JsonResponseToken) -> Option<Seq<char>> {
    match response {
        JsonResponseToken::Success { token } => Some(token@),
        JsonResponseToken::Error { .. } => None,
    }
}

fn issue_for(subject: &str, role: Roles, secret: &str) -> (response: JsonResponseToken<'static>)
    ensures
        issued_text(response) matches Some(token) && issued(
            token,
            demo_claims(subject@, role),
            secret@,
        ),
{
    let mut roles: Vec<String> = Vec::new();
    roles.push(role.to_role_token());
    assert(roles.deep_view() =~= seq![decimal(role.code() as nat)]);
    JsonResponseToken::Success { token: create_jwt(subject, roles, secret) }
}

/// Issues a token for the demo administrator, in the admin role.
pub fn make_me_admin(secret: &str) -> (response: JsonResponseToken<'static>)
    ensures
        issued_text(response) matches Some(token) && issued(
            token,
            demo_claims("adminMaster999"@, Roles::Admin),
            secret@,
        ),
{
    issue_for("adminMaster999", Roles::Admin, secret)
}

/// Issues a token for the demo user, in the user role.
pub fn make_me_user(secret: &str) -> (response: JsonResponseToken<'static>)
    ensures
        issued_text(response) matches Some(token) && issued(
            token,
            demo_claims("theDummyUser"@, Roles::User),
            secret@,
        ),
{
    issue_for("theDummyUser", Roles::User, secret)
}

/// End to end, with a token: a request whose credential is the bearer marker
/// followed by a token issued in the admin role, under the secret that the
/// routes verify with and before that token expires, is granted by the admin
/// route and by the user route.
pub proof fn lemma_issued_admin_token_is_granted(
    values: Map<Seq<char>, Seq<u8>>,
    token: Seq<char>,
    subject: Seq<char>,
    secret: Seq<char>,
    now: u64,
)
    requires
        credential(values) == Some(bearer_marker() + token),
        issued(token, demo_claims(subject, Roles::Admin), secret),
        now < FAR_FUTURE_EXPIRY,
    ensures
        admin_reply(values, secret, now) == admin_granted(),
        user_reply(values, secret, now) == user_granted(),
{
    let value = bearer_marker() + token;
    assert(value.subrange(0, bearer_marker().len() as int) =~= bearer_marker());
    assert(value.skip(bearer_marker().len() as int) =~= token);
    lemma_issued_token_verifies(token, demo_claims(subject, Roles::Admin), secret, now);
}

/// End to end, without a credential: a request that carries no readable
/// `Authorization` header is refused by the admin route and by the user
/// route, whatever the secret and the time.
pub proof fn lemma_missing_credential_is_refused(
    values: Map<Seq<char>, Seq<u8>>,
    secret: Seq<char>,
    now: u64,
)
    requires
        credential(values) == None::<Seq<char>>,
    ensures
        admin_reply(values, secret, now) == refusal(),
        user_reply(values, secret, now) == refusal(),
{
}

/// What the route that runs a fallible operation answers, and what it logs.
#[derive(Debug)]
pub struct OperationReply {
    pub status: u16,
    pub body: String,
    /// The lines for the diagnostic log: none where the operation succeeded.
    pub diagnostic: Vec<String>,
}

/// The view of the outcome of a fallible operation.
pub open spec fn operation_view(outcome: Result<String, ContextualError>) -> Result<
    Seq<char>,
    ContextualErrorView,
> {
    match outcome {
        Ok(text) => Ok(text@),
        Err(e) => Err(e@),
    }
}

/// Answers for an operation that may have failed: its result where it
/// succeeded; where it failed, the generic error, with the chain of the
/// failure for the log and never in the body.
pub fn error_handler(outcome: Result<String, ContextualError>) -> (reply: OperationReply)
    ensures
        match operation_view(outcome) {
            Ok(text) => reply.status == OK && reply.body@ == text && reply.diagnostic@.len() == 0,
            Err(e) => reply.status == INTERNAL_SERVER_ERROR && reply.body@ == generic_message()
                && lines_view(reply.diagnostic) == diagnostic_lines(e),
        },
{
    match outcome {
        Ok(text) => OperationReply { status: OK, body: text, diagnostic: Vec::new() },
        Err(e) => {
            let response = translate_to_response(&e);
            OperationReply {
                status: response.status,
                body: response.message.to_owned(),
                diagnostic: response.diagnostic,
            }
        },
    }
}

} // verus!
