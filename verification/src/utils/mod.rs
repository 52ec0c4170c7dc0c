//! Role policy, bearer-credential extraction and the signing secret.

use crate::jwt::backend::current_timestamp;
use crate::jwt::jwt_struct::{Claims, ClaimsView};
use crate::text::{decimal, decimal_string, strip_prefix};
use axum::http::HeaderMap;
use vstd::prelude::*;

verus! {

/// The body of a token-issuance response: the token, or a message that says
/// why none was issued.
pub enum JsonResponseToken<'a> {
    Success { token: String },
    Error { message: &'a str },
}

/// The roles an identity can hold. Each has a fixed numeric code, written in
/// decimal in the `roles` of a token.
#[derive(Debug, Clone, Copy, PartialEq, Eq, Structural)]
pub enum Roles {
    Admin,
    User,
}

impl Roles {
    /// The numeric code of a role.
    pub open spec fn code(self) -> u16 {
        match self {
            Roles::Admin => 9892,
            Roles::User => 3,
        }
    }

    /// The role that carries `code`, if any.
    pub open spec fn of_code(code: u16) -> Option<Roles> {
        if code == 9892 {
            Some(Roles::Admin)
        } else if code == 3 {
            Some(Roles::User)
        } else {
            None
        }
    }

    /// The numeric code of this role.
    pub fn to_int(&self) -> (code: u16)
        ensures
            code == self.code(),
    {
        match self {
            Roles::Admin => 9892,
            Roles::User => 3,
        }
    }

    /// The code of this role as it is written in a token.
    pub fn to_role_token(&self) -> (text: String)
        ensures
            text@ == decimal(self.code() as nat),
    {
        decimal_string(self.to_int() as u64)
    }

    /// The codes identify the roles: a role is found again from its code, and
    /// two roles with one code are the same role.
    pub proof fn lemma_codes_identify_roles(a: Roles, b: Roles)
        ensures
            Roles::of_code(a.code()) == Some(a),
            a.code() == b.code() ==> a == b,
    {
    }
}

/// The role that claims grant: the first entry of their `roles`, if there is
/// one. Later entries grant nothing.
pub open spec fn role_of(claims: ClaimsView) -> Option<Seq<char>> {
    if claims.roles.len() > 0 {
        Some(claims.roles[0])
    } else {
        None
    }
}

/// Whether claims grant the admin role: their first role is the admin code
/// in decimal.
pub open spec fn grants_admin(claims: ClaimsView) -> bool {
    role_of(claims) == Some(decimal(Roles::Admin.code() as nat))
}

/// The view of an optional owned text.
pub open spec fn text_view(text: Option<String>) -> Option<Seq<char>> {
    match text {
        Some(t) => Some(t@),
        None => None,
    }
}

/// The subject that the claims were issued to.
pub fn get_user(claims: &Claims) -> (user: String)
    ensures
        user@ == claims@.sub,
{
    claims.sub.clone()
}

/// The role that the claims grant: their first role entry.
pub fn get_role(claims: &Claims) -> (role: Option<String>)
    ensures
        text_view(role) == role_of(claims@),
{
    if claims.roles.len() > 0 {
        Some(claims.roles[0].clone())
    } else {
        None
    }
}

/// Whether the claims grant the admin role.
pub fn is_admin(claims: &Claims) -> (admin: bool)
    ensures
        admin == grants_admin(claims@),
{
    if claims.roles.len() > 0 {
        let code = Roles::Admin.to_role_token();
        claims.roles[0] == code
    } else {
        false
    }
}

/// The secret that signs and verifies tokens.
pub open spec fn secret_or_fallback(configured: Option<Seq<char>>) -> Seq<char> {
    match configured {
        Some(secret) => secret,
        None => "secret"@,
    }
}

/// The signing secret: the configured one, or the fixed fallback `"secret"`
/// where none is configured.
pub fn get_jwt_secret(configured: Option<String>) -> (secret: String)
    ensures
        secret@ == secret_or_fallback(text_view(configured)),
{
    match configured {
        Some(secret) => secret,
        None => "secret".to_owned(),
    }
}

/// The marker that a bearer credential begins with.
pub open spec fn bearer_marker() -> Seq<char> {
    "Bearer "@
}

/// A credential without the bearer marker: one copy of the marker is removed
/// where the credential begins with it; any other credential is the token as
/// it stands.
pub open spec fn without_bearer(value: Seq<char>) -> Seq<char> {
    if bearer_marker().is_prefix_of(value) {
        value.skip(bearer_marker().len() as int)
    } else {
        value
    }
}

/// Removes the bearer marker from the start of a credential, once. A value
/// that does not start with the marker is returned as it is.
pub fn strip_bearer<'a>(value: &'a str) -> (token: &'a str)
    ensures
        token@ == without_bearer(value@),
{
    strip_prefix(value, "Bearer ")
}

/// The request-header collection of the `http` crate, as `axum` hands it to
/// a handler.
#[verifier::external_type_specification]
#[verifier::external_body]
#[verifier::reject_recursive_types(T)]
pub struct ExHeaderMap<T>(axum::http::HeaderMap<T>);

/// One header value of the `http` crate: the kind of value that the header
/// collection of a request holds.
#[verifier::external_type_specification]
#[verifier::external_body]
pub struct ExHeaderValue(axum::http::HeaderValue);

/// What a header collection holds: for each header name present, in lower
/// case, the bytes of the first value stored under it.
pub uninterp spec fn first_values(headers: HeaderMap) -> Map<Seq<char>, Seq<u8>>;

/// Whether a header value can be read as text: each byte is a printable
/// ASCII character or a tab.
pub open spec fn readable(value: Seq<u8>) -> bool {
    forall|i: int| 0 <= i < value.len() ==> (32 <= #[trigger] value[i] < 127 || value[i] == 9)
}

/// The bytes of a header value as characters.
pub open spec fn as_text(value: Seq<u8>) -> Seq<char> {
    Seq::new(value.len(), |i: int| value[i] as char)
}

/// The text of the credential header among `values`, where the header is
/// present and readable.
pub open spec fn credential(values: Map<Seq<char>, Seq<u8>>) -> Option<Seq<char>> {
    if values.dom().contains("authorization"@) && readable(values["authorization"@]) {
        Some(as_text(values["authorization"@]))
    } else {
        None
    }
}

/// The bearer token that `values` carry: the credential without its marker.
pub open spec fn bearer_token(values: Map<Seq<char>, Seq<u8>>) -> Option<Seq<char>> {
    match credential(values) {
        Some(text) => Some(without_bearer(text)),
        None => None,
    }
}

/// The view of an optional borrowed text.
pub open spec fn str_view(text: Option<&str>) -> Option<Seq<char>> {
    match text {
        Some(t) => Some(t@),
        None => None,
    }
}

/// Calls `HeaderMap::get` with the name `Authorization` and `HeaderValue::to_str`
/// on what it finds.
///
/// Trusted: names are matched without regard to case, the first value stored
/// under the name is the one returned, and it converts to text exactly when
/// all its bytes are printable ASCII or tabs, byte for character.
#[verifier::external_body]
fn authorization_text(headers: &HeaderMap) -> (text: Option<&str>)
    ensures
        str_view(text) == credential(first_values(*headers)),
{
    headers.get("Authorization")?.to_str().ok()
}

/// Extracts the bearer token from the request headers: the text of the
/// `Authorization` header without the `"Bearer "` marker at its start. One
/// copy of the marker is removed; a value that does not start with it is the
/// token as it stands. `None` where the header is absent or is not readable
/// text.
pub fn get_bearer_token(headers: &HeaderMap) -> (token: Option<&str>)
    ensures
        str_view(token) == bearer_token(first_values(*headers)),
{
    match authorization_text(headers) {
        Some(value) => Some(strip_bearer(value)),
        None => None,
    }
}

/// The time by which a request is judged: the reading of the system clock
/// for a request that carries a bearer token. For one that carries none the
/// clock is not read: nothing that is decided about it depends on the time.
pub(crate) fn request_time(headers: &HeaderMap) -> (now: u64) {
    match get_bearer_token(headers) {
        Some(_) => current_timestamp(),
        None => 0,
    }
}

} // verus!
