//! The claims that a token carries.

use vstd::prelude::*;

verus! {

/// The payload of a token: who it was issued to, the role codes granted, and
/// the moment it stops being valid (seconds since the Unix epoch).
///
/// `roles` is kept in issuance order; only its first entry is consulted when
/// an authorization decision is made.
#[derive(Debug)]
pub struct Claims {
    pub sub: String,
    pub roles: Vec<String>,
    pub exp: u64,
}

/// The mathematical content of a [`Claims`] value.
pub ghost struct ClaimsView {
    pub sub: Seq<char>,
    pub roles: Seq<Seq<char>>,
    pub exp: u64,
}

impl View for Claims {
    type V = ClaimsView;

    open spec fn view(&self) -> ClaimsView {
        ClaimsView { sub: self.sub@, roles: self.roles.deep_view(), exp: self.exp }
    }
}

} // verus!
