//! Bearer-token access control: issuing and verifying signed identity tokens,
//! deriving a role from their claims, and gating protected operations on it.

pub mod fault;
pub mod handlers;
pub mod jwt;
pub mod middleware;
pub mod text;
pub mod utils;
