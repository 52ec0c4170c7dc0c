//! Request tracing: every request gets a correlation identifier, has its
//! caller's identity resolved for the log, is forwarded whatever the outcome
//! of that resolution, and leaves an entry line and an exit line.
//!
//! The trace of a request moves through four phases, in order: `Start`,
//! `IdentityResolution`, `Dispatch`, `Completion`. The functions here decide
//! and compose; opening the logging scope, writing the lines, invoking the
//! handler and reading the clock are the caller's part.

use crate::jwt::{validate_jwt_at, validation_outcome};
use crate::text::{decimal, decimal_string};
use crate::utils::{
    bearer_token, first_values, get_bearer_token, get_role, get_user, request_time, role_of,
    text_view,
};
use axum::http::HeaderMap;
use vstd::prelude::*;
use vstd::string::*;

verus! {

/// The phase that the trace of a request has reached.
#[derive(Debug, Clone, Copy, PartialEq, Eq, Structural)]
pub enum Phase {
    /// The request arrived and was given its correlation identifier.
    Start,
    /// The caller's identity was looked for; the entry line is due.
    IdentityResolution,
    /// The request was handed to the handler.
    Dispatch,
    /// The handler answered; the exit line is due and the trace is over.
    Completion,
}

/// Who a request was made by, as far as its token says: the subject of the
/// token, and the role it grants, if it grants one.
#[derive(Debug)]
pub struct Identity {
    pub subject: String,
    pub role: Option<String>,
}

/// The mathematical content of an [`Identity`].
pub ghost struct IdentityView {
    pub subject: Seq<char>,
    pub role: Option<Seq<char>>,
}

impl View for Identity {
    type V = IdentityView;

    open spec fn view(&self) -> IdentityView {
        IdentityView { subject: self.subject@, role: text_view(self.role) }
    }
}

/// The view of an optional identity.
pub open spec fn identity_view(identity: Option<Identity>) -> Option<IdentityView> {
    match identity {
        Some(i) => Some(i@),
        None => None,
    }
}

/// What is known of one request while it is being served.
#[derive(Debug)]
pub struct RequestTrace {
    /// The correlation identifier that tags every log line of the request.
    pub request_id: String,
    pub method: String,
    pub path: String,
    /// The caller, once resolved. `None` for an anonymous request.
    pub identity: Option<Identity>,
    /// The reading of the caller's monotonic clock at arrival, in microseconds.
    pub started_at: u64,
    pub phase: Phase,
}

/// The mathematical content of a [`RequestTrace`].
pub ghost struct RequestTraceView {
    pub request_id: Seq<char>,
    pub method: Seq<char>,
    pub path: Seq<char>,
    pub identity: Option<IdentityView>,
    pub started_at: u64,
    pub phase: Phase,
}

impl View for RequestTrace {
    type V = RequestTraceView;

    open spec fn view(&self) -> RequestTraceView {
        RequestTraceView {
            request_id: self.request_id@,
            method: self.method@,
            path: self.path@,
            identity: identity_view(self.identity),
            started_at: self.started_at,
            phase: self.phase,
        }
    }
}

impl RequestTraceView {
    /// This trace moved to `phase`.
    pub open spec fn in_phase(self, phase: Phase) -> RequestTraceView {
        RequestTraceView { phase, ..self }
    }

    /// This trace with the caller's identity set.
    pub open spec fn identified(self, identity: Option<IdentityView>) -> RequestTraceView {
        RequestTraceView { identity, ..self }
    }
}

/// The view of an optional line.
pub open spec fn line_view(line: Option<String>) -> Option<Seq<char>> {
    match line {
        Some(text) => Some(text@),
        None => None,
    }
}

/// The identity that request headers establish at time `now`: the subject of
/// the bearer token's claims and the role they grant, where a token is
/// present and verifies under `secret`. Only a missing token and a failed
/// verification leave the caller unidentified.
pub open spec fn resolved_identity(
    values: Map<Seq<char>, Seq<u8>>,
    secret: Seq<char>,
    now: u64,
) -> Option<IdentityView> {
    match bearer_token(values) {
        None => None,
        Some(token) => match validation_outcome(token, secret, now) {
            Err(_) => None,
            Ok(claims) => Some(IdentityView { subject: claims.sub, role: role_of(claims) }),
        },
    }
}

/// What a log line says of the caller: nothing for an anonymous request, the
/// subject for an identified one, after the role where one is granted.
pub open spec fn identity_suffix(identity: Option<IdentityView>) -> Seq<char> {
    match identity {
        None => Seq::empty(),
        Some(i) => match i.role {
            Some(role) => " with authorization role "@ + role + " for user "@ + i.subject,
            None => " for user "@ + i.subject,
        },
    }
}

/// The line logged before a request is dispatched.
pub open spec fn entry_line(trace: RequestTraceView) -> Seq<char> {
    "Entering request: "@ + trace.method + " "@ + trace.path + identity_suffix(trace.identity)
}

/// The time a request took, in microseconds: zero where the clock readings
/// are out of order.
pub open spec fn elapsed(started_at: u64, finished_at: u64) -> nat {
    if finished_at >= started_at {
        (finished_at - started_at) as nat
    } else {
        0
    }
}

/// The line logged after the handler answered with `status`, at clock
/// reading `finished_at`.
pub open spec fn exit_line(trace: RequestTraceView, status: u16, finished_at: u64) -> Seq<char> {
    "Exiting request: "@ + trace.method + " "@ + trace.path + " with status: "@ + decimal(
        status as nat,
    ) + " (took "@ + decimal(elapsed(trace.started_at, finished_at)) + "us)"@ + identity_suffix(
        trace.identity,
    )
}

/// Calls `uuid::Uuid::new_v4` and renders the identifier in its hyphenated
/// form. The identifier is random: nothing is promised of the text.
#[verifier::external_body]
fn generate_request_id() -> String {
    uuid::Uuid::new_v4().to_string()
}

/// Resolves the caller's identity from the request headers, taking `now` as
/// the current time. A missing, malformed, forged or expired token resolves
/// to no identity; a token that verifies resolves to its subject, with or
/// without a role.
pub fn identify_at(headers: &HeaderMap, secret: &str, now: u64) -> (identity: Option<Identity>)
    ensures
        identity_view(identity) == resolved_identity(first_values(*headers), secret@, now),
{
    match get_bearer_token(headers) {
        None => None,
        Some(token) => match validate_jwt_at(token, secret, now) {
            Err(_) => None,
            Ok(claims) => Some(Identity { subject: get_user(&claims), role: get_role(&claims) }),
        },
    }
}

/// Resolves the caller's identity against the system clock.
pub fn identify(headers: &HeaderMap, secret: &str) -> (identity: Option<Identity>)
    ensures
        exists|now: u64|
            identity_view(identity) == resolved_identity(first_values(*headers), secret@, now),
{
    let now: u64 = request_time(headers);
    identify_at(headers, secret, now)
}

fn append_identity(line: &mut String, identity: &Option<Identity>)
    ensures
        final(line)@ == old(line)@ + identity_suffix(identity_view(*identity)),
{
    match identity {
        None => {
            assert(line@ + Seq::<char>::empty() =~= line@);
        },
        Some(i) => {
            match &i.role {
                Some(role) => {
                    line.append(" with authorization role ");
                    line.append(role.as_str());
                },
                None => {},
            }
            line.append(" for user ");
            line.append(i.subject.as_str());
            assert(line@ =~= old(line)@ + identity_suffix(identity_view(*identity)));
        },
    }
}

impl RequestTrace {
    /// Start: opens the trace of a request that arrived at clock reading
    /// `started_at`, under a fresh correlation identifier.
    pub fn start(method: &str, path: &str, started_at: u64) -> (trace: RequestTrace)
        ensures
            trace@.method == method@,
            trace@.path == path@,
            trace@.identity is None,
            trace@.started_at == started_at,
            trace@.phase == Phase::Start,
    {
        RequestTrace {
            request_id: generate_request_id(),
            method: method.to_owned(),
            path: path.to_owned(),
            identity: None,
            started_at,
            phase: Phase::Start,
        }
    }

    /// IdentityResolution: records who the caller is, if anyone, and gives the
    /// entry line to log. The request goes on whether or not an identity was
    /// found. Out of turn, nothing changes and no line is given.
    pub fn resolve_identity(&mut self, identity: Option<Identity>) -> (line: Option<String>)
        ensures
            old(self)@.phase == Phase::Start ==> final(self)@ == old(self)@.identified(
                identity_view(identity),
            ).in_phase(Phase::IdentityResolution),
            old(self)@.phase == Phase::Start ==> line_view(line) == Some(entry_line(final(self)@)),
            old(self)@.phase != Phase::Start ==> *final(self) == *old(self),
            old(self)@.phase != Phase::Start ==> line_view(line) == None::<Seq<char>>,
    {
        match self.phase {
            Phase::Start => {
                self.identity = identity;
                self.phase = Phase::IdentityResolution;
                let mut text = String::from_str("Entering request: ");
                text.append(self.method.as_str());
                text.append(" ");
                text.append(self.path.as_str());
                append_identity(&mut text, &self.identity);
                Some(text)
            },
            _ => None,
        }
    }

    /// Dispatch: marks the request as handed to the handler. Says whether it
    /// was this trace's turn; out of turn, nothing changes.
    pub fn dispatch(&mut self) -> (forwarded: bool)
        ensures
            forwarded == (old(self)@.phase == Phase::IdentityResolution),
            forwarded ==> final(self)@ == old(self)@.in_phase(Phase::Dispatch),
            !forwarded ==> *final(self) == *old(self),
    {
        match self.phase {
            Phase::IdentityResolution => {
                self.phase = Phase::Dispatch;
                true
            },
            _ => false,
        }
    }

    /// Completion: closes the trace once the handler answered with `status`
    /// at clock reading `finished_at`, and gives the exit line to log. Out of
    /// turn, nothing changes and no line is given.
    pub fn complete(&mut self, status: u16, finished_at: u64) -> (line: Option<String>)
        ensures
            old(self)@.phase == Phase::Dispatch ==> final(self)@ == old(self)@.in_phase(
                Phase::Completion,
            ),
            old(self)@.phase == Phase::Dispatch ==> line_view(line) == Some(
                exit_line(old(self)@, status, finished_at),
            ),
            old(self)@.phase != Phase::Dispatch ==> *final(self) == *old(self),
            old(self)@.phase != Phase::Dispatch ==> line_view(line) == None::<Seq<char>>,
    {
        match self.phase {
            Phase::Dispatch => {
                self.phase = Phase::Completion;
                let took: u64 = if finished_at >= self.started_at {
                    finished_at - self.started_at
                } else {
                    0
                };
                let mut text = String::from_str("Exiting request: ");
                text.append(self.method.as_str());
                text.append(" ");
                text.append(self.path.as_str());
                text.append(" with status: ");
                text.append(decimal_string(status as u64).as_str());
                text.append(" (took ");
                text.append(decimal_string(took).as_str());
                text.append("us)");
                append_identity(&mut text, &self.identity);
                Some(text)
            },
            _ => None,
        }
    }
}

} // verus!
