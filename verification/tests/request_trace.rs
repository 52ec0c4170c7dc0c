use authgate::handlers::make_me_admin;
use authgate::jwt::{create_jwt, sign_claims};
use authgate::jwt::jwt_struct::Claims;
use authgate::middleware::{identify, identify_at, Identity, Phase, RequestTrace};
use authgate::utils::JsonResponseToken;
use axum::http::header::AUTHORIZATION;
use axum::http::{HeaderMap, HeaderValue};

const NOW: u64 = 1_700_000_000;

fn bearer(token: &str) -> HeaderMap {
    let mut headers = HeaderMap::new();
    headers.insert(AUTHORIZATION, HeaderValue::from_str(&format!("Bearer {}", token)).unwrap());
    headers
}

fn admin() -> Option<Identity> {
    Some(Identity { subject: "adminMaster999".to_string(), role: Some("9892".to_string()) })
}

#[test]
fn trace_starts_anonymous_in_the_start_phase() {
    let trace = RequestTrace::start("GET", "/admin", 17);
    assert_eq!(trace.method, "GET");
    assert_eq!(trace.path, "/admin");
    assert!(trace.identity.is_none());
    assert_eq!(trace.started_at, 17);
    assert_eq!(trace.phase, Phase::Start);
}

#[test]
fn correlation_identifiers_are_fresh() {
    let first = RequestTrace::start("GET", "/", 0);
    let second = RequestTrace::start("GET", "/", 0);
    assert_eq!(first.request_id.len(), 36);
    assert_eq!(first.request_id.matches('-').count(), 4);
    assert_ne!(first.request_id, second.request_id);
}

#[test]
fn anonymous_request_is_traced_through_all_phases() {
    let mut trace = RequestTrace::start("GET", "/user", 1_000);
    let entry = trace.resolve_identity(None);
    assert_eq!(entry, Some("Entering request: GET /user".to_string()));
    assert_eq!(trace.phase, Phase::IdentityResolution);
    assert!(trace.dispatch());
    assert_eq!(trace.phase, Phase::Dispatch);
    let exit = trace.complete(403, 1_250);
    assert_eq!(exit, Some("Exiting request: GET /user with status: 403 (took 250us)".to_string()));
    assert_eq!(trace.phase, Phase::Completion);
}

#[test]
fn identified_request_is_traced_with_role_and_user() {
    let mut trace = RequestTrace::start("GET", "/admin", 5);
    let entry = trace.resolve_identity(admin());
    assert_eq!(
        entry,
        Some(
            "Entering request: GET /admin with authorization role 9892 for user adminMaster999"
                .to_string()
        )
    );
    assert_eq!(trace.identity.as_ref().unwrap().subject, "adminMaster999");
    assert_eq!(trace.identity.as_ref().unwrap().role.as_deref(), Some("9892"));
    assert!(trace.dispatch());
    let exit = trace.complete(200, 1_000_005);
    assert_eq!(
        exit,
        Some(
            "Exiting request: GET /admin with status: 200 (took 1000000us) with authorization \
             role 9892 for user adminMaster999"
                .to_string()
        )
    );
}

#[test]
fn empty_role_still_counts_as_identity() {
    let mut trace = RequestTrace::start("GET", "/", 0);
    let identity = Some(Identity { subject: "u".to_string(), role: Some(String::new()) });
    assert_eq!(
        trace.resolve_identity(identity),
        Some("Entering request: GET / with authorization role  for user u".to_string())
    );
    assert!(trace.dispatch());
    assert_eq!(
        trace.complete(200, 1),
        Some("Exiting request: GET / with status: 200 (took 1us) with authorization role  for user u".to_string())
    );
}

#[test]
fn clock_that_ran_backwards_counts_as_no_time() {
    let mut trace = RequestTrace::start("POST", "/makeMeAdmin", 500);
    assert!(trace.resolve_identity(None).is_some());
    assert!(trace.dispatch());
    assert_eq!(
        trace.complete(200, 499),
        Some("Exiting request: POST /makeMeAdmin with status: 200 (took 0us)".to_string())
    );
}

#[test]
fn steps_out_of_turn_change_nothing() {
    let mut trace = RequestTrace::start("GET", "/", 0);
    assert!(!trace.dispatch());
    assert_eq!(trace.complete(200, 1), None);
    assert_eq!(trace.phase, Phase::Start);

    assert!(trace.resolve_identity(None).is_some());
    assert_eq!(trace.resolve_identity(admin()), None);
    assert!(trace.identity.is_none());
    assert_eq!(trace.complete(200, 1), None);
    assert_eq!(trace.phase, Phase::IdentityResolution);

    assert!(trace.dispatch());
    assert!(!trace.dispatch());
    assert_eq!(trace.resolve_identity(admin()), None);
    assert_eq!(trace.phase, Phase::Dispatch);

    assert!(trace.complete(200, 1).is_some());
    assert_eq!(trace.complete(200, 1), None);
    assert!(!trace.dispatch());
    assert_eq!(trace.resolve_identity(admin()), None);
    assert_eq!(trace.phase, Phase::Completion);
    assert!(trace.identity.is_none());
}

#[test]
fn identity_comes_from_a_valid_token() {
    let token = create_jwt("adminMaster999", vec!["9892".to_string()], "secret");
    let identity = identify_at(&bearer(&token), "secret", NOW).expect("resolved");
    assert_eq!(identity.subject, "adminMaster999");
    assert_eq!(identity.role.as_deref(), Some("9892"));
    let identity = identify(&bearer(&token), "secret").expect("resolved");
    assert_eq!(identity.subject, "adminMaster999");
}

#[test]
fn identity_takes_the_first_role_only() {
    let token = create_jwt("u", vec!["3".to_string(), "9892".to_string()], "secret");
    let identity = identify_at(&bearer(&token), "secret", NOW).expect("resolved");
    assert_eq!(identity.role.as_deref(), Some("3"));
}

#[test]
fn no_identity_without_a_usable_token() {
    let token = create_jwt("u", vec!["3".to_string()], "secret");
    assert!(identify_at(&HeaderMap::new(), "secret", NOW).is_none());
    assert!(identify_at(&bearer("not a token"), "secret", NOW).is_none());
    assert!(identify_at(&bearer(&token), "another secret", NOW).is_none());
    assert!(identify_at(&bearer(&token), "secret", 10_000_000_000).is_none());
    let old = sign_claims(&Claims { sub: "u".to_string(), roles: vec!["3".to_string()], exp: 1000 }, "secret");
    assert!(identify(&bearer(&old), "secret").is_none());
}

#[test]
fn token_without_roles_resolves_to_its_subject() {
    let token = create_jwt("u", vec![], "secret");
    let identity = identify_at(&bearer(&token), "secret", NOW).expect("resolved");
    assert_eq!(identity.subject, "u");
    assert_eq!(identity.role, None);
    let identity = identify(&bearer(&token), "secret").expect("resolved");
    assert_eq!(identity.subject, "u");
    assert_eq!(identity.role, None);
}

#[test]
fn request_without_a_role_is_traced_with_its_user() {
    let token = create_jwt("S", vec![], "secret");
    let mut trace = RequestTrace::start("GET", "/user", 100);
    let identity = identify_at(&bearer(&token), "secret", NOW);
    assert_eq!(
        trace.resolve_identity(identity),
        Some("Entering request: GET /user for user S".to_string())
    );
    assert_eq!(trace.identity.as_ref().unwrap().subject, "S");
    assert_eq!(trace.identity.as_ref().unwrap().role, None);
    assert!(trace.dispatch());
    assert_eq!(
        trace.complete(200, 160),
        Some("Exiting request: GET /user with status: 200 (took 60us) for user S".to_string())
    );
    assert_eq!(trace.phase, Phase::Completion);
}

#[test]
fn failed_resolution_does_not_stop_the_request() {
    let mut trace = RequestTrace::start("GET", "/admin", 0);
    let identity = identify_at(&bearer("forged.token.here"), "secret", NOW);
    assert_eq!(trace.resolve_identity(identity), Some("Entering request: GET /admin".to_string()));
    assert!(trace.dispatch());
    assert_eq!(
        trace.complete(403, 10),
        Some("Exiting request: GET /admin with status: 403 (took 10us)".to_string())
    );
}

#[test]
fn issued_admin_token_resolves_to_the_demo_administrator() {
    let token = match make_me_admin("secret") {
        JsonResponseToken::Success { token } => token,
        JsonResponseToken::Error { message } => panic!("no token: {}", message),
    };
    let identity = identify_at(&bearer(&token), "secret", NOW).expect("resolved");
    assert_eq!(identity.subject, "adminMaster999");
    assert_eq!(identity.role.as_deref(), Some("9892"));
}
