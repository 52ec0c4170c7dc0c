use authgate::jwt::jwt_struct::Claims;
use authgate::text::decimal_string;
use authgate::utils::{get_jwt_secret, get_role, get_user, is_admin, JsonResponseToken, Roles};

fn claims_with(roles: &[&str]) -> Claims {
    Claims {
        sub: "someone".to_string(),
        roles: roles.iter().map(|r| r.to_string()).collect(),
        exp: 10_000_000_000,
    }
}

#[test]
fn role_codes_are_fixed() {
    assert_eq!(Roles::Admin.to_int(), 9892);
    assert_eq!(Roles::User.to_int(), 3);
    assert_ne!(Roles::Admin.to_int(), Roles::User.to_int());
}

#[test]
fn role_tokens_are_the_codes_in_decimal() {
    assert_eq!(Roles::Admin.to_role_token(), "9892");
    assert_eq!(Roles::User.to_role_token(), "3");
}

#[test]
fn admin_role_is_admin() {
    assert!(is_admin(&claims_with(&["9892"])));
}

#[test]
fn user_role_is_not_admin() {
    assert!(!is_admin(&claims_with(&["3"])));
}

#[test]
fn no_role_is_not_admin() {
    assert!(!is_admin(&claims_with(&[])));
}

#[test]
fn only_the_first_role_counts() {
    assert!(!is_admin(&claims_with(&["3", "9892"])));
    assert!(is_admin(&claims_with(&["9892", "3"])));
    assert_eq!(get_role(&claims_with(&["3", "9892"])), Some("3".to_string()));
}

#[test]
fn admin_code_must_match_exactly() {
    for role in ["98921", "09892", " 9892", "9892 ", "x9892x", "", "admin", "9 892", "+9892"] {
        assert!(!is_admin(&claims_with(&[role])), "role {:?}", role);
    }
}

#[test]
fn role_is_the_first_entry() {
    assert_eq!(get_role(&claims_with(&["9892"])), Some("9892".to_string()));
    assert_eq!(get_role(&claims_with(&["anything", "else"])), Some("anything".to_string()));
    assert_eq!(get_role(&claims_with(&[""])), Some(String::new()));
    assert_eq!(get_role(&claims_with(&[])), None);
}

#[test]
fn user_is_the_subject() {
    assert_eq!(get_user(&claims_with(&[])), "someone");
    let nameless = Claims { sub: String::new(), roles: vec![], exp: 0 };
    assert_eq!(get_user(&nameless), "");
}

#[test]
fn configured_secret_is_used() {
    assert_eq!(get_jwt_secret(Some("s3cr3t".to_string())), "s3cr3t");
    assert_eq!(get_jwt_secret(Some(String::new())), "");
}

#[test]
fn missing_secret_falls_back() {
    assert_eq!(get_jwt_secret(None), "secret");
}

#[test]
fn response_body_variants_hold_their_text() {
    let success = JsonResponseToken::Success { token: "abc".to_string() };
    let failure = JsonResponseToken::Error { message: "no" };
    assert!(matches!(success, JsonResponseToken::Success { token } if token == "abc"));
    assert!(matches!(failure, JsonResponseToken::Error { message } if message == "no"));
}

#[test]
fn decimal_of_small_and_large_numbers() {
    assert_eq!(decimal_string(0), "0");
    assert_eq!(decimal_string(7), "7");
    assert_eq!(decimal_string(10), "10");
    assert_eq!(decimal_string(403), "403");
    assert_eq!(decimal_string(9892), "9892");
    assert_eq!(decimal_string(1_000_000), "1000000");
    assert_eq!(decimal_string(10_000_000_000), "10000000000");
    assert_eq!(decimal_string(u64::MAX), "18446744073709551615");
}

#[test]
fn decimal_agrees_with_the_standard_rendering() {
    for n in (0u64..2000).chain([65_535, 4_294_967_295, 4_294_967_296, u64::MAX - 1]) {
        assert_eq!(decimal_string(n), n.to_string());
    }
}
