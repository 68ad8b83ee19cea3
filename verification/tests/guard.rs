use auth_core::error::AuthError;
use auth_core::guard::require_role;
use auth_core::role::Role;
use auth_core::token::issue;

const NOW: u64 = 1_700_000_000;
const TTL: u64 = 600;
const SECRET: &str = "signing-secret";

fn bearer(token: &str) -> String {
    let mut h = String::from("Bearer ");
    h.push_str(token);
    h
}

#[test]
fn missing_header_is_missing_credentials() {
    assert_eq!(require_role(None, Role::User, SECRET, NOW), Err(AuthError::MissingCredentials));
}

#[test]
fn wrong_scheme_is_malformed_credentials() {
    let t = issue("u1", Role::Admin, SECRET, TTL, NOW);
    let mut h = String::from("Token ");
    h.push_str(&t);
    assert_eq!(require_role(Some(&h), Role::User, SECRET, NOW), Err(AuthError::MalformedCredentials));
    assert_eq!(require_role(Some(""), Role::User, SECRET, NOW), Err(AuthError::MalformedCredentials));
    assert_eq!(require_role(Some("bearer x"), Role::User, SECRET, NOW), Err(AuthError::MalformedCredentials));
}

#[test]
fn invalid_token_is_authentication_failure() {
    assert_eq!(
        require_role(Some("Bearer garbage"), Role::User, SECRET, NOW),
        Err(AuthError::Authentication)
    );
    let t = issue("u1", Role::User, SECRET, TTL, NOW);
    let h = bearer(&t);
    assert_eq!(
        require_role(Some(&h), Role::User, SECRET, NOW + TTL),
        Err(AuthError::Authentication)
    );
    assert_eq!(
        require_role(Some(&h), Role::User, "other-secret", NOW),
        Err(AuthError::Authentication)
    );
}

#[test]
fn admin_guard_rejects_user_token() {
    let t = issue("u1", Role::User, SECRET, TTL, NOW);
    assert_eq!(
        require_role(Some(&bearer(&t)), Role::Admin, SECRET, NOW),
        Err(AuthError::Authorization)
    );
}

#[test]
fn user_guard_accepts_admin_token() {
    let t = issue("boss", Role::Admin, SECRET, TTL, NOW);
    let id = require_role(Some(&bearer(&t)), Role::User, SECRET, NOW).unwrap();
    assert_eq!(id.subject_id, "boss");
    assert_eq!(id.role, Role::Admin);
}

#[test]
fn each_guard_accepts_its_own_level() {
    let user_token = issue("u1", Role::User, SECRET, TTL, NOW);
    let id = require_role(Some(&bearer(&user_token)), Role::User, SECRET, NOW).unwrap();
    assert_eq!(id.role, Role::User);
    let admin_token = issue("a1", Role::Admin, SECRET, TTL, NOW);
    let id = require_role(Some(&bearer(&admin_token)), Role::Admin, SECRET, NOW).unwrap();
    assert_eq!(id.role, Role::Admin);
}

#[test]
fn error_statuses_and_messages_are_stable() {
    assert_eq!(AuthError::MissingCredentials.http_status(), 400);
    assert_eq!(AuthError::MalformedCredentials.http_status(), 400);
    assert_eq!(AuthError::Authentication.http_status(), 401);
    assert_eq!(AuthError::Authorization.http_status(), 401);
    assert_eq!(AuthError::InvalidCredentials.http_status(), 403);
    assert_eq!(AuthError::DuplicateEmail.http_status(), 400);
    assert_eq!(AuthError::Hashing.http_status(), 500);
    assert_eq!(AuthError::TokenCreation.http_status(), 500);
    assert_eq!(AuthError::Authorization.public_message(), "no permission");
    assert_eq!(AuthError::InvalidCredentials.public_message(), "invalid credentials");
    // Internal failures never expose detail.
    assert_eq!(AuthError::Hashing.public_message(), "internal server error");
    assert_eq!(AuthError::TokenCreation.public_message(), "internal server error");
    assert!(AuthError::Hashing.is_internal());
    assert!(!AuthError::Authorization.is_internal());
}

#[test]
fn role_order_and_labels() {
    assert!(Role::Admin.at_least(Role::User));
    assert!(Role::Admin.at_least(Role::Admin));
    assert!(Role::User.at_least(Role::User));
    assert!(!Role::User.at_least(Role::Admin));
    assert_eq!(Role::Admin.label(), "Admin");
    assert_eq!(Role::User.label(), "User");
    assert_eq!(Role::from_label("Admin"), Role::Admin);
    assert_eq!(Role::from_label("User"), Role::User);
    assert_eq!(Role::from_label("anything-else"), Role::User);
}
