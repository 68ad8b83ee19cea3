use auth_core::error::{AuthError, UserError};
use auth_core::flows::{change_password, login, register, AuthConfig, PasswordUpdateRequest, UserRecord};
use auth_core::hashing::{hash_password, verify_password, HashParams};
use auth_core::role::{Identity, Role};
use auth_core::token::validate;

const NOW: u64 = 1_700_000_000;

fn config() -> AuthConfig {
    AuthConfig::new(
        String::from("signing-secret"),
        String::from("pepper-secret"),
        600,
        Some(1),
        Some(8),
    )
    .unwrap()
}

fn record(id: &str, email: &str, password: &str, role: Role, cfg: &AuthConfig) -> UserRecord {
    let params = HashParams { iterations: Some(1), memory_size: Some(8) };
    UserRecord {
        id: String::from(id),
        email: String::from(email),
        name: String::from("Some Name"),
        password_hash: hash_password(password, &cfg.pepper, &params).unwrap(),
        role,
        created_at: NOW - 5000,
        updated_at: NOW - 5000,
    }
}

#[test]
fn config_is_validated_at_startup() {
    assert!(AuthConfig::new(String::new(), String::from("p"), 600, None, None).is_none());
    assert!(AuthConfig::new(String::from("s"), String::new(), 600, None, None).is_none());
    assert!(AuthConfig::new(String::from("s"), String::from("p"), 0, None, None).is_none());
    assert!(AuthConfig::new(String::from("s"), String::from("p"), 1, None, None).is_some());
}

#[test]
fn login_succeeds_and_token_carries_id_and_role() {
    let cfg = config();
    let u = record("id-1", "a@example.com", "hunter2", Role::User, &cfg);
    let resp = login("hunter2", Some(&u), &cfg, NOW).unwrap();
    let id = validate(&resp.token, &cfg.jwt_secret, NOW + 1).unwrap();
    assert_eq!(id.subject_id, "id-1");
    assert_eq!(id.role, Role::User);
    assert_eq!(resp.profile.id, "id-1");
    assert_eq!(resp.profile.email, "a@example.com");
    assert_eq!(resp.profile.role, Role::User);
}

#[test]
fn login_token_expires_after_ttl() {
    let cfg = config();
    let u = record("id-1", "a@example.com", "hunter2", Role::User, &cfg);
    let resp = login("hunter2", Some(&u), &cfg, NOW).unwrap();
    assert_eq!(
        validate(&resp.token, &cfg.jwt_secret, NOW + 600),
        Err(AuthError::Authentication)
    );
}

#[test]
fn unknown_email_and_wrong_password_are_the_same_error() {
    let cfg = config();
    let u = record("id-1", "a@example.com", "hunter2", Role::User, &cfg);
    let unknown = login("hunter2", None, &cfg, NOW).unwrap_err();
    let wrong = login("wrong-password", Some(&u), &cfg, NOW).unwrap_err();
    assert_eq!(unknown, AuthError::InvalidCredentials);
    assert_eq!(wrong, unknown);
}

#[test]
fn login_with_corrupt_stored_hash_is_internal_error() {
    let cfg = config();
    let mut u = record("id-1", "a@example.com", "hunter2", Role::User, &cfg);
    u.password_hash = String::from("not-a-hash");
    assert_eq!(login("hunter2", Some(&u), &cfg, NOW), Err(AuthError::Hashing));
}

#[test]
fn register_rejects_duplicate_email() {
    let cfg = config();
    let existing = record("id-1", "a@example.com", "hunter2", Role::User, &cfg);
    assert_eq!(
        register("a@example.com", "A", "pw", Some(&existing), &cfg, NOW),
        Err(AuthError::DuplicateEmail)
    );
}

#[test]
fn register_builds_a_user_record_with_fresh_hash() {
    let cfg = config();
    let nu = register("b@example.com", "B", "new-password", None, &cfg, NOW).unwrap();
    assert_eq!(nu.email, "b@example.com");
    assert_eq!(nu.name, "B");
    assert_eq!(nu.role, Role::User);
    assert_eq!(nu.created_at, NOW);
    assert_eq!(nu.updated_at, NOW);
    assert_eq!(verify_password("new-password", &nu.password_hash, &cfg.pepper), Ok(true));
    assert_eq!(verify_password("other", &nu.password_hash, &cfg.pepper), Ok(false));
}

#[test]
fn non_admin_cannot_target_another_account() {
    let cfg = config();
    let target = record("id-2", "b@example.com", "their-pw", Role::User, &cfg);
    let acting = Identity { subject_id: String::from("id-1"), role: Role::User };
    let req = PasswordUpdateRequest {
        id: String::from("id-2"),
        current_password: String::from("their-pw"),
        new_password: String::from("taken-over"),
    };
    // Rejected whatever the supplied current password, even the right one.
    assert!(matches!(
        change_password(&req, &acting, Some(&target), &cfg, NOW),
        Err(AuthError::Authorization)
    ));
}

#[test]
fn self_change_requires_current_password() {
    let cfg = config();
    let target = record("id-1", "a@example.com", "old-pw", Role::User, &cfg);
    let acting = Identity { subject_id: String::from("id-1"), role: Role::User };
    let wrong = PasswordUpdateRequest {
        id: String::from("id-1"),
        current_password: String::from("not-old-pw"),
        new_password: String::from("new-pw"),
    };
    assert!(matches!(
        change_password(&wrong, &acting, Some(&target), &cfg, NOW),
        Err(AuthError::InvalidCredentials)
    ));
    let right = PasswordUpdateRequest {
        id: String::from("id-1"),
        current_password: String::from("old-pw"),
        new_password: String::from("new-pw"),
    };
    let updated = change_password(&right, &acting, Some(&target), &cfg, NOW).unwrap();
    assert_eq!(updated.id, "id-1");
    assert_eq!(updated.updated_at, NOW);
    assert_eq!(verify_password("new-pw", &updated.password_hash, &cfg.pepper), Ok(true));
    assert_eq!(verify_password("old-pw", &updated.password_hash, &cfg.pepper), Ok(false));
}

#[test]
fn admin_changes_another_account_without_current_password() {
    let cfg = config();
    let target = record("id-2", "b@example.com", "their-pw", Role::User, &cfg);
    let acting = Identity { subject_id: String::from("admin-1"), role: Role::Admin };
    let req = PasswordUpdateRequest {
        id: String::from("id-2"),
        current_password: String::new(),
        new_password: String::from("reset-pw"),
    };
    let updated = change_password(&req, &acting, Some(&target), &cfg, NOW).unwrap();
    assert_eq!(updated.id, "id-2");
    assert_eq!(updated.role, Role::User);
    assert_eq!(verify_password("reset-pw", &updated.password_hash, &cfg.pepper), Ok(true));
}

#[test]
fn change_password_for_unknown_target_is_invalid_credentials() {
    let cfg = config();
    let acting = Identity { subject_id: String::from("id-1"), role: Role::Admin };
    let req = PasswordUpdateRequest {
        id: String::from("id-1"),
        current_password: String::from("x"),
        new_password: String::from("y"),
    };
    assert!(matches!(
        change_password(&req, &acting, None, &cfg, NOW),
        Err(AuthError::InvalidCredentials)
    ));
}

#[test]
fn user_error_statuses_and_messages() {
    assert_eq!(UserError::CreateError.http_status(), 500);
    assert_eq!(UserError::UpdateError.http_status(), 400);
    assert_eq!(UserError::CreateError.public_message(), "could not create user");
    assert_eq!(UserError::UpdateError.public_message(), "could not update user");
}
