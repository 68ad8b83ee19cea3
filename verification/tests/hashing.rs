use auth_core::error::AuthError;
use auth_core::hashing::{hash_password, verify_password, HashParams, DEFAULT_ITERATIONS, DEFAULT_MEMORY_SIZE};

fn fast_params() -> HashParams {
    HashParams { iterations: Some(1), memory_size: Some(8) }
}

#[test]
fn hash_then_verify_accepts_same_password() {
    let h = hash_password("hunter2", "pepper-secret", &fast_params()).unwrap();
    assert_eq!(verify_password("hunter2", &h, "pepper-secret"), Ok(true));
}

#[test]
fn verify_rejects_different_password() {
    let h = hash_password("hunter2", "pepper-secret", &fast_params()).unwrap();
    assert_eq!(verify_password("hunter3", &h, "pepper-secret"), Ok(false));
    assert_eq!(verify_password("", &h, "pepper-secret"), Ok(false));
}

#[test]
fn verify_rejects_different_pepper() {
    let h = hash_password("hunter2", "pepper-secret", &fast_params()).unwrap();
    assert_eq!(verify_password("hunter2", &h, "other-pepper"), Ok(false));
}

#[test]
fn hash_of_empty_password_round_trips() {
    let h = hash_password("", "pepper-secret", &fast_params()).unwrap();
    assert_eq!(verify_password("", &h, "pepper-secret"), Ok(true));
    assert_eq!(verify_password("x", &h, "pepper-secret"), Ok(false));
}

#[test]
fn two_hashes_of_same_password_differ_but_both_verify() {
    let params = fast_params();
    let h1 = hash_password("hunter2", "pepper-secret", &params).unwrap();
    let h2 = hash_password("hunter2", "pepper-secret", &params).unwrap();
    assert_ne!(h1, h2, "fresh salt per call");
    assert_eq!(verify_password("hunter2", &h1, "pepper-secret"), Ok(true));
    assert_eq!(verify_password("hunter2", &h2, "pepper-secret"), Ok(true));
}

#[test]
fn structurally_invalid_stored_hash_is_internal_error() {
    assert_eq!(
        verify_password("hunter2", "not-a-phc-string", "pepper-secret"),
        Err(AuthError::Hashing)
    );
    assert_eq!(verify_password("hunter2", "", "pepper-secret"), Err(AuthError::Hashing));
}

#[test]
fn default_params_hash_round_trips() {
    let params = HashParams { iterations: None, memory_size: None };
    assert_eq!(params.effective_iterations(), DEFAULT_ITERATIONS);
    assert_eq!(params.effective_memory_size(), DEFAULT_MEMORY_SIZE);
    let h = hash_password("pw", "pepper", &params).unwrap();
    assert_eq!(verify_password("pw", &h, "pepper"), Ok(true));
}

#[test]
fn unusable_cost_parameters_are_internal_error() {
    // Memory below the algorithm's minimum cannot be used.
    let params = HashParams { iterations: Some(1), memory_size: Some(1) };
    assert_eq!(hash_password("pw", "pepper", &params), Err(AuthError::Hashing));
}
