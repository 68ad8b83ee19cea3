use vstd::prelude::*;
use crate::error::AuthError;

verus! {

// Credential hashing. The salted, parameterized digest itself comes from the
// argon2 crate; what the library states about it is gathered in one named
// result, `verify_outcome`: verification of a stored hash against a plaintext
// and the server-wide pepper is a pure function of those three strings, since
// the stored hash carries its own salt and parameters. Hashing draws a fresh
// random salt, so nothing more can be said of its output than that it
// verifies against the password it was derived from.

/// What verifying `password` against the self-describing `stored` hash under
/// `pepper` yields: `Some(true)` on a match, `Some(false)` on a mismatch, and
/// `None` when `stored` is not a structurally valid hash encoding (or the
/// pepper cannot be used at all). A pure function of its arguments.
pub uninterp spec fn verify_outcome(stored: Seq<char>, password: Seq<char>, pepper: Seq<char>) -> Option<bool>;

/// Cost parameters for credential hashing; a field left empty falls back to
/// the fixed default.
#[derive(Clone, Copy, Debug)]
pub struct HashParams {
    /// Number of passes over memory.
    pub iterations: Option<u32>,
    /// Memory size in KiB.
    pub memory_size: Option<u32>,
}

/// Default number of passes when the configuration names none.
pub const DEFAULT_ITERATIONS: u32 = 2;

/// Default memory size in KiB when the configuration names none.
pub const DEFAULT_MEMORY_SIZE: u32 = 19456;

impl HashParams {
    pub open spec fn spec_effective_iterations(self) -> u32 {
        match self.iterations {
            Some(t) => t,
            None => DEFAULT_ITERATIONS,
        }
    }

    pub open spec fn spec_effective_memory_size(self) -> u32 {
        match self.memory_size {
            Some(m) => m,
            None => DEFAULT_MEMORY_SIZE,
        }
    }

    pub fn effective_iterations(&self) -> (r: u32)
        ensures
            r == self.spec_effective_iterations(),
    {
        match self.iterations {
            Some(t) => t,
            None => DEFAULT_ITERATIONS,
        }
    }

    pub fn effective_memory_size(&self) -> (r: u32)
        ensures
            r == self.spec_effective_memory_size(),
    {
        match self.memory_size {
            Some(m) => m,
            None => DEFAULT_MEMORY_SIZE,
        }
    }
}

/// Relies on argon2's `Argon2::verify_password` with a keyed secret: the
/// answer is recomputed from the salt and cost parameters the stored hash
/// itself carries, the plaintext, and the secret, and compared in constant
/// time, so it depends on the three arguments alone. A mismatch is reported
/// as `Error::Password`; any other failure means `stored` (or the secret)
/// could not be used.
#[verifier::external_body]
fn argon_verify(password: &str, stored: &str, pepper: &str) -> (r: Option<bool>)
    ensures
        r == verify_outcome(stored@, password@, pepper@),
{
    let parsed = argon2::password_hash::PasswordHash::new(stored).ok()?;
    let (alg, ver) = (argon2::Algorithm::Argon2id, argon2::Version::V0x13);
    let ctx = argon2::Argon2::new_with_secret(
        pepper.as_bytes(), alg, ver, argon2::Params::default(),
    ).ok()?;
    match argon2::PasswordVerifier::verify_password(&ctx, password.as_bytes(), &parsed) {
        Ok(()) => Some(true),
        Err(argon2::password_hash::Error::Password) => Some(false),
        Err(_) => None,
    }
}

/// Relies on argon2's `Argon2::hash_password` with a keyed secret: the
/// returned PHC string records algorithm, version, cost parameters and the
/// fresh random salt beside the digest, so `verify_password` on the same
/// plaintext and secret recomputes the digest and reports a match.
#[verifier::external_body]
fn argon_hash(password: &str, pepper: &str, iterations: u32, memory_size: u32) -> (r: Option<
    String,
>)
    ensures
        r matches Some(h) ==> verify_outcome(h@, password@, pepper@) == Some(true),
{
    let rng = &mut argon2::password_hash::rand_core::OsRng;
    let salt = argon2::password_hash::SaltString::generate(rng);
    let params = argon2::Params::new(memory_size, iterations, 1, None).ok()?;
    let (alg, ver) = (argon2::Algorithm::Argon2id, argon2::Version::V0x13);
    let ctx = argon2::Argon2::new_with_secret(pepper.as_bytes(), alg, ver, params).ok()?;
    let hashed = argon2::PasswordHasher::hash_password(&ctx, password.as_bytes(), &salt).ok()?;
    Some(hashed.to_string())
}

/// Derives a salted credential hash of `password`, keyed with the
/// server-wide `pepper`, under the given cost parameters.
///
/// Every hash this returns verifies against the password it was derived
/// from; the salt is fresh per call, so nothing else relates two calls.
/// Fails only with [`AuthError::Hashing`], on an internal RNG or parameter
/// failure.
pub fn hash_password(password: &str, pepper: &str, params: &HashParams) -> (r: Result<
    String,
    AuthError,
>)
    ensures
        r matches Ok(h) ==> verify_outcome(h@, password@, pepper@) == Some(true),
        r matches Err(e) ==> e == AuthError::Hashing,
{
    match argon_hash(password, pepper, params.effective_iterations(), params.effective_memory_size()) {
        Some(h) => Ok(h),
        None => Err(AuthError::Hashing),
    }
}

/// The exact result of [`verify_password`], as a function of the three
/// strings.
pub open spec fn spec_verify_password(
    password: Seq<char>,
    stored: Seq<char>,
    pepper: Seq<char>,
) -> Result<bool, AuthError> {
    match verify_outcome(stored, password, pepper) {
        Some(b) => Ok(b),
        None => Err(AuthError::Hashing),
    }
}

/// A credential hash verifies against the password it was derived from.
/// Every hash that [`hash_password`] returns satisfies the premise (its
/// contract states so), so verifying the same password and pepper against it
/// yields `Ok(true)`.
pub proof fn lemma_hash_then_verify(stored: Seq<char>, password: Seq<char>, pepper: Seq<char>)
    requires
        verify_outcome(stored, password, pepper) == Some(true),
    ensures
        spec_verify_password(password, stored, pepper) == Ok::<bool, AuthError>(true),
{
}

/// Verifies `password` against a stored self-describing hash under the
/// server-wide `pepper`.
///
/// Returns exactly what verification yields: `Ok(true)` on a match,
/// `Ok(false)` on a mismatch, and [`AuthError::Hashing`] when the stored
/// hash is structurally invalid — which is an internal fault, not a
/// recoverable authentication failure.
pub fn verify_password(password: &str, stored: &str, pepper: &str) -> (r: Result<bool, AuthError>)
    ensures
        r == spec_verify_password(password@, stored@, pepper@),
{
    match argon_verify(password, stored, pepper) {
        Some(b) => Ok(b),
        None => Err(AuthError::Hashing),
    }
}

} // verus!
