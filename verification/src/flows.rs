use vstd::prelude::*;
use crate::error::AuthError;
use crate::hashing::{hash_password, verify_password, verify_outcome, HashParams};
use crate::role::{Identity, Role};
use crate::token::{issue, token_seq};

verus! {

// The login, registration and password-change flows. The user store is an
// external collaborator: the caller looks a record up by email or id and
// hands the result in; these functions decide everything else and hand back
// what to persist or send. They never touch the store themselves.

/// Process-wide immutable configuration, loaded once at startup: the token
/// signing secret, the hashing pepper, the token time-to-live in seconds,
/// and the hashing cost parameters.
pub struct AuthConfig {
    pub jwt_secret: String,
    pub pepper: String,
    pub token_ttl: u64,
    pub hash_params: HashParams,
}

impl AuthConfig {
    /// A validated configuration: non-empty secrets and a positive lifetime.
    pub open spec fn wf(&self) -> bool {
        self.jwt_secret@.len() > 0 && self.pepper@.len() > 0 && self.token_ttl >= 1
    }

    /// Validates and assembles the configuration; rejects an empty signing
    /// secret, an empty pepper, and a zero time-to-live.
    pub fn new(
        jwt_secret: String,
        pepper: String,
        token_ttl: u64,
        iterations: Option<u32>,
        memory_size: Option<u32>,
    ) -> (r: Option<AuthConfig>)
        ensures
            r matches Some(c) ==> c.wf() && c.jwt_secret@ == jwt_secret@ && c.pepper@ == pepper@
                && c.token_ttl == token_ttl && c.hash_params.iterations == iterations
                && c.hash_params.memory_size == memory_size,
            r is None <==> (jwt_secret@.len() == 0 || pepper@.len() == 0 || token_ttl == 0),
    {
        if jwt_secret.as_str().is_empty() || pepper.as_str().is_empty() || token_ttl == 0 {
            None
        } else {
            Some(
                AuthConfig {
                    jwt_secret,
                    pepper,
                    token_ttl,
                    hash_params: HashParams { iterations, memory_size },
                },
            )
        }
    }
}

/// A user record as the store holds it: identity, credential hash, role and
/// timestamps. The only place a credential hash lives.
#[derive(Clone, Debug, PartialEq, Eq)]
pub struct UserRecord {
    pub id: String,
    pub email: String,
    pub name: String,
    pub password_hash: String,
    pub role: Role,
    pub created_at: u64,
    pub updated_at: u64,
}

/// The outward-facing shape of a user. By construction it has no credential
/// hash field, so no response built from it can leak one.
#[derive(Clone, Debug, PartialEq, Eq)]
pub struct Profile {
    pub id: String,
    pub email: String,
    pub name: String,
    pub role: Role,
    pub created_at: u64,
    pub updated_at: u64,
}

/// The profile carries exactly the record's public fields.
pub open spec fn profile_matches(p: Profile, u: UserRecord) -> bool {
    p.id@ == u.id@ && p.email@ == u.email@ && p.name@ == u.name@ && p.role == u.role
        && p.created_at == u.created_at && p.updated_at == u.updated_at
}

/// What a successful login hands back: the minted token and the public
/// profile of the account.
#[derive(Clone, Debug, PartialEq, Eq)]
pub struct LoginResponse {
    pub token: String,
    pub profile: Profile,
}

/// A record ready for first persistence: registration output.
#[derive(Clone, Debug, PartialEq, Eq)]
pub struct NewUser {
    pub email: String,
    pub name: String,
    pub password_hash: String,
    pub role: Role,
    pub created_at: u64,
    pub updated_at: u64,
}

/// A password-change request: the target account and the credentials.
#[derive(Clone, Debug, PartialEq, Eq)]
pub struct PasswordUpdateRequest {
    pub id: String,
    pub current_password: String,
    pub new_password: String,
}

/// Why a login is denied, given the store's answer and what verification
/// yields — or nothing, when it must succeed. An unknown account and a
/// wrong password are the same denial, so a caller cannot probe which
/// emails are registered.
pub open spec fn login_denial(
    lookup: Option<UserRecord>,
    password: Seq<char>,
    pepper: Seq<char>,
) -> Option<AuthError> {
    match lookup {
        None => Some(AuthError::InvalidCredentials),
        Some(u) => match verify_outcome(u.password_hash@, password, pepper) {
            Some(true) => None,
            Some(false) => Some(AuthError::InvalidCredentials),
            None => Some(AuthError::Hashing),
        },
    }
}

/// An unknown account is denied exactly as an account whose password does
/// not match: the two cases are indistinguishable to the caller.
pub proof fn lemma_login_denials_alike(u: UserRecord, password: Seq<char>, pepper: Seq<char>)
    requires
        verify_outcome(u.password_hash@, password, pepper) == Some(false),
    ensures
        login_denial(Some(u), password, pepper) == login_denial(None, password, pepper),
{
}

/// Logs an account in. `lookup` is the store's answer to a lookup of the
/// presented email; `password` is the presented plaintext. On the one
/// undenied path this verifies the password against the stored hash, mints
/// a token for the record's id and role valid from `now` for the configured
/// lifetime, and exposes the public profile.
pub fn login(
    password: &str,
    lookup: Option<&UserRecord>,
    config: &AuthConfig,
    now: u64,
) -> (r: Result<LoginResponse, AuthError>)
    requires
        now + config.token_ttl <= u64::MAX,
    ensures
        match login_denial(
            match lookup {
                Some(u) => Some(*u),
                None => None,
            },
            password@,
            config.pepper@,
        ) {
            Some(e) => r == Err::<LoginResponse, AuthError>(e),
            None => lookup matches Some(u) && r matches Ok(resp) && resp.token@ == token_seq(
                u.id@,
                u.role,
                config.jwt_secret@,
                now,
                (now + config.token_ttl) as u64,
            ) && profile_matches(resp.profile, *u),
        },
{
    let u = match lookup {
        Some(u) => u,
        None => return Err(AuthError::InvalidCredentials),
    };
    let matched = match verify_password(
        password,
        u.password_hash.as_str(),
        config.pepper.as_str(),
    ) {
        Ok(b) => b,
        Err(e) => return Err(e),
    };
    if !matched {
        return Err(AuthError::InvalidCredentials);
    }
    let token = issue(u.id.as_str(), u.role, config.jwt_secret.as_str(), config.token_ttl, now);
    Ok(
        LoginResponse {
            token,
            profile: Profile {
                id: u.id.clone(),
                email: u.email.clone(),
                name: u.name.clone(),
                role: u.role,
                created_at: u.created_at,
                updated_at: u.updated_at,
            },
        },
    )
}

/// Registers an account. `existing` is the store's answer to a lookup of the
/// requested email; any existing record is a duplicate and is rejected
/// before anything is hashed or persisted. On success the record to persist
/// carries the requested email and name, the default `User` role, a fresh
/// credential hash that verifies against the requested password, and both
/// timestamps set to `now`.
pub fn register(
    email: &str,
    name: &str,
    password: &str,
    existing: Option<&UserRecord>,
    config: &AuthConfig,
    now: u64,
) -> (r: Result<NewUser, AuthError>)
    ensures
        existing is Some ==> r == Err::<NewUser, AuthError>(AuthError::DuplicateEmail),
        existing is None ==> match r {
            Ok(nu) => nu.email@ == email@ && nu.name@ == name@ && nu.role == Role::User
                && verify_outcome(nu.password_hash@, password@, config.pepper@) == Some(true)
                && nu.created_at == now && nu.updated_at == now,
            Err(e) => e == AuthError::Hashing,
        },
{
    match existing {
        Some(_) => {
            return Err(AuthError::DuplicateEmail);
        },
        None => {},
    }
    let hashed = match hash_password(password, config.pepper.as_str(), &config.hash_params) {
        Ok(h) => h,
        Err(e) => return Err(e),
    };
    Ok(
        NewUser {
            email: email.to_owned(),
            name: name.to_owned(),
            password_hash: hashed,
            role: Role::User,
            created_at: now,
            updated_at: now,
        },
    )
}

/// Changes an account's password. `acting` is the authenticated identity
/// making the request; `target` is the store's answer to a lookup of
/// `req.id`. A non-admin may only target itself — anything else is rejected
/// outright, whatever credentials were supplied. Whoever targets their own
/// account must present a current password that verifies against the stored
/// hash. On success the returned record is the target with a fresh hash of
/// the new password and a refreshed update timestamp; issued tokens are not
/// revoked.
pub fn change_password(
    req: &PasswordUpdateRequest,
    acting: &Identity,
    target: Option<&UserRecord>,
    config: &AuthConfig,
    now: u64,
) -> (r: Result<UserRecord, AuthError>)
    ensures
        acting.role != Role::Admin && acting.subject_id@ != req.id@ ==> r == Err::<
            UserRecord,
            AuthError,
        >(AuthError::Authorization),
        acting.role == Role::Admin || acting.subject_id@ == req.id@ ==> match target {
            None => r == Err::<UserRecord, AuthError>(AuthError::InvalidCredentials),
            Some(u) => {
                if acting.subject_id@ == u.id@ && verify_outcome(
                    u.password_hash@,
                    req.current_password@,
                    config.pepper@,
                ) == Some(false) {
                    r == Err::<UserRecord, AuthError>(AuthError::InvalidCredentials)
                } else if acting.subject_id@ == u.id@ && verify_outcome(
                    u.password_hash@,
                    req.current_password@,
                    config.pepper@,
                ) is None {
                    r == Err::<UserRecord, AuthError>(AuthError::Hashing)
                } else {
                    match r {
                        Ok(rec) => rec.id@ == u.id@ && rec.email@ == u.email@ && rec.name@
                            == u.name@ && rec.role == u.role && rec.created_at == u.created_at
                            && rec.updated_at == now && verify_outcome(
                            rec.password_hash@,
                            req.new_password@,
                            config.pepper@,
                        ) == Some(true),
                        Err(e) => e == AuthError::Hashing,
                    }
                }
            },
        },
{
    if !(acting.role.at_least(Role::Admin)) && !(acting.subject_id == req.id) {
        return Err(AuthError::Authorization);
    }
    let u = match target {
        Some(u) => u,
        None => return Err(AuthError::InvalidCredentials),
    };
    if acting.subject_id == u.id {
        let matched = match verify_password(
            req.current_password.as_str(),
            u.password_hash.as_str(),
            config.pepper.as_str(),
        ) {
            Ok(b) => b,
            Err(e) => return Err(e),
        };
        if !matched {
            return Err(AuthError::InvalidCredentials);
        }
    }
    let hashed = match hash_password(
        req.new_password.as_str(),
        config.pepper.as_str(),
        &config.hash_params,
    ) {
        Ok(h) => h,
        Err(e) => return Err(e),
    };
    Ok(
        UserRecord {
            id: u.id.clone(),
            email: u.email.clone(),
            name: u.name.clone(),
            password_hash: hashed,
            role: u.role,
            created_at: u.created_at,
            updated_at: now,
        },
    )
}

} // verus!
