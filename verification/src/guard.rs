use vstd::prelude::*;
use crate::error::AuthError;
use crate::role::{Identity, Role};
use crate::text::{chars_to_string, str_to_chars, subvec};
use crate::token::{token_claims, validate};

verus! {

// The request guard. A protected route names its minimum role; the guard reads
// the authorization header, validates the bearer token, and compares the
// decoded role against the requirement. It touches no storage: the identity
// it yields comes from the token alone.

/// The token inside an authorization header value, if the value has the
/// bearer shape: the literal scheme `Bearer `, then the token.
pub open spec fn bearer_token(h: Seq<char>) -> Option<Seq<char>> {
    if h.len() >= 7 && h[0] == 'B' && h[1] == 'e' && h[2] == 'a' && h[3] == 'r' && h[4] == 'e'
        && h[5] == 'r' && h[6] == ' ' {
        Some(h.subrange(7, h.len() as int))
    } else {
        None
    }
}

/// The guard's whole decision on one request: the subject and role admitted,
/// or the exact failure. A missing header, a header without the bearer
/// shape, an invalid token and an insufficient role each fail apart.
pub open spec fn guard_outcome(
    header: Option<Seq<char>>,
    min_role: Role,
    secret: Seq<char>,
    now: u64,
) -> Result<(Seq<char>, Role), AuthError> {
    match header {
        None => Err(AuthError::MissingCredentials),
        Some(h) => match bearer_token(h) {
            None => Err(AuthError::MalformedCredentials),
            Some(tok) => match token_claims(tok, secret, now) {
                None => Err(AuthError::Authentication),
                Some((sub, role)) => if role.spec_at_least(min_role) {
                    Ok((sub, role))
                } else {
                    Err(AuthError::Authorization)
                },
            },
        },
    }
}

/// Guards one request behind a minimum role: reads the authorization header (or
/// its absence), validates the bearer token against `secret` at time `now`,
/// and admits the identity exactly when its role meets `min_role`.
pub fn require_role(header: Option<&str>, min_role: Role, secret: &str, now: u64) -> (r: Result<
    Identity,
    AuthError,
>)
    ensures
        match guard_outcome(
            match header {
                Some(h) => Some(h@),
                None => None,
            },
            min_role,
            secret@,
            now,
        ) {
            Ok((sub, role)) => r matches Ok(id) && id.subject_id@ == sub && id.role == role,
            Err(e) => r == Err::<Identity, AuthError>(e),
        },
{
    let h = match header {
        Some(h) => h,
        None => return Err(AuthError::MissingCredentials),
    };
    let chars = str_to_chars(h);
    let n = chars.len();
    if n < 7 {
        return Err(AuthError::MalformedCredentials);
    }
    let c0 = chars[0];
    let c1 = chars[1];
    let c2 = chars[2];
    let c3 = chars[3];
    let c4 = chars[4];
    let c5 = chars[5];
    let c6 = chars[6];
    if c0 != 'B' || c1 != 'e' || c2 != 'a' || c3 != 'r' || c4 != 'e' || c5 != 'r' || c6 != ' ' {
        return Err(AuthError::MalformedCredentials);
    }
    let token_chars = subvec(&chars, 7, n);
    let token = chars_to_string(&token_chars);
    let id = match validate(token.as_str(), secret, now) {
        Ok(id) => id,
        Err(e) => return Err(e),
    };
    if id.role.at_least(min_role) {
        Ok(id)
    } else {
        Err(AuthError::Authorization)
    }
}

/// The guard is sound and complete for the role policy: a valid token is
/// admitted exactly when the role it carries meets the requirement, and the
/// rejection is then the insufficient-role failure. In particular an
/// admin-only guard rejects a user token, and a user-level guard admits an
/// admin token.
pub proof fn lemma_guard_role_policy(
    h: Seq<char>,
    min_role: Role,
    secret: Seq<char>,
    now: u64,
    sub: Seq<char>,
    role: Role,
)
    requires
        bearer_token(h) matches Some(tok) && token_claims(tok, secret, now) == Some((sub, role)),
    ensures
        role.spec_at_least(min_role) ==> guard_outcome(Some(h), min_role, secret, now) == Ok::<
            (Seq<char>, Role),
            AuthError,
        >((sub, role)),
        !role.spec_at_least(min_role) ==> guard_outcome(Some(h), min_role, secret, now) == Err::<
            (Seq<char>, Role),
            AuthError,
        >(AuthError::Authorization),
{
}

} // verus!
