use vstd::prelude::*;

verus! {

/// The error taxonomy of the auth core. Every failure a caller can see is one
/// of these; the boundary layer maps each to a transport status code with
/// [`AuthError::http_status`] and a stable message with
/// [`AuthError::public_message`].
#[derive(Clone, Copy, Debug, PartialEq, Eq, Structural)]
pub enum AuthError {
    /// No credentials were presented on a guarded request.
    MissingCredentials,
    /// Credentials were presented but not in the expected bearer form.
    MalformedCredentials,
    /// The presented token is invalid: bad signature, malformed claims, or
    /// expired. The causes are deliberately not distinguished.
    Authentication,
    /// The token is valid but its role is below the route's requirement.
    Authorization,
    /// Login or password-change credentials were wrong. Unknown account and
    /// wrong password are deliberately conflated to prevent enumeration.
    InvalidCredentials,
    /// Registration was attempted under an email that is already taken.
    DuplicateEmail,
    /// Internal hashing failure, or a stored credential hash that is not
    /// structurally valid. Fatal; never detailed to the caller.
    Hashing,
    /// Internal signing failure while minting a token. Fatal; never detailed
    /// to the caller.
    TokenCreation,
}

impl AuthError {
    /// Internal errors surface to callers only as a generic server failure.
    pub open spec fn spec_is_internal(self) -> bool {
        self is Hashing || self is TokenCreation
    }

    pub fn is_internal(self) -> (r: bool)
        ensures
            r == self.spec_is_internal(),
    {
        match self {
            AuthError::Hashing => true,
            AuthError::TokenCreation => true,
            _ => false,
        }
    }

    /// The HTTP status the boundary maps this error to.
    pub open spec fn spec_http_status(self) -> u16 {
        match self {
            AuthError::MissingCredentials => 400,
            AuthError::MalformedCredentials => 400,
            AuthError::Authentication => 401,
            AuthError::Authorization => 401,
            AuthError::InvalidCredentials => 403,
            AuthError::DuplicateEmail => 400,
            AuthError::Hashing => 500,
            AuthError::TokenCreation => 500,
        }
    }

    pub fn http_status(self) -> (r: u16)
        ensures
            r == self.spec_http_status(),
    {
        match self {
            AuthError::MissingCredentials => 400,
            AuthError::MalformedCredentials => 400,
            AuthError::Authentication => 401,
            AuthError::Authorization => 401,
            AuthError::InvalidCredentials => 403,
            AuthError::DuplicateEmail => 400,
            AuthError::Hashing => 500,
            AuthError::TokenCreation => 500,
        }
    }

    /// The stable outward-facing message. Internal failures share one generic
    /// text and never carry detail.
    pub open spec fn spec_public_message(self) -> Seq<char> {
        match self {
            AuthError::MissingCredentials => "no auth header"@,
            AuthError::MalformedCredentials => "invalid auth header"@,
            AuthError::Authentication => "token not valid"@,
            AuthError::Authorization => "no permission"@,
            AuthError::InvalidCredentials => "invalid credentials"@,
            AuthError::DuplicateEmail => "email already registered"@,
            AuthError::Hashing => "internal server error"@,
            AuthError::TokenCreation => "internal server error"@,
        }
    }

    pub fn public_message(self) -> (r: String)
        ensures
            r@ == self.spec_public_message(),
    {
        match self {
            AuthError::MissingCredentials => String::from_str("no auth header"),
            AuthError::MalformedCredentials => String::from_str("invalid auth header"),
            AuthError::Authentication => String::from_str("token not valid"),
            AuthError::Authorization => String::from_str("no permission"),
            AuthError::InvalidCredentials => String::from_str("invalid credentials"),
            AuthError::DuplicateEmail => String::from_str("email already registered"),
            AuthError::Hashing => String::from_str("internal server error"),
            AuthError::TokenCreation => String::from_str("internal server error"),
        }
    }
}

/// Failures of the plain user-management operations that sit beside the auth
/// flows, kept apart from [`AuthError`] as the store glue reports them.
#[derive(Clone, Copy, Debug, PartialEq, Eq, Structural)]
pub enum UserError {
    CreateError,
    UpdateError,
}

impl UserError {
    /// The HTTP status the boundary maps this error to.
    pub open spec fn spec_http_status(self) -> u16 {
        match self {
            UserError::CreateError => 500,
            UserError::UpdateError => 400,
        }
    }

    pub fn http_status(self) -> (r: u16)
        ensures
            r == self.spec_http_status(),
    {
        match self {
            UserError::CreateError => 500,
            UserError::UpdateError => 400,
        }
    }

    /// The stable outward-facing message.
    pub open spec fn spec_public_message(self) -> Seq<char> {
        match self {
            UserError::CreateError => "could not create user"@,
            UserError::UpdateError => "could not update user"@,
        }
    }

    pub fn public_message(self) -> (r: String)
        ensures
            r@ == self.spec_public_message(),
    {
        match self {
            UserError::CreateError => String::from_str("could not create user"),
            UserError::UpdateError => String::from_str("could not update user"),
        }
    }
}

} // verus!
