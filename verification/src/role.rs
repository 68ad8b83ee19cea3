use vstd::prelude::*;

verus! {

/// Access level carried by an identity and embedded in every token.
/// The hierarchy is totally ordered: `User < Admin`.
#[derive(Clone, Copy, Debug, PartialEq, Eq, Structural)]
pub enum Role {
    User,
    Admin,
}

impl Role {
    /// Position of the role in the total order.
    pub open spec fn rank(self) -> int {
        match self {
            Role::User => 0,
            Role::Admin => 1,
        }
    }

    /// Whether this role meets a policy that demands at least `min`.
    pub open spec fn spec_at_least(self, min: Role) -> bool {
        self.rank() >= min.rank()
    }

    /// Decides the role ordering: `r.at_least(min)` holds iff `r >= min`.
    pub fn at_least(self, min: Role) -> (r: bool)
        ensures
            r == self.spec_at_least(min),
    {
        match (self, min) {
            (_, Role::User) => true,
            (Role::Admin, _) => true,
            _ => false,
        }
    }

    /// Stable name of the role, as stored by the user store.
    pub open spec fn spec_label(self) -> Seq<char> {
        match self {
            Role::User => "User"@,
            Role::Admin => "Admin"@,
        }
    }

    /// Renders the role under its stable name.
    pub fn label(self) -> (r: String)
        ensures
            r@ == self.spec_label(),
    {
        match self {
            Role::User => String::from_str("User"),
            Role::Admin => String::from_str("Admin"),
        }
    }

    /// Reads a role back from its stored name; anything but the admin label
    /// is the ordinary user role.
    pub fn from_label(s: &str) -> (r: Role)
        ensures
            r == (if s@ == "Admin"@ {
                Role::Admin
            } else {
                Role::User
            }),
    {
        let owned: String = s.to_owned();
        if owned == String::from_str("Admin") {
            Role::Admin
        } else {
            Role::User
        }
    }
}

/// The authenticated principal decoded from a valid token: the subject it was
/// minted for and the role it carried at mint time.
#[derive(Clone, Debug, PartialEq, Eq)]
pub struct Identity {
    pub subject_id: String,
    pub role: Role,
}

} // verus!
