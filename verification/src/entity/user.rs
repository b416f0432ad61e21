//! A row of the `users` table.

use vstd::prelude::*;
use vstd::std_specs::convert::FromSpecImpl;
use crate::api_types::Role as ApiRole;
use crate::model::Timestamp;

verus! {

/// A user's role as the database stores it; ordered `Banned < User < Admin`.
#[derive(Clone, Copy, Debug, PartialEq, Eq, Structural, PartialOrd, Ord)]
pub enum Role {
    Banned,
    User,
    Admin,
}

impl Role {
    /// Position in the order `Banned < User < Admin`.
    pub open spec fn spec_rank(self) -> nat {
        match self {
            Role::Banned => 0,
            Role::User => 1,
            Role::Admin => 2,
        }
    }

    pub fn rank(&self) -> (r: u8)
        ensures
            r == self.spec_rank(),
    {
        match self {
            Role::Banned => 0,
            Role::User => 1,
            Role::Admin => 2,
        }
    }

    /// Whether this role is `required` or above it.
    pub fn at_least(&self, required: &Role) -> (r: bool)
        ensures
            r == (self.spec_rank() >= required.spec_rank()),
    {
        self.rank() >= required.rank()
    }
}

impl Default for Role {
    fn default() -> (r: Self)
        ensures
            r == Role::User,
    {
        Role::User
    }
}

/// The database role for an API role: the variant of the same name.
pub open spec fn role_from_api(value: ApiRole) -> Role {
    match value {
        ApiRole::Banned => Role::Banned,
        ApiRole::User => Role::User,
        ApiRole::Admin => Role::Admin,
    }
}

/// The API role for a database role: the variant of the same name.
pub open spec fn role_to_api(value: Role) -> ApiRole {
    match value {
        Role::Banned => ApiRole::Banned,
        Role::User => ApiRole::User,
        Role::Admin => ApiRole::Admin,
    }
}

impl From<ApiRole> for Role {
    fn from(value: ApiRole) -> (r: Self) {
        match value {
            ApiRole::Banned => Role::Banned,
            ApiRole::User => Role::User,
            ApiRole::Admin => Role::Admin,
        }
    }
}

impl FromSpecImpl<ApiRole> for Role {
    open spec fn obeys_from_spec() -> bool {
        true
    }

    open spec fn from_spec(value: ApiRole) -> Role {
        role_from_api(value)
    }
}

impl From<Role> for ApiRole {
    fn from(value: Role) -> (r: Self) {
        match value {
            Role::Banned => ApiRole::Banned,
            Role::User => ApiRole::User,
            Role::Admin => ApiRole::Admin,
        }
    }
}

impl FromSpecImpl<Role> for ApiRole {
    open spec fn obeys_from_spec() -> bool {
        true
    }

    open spec fn from_spec(value: Role) -> ApiRole {
        role_to_api(value)
    }
}

/// An API role converted to the database role and back is unchanged, and so
/// is a database role converted to the API role and back; both conversions
/// keep the order of roles.
pub proof fn lemma_role_round_trip(api: ApiRole, db: Role)
    ensures
        role_to_api(role_from_api(api)) == api,
        role_from_api(role_to_api(db)) == db,
        role_from_api(api).spec_rank() == api.spec_rank(),
        role_to_api(db).spec_rank() == db.spec_rank(),
{
}

/// An administrator passes every role check, and a role check for the
/// lowest role lets every user through.
pub proof fn lemma_role_check_extremes(role: Role)
    ensures
        Role::Admin.spec_rank() >= role.spec_rank(),
        role.spec_rank() >= Role::Banned.spec_rank(),
{
}

/// A stored user.
#[derive(Clone, Debug, PartialEq)]
pub struct Model {
    pub id: i64,
    pub role: Role,
    pub username: String,
    /// Argon2 hash of the password in PHC string format.
    pub password_hash: String,
    pub enabled: bool,
    pub created_at: Timestamp,
}

/// A user row about to be inserted; the database assigns its `id`.
#[derive(Clone, Debug, PartialEq)]
pub struct ActiveModel {
    pub username: String,
    pub password_hash: String,
    pub role: Role,
    pub enabled: bool,
    pub created_at: Timestamp,
}

impl ActiveModel {
    /// A new user: not yet enabled, with the `User` role, created `now`.
    pub fn new(username: String, password_hash: String, now: Timestamp) -> (r: Self)
        ensures
            r.username == username,
            r.password_hash == password_hash,
            r.role == Role::User,
            !r.enabled,
            r.created_at == now,
    {
        ActiveModel { username, password_hash, role: Role::default(), enabled: false, created_at: now }
    }
}

} // verus!
