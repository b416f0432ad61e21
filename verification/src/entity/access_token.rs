//! A row of the `access_tokens` table.

use vstd::prelude::*;
use crate::model::Timestamp;

verus! {

/// A stored access token; only the SHA-256 digest of the token is kept.
#[derive(Clone, Debug, PartialEq)]
pub struct Model {
    pub id: i64,
    /// SHA-256 digest of the token.
    pub token_hash: Vec<u8>,
    pub user_id: i64,
    pub name: String,
    pub created_at: Timestamp,
    pub expires_at: Timestamp,
    pub revoked_at: Option<Timestamp>,
    pub last_used_at: Option<Timestamp>,
}

/// An access-token row about to be inserted; the database assigns its `id`.
#[derive(Clone, Debug, PartialEq)]
pub struct ActiveModel {
    pub token_hash: Vec<u8>,
    pub user_id: i64,
    pub name: String,
    pub created_at: Timestamp,
    pub expires_at: Timestamp,
    pub revoked_at: Option<Timestamp>,
    pub last_used_at: Option<Timestamp>,
}

/// The name a token gets when none is given.
pub open spec fn default_token_name() -> Seq<char> {
    "Default Access Token"@
}

impl ActiveModel {
    /// A new token: never used nor revoked, created `now`, named `name` or
    /// "Default Access Token" when no name is given.
    pub fn new(
        token_hash: Vec<u8>,
        user_id: i64,
        name: Option<String>,
        now: Timestamp,
        expires_at: Timestamp,
    ) -> (r: Self)
        ensures
            r.token_hash == token_hash,
            r.user_id == user_id,
            name matches Some(n) ==> r.name == n,
            name is None ==> r.name@ == default_token_name(),
            r.created_at == now,
            r.expires_at == expires_at,
            r.revoked_at is None,
            r.last_used_at is None,
    {
        let name = match name {
            Some(n) => n,
            None => String::from_str("Default Access Token"),
        };
        ActiveModel {
            token_hash,
            user_id,
            name,
            created_at: now,
            expires_at,
            revoked_at: None,
            last_used_at: None,
        }
    }
}

} // verus!
