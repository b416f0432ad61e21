//! The request and response bodies of the HTTP API.

use vstd::prelude::*;
use crate::model::{FileId, Timestamp};

verus! {

/// What a user may do; ordered `Banned < User < Admin`.
#[derive(Clone, Copy, Debug, PartialEq, Eq, Structural, PartialOrd, Ord)]
pub enum Role {
    Banned,
    User,
    Admin,
}

impl Role {
    /// Position in the order `Banned < User < Admin`.
    pub open spec fn spec_rank(self) -> nat {
        match self {
            Role::Banned => 0,
            Role::User => 1,
            Role::Admin => 2,
        }
    }

    pub fn rank(&self) -> (r: u8)
        ensures
            r == self.spec_rank(),
    {
        match self {
            Role::Banned => 0,
            Role::User => 1,
            Role::Admin => 2,
        }
    }
}

impl Default for Role {
    fn default() -> (r: Self)
        ensures
            r == Role::User,
    {
        Role::User
    }
}

#[derive(Debug)]
pub struct CreateFileReq {
    pub name: String,
    pub hash: u64,
    pub file_bytes: Vec<u8>,
    /// The machine that is creating this file
    pub machine_name: String,
}

#[derive(Debug)]
pub struct CreateFileRes {
    pub id: FileId,
}

#[derive(Debug)]
pub struct CreateUserReq {
    pub username: String,
    pub password: String,
}

#[derive(Debug)]
pub struct CreateUserRes {
    pub id: i64,
    pub username: String,
    pub access_token: String,
}

#[derive(Debug)]
pub struct CreateTokenReq {
    pub name: String,
    pub duration_days: u32,
}

#[derive(Debug)]
pub struct CreateTokenRes {
    pub token: String,
    pub token_id: i64,
}

#[derive(Debug)]
pub struct GetFileInfoRes {
    pub id: FileId,
    pub name: String,
    pub hash: u64,
    pub last_updated_from: String,
    pub updated_at: Timestamp,
    pub deleted_at: Option<Timestamp>,
}

/// Paging of a file listing.
#[derive(Debug)]
pub struct GetAllFilesReq {
    pub include_deleted: bool,
    pub limit: Option<u32>,
    pub offset: Option<u32>,
}

/// Why a listing request was refused.
#[derive(Clone, Copy, Debug, PartialEq, Eq, Structural)]
pub enum LimitError {
    /// `limit` must be at least 1.
    LimitTooSmall,
}

impl GetAllFilesReq {
    /// Accepts a page limit: absent, or at least 1.
    pub fn check_limit(limit: Option<u32>) -> (r: Result<Option<u32>, LimitError>)
        ensures
            r == (if limit matches Some(l) && l < 1 {
                Err::<Option<u32>, LimitError>(LimitError::LimitTooSmall)
            } else {
                Ok::<Option<u32>, LimitError>(limit)
            }),
    {
        match limit {
            Some(l) => if l < 1 {
                Err(LimitError::LimitTooSmall)
            } else {
                Ok(limit)
            },
            None => Ok(limit),
        }
    }
}

impl Default for GetAllFilesReq {
    /// The first hundred files that are not deleted.
    fn default() -> (r: Self)
        ensures
            !r.include_deleted,
            r.limit == Some(100u32),
            r.offset == Some(0u32),
    {
        GetAllFilesReq { include_deleted: false, limit: Some(100), offset: Some(0) }
    }
}

#[derive(Debug)]
pub struct PartialFileInfo {
    pub id: FileId,
    pub name: String,
    pub hash: u64,
}

#[derive(Debug)]
pub struct GetAllFilesRes {
    pub files: Vec<PartialFileInfo>,
}

#[derive(Debug)]
pub struct GetTokenInfoReq {
    pub token: String,
}

#[derive(Debug)]
pub struct GetTokenInfoRes {
    pub id: i64,
    pub name: String,
    pub created_at: Timestamp,
    pub expires_at: Timestamp,
    pub revoked_at: Option<Timestamp>,
    pub last_used: Option<Timestamp>,
}

#[derive(Debug)]
pub struct GetUserRes {
    pub id: i64,
    pub username: String,
    pub role: Role,
    pub created_at: Timestamp,
    pub enabled: bool,
}

#[derive(Debug)]
pub struct RequestTokenReq {
    pub username: String,
    pub password: String,
    pub token_name: String,
    pub duration_days: u32,
}

#[derive(Debug)]
pub struct RequestTokenRes {
    pub token: String,
    pub token_id: i64,
}

#[derive(Debug)]
pub struct RevokeTokenReq {
    pub id: i64,
}

#[derive(Debug)]
pub struct UpdateContents {
    pub file_bytes: Vec<u8>,
    pub expected_hash: u64,
    pub hash: u64,
}

#[derive(Debug)]
pub struct UpdateFileReq {
    pub name: Option<String>,
    pub machine_name: String,
    pub update_contents: Option<UpdateContents>,
}

#[derive(Debug)]
pub struct UpdateFileRes {
    pub name: String,
    pub hash: u64,
    pub machine_name: String,
    pub updated_at: Timestamp,
}

#[derive(Debug)]
pub struct UpdateUserReq {
    pub enabled: Option<bool>,
    pub role: Option<Role>,
}

#[derive(Debug)]
pub struct UpdateUserRes {
    pub id: i64,
    pub role: Role,
    pub username: String,
    pub enabled: bool,
    pub created_at: Timestamp,
}

} // verus!
