//! The discriminator endpoints: users registered by name alone, and the
//! listing and registration of synced files per user.

use vstd::prelude::*;
use crate::entity::{tracked_file, user};
use crate::error::{
    db_error, err, ApiError, ApiResponse, DbResult, InternalErrorCode, STATUS_BAD_REQUEST,
    STATUS_CREATED, STATUS_INTERNAL_SERVER_ERROR, STATUS_OK,
};

verus! {

/// A user registered by name alone.
#[derive(Debug)]
pub struct CreateUserReq {
    pub username: String,
}

#[derive(Debug)]
pub struct CreateUserRes {
    pub username: Option<String>,
    pub errors: Option<String>,
}

#[derive(Debug)]
pub struct GetAllDiscriminatorsReq {
    pub username: String,
}

#[derive(Debug)]
pub struct GetAllDiscriminatorsRes {
    pub discriminators: Vec<String>,
}

/// The answer once a user registered by name is inserted: `201` with the
/// name and no errors; a failed insert is `500`.
pub fn create_user_response(inserted: DbResult<()>, username: String) -> (r: ApiResponse<
    CreateUserRes,
>)
    ensures
        match inserted {
            Err(_) => r is Err && r->Err_0 == ApiError(
                STATUS_INTERNAL_SERVER_ERROR,
                InternalErrorCode::InternalDBError,
            ),
            Ok(()) => r matches Ok((s, res)) && s == STATUS_CREATED && res.username == Some(username)
                && res.errors is None,
        },
{
    match inserted {
        Err(_) => Err(db_error()),
        Ok(()) => Ok((STATUS_CREATED, CreateUserRes { username: Some(username), errors: None })),
    }
}

/// The user a request names: a failed lookup is `500 InternalDBError` and an
/// unknown name is `500 NoSuchUserFoundError`.
pub fn require_named_user(found: DbResult<Option<user::Model>>) -> (r: Result<user::Model, ApiError>)
    ensures
        match found {
            Err(_) => r == Err::<user::Model, ApiError>(
                ApiError(STATUS_INTERNAL_SERVER_ERROR, InternalErrorCode::InternalDBError),
            ),
            Ok(None) => r == Err::<user::Model, ApiError>(
                ApiError(STATUS_INTERNAL_SERVER_ERROR, InternalErrorCode::NoSuchUserFoundError),
            ),
            Ok(Some(u)) => r == Ok::<user::Model, ApiError>(u),
        },
{
    match found {
        Err(_) => Err(db_error()),
        Ok(None) => Err(err(STATUS_INTERNAL_SERVER_ERROR, InternalErrorCode::NoSuchUserFoundError)),
        Ok(Some(u)) => Ok(u),
    }
}

/// The answer listing a user's file discriminators: `200` with them, in the
/// order the database gave them.
pub fn discriminators_response(found: DbResult<Vec<String>>) -> (r: ApiResponse<
    GetAllDiscriminatorsRes,
>)
    ensures
        match found {
            Err(_) => r is Err && r->Err_0 == ApiError(
                STATUS_INTERNAL_SERVER_ERROR,
                InternalErrorCode::InternalDBError,
            ),
            Ok(ds) => r matches Ok((s, res)) && s == STATUS_OK && res.discriminators == ds,
        },
{
    match found {
        Err(_) => Err(db_error()),
        Ok(ds) => Ok((STATUS_OK, GetAllDiscriminatorsRes { discriminators: ds })),
    }
}

/// A synced file may be registered only under an id no file has yet:
/// `400 FileAlreadyExists` otherwise.
pub fn check_file_absent(found: &DbResult<Option<tracked_file::Model>>) -> (r: Result<(), ApiError>)
    ensures
        match found {
            Err(_) => r == Err::<(), ApiError>(
                ApiError(STATUS_INTERNAL_SERVER_ERROR, InternalErrorCode::InternalDBError),
            ),
            Ok(Some(_)) => r == Err::<(), ApiError>(
                ApiError(STATUS_BAD_REQUEST, InternalErrorCode::FileAlreadyExists),
            ),
            Ok(None) => r is Ok,
        },
{
    match found {
        Err(_) => Err(db_error()),
        Ok(Some(_)) => Err(err(STATUS_BAD_REQUEST, InternalErrorCode::FileAlreadyExists)),
        Ok(None) => Ok(()),
    }
}

/// The answer once synced files and their machine paths are stored: `201`;
/// a failed transaction is `500`.
pub fn synced_files_response(stored: DbResult<()>) -> (r: ApiResponse<()>)
    ensures
        match stored {
            Err(_) => r == Err::<(u16, ()), ApiError>(
                ApiError(STATUS_INTERNAL_SERVER_ERROR, InternalErrorCode::InternalDBError),
            ),
            Ok(()) => r == Ok::<(u16, ()), ApiError>((STATUS_CREATED, ())),
        },
{
    match stored {
        Err(_) => Err(db_error()),
        Ok(()) => Ok((STATUS_CREATED, ())),
    }
}

} // verus!
