//! User accounts: the rules for new usernames, account creation, and the
//! administrator's operations on accounts.

use vstd::prelude::*;
use vstd::utf8::encode_utf8;
use crate::api_types::{CreateUserRes, GetUserRes, UpdateUserReq, UpdateUserRes};
use crate::auth::{
    ascii_bytes, bearer_prefix, hash_token, header_token, is_token_char, issue_token_text,
    issued_token_text, lemma_issued_token_is_presented, token_digest,
};
use crate::crypto::{argon2_hash_with_fresh_salt, argon2_verdict, phc_parses};
use crate::entity::{access_token, user};
use crate::error::{
    db_error, err, ApiError, ApiResponse, DbResult, InternalErrorCode, STATUS_BAD_REQUEST,
    STATUS_CREATED, STATUS_INTERNAL_SERVER_ERROR, STATUS_NOT_FOUND, STATUS_OK,
};
use crate::model::{Timestamp, NANOS_PER_DAY};
use crate::text::{chars_of, is_ascii_alphanumeric};
use crate::tokens::password_verdict;

verus! {

/// The longest username, in bytes.
pub const MAX_USERNAME_BYTES: usize = 50;

/// Days the first token of a new account is valid.
pub const FIRST_TOKEN_DAYS: u32 = 365;

/// Characters a username may contain.
pub open spec fn username_char_ok(c: char) -> bool {
    is_ascii_alphanumeric(c) || c == '-' || c == '_'
}

/// The verdict on a proposed username: not empty, at most 50 bytes, and made
/// of ASCII letters, digits, `-` and `_`; the first rule broken decides.
pub open spec fn username_verdict(name: Seq<char>) -> Result<(), ApiError> {
    if name.len() == 0 {
        Err(ApiError(STATUS_BAD_REQUEST, InternalErrorCode::UsernameTooShort))
    } else if encode_utf8(name).len() > MAX_USERNAME_BYTES {
        Err(ApiError(STATUS_BAD_REQUEST, InternalErrorCode::UsernameTooLong))
    } else if exists|i: int| 0 <= i < name.len() && !username_char_ok(#[trigger] name[i]) {
        Err(ApiError(STATUS_BAD_REQUEST, InternalErrorCode::UsernameContainsInvalidChars))
    } else {
        Ok(())
    }
}

/// Which names are accepted: an empty name is too short, one over 50 bytes
/// too long, and a name of 1 to 50 bytes is accepted exactly when every
/// character is an ASCII letter, a digit, `-` or `_`; otherwise it is
/// refused with `400 UsernameContainsInvalidChars`. In particular a name
/// holding `@`, a space or a non-ASCII letter is refused.
pub proof fn lemma_username_rules(name: Seq<char>)
    ensures
        name.len() == 0 ==> username_verdict(name) == Err::<(), ApiError>(
            ApiError(STATUS_BAD_REQUEST, InternalErrorCode::UsernameTooShort),
        ),
        name.len() > 0 && encode_utf8(name).len() > 50 ==> username_verdict(name) == Err::<
            (),
            ApiError,
        >(ApiError(STATUS_BAD_REQUEST, InternalErrorCode::UsernameTooLong)),
        name.len() > 0 && encode_utf8(name).len() <= 50 ==> (username_verdict(name) is Ok
            <==> forall|i: int| 0 <= i < name.len() ==> (('a' <= #[trigger] name[i] && name[i] <= 'z') || ('A' <= name[i] && name[i] <= 'Z')
                || ('0' <= name[i] && name[i] <= '9') || name[i] == '-' || name[i] == '_')),
        name.len() > 0 && encode_utf8(name).len() <= 50 && (exists|i: int|
            0 <= i < name.len() && !(('a' <= #[trigger] name[i] && name[i] <= 'z') || ('A' <= name[i] && name[i] <= 'Z')
                || ('0' <= name[i] && name[i] <= '9') || name[i] == '-' || name[i] == '_')) ==> username_verdict(
            name,
        ) == Err::<(), ApiError>(
            ApiError(STATUS_BAD_REQUEST, InternalErrorCode::UsernameContainsInvalidChars),
        ),
        name.contains('@') ==> username_verdict(name) is Err,
{
    if name.contains('@') {
        let i = choose|i: int| 0 <= i < name.len() && name[i] == '@';
        assert(!username_char_ok(name[i]));
    }
    if name.len() > 0 && encode_utf8(name).len() <= 50 {
        assert forall|i: int| 0 <= i < name.len() implies ((('a' <= name[i] && name[i] <= 'z')
            || ('A' <= name[i] && name[i] <= 'Z') || ('0' <= name[i] && name[i] <= '9') || name[i]
            == '-' || name[i] == '_') <==> username_char_ok(name[i])) by {}
    }
}

/// Checks a proposed username against [`username_verdict`].
pub fn validate_username(name: &str) -> (r: Result<(), ApiError>)
    ensures
        r == username_verdict(name@),
        name@.len() == 0 ==> r == Err::<(), ApiError>(
            ApiError(STATUS_BAD_REQUEST, InternalErrorCode::UsernameTooShort),
        ),
        name@.len() > 0 && encode_utf8(name@).len() > 50 ==> r == Err::<(), ApiError>(
            ApiError(STATUS_BAD_REQUEST, InternalErrorCode::UsernameTooLong),
        ),
        name@.len() > 0 && encode_utf8(name@).len() <= 50 ==> (r is Ok <==> forall|i: int|
            0 <= i < name@.len() ==> (('a' <= #[trigger] name@[i] && name@[i] <= 'z') || ('A' <= name@[i] && name@[i] <= 'Z')
                || ('0' <= name@[i] && name@[i] <= '9') || name@[i] == '-' || name@[i] == '_')),
        r is Err && name@.len() > 0 && encode_utf8(name@).len() <= 50 ==> r == Err::<(), ApiError>(
            ApiError(STATUS_BAD_REQUEST, InternalErrorCode::UsernameContainsInvalidChars),
        ),
{
    if name.is_empty() {
        return Err(err(STATUS_BAD_REQUEST, InternalErrorCode::UsernameTooShort));
    }
    if name.as_bytes().len() > MAX_USERNAME_BYTES {
        return Err(err(STATUS_BAD_REQUEST, InternalErrorCode::UsernameTooLong));
    }
    let chars = chars_of(name);
    let mut i: usize = 0;
    while i < chars.len()
        invariant
            i <= chars@.len(),
            chars@ == name@,
            name@.len() > 0,
            encode_utf8(name@).len() <= MAX_USERNAME_BYTES,
            forall|k: int| 0 <= k < i ==> username_char_ok(#[trigger] chars@[k]),
        decreases chars.len() - i,
    {
        let c = chars[i];
        let ok = ('a' <= c && c <= 'z') || ('A' <= c && c <= 'Z') || ('0' <= c && c <= '9') || c
            == '-' || c == '_';
        if !ok {
            assert(!username_char_ok(name@[i as int]));
            return Err(err(STATUS_BAD_REQUEST, InternalErrorCode::UsernameContainsInvalidChars));
        }
        i = i + 1;
    }
    Ok(())
}

/// A username is free when no user holds it; a failed lookup is `500` and a
/// taken name is `400 UsernameTaken`.
pub fn check_username_free(found: &DbResult<Option<user::Model>>) -> (r: Result<(), ApiError>)
    ensures
        match found {
            Err(_) => r == Err::<(), ApiError>(
                ApiError(STATUS_INTERNAL_SERVER_ERROR, InternalErrorCode::InternalDBError),
            ),
            Ok(Some(_)) => r == Err::<(), ApiError>(
                ApiError(STATUS_BAD_REQUEST, InternalErrorCode::UsernameTaken),
            ),
            Ok(None) => r is Ok,
        },
{
    match found {
        Err(_) => Err(db_error()),
        Ok(Some(_)) => Err(err(STATUS_BAD_REQUEST, InternalErrorCode::UsernameTaken)),
        Ok(None) => Ok(()),
    }
}

/// The answer to an attempt to hash a new password: the hash in PHC string
/// format, or `500 PasswordHash` when hashing failed.
pub fn password_hash_outcome(hashed: Option<String>) -> (r: Result<String, ApiError>)
    ensures
        match hashed {
            Some(h) => r == Ok::<String, ApiError>(h),
            None => r == Err::<String, ApiError>(
                ApiError(STATUS_INTERNAL_SERVER_ERROR, InternalErrorCode::PasswordHash),
            ),
        },
{
    match hashed {
        Some(h) => Ok(h),
        None => Err(err(STATUS_INTERNAL_SERVER_ERROR, InternalErrorCode::PasswordHash)),
    }
}

/// The Argon2 hash of a new password, with a fresh random salt, or
/// `500 PasswordHash` when hashing fails (see [`password_hash_outcome`]).
/// A hash returned is a PHC string against which the same password verifies.
pub fn hash_new_password(password: &str) -> (r: Result<String, ApiError>)
    ensures
        match r {
            Ok(h) => phc_parses(h@) && argon2_verdict(encode_utf8(password@), h@) == Some(true),
            Err(e) => e == ApiError(STATUS_INTERNAL_SERVER_ERROR, InternalErrorCode::PasswordHash),
        },
{
    password_hash_outcome(argon2_hash_with_fresh_salt(password.as_bytes()))
}

/// The first token of a new account: stored under the digest of `raw_token`,
/// with the default name, valid for 365 days from `now`.
pub fn first_token_row(user_id: i64, raw_token: &str, now: Timestamp) -> (r: access_token::ActiveModel)
    requires
        now.valid(),
    ensures
        r.token_hash@ == token_digest(raw_token@),
        r.user_id == user_id,
        r.name@ == access_token::default_token_name(),
        r.created_at == now,
        r.expires_at.nanos == now.nanos + 365 * NANOS_PER_DAY,
        r.revoked_at is None,
        r.last_used_at is None,
{
    let expires = now.plus_days(FIRST_TOKEN_DAYS);
    access_token::ActiveModel::new(hash_token(raw_token), user_id, None, now, expires)
}

/// The answer once the new user and its first token are stored: `201` with
/// the user's id, name and the token as handed out (`cfs_` + token); a failed
/// insert is `500`.
pub fn created_user_response(inserted: DbResult<user::Model>, username: String, raw_token: &str) -> (r:
    ApiResponse<CreateUserRes>)
    ensures
        match inserted {
            Err(_) => r is Err && r->Err_0 == ApiError(
                STATUS_INTERNAL_SERVER_ERROR,
                InternalErrorCode::InternalDBError,
            ),
            Ok(u) => r matches Ok((s, res)) && s == STATUS_CREATED && res.id == u.id
                && res.username == username && res.access_token@ == issued_token_text(raw_token@),
        },
{
    match inserted {
        Err(_) => Err(db_error()),
        Ok(u) => Ok(
            (
                STATUS_CREATED,
                CreateUserRes { id: u.id, username, access_token: issue_token_text(raw_token) },
            ),
        ),
    }
}

/// The user a lookup by id found: a failed lookup is `500`, no such user is
/// `404 NoSuchUserFound`.
pub fn require_user(found: DbResult<Option<user::Model>>) -> (r: Result<user::Model, ApiError>)
    ensures
        match found {
            Err(_) => r == Err::<user::Model, ApiError>(
                ApiError(STATUS_INTERNAL_SERVER_ERROR, InternalErrorCode::InternalDBError),
            ),
            Ok(None) => r == Err::<user::Model, ApiError>(
                ApiError(STATUS_NOT_FOUND, InternalErrorCode::NoSuchUserFound),
            ),
            Ok(Some(u)) => r == Ok::<user::Model, ApiError>(u),
        },
{
    match found {
        Err(_) => Err(db_error()),
        Ok(None) => Err(err(STATUS_NOT_FOUND, InternalErrorCode::NoSuchUserFound)),
        Ok(Some(u)) => Ok(u),
    }
}

/// The account to enable: it must exist and not be enabled already
/// (`400 UserAlreadyEnabled`); the result is the same account, enabled.
pub fn plan_enable_user(found: DbResult<Option<user::Model>>) -> (r: Result<user::Model, ApiError>)
    ensures
        match found {
            Err(_) => r == Err::<user::Model, ApiError>(
                ApiError(STATUS_INTERNAL_SERVER_ERROR, InternalErrorCode::InternalDBError),
            ),
            Ok(None) => r == Err::<user::Model, ApiError>(
                ApiError(STATUS_NOT_FOUND, InternalErrorCode::NoSuchUserFound),
            ),
            Ok(Some(u)) => if u.enabled {
                r == Err::<user::Model, ApiError>(
                    ApiError(STATUS_BAD_REQUEST, InternalErrorCode::UserAlreadyEnabled),
                )
            } else {
                r == Ok::<user::Model, ApiError>(user::Model { enabled: true, ..u })
            },
        },
{
    let u = require_user(found)?;
    if u.enabled {
        return Err(err(STATUS_BAD_REQUEST, InternalErrorCode::UserAlreadyEnabled));
    }
    Ok(user::Model { enabled: true, ..u })
}

/// The account with the requested changes: `enabled` and `role` change only
/// when given; everything else stays.
pub fn plan_update_user(found: DbResult<Option<user::Model>>, req: &UpdateUserReq) -> (r: Result<
    user::Model,
    ApiError,
>)
    ensures
        match found {
            Err(_) => r == Err::<user::Model, ApiError>(
                ApiError(STATUS_INTERNAL_SERVER_ERROR, InternalErrorCode::InternalDBError),
            ),
            Ok(None) => r == Err::<user::Model, ApiError>(
                ApiError(STATUS_NOT_FOUND, InternalErrorCode::NoSuchUserFound),
            ),
            Ok(Some(u)) => r == Ok::<user::Model, ApiError>(
                user::Model {
                    enabled: match req.enabled {
                        Some(v) => v,
                        None => u.enabled,
                    },
                    role: match req.role {
                        Some(role) => user::role_from_api(role),
                        None => u.role,
                    },
                    ..u
                },
            ),
        },
{
    let u = require_user(found)?;
    let enabled = match req.enabled {
        Some(v) => v,
        None => u.enabled,
    };
    let role = match req.role {
        Some(role) => user::Role::from(role),
        None => u.role,
    };
    Ok(user::Model { enabled, role, ..u })
}

/// The answer once the updated account is saved: `200` with its id, role,
/// name, state and creation time; a failed save is `500`.
pub fn updated_user_response(saved: DbResult<user::Model>) -> (r: ApiResponse<UpdateUserRes>)
    ensures
        match saved {
            Err(_) => r is Err && r->Err_0 == ApiError(
                STATUS_INTERNAL_SERVER_ERROR,
                InternalErrorCode::InternalDBError,
            ),
            Ok(u) => r matches Ok((s, res)) && s == STATUS_OK && res.id == u.id && res.role
                == user::role_to_api(u.role) && res.username == u.username && res.enabled
                == u.enabled && res.created_at == u.created_at,
        },
{
    match saved {
        Err(_) => Err(db_error()),
        Ok(u) => Ok(
            (
                STATUS_OK,
                UpdateUserRes {
                    id: u.id,
                    role: u.role.into(),
                    username: u.username,
                    enabled: u.enabled,
                    created_at: u.created_at,
                },
            ),
        ),
    }
}

/// The answer to a lookup of one account: `200` with its id, name, role,
/// creation time and state.
pub fn get_user_response(found: DbResult<Option<user::Model>>) -> (r: ApiResponse<GetUserRes>)
    ensures
        match found {
            Err(_) => r is Err && r->Err_0 == ApiError(
                STATUS_INTERNAL_SERVER_ERROR,
                InternalErrorCode::InternalDBError,
            ),
            Ok(None) => r is Err && r->Err_0 == ApiError(
                STATUS_NOT_FOUND,
                InternalErrorCode::NoSuchUserFound,
            ),
            Ok(Some(u)) => r matches Ok((s, res)) && s == STATUS_OK && res.id == u.id
                && res.username == u.username && res.role == user::role_to_api(u.role)
                && res.created_at == u.created_at && res.enabled == u.enabled,
        },
{
    let u = require_user(found)?;
    Ok(
        (
            STATUS_OK,
            GetUserRes {
                id: u.id,
                username: u.username,
                role: u.role.into(),
                created_at: u.created_at,
                enabled: u.enabled,
            },
        ),
    )
}

/// What [`first_token_row`] gives: the first token of account `user_id`,
/// stored under the digest of `raw_token`, with the default name, valid for
/// 365 days from `now`, never used nor revoked.
pub open spec fn is_first_token_row(
    row: access_token::ActiveModel,
    user_id: i64,
    raw_token: Seq<char>,
    now: Timestamp,
) -> bool {
    &&& row.token_hash@ == token_digest(raw_token)
    &&& row.user_id == user_id
    &&& row.name@ == access_token::default_token_name()
    &&& row.created_at == now
    &&& row.expires_at.nanos == now.nanos + 365 * NANOS_PER_DAY
    &&& row.revoked_at is None
    &&& row.last_used_at is None
}

/// Where the creation of an account stands. The account and its first token
/// are inserted in one database transaction.
pub enum SignupState {
    /// Waiting for the lookup of the requested name.
    Checking { username: String, password: String },
    /// Waiting for the transaction to begin.
    Beginning { username: String, password_hash: String, raw_token: String },
    /// Waiting for the account to be inserted.
    InsertingUser { username: String, raw_token: String },
    /// Waiting for the account's first token to be inserted.
    InsertingToken { user: user::Model, username: String, raw_token: String },
    /// Waiting for the transaction to commit.
    Committing { user: user::Model, username: String, raw_token: String },
    /// The request was answered (an unfinished transaction is rolled back).
    Finished,
}

/// What the server learned since the last step of an account creation.
pub enum SignupEvent {
    /// The user found under the requested name, if any, and a freshly drawn
    /// random token for the new account.
    NameFound { found: DbResult<Option<user::Model>>, raw_token: String },
    /// The outcome of beginning the transaction, and the time then.
    Began { result: DbResult<()>, now: Timestamp },
    /// The inserted account, and the time then.
    UserInserted { result: DbResult<user::Model>, now: Timestamp },
    /// The outcome of inserting the first token.
    TokenInserted { result: DbResult<()> },
    /// The outcome of committing the transaction.
    Committed { result: DbResult<()> },
}

/// What the server must do next in an account creation.
pub enum SignupAction {
    /// Look up the user with this name.
    FindName { username: String },
    /// Begin the transaction.
    Begin,
    /// Insert this account.
    InsertUser { row: user::ActiveModel },
    /// Insert this token.
    InsertToken { row: access_token::ActiveModel },
    /// Commit the transaction.
    Commit,
    /// Answer the request.
    Answer { answer: ApiResponse<CreateUserRes> },
}

/// Whether an event answers the action a state is waiting on. The times the
/// server reports lie in the range of date-time values.
pub open spec fn signup_event_fits(state: SignupState, event: SignupEvent) -> bool {
    match state {
        SignupState::Checking { .. } => event is NameFound,
        SignupState::Beginning { .. } => event is Began,
        SignupState::InsertingUser { .. } => event matches SignupEvent::UserInserted { now, .. } && now.valid(),
        SignupState::InsertingToken { .. } => event is TokenInserted,
        SignupState::Committing { .. } => event is Committed,
        SignupState::Finished => false,
    }
}

/// An account creation answered with `error`.
pub open spec fn signup_refused(r: (SignupState, SignupAction), error: ApiError) -> bool {
    &&& r.0 is Finished
    &&& r.1 == SignupAction::Answer { answer: Err(error) }
}

/// How an account creation starts: the name must pass
/// [`username_verdict`]; then it is looked up.
pub open spec fn signup_started(username: Seq<char>, password: Seq<char>, r: (SignupState, SignupAction)) -> bool {
    match username_verdict(username) {
        Err(e) => signup_refused(r, e),
        Ok(()) => {
            &&& r.0 is Checking
            &&& r.0->Checking_username@ == username
            &&& r.0->Checking_password@ == password
            &&& r.1 is FindName
            &&& r.1->FindName_username@ == username
        },
    }
}

/// Starts creating the account a request asks for.
pub fn signup_start(username: String, password: String) -> (r: (SignupState, SignupAction))
    ensures
        signup_started(username@, password@, r),
{
    if let Err(e) = validate_username(username.as_str()) {
        return (SignupState::Finished, SignupAction::Answer { answer: Err(e) });
    }
    let lookup = username.clone();
    (SignupState::Checking { username, password }, SignupAction::FindName { username: lookup })
}

/// What one step of an account creation gives. A taken name is refused
/// ([`check_username_free`]); a free one has its password hashed with a
/// fresh salt (a failure is `500 PasswordHash`) and a transaction begun. The
/// account is inserted not yet enabled, with the `User` role, at the time the
/// transaction began; then its first token ([`is_first_token_row`]) at the
/// time the account was inserted; once committed the answer is `201` with the
/// account's id, name and the token as handed out (`cfs_` + token). Any
/// database failure is `500 InternalDBError`. The hash carried into the
/// account row is a PHC string against which the requested password
/// verifies; its salt is random, so the string itself is not fixed.
pub open spec fn signup_transition(state: SignupState, event: SignupEvent, r: (SignupState, SignupAction)) -> bool {
    let db_failure = ApiError(STATUS_INTERNAL_SERVER_ERROR, InternalErrorCode::InternalDBError);
    match state {
        SignupState::Checking { username, password } => match event {
            SignupEvent::NameFound { found, raw_token } => match found {
                Err(_) => signup_refused(r, db_failure),
                Ok(Some(_)) => signup_refused(r, ApiError(STATUS_BAD_REQUEST, InternalErrorCode::UsernameTaken)),
                Ok(None) => {
                    ||| signup_refused(r, ApiError(STATUS_INTERNAL_SERVER_ERROR, InternalErrorCode::PasswordHash))
                    ||| {
                        &&& r.0 is Beginning
                        &&& r.0->Beginning_username == username
                        &&& r.0->Beginning_raw_token == raw_token
                        &&& phc_parses(r.0->Beginning_password_hash@)
                        &&& argon2_verdict(encode_utf8(password@), r.0->Beginning_password_hash@)
                            == Some(true)
                        &&& r.1 is Begin
                    }
                },
            },
            _ => false,
        },
        SignupState::Beginning { username, password_hash, raw_token } => match event {
            SignupEvent::Began { result, now } => match result {
                Err(_) => signup_refused(r, db_failure),
                Ok(()) => {
                    &&& r.0 == SignupState::InsertingUser { username, raw_token }
                    &&& r.1 == SignupAction::InsertUser {
                        row: user::ActiveModel {
                            username,
                            password_hash,
                            role: user::Role::User,
                            enabled: false,
                            created_at: now,
                        },
                    }
                },
            },
            _ => false,
        },
        SignupState::InsertingUser { username, raw_token } => match event {
            SignupEvent::UserInserted { result, now } => match result {
                Err(_) => signup_refused(r, db_failure),
                Ok(u) => {
                    &&& r.0 == SignupState::InsertingToken { user: u, username, raw_token }
                    &&& r.1 is InsertToken
                    &&& is_first_token_row(r.1->InsertToken_row, u.id, raw_token@, now)
                },
            },
            _ => false,
        },
        SignupState::InsertingToken { user, username, raw_token } => match event {
            SignupEvent::TokenInserted { result } => match result {
                Err(_) => signup_refused(r, db_failure),
                Ok(()) => {
                    &&& r.0 == SignupState::Committing { user, username, raw_token }
                    &&& r.1 is Commit
                },
            },
            _ => false,
        },
        SignupState::Committing { user, username, raw_token } => match event {
            SignupEvent::Committed { result } => match result {
                Err(_) => signup_refused(r, db_failure),
                Ok(()) => {
                    &&& r.0 is Finished
                    &&& r.1 is Answer
                    &&& r.1->Answer_answer matches Ok((s, res)) && s == STATUS_CREATED && res.id == user.id
                        && res.username == username && res.access_token@ == issued_token_text(raw_token@)
                },
            },
            _ => false,
        },
        SignupState::Finished => false,
    }
}

/// One step of an account creation: see [`signup_transition`].
pub fn signup_step(state: SignupState, event: SignupEvent) -> (r: (SignupState, SignupAction))
    requires
        signup_event_fits(state, event),
    ensures
        signup_transition(state, event, r),
{
    match state {
        SignupState::Checking { username, password } => match event {
            SignupEvent::NameFound { found, raw_token } => {
                if let Err(e) = check_username_free(&found) {
                    return (SignupState::Finished, SignupAction::Answer { answer: Err(e) });
                }
                match hash_new_password(password.as_str()) {
                    Err(e) => (SignupState::Finished, SignupAction::Answer { answer: Err(e) }),
                    Ok(password_hash) => (
                        SignupState::Beginning { username, password_hash, raw_token },
                        SignupAction::Begin,
                    ),
                }
            },
            _ => {
                proof {
                    assert(false);
                }
                (SignupState::Finished, SignupAction::Answer { answer: Err(db_error()) })
            },
        },
        SignupState::Beginning { username, password_hash, raw_token } => match event {
            SignupEvent::Began { result, now } => match result {
                Err(_) => (SignupState::Finished, SignupAction::Answer { answer: Err(db_error()) }),
                Ok(()) => {
                    let row = user::ActiveModel::new(username.clone(), password_hash, now);
                    (SignupState::InsertingUser { username, raw_token }, SignupAction::InsertUser { row })
                },
            },
            _ => {
                proof {
                    assert(false);
                }
                (SignupState::Finished, SignupAction::Answer { answer: Err(db_error()) })
            },
        },
        SignupState::InsertingUser { username, raw_token } => match event {
            SignupEvent::UserInserted { result, now } => match result {
                Err(_) => (SignupState::Finished, SignupAction::Answer { answer: Err(db_error()) }),
                Ok(u) => {
                    let row = first_token_row(u.id, raw_token.as_str(), now);
                    (
                        SignupState::InsertingToken { user: u, username, raw_token },
                        SignupAction::InsertToken { row },
                    )
                },
            },
            _ => {
                proof {
                    assert(false);
                }
                (SignupState::Finished, SignupAction::Answer { answer: Err(db_error()) })
            },
        },
        SignupState::InsertingToken { user, username, raw_token } => match event {
            SignupEvent::TokenInserted { result } => match result {
                Err(_) => (SignupState::Finished, SignupAction::Answer { answer: Err(db_error()) }),
                Ok(()) => (SignupState::Committing { user, username, raw_token }, SignupAction::Commit),
            },
            _ => {
                proof {
                    assert(false);
                }
                (SignupState::Finished, SignupAction::Answer { answer: Err(db_error()) })
            },
        },
        SignupState::Committing { user, username, raw_token } => match event {
            SignupEvent::Committed { result } => match result {
                Err(_) => (SignupState::Finished, SignupAction::Answer { answer: Err(db_error()) }),
                Ok(()) => {
                    let answer = created_user_response(Ok(user), username, raw_token.as_str());
                    (SignupState::Finished, SignupAction::Answer { answer })
                },
            },
            _ => {
                proof {
                    assert(false);
                }
                (SignupState::Finished, SignupAction::Answer { answer: Err(db_error()) })
            },
        },
        SignupState::Finished => {
            proof {
                assert(false);
            }
            (SignupState::Finished, SignupAction::Answer { answer: Err(db_error()) })
        },
    }
}

/// The token text a successful account creation hands out.
pub open spec fn handed_out_token(r: (SignupState, SignupAction)) -> Seq<char> {
    r.1->Answer_answer->Ok_0.1.access_token@
}

/// A new account can authenticate with the token its creation hands out:
/// when an account creation, from inserting the account on, ends in success,
/// the header `Authorization: Bearer <token handed out>` presents a token
/// whose digest is the one stored in the account's first token row. The
/// random token drawn for the account must be made of visible ASCII.
pub proof fn lemma_signup_token_authenticates(
    s1: SignupState,
    e1: SignupEvent,
    r1: (SignupState, SignupAction),
    e2: SignupEvent,
    r2: (SignupState, SignupAction),
    e3: SignupEvent,
    r3: (SignupState, SignupAction),
)
    requires
        s1 is InsertingUser,
        forall|i: int| 0 <= i < s1->InsertingUser_raw_token@.len()
            ==> is_token_char(#[trigger] s1->InsertingUser_raw_token@[i]),
        signup_event_fits(s1, e1),
        signup_transition(s1, e1, r1),
        signup_event_fits(r1.0, e2),
        signup_transition(r1.0, e2, r2),
        signup_event_fits(r2.0, e3),
        signup_transition(r2.0, e3, r3),
        r3.1 is Answer,
        r3.1->Answer_answer is Ok,
    ensures
        r1.1 is InsertToken,
        header_token(Some(ascii_bytes(bearer_prefix() + handed_out_token(r3)))) is Some,
        token_digest(header_token(Some(ascii_bytes(bearer_prefix() + handed_out_token(r3))))->0)
            == r1.1->InsertToken_row.token_hash@,
{
    lemma_issued_token_is_presented(s1->InsertingUser_raw_token@);
}

/// Whether no name occurs twice.
pub open spec fn names_distinct(names: Seq<Seq<char>>) -> bool {
    forall|i: int, j: int| 0 <= i < j < names.len() ==> names[i] != names[j]
}

/// An account creation that gets as far as inserting the account inserts
/// the requested name, not yet enabled, with the `User` role, and a password
/// hash that is a PHC string against which the requested password passes
/// [`check_password`](crate::tokens::check_password).
pub proof fn lemma_signup_stores_verifying_hash(
    username: Seq<char>,
    password: Seq<char>,
    r0: (SignupState, SignupAction),
    e1: SignupEvent,
    r1: (SignupState, SignupAction),
    e2: SignupEvent,
    r2: (SignupState, SignupAction),
)
    requires
        signup_started(username, password, r0),
        signup_event_fits(r0.0, e1),
        signup_transition(r0.0, e1, r1),
        signup_event_fits(r1.0, e2),
        signup_transition(r1.0, e2, r2),
        r2.1 is InsertUser,
    ensures
        r2.1->InsertUser_row.username@ == username,
        r2.1->InsertUser_row.role == user::Role::User,
        !r2.1->InsertUser_row.enabled,
        phc_parses(r2.1->InsertUser_row.password_hash@),
        argon2_verdict(encode_utf8(password), r2.1->InsertUser_row.password_hash@) == Some(true),
        password_verdict(
            phc_parses(r2.1->InsertUser_row.password_hash@),
            argon2_verdict(encode_utf8(password), r2.1->InsertUser_row.password_hash@),
        ) is Ok,
{
}

/// Names stay unique: when the lookup of the requested name reflects the
/// stored names (it finds a user exactly when the name is among them), a
/// taken name is refused with `400 UsernameTaken` before anything is
/// stored, and an account creation that gets as far as inserting the account
/// inserts a name that keeps the stored names pairwise distinct.
pub proof fn lemma_signup_keeps_names_distinct(
    names: Seq<Seq<char>>,
    username: Seq<char>,
    password: Seq<char>,
    r0: (SignupState, SignupAction),
    e1: SignupEvent,
    r1: (SignupState, SignupAction),
)
    requires
        names_distinct(names),
        signup_started(username, password, r0),
        signup_event_fits(r0.0, e1),
        signup_transition(r0.0, e1, r1),
        e1->NameFound_found is Ok,
        (e1->NameFound_found->Ok_0 is Some) <==> names.contains(username),
    ensures
        names.contains(username) ==> signup_refused(
            r1,
            ApiError(STATUS_BAD_REQUEST, InternalErrorCode::UsernameTaken),
        ),
        r1.0 is Beginning ==> r1.0->Beginning_username@ == username
            && names_distinct(names.push(username)),
{
    if r1.0 is Beginning {
        assert(!names.contains(username));
        assert forall|i: int, j: int| 0 <= i < j < names.push(username).len() implies names.push(
            username,
        )[i] != names.push(username)[j] by {
            if j == names.len() {
                assert(names.push(username)[i] == names[i]);
            }
        }
    }
}

} // verus!
