use sync_server::api_types::{CreateFileReq, CreateUserRes, UpdateContents, UpdateFileReq};
use sync_server::auth::{auth_start, hash_token, AuthAction};
use sync_server::entity::{access_token, tracked_file, user};
use sync_server::error::{ApiError, DbError, InternalErrorCode};
use sync_server::files::{
    delete_start, delete_step, storage_key, update_start, update_step, upload_start,
    upload_start_new, upload_step,
    DeleteAction, DeleteEvent, DeleteState, StorageError, UpdateAction, UpdateEvent, UpdateState,
    UploadAction, UploadEvent, UploadState,
};
use sync_server::model::{FileId, Timestamp, NANOS_PER_DAY};
use sync_server::tokens::{check_password, revoke_start, revoke_step, RevokeAction, RevokeEvent, RevokeState};
use sync_server::users::{signup_start, signup_step, SignupAction, SignupEvent, SignupState};

const ID: u128 = 0x67e55044_10b1_426f_9247_bb680e5fe0c8;
const KEY: &str = "alice/67e55044-10b1-426f-9247-bb680e5fe0c8";

fn ts(nanos: i128) -> Timestamp {
    Timestamp { nanos }
}

fn file(hash: i64, deleted: Option<i128>) -> tracked_file::Model {
    tracked_file::Model {
        id: FileId(ID),
        hash,
        name: "notes.txt".to_string(),
        last_updated_from: "desk".to_string(),
        updated_at: ts(1),
        deleted_at: deleted.map(ts),
        user_id: 4,
    }
}

fn upload_req(len: usize) -> CreateFileReq {
    CreateFileReq {
        name: "a.txt".to_string(),
        hash: u64::MAX,
        file_bytes: vec![7; len],
        machine_name: "laptop".to_string(),
    }
}

fn upload_answer(action: UploadAction) -> Result<FileId, ApiError> {
    match action {
        UploadAction::Answer { answer } => answer.map(|(s, res)| {
            assert_eq!(s, 201);
            res.id
        }),
        _ => panic!("expected an answer"),
    }
}

#[test]
fn upload_stores_then_records() {
    let (state, action) = upload_start("alice", 4, FileId(ID), upload_req(3), 3);
    match action {
        UploadAction::Store { key, bytes } => {
            assert_eq!(key, KEY);
            assert_eq!(bytes, vec![7, 7, 7]);
        }
        _ => panic!("expected the contents to be stored"),
    }
    let (state, action) = upload_step(state, UploadEvent::Stored { result: Ok(()), now: ts(9) });
    match action {
        UploadAction::Insert { row } => {
            assert_eq!(row.id, FileId(ID));
            assert_eq!(row.hash, -1);
            assert_eq!(row.name, "a.txt");
            assert_eq!(row.last_updated_from, "laptop");
            assert_eq!(row.updated_at, ts(9));
            assert_eq!(row.deleted_at, None);
            assert_eq!(row.user_id, 4);
        }
        _ => panic!("expected the record to be inserted"),
    }
    let inserted = tracked_file::Model {
        id: FileId(ID),
        hash: -1,
        name: "a.txt".to_string(),
        last_updated_from: "laptop".to_string(),
        updated_at: ts(9),
        deleted_at: None,
        user_id: 4,
    };
    let (state, action) = upload_step(state, UploadEvent::Inserted { result: Ok(inserted) });
    assert!(matches!(state, UploadState::Finished));
    assert_eq!(upload_answer(action), Ok(FileId(ID)));
}

#[test]
fn upload_refusals_and_clean_up() {
    let (state, action) = upload_start("alice", 4, FileId(ID), upload_req(4), 3);
    assert!(matches!(state, UploadState::Finished));
    assert_eq!(upload_answer(action), Err(ApiError(413, InternalErrorCode::FileTooLarge)));

    let (state, _) = upload_start("alice", 4, FileId(ID), upload_req(1), 3);
    let (_, action) = upload_step(
        state,
        UploadEvent::Stored { result: Err(StorageError::Internal("disk".to_string())), now: ts(0) },
    );
    assert_eq!(upload_answer(action), Err(ApiError(500, InternalErrorCode::StorageBackendError)));

    let (state, _) = upload_start("alice", 4, FileId(ID), upload_req(1), 3);
    let (state, _) = upload_step(state, UploadEvent::Stored { result: Ok(()), now: ts(0) });
    let (state, action) = upload_step(state, UploadEvent::Inserted { result: Err(DbError) });
    assert!(matches!(state, UploadState::CleaningUp));
    match action {
        UploadAction::Delete { key } => assert_eq!(key, KEY),
        _ => panic!("expected the stored contents to be deleted"),
    }
    let (state, action) = upload_step(state, UploadEvent::CleanedUp);
    assert!(matches!(state, UploadState::Finished));
    assert_eq!(upload_answer(action), Err(ApiError(500, InternalErrorCode::InternalDBError)));
}

fn update_req(contents: Option<(usize, u64)>) -> UpdateFileReq {
    UpdateFileReq {
        name: Some("renamed.txt".to_string()),
        machine_name: "phone".to_string(),
        update_contents: contents.map(|(len, expected_hash)| UpdateContents {
            file_bytes: vec![1; len],
            expected_hash,
            hash: 77,
        }),
    }
}

fn update_error(action: UpdateAction) -> ApiError {
    match action {
        UpdateAction::Answer { answer: Err(e) } => e,
        _ => panic!("expected an error answer"),
    }
}

#[test]
fn update_with_contents_runs_in_a_transaction() {
    let (state, action) =
        update_start(Ok(Some(file(5, None))), "alice", update_req(Some((2, 5))), 10);
    assert!(matches!(action, UpdateAction::Begin));
    let (state, action) = update_step(state, UpdateEvent::Began { result: Ok(()), now: ts(20) });
    match action {
        UpdateAction::Store { key, bytes } => {
            assert_eq!(key, KEY);
            assert_eq!(bytes, vec![1, 1]);
        }
        _ => panic!("expected the contents to be stored"),
    }
    let (state, action) = update_step(state, UpdateEvent::Stored { result: Ok(()) });
    let expected = tracked_file::Model {
        hash: 77,
        name: "renamed.txt".to_string(),
        last_updated_from: "phone".to_string(),
        updated_at: ts(20),
        ..file(5, None)
    };
    match action {
        UpdateAction::Save { row } => assert_eq!(row, expected),
        _ => panic!("expected the record to be saved"),
    }
    let (state, action) = update_step(state, UpdateEvent::Saved { result: Ok(expected.clone()) });
    assert!(matches!(action, UpdateAction::Commit));
    let (state, action) = update_step(state, UpdateEvent::Committed { result: Ok(()) });
    assert!(matches!(state, UpdateState::Finished));
    match action {
        UpdateAction::Answer { answer: Ok((s, res)) } => {
            assert_eq!(s, 201);
            assert_eq!(res.name, "renamed.txt");
            assert_eq!(res.hash, 77);
            assert_eq!(res.machine_name, "phone");
            assert_eq!(res.updated_at, ts(20));
        }
        _ => panic!("expected success"),
    }
}

#[test]
fn update_without_contents_saves_directly() {
    let (state, _) = update_start(Ok(Some(file(5, None))), "alice", update_req(None), 10);
    let (_, action) = update_step(state, UpdateEvent::Began { result: Ok(()), now: ts(3) });
    match action {
        UpdateAction::Save { row } => {
            assert_eq!(row.hash, 5);
            assert_eq!(row.name, "renamed.txt");
            assert_eq!(row.updated_at, ts(3));
        }
        _ => panic!("expected the record to be saved"),
    }
}

#[test]
fn update_refusals() {
    let (state, action) = update_start(Ok(None), "alice", update_req(None), 10);
    assert!(matches!(state, UpdateState::Finished));
    assert_eq!(update_error(action), ApiError(404, InternalErrorCode::FileNotFound));
    let (_, action) = update_start(Ok(Some(file(5, Some(2)))), "alice", update_req(None), 10);
    assert_eq!(update_error(action), ApiError(404, InternalErrorCode::FileDeleted));
    let (_, action) = update_start(Err(DbError), "alice", update_req(None), 10);
    assert_eq!(update_error(action), ApiError(500, InternalErrorCode::InternalDBError));

    let (state, _) = update_start(Ok(Some(file(5, None))), "alice", update_req(Some((2, 6))), 10);
    let (state, action) = update_step(state, UpdateEvent::Began { result: Ok(()), now: ts(3) });
    assert!(matches!(state, UpdateState::Finished));
    assert_eq!(update_error(action), ApiError(409, InternalErrorCode::MismatchedFileHash));

    let (state, _) = update_start(Ok(Some(file(5, None))), "alice", update_req(Some((11, 5))), 10);
    let (_, action) = update_step(state, UpdateEvent::Began { result: Ok(()), now: ts(3) });
    assert_eq!(update_error(action), ApiError(413, InternalErrorCode::FileTooLarge));

    let (state, _) = update_start(Ok(Some(file(5, None))), "alice", update_req(Some((2, 5))), 10);
    let (_, action) = update_step(state, UpdateEvent::Began { result: Err(DbError), now: ts(3) });
    assert_eq!(update_error(action), ApiError(500, InternalErrorCode::InternalDBError));

    let (state, _) = update_start(Ok(Some(file(5, None))), "alice", update_req(Some((2, 5))), 10);
    let (state, _) = update_step(state, UpdateEvent::Began { result: Ok(()), now: ts(3) });
    let (_, action) = update_step(state, UpdateEvent::Stored { result: Err(StorageError::NotFound) });
    assert_eq!(update_error(action), ApiError(500, InternalErrorCode::StorageBackendError));

    let (_, action) = update_step(UpdateState::Saving, UpdateEvent::Saved { result: Err(DbError) });
    assert_eq!(update_error(action), ApiError(500, InternalErrorCode::InternalDBError));
    let (_, action) = update_step(
        UpdateState::Committing { saved: file(5, None) },
        UpdateEvent::Committed { result: Err(DbError) },
    );
    assert_eq!(update_error(action), ApiError(500, InternalErrorCode::InternalDBError));
}

fn delete_answer(action: DeleteAction) -> Result<(u16, ()), ApiError> {
    match action {
        DeleteAction::Answer { answer } => answer,
        _ => panic!("expected an answer"),
    }
}

#[test]
fn deletion_removes_contents_then_marks_the_record() {
    let (state, action) = delete_start(Ok(Some(file(5, None))), "alice");
    match action {
        DeleteAction::Remove { key } => assert_eq!(key, KEY),
        _ => panic!("expected the contents to be removed"),
    }
    let (state, action) = delete_step(state, DeleteEvent::Removed { result: Ok(()), now: ts(8) });
    match action {
        DeleteAction::Save { row } => {
            assert_eq!(row, tracked_file::Model { deleted_at: Some(ts(8)), ..file(5, None) })
        }
        _ => panic!("expected the record to be saved"),
    }
    let (state, action) = delete_step(state, DeleteEvent::Saved { saved: Ok(()) });
    assert!(matches!(state, DeleteState::Finished));
    assert_eq!(delete_answer(action), Ok((204, ())));

    let (_, action) = delete_start(Ok(Some(file(5, Some(1)))), "alice");
    assert_eq!(delete_answer(action), Err(ApiError(404, InternalErrorCode::FileDeleted)));
    let (state, _) = delete_start(Ok(Some(file(5, None))), "alice");
    let (_, action) = delete_step(
        state,
        DeleteEvent::Removed { result: Err(StorageError::Internal("x".to_string())), now: ts(8) },
    );
    assert_eq!(
        delete_answer(action),
        Err(ApiError(500, InternalErrorCode::StorageBackendError))
    );
    let (_, action) = delete_step(DeleteState::Marking, DeleteEvent::Saved { saved: Err(DbError) });
    assert_eq!(delete_answer(action), Err(ApiError(500, InternalErrorCode::InternalDBError)));
}

fn tok(id: i64, revoked: Option<i128>) -> access_token::Model {
    access_token::Model {
        id,
        token_hash: vec![id as u8],
        user_id: 1,
        name: format!("t{}", id),
        created_at: ts(1),
        expires_at: ts(100),
        revoked_at: revoked.map(ts),
        last_used_at: None,
    }
}

fn revoke_answer(action: RevokeAction) -> Result<(u16, ()), ApiError> {
    match action {
        RevokeAction::Answer { answer } => answer,
        _ => panic!("expected an answer"),
    }
}

#[test]
fn revocation_flow() {
    let (state, action) = revoke_start(Ok(Some(tok(2, None))), 1);
    assert!(matches!(action, RevokeAction::ListTokens { user_id: 1 }));
    let listed = RevokeEvent::TokensListed { tokens: Ok(vec![tok(1, None), tok(2, None)]), now: ts(50) };
    let (state, action) = revoke_step(state, listed);
    match action {
        RevokeAction::Save { token } => {
            assert_eq!(token, access_token::Model { revoked_at: Some(ts(50)), ..tok(2, None) })
        }
        _ => panic!("expected the revoked token to be saved"),
    }
    let (state, action) = revoke_step(state, RevokeEvent::Saved { saved: Ok(()) });
    assert!(matches!(state, RevokeState::Finished));
    assert_eq!(revoke_answer(action), Ok((204, ())));
}

#[test]
fn revocation_refusals() {
    let (_, action) = revoke_start(Ok(None), 1);
    assert_eq!(revoke_answer(action), Err(ApiError(404, InternalErrorCode::TokenNotFound)));
    let (_, action) = revoke_start(Ok(Some(tok(2, Some(3)))), 1);
    assert_eq!(revoke_answer(action), Err(ApiError(400, InternalErrorCode::TokenAlreadyRevoked)));
    let (state, _) = revoke_start(Ok(Some(tok(2, None))), 1);
    let listed = RevokeEvent::TokensListed { tokens: Ok(vec![tok(1, Some(4)), tok(2, None)]), now: ts(50) };
    let (_, action) = revoke_step(state, listed);
    assert_eq!(revoke_answer(action), Err(ApiError(400, InternalErrorCode::CannotRevokeAllTokens)));
    let (state, _) = revoke_start(Ok(Some(tok(2, None))), 1);
    let (_, action) = revoke_step(state, RevokeEvent::TokensListed { tokens: Err(DbError), now: ts(0) });
    assert_eq!(revoke_answer(action), Err(ApiError(500, InternalErrorCode::InternalDBError)));
    let (_, action) = revoke_step(RevokeState::Saving, RevokeEvent::Saved { saved: Err(DbError) });
    assert_eq!(revoke_answer(action), Err(ApiError(500, InternalErrorCode::InternalDBError)));
}

fn signup_error(action: SignupAction) -> ApiError {
    match action {
        SignupAction::Answer { answer: Err(e) } => e,
        _ => panic!("expected an error answer"),
    }
}

#[test]
fn signup_creates_account_and_first_token() {
    let (state, action) = signup_start("carol".to_string(), "hunter2".to_string());
    match action {
        SignupAction::FindName { username } => assert_eq!(username, "carol"),
        _ => panic!("expected a name lookup"),
    }
    let raw = "0123456789abcdef".to_string();
    let (state, action) =
        signup_step(state, SignupEvent::NameFound { found: Ok(None), raw_token: raw.clone() });
    assert!(matches!(action, SignupAction::Begin));
    let (state, action) = signup_step(state, SignupEvent::Began { result: Ok(()), now: ts(7) });
    let password_hash = match action {
        SignupAction::InsertUser { row } => {
            assert_eq!(row.username, "carol");
            assert_eq!(row.role, user::Role::User);
            assert!(!row.enabled);
            assert_eq!(row.created_at, ts(7));
            assert!(row.password_hash.starts_with("$argon2"));
            assert_eq!(check_password("hunter2", &row.password_hash), Ok(()));
            assert_eq!(
                check_password("hunter3", &row.password_hash),
                Err(ApiError(400, InternalErrorCode::InvalidUsernameOrPassword))
            );
            row.password_hash
        }
        _ => panic!("expected the account to be inserted"),
    };
    let account = user::Model {
        id: 31,
        role: user::Role::User,
        username: "carol".to_string(),
        password_hash,
        enabled: false,
        created_at: ts(7),
    };
    let (state, action) =
        signup_step(state, SignupEvent::UserInserted { result: Ok(account), now: ts(8) });
    match action {
        SignupAction::InsertToken { row } => {
            assert_eq!(row.token_hash, hash_token(&raw));
            assert_eq!(row.user_id, 31);
            assert_eq!(row.name, "Default Access Token");
            assert_eq!(row.created_at, ts(8));
            assert_eq!(row.expires_at, ts(8 + 365 * NANOS_PER_DAY));
        }
        _ => panic!("expected the token to be inserted"),
    }
    let (state, action) = signup_step(state, SignupEvent::TokenInserted { result: Ok(()) });
    assert!(matches!(action, SignupAction::Commit));
    let (state, action) = signup_step(state, SignupEvent::Committed { result: Ok(()) });
    assert!(matches!(state, SignupState::Finished));
    let res: CreateUserRes = match action {
        SignupAction::Answer { answer: Ok((201, res)) } => res,
        _ => panic!("expected success"),
    };
    assert_eq!(res.id, 31);
    assert_eq!(res.username, "carol");
    assert_eq!(res.access_token, "cfs_0123456789abcdef");

    let header = format!("Bearer {}", res.access_token);
    match auth_start(Some(header.as_bytes())).1 {
        AuthAction::FindToken { token_hash } => assert_eq!(token_hash, hash_token(&raw)),
        _ => panic!("expected the handed-out token to be looked up"),
    }
}

#[test]
fn signup_refusals() {
    let (state, action) = signup_start("bad name".to_string(), "pw".to_string());
    assert!(matches!(state, SignupState::Finished));
    assert_eq!(
        signup_error(action),
        ApiError(400, InternalErrorCode::UsernameContainsInvalidChars)
    );
    let (state, _) = signup_start("carol".to_string(), "pw".to_string());
    let taken = user::Model {
        id: 1,
        role: user::Role::Admin,
        username: "carol".to_string(),
        password_hash: String::new(),
        enabled: true,
        created_at: ts(0),
    };
    let (_, action) = signup_step(
        state,
        SignupEvent::NameFound { found: Ok(Some(taken)), raw_token: "t".to_string() },
    );
    assert_eq!(signup_error(action), ApiError(400, InternalErrorCode::UsernameTaken));
    let (state, _) = signup_start("carol".to_string(), "pw".to_string());
    let (_, action) =
        signup_step(state, SignupEvent::NameFound { found: Err(DbError), raw_token: "t".to_string() });
    assert_eq!(signup_error(action), ApiError(500, InternalErrorCode::InternalDBError));
    let (state, _) = signup_start("carol".to_string(), "pw".to_string());
    let (state, _) =
        signup_step(state, SignupEvent::NameFound { found: Ok(None), raw_token: "t".to_string() });
    let (_, action) = signup_step(state, SignupEvent::Began { result: Err(DbError), now: ts(0) });
    assert_eq!(signup_error(action), ApiError(500, InternalErrorCode::InternalDBError));
    let (_, action) = signup_step(
        SignupState::InsertingUser { username: "carol".to_string(), raw_token: "t".to_string() },
        SignupEvent::UserInserted { result: Err(DbError), now: ts(0) },
    );
    assert_eq!(signup_error(action), ApiError(500, InternalErrorCode::InternalDBError));
}

#[test]
fn new_upload_draws_a_fresh_id() {
    let (id1, (_, a1)) = upload_start_new("alice", 4, upload_req(2), 3);
    let (id2, _) = upload_start_new("alice", 4, upload_req(2), 3);
    assert_ne!(id1, id2);
    match a1 {
        UploadAction::Store { key, bytes } => {
            assert_eq!(key, storage_key("alice", id1));
            assert_eq!(bytes, vec![7, 7]);
        }
        _ => panic!("expected the contents to be stored"),
    }
    let (_, (state, action)) = upload_start_new("alice", 4, upload_req(5), 3);
    assert!(matches!(state, UploadState::Finished));
    assert_eq!(upload_answer(action), Err(ApiError(413, InternalErrorCode::FileTooLarge)));
}
