use sync_server::auth::{
    auth_admit, auth_check_owner, auth_check_token, auth_lookup_key, auth_start, auth_step,
    check_enabled, AuthAction, AuthEvent, AuthState,
    check_user_role_atleast, get_token, hash_token, issue_token_text, mark_token_used,
    ACCESS_TOKEN_PREFIX, AUTH_HEADER,
};
use sync_server::entity::{access_token, user};
use sync_server::error::{ApiError, DbError, InternalErrorCode};
use sync_server::model::Timestamp;

fn ts(nanos: i128) -> Timestamp {
    Timestamp { nanos }
}

fn token_row(expires: i128, revoked: Option<i128>) -> access_token::Model {
    access_token::Model {
        id: 7,
        token_hash: vec![1, 2, 3],
        user_id: 3,
        name: "laptop".to_string(),
        created_at: ts(0),
        expires_at: ts(expires),
        revoked_at: revoked.map(ts),
        last_used_at: None,
    }
}

fn user_row(role: user::Role, enabled: bool) -> user::Model {
    user::Model {
        id: 3,
        role,
        username: "alice".to_string(),
        password_hash: String::new(),
        enabled,
        created_at: ts(0),
    }
}

#[test]
fn constants() {
    assert_eq!(AUTH_HEADER, "Authorization");
    assert_eq!(ACCESS_TOKEN_PREFIX, "cfs_");
}

#[test]
fn get_token_reads_bearer_header() {
    assert_eq!(get_token(Some(b"Bearer cfs_abc123")), Some("abc123".to_string()));
    assert_eq!(get_token(Some(b"Bearer cfs_")), Some(String::new()));
    assert_eq!(get_token(Some(b"Bearer cfs_a\tb")), Some("a\tb".to_string()));
    assert_eq!(get_token(Some(b"Bearer abc123")), None);
    assert_eq!(get_token(Some(b"bearer cfs_abc123")), None);
    assert_eq!(get_token(Some(b"cfs_abc123")), None);
    assert_eq!(get_token(Some(b"Bearer cfs_ab\x7fc")), None);
    assert_eq!(get_token(Some(b"Bearer cfs_\xc3\xa9")), None);
    assert_eq!(get_token(Some(b"")), None);
    assert_eq!(get_token(None), None);
}

#[test]
fn issued_token_is_read_back_from_header() {
    let raw = "0123456789abcdef";
    let handed_out = issue_token_text(raw);
    assert_eq!(handed_out, "cfs_0123456789abcdef");
    let header = format!("Bearer {}", handed_out);
    assert_eq!(get_token(Some(header.as_bytes())), Some(raw.to_string()));
    assert_eq!(auth_lookup_key(Some(header.as_bytes())), Ok(hash_token(raw)));
}

#[test]
fn token_digest_is_sha256() {
    let d = hash_token("abc");
    assert_eq!(d.len(), 32);
    let hex: String = d.iter().map(|b| format!("{:02x}", b)).collect();
    assert_eq!(hex, "ba7816bf8f01cfea414140de5dae2223b00361a396177a9cb410ff61f20015ad");
    assert_ne!(hash_token("abd"), d);
}

#[test]
fn lookup_key_without_token_is_unauthorized() {
    assert_eq!(
        auth_lookup_key(None),
        Err(ApiError(401, InternalErrorCode::Unauthorized))
    );
    assert_eq!(
        auth_lookup_key(Some(b"Basic xyz")),
        Err(ApiError(401, InternalErrorCode::Unauthorized))
    );
}

#[test]
fn token_checks() {
    let now = ts(1000);
    assert_eq!(
        auth_check_token(Err(DbError), now).err(),
        Some(ApiError(500, InternalErrorCode::InternalDBError))
    );
    assert_eq!(
        auth_check_token(Ok(None), now).err(),
        Some(ApiError(401, InternalErrorCode::Unauthorized))
    );
    assert_eq!(
        auth_check_token(Ok(Some(token_row(1000, None))), now).err(),
        Some(ApiError(401, InternalErrorCode::TokenExpired))
    );
    assert_eq!(
        auth_check_token(Ok(Some(token_row(999, None))), now).err(),
        Some(ApiError(401, InternalErrorCode::TokenExpired))
    );
    assert_eq!(
        auth_check_token(Ok(Some(token_row(2000, Some(1000)))), now).err(),
        Some(ApiError(401, InternalErrorCode::TokenRevoked))
    );
    // a revocation scheduled for later does not stop the token yet
    let ok = auth_check_token(Ok(Some(token_row(2000, Some(1001)))), now);
    assert_eq!(ok.map(|t| t.id).ok(), Some(7));
    let ok = auth_check_token(Ok(Some(token_row(1001, None))), now);
    assert_eq!(ok.map(|t| t.id).ok(), Some(7));
}

#[test]
fn owner_and_admission() {
    assert_eq!(
        auth_check_owner(Err(DbError)).err(),
        Some(ApiError(500, InternalErrorCode::InternalDBError))
    );
    assert_eq!(
        auth_check_owner(Ok(None)).err(),
        Some(ApiError(500, InternalErrorCode::InternalError))
    );
    let u = auth_check_owner(Ok(Some(user_row(user::Role::User, true)))).ok().unwrap();
    assert_eq!(u.username, "alice");
    let used = mark_token_used(token_row(5, None), ts(42));
    assert_eq!(used.last_used_at, Some(ts(42)));
    assert_eq!(used.expires_at, ts(5));
    assert_eq!(used.name, "laptop");
    assert_eq!(
        auth_admit(Err(DbError), user_row(user::Role::User, true)).err(),
        Some(ApiError(500, InternalErrorCode::InternalDBError))
    );
    assert_eq!(auth_admit(Ok(()), user_row(user::Role::User, true)).ok().unwrap().id, 3);
}

#[test]
fn enabled_and_role_checks() {
    assert_eq!(check_enabled(&user_row(user::Role::Admin, true)), Ok(()));
    assert_eq!(
        check_enabled(&user_row(user::Role::Admin, false)),
        Err(ApiError(401, InternalErrorCode::AccountNotEnabled))
    );
    assert_eq!(check_user_role_atleast(&user_row(user::Role::Admin, true), user::Role::Admin), Ok(()));
    assert_eq!(check_user_role_atleast(&user_row(user::Role::Admin, true), user::Role::User), Ok(()));
    assert_eq!(check_user_role_atleast(&user_row(user::Role::User, true), user::Role::User), Ok(()));
    assert_eq!(
        check_user_role_atleast(&user_row(user::Role::User, true), user::Role::Admin),
        Err(ApiError(403, InternalErrorCode::InsufficientRole))
    );
    assert_eq!(
        check_user_role_atleast(&user_row(user::Role::Banned, true), user::Role::User),
        Err(ApiError(403, InternalErrorCode::InsufficientRole))
    );
    assert_eq!(check_user_role_atleast(&user_row(user::Role::Banned, true), user::Role::Banned), Ok(()));
}

#[test]
fn authentication_runs_to_admission() {
    let (state, action) = auth_start(Some(b"Bearer cfs_abc"));
    assert!(matches!(state, AuthState::FindingToken));
    match action {
        AuthAction::FindToken { token_hash } => assert_eq!(token_hash, hash_token("abc")),
        _ => panic!("expected a token lookup"),
    }
    let (state, action) = auth_step(
        state,
        AuthEvent::TokenFound { found: Ok(Some(token_row(100, Some(60)))), now: ts(50) },
    );
    assert!(matches!(action, AuthAction::FindOwner { user_id: 3 }));
    let (state, action) = auth_step(
        state,
        AuthEvent::OwnerFound { found: Ok(Some(user_row(user::Role::User, true))), now: ts(55) },
    );
    match action {
        AuthAction::SaveUse { token } => {
            assert_eq!(token.last_used_at, Some(ts(55)));
            assert_eq!(token.id, 7);
            assert_eq!(token.expires_at, ts(100));
        }
        _ => panic!("expected the token's use to be saved"),
    }
    let (state, action) = auth_step(state, AuthEvent::UseSaved { saved: Ok(()) });
    assert!(matches!(state, AuthState::Finished));
    match action {
        AuthAction::Admit { user } => assert_eq!(user, user_row(user::Role::User, true)),
        _ => panic!("expected admission"),
    }
}

fn refusal(action: AuthAction) -> ApiError {
    match action {
        AuthAction::Refuse { error } => error,
        _ => panic!("expected a refusal"),
    }
}

#[test]
fn authentication_refusals() {
    let (state, action) = auth_start(Some(b"Basic abc"));
    assert!(matches!(state, AuthState::Finished));
    assert_eq!(refusal(action), ApiError(401, InternalErrorCode::Unauthorized));

    let (_, action) =
        auth_step(AuthState::FindingToken, AuthEvent::TokenFound { found: Ok(None), now: ts(0) });
    assert_eq!(refusal(action), ApiError(401, InternalErrorCode::Unauthorized));
    let (_, action) =
        auth_step(AuthState::FindingToken, AuthEvent::TokenFound { found: Err(DbError), now: ts(0) });
    assert_eq!(refusal(action), ApiError(500, InternalErrorCode::InternalDBError));
    let (_, action) = auth_step(
        AuthState::FindingToken,
        AuthEvent::TokenFound { found: Ok(Some(token_row(100, None))), now: ts(100) },
    );
    assert_eq!(refusal(action), ApiError(401, InternalErrorCode::TokenExpired));
    let (_, action) = auth_step(
        AuthState::FindingToken,
        AuthEvent::TokenFound { found: Ok(Some(token_row(100, Some(40)))), now: ts(50) },
    );
    assert_eq!(refusal(action), ApiError(401, InternalErrorCode::TokenRevoked));

    let owner_state = AuthState::FindingOwner { token: token_row(100, None) };
    let (_, action) =
        auth_step(owner_state, AuthEvent::OwnerFound { found: Ok(None), now: ts(0) });
    assert_eq!(refusal(action), ApiError(500, InternalErrorCode::InternalError));

    let saving = AuthState::SavingUse { user: user_row(user::Role::Admin, true) };
    let (state, action) = auth_step(saving, AuthEvent::UseSaved { saved: Err(DbError) });
    assert!(matches!(state, AuthState::Finished));
    assert_eq!(refusal(action), ApiError(500, InternalErrorCode::InternalDBError));
}
