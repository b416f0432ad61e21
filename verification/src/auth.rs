//! Access tokens: how a request presents one, how it is checked, and the
//! per-user checks that follow authentication.
//!
//! A request authenticates with the header `Authorization: Bearer cfs_<token>`.
//! Only the SHA-256 digest of `<token>` is stored; a token is accepted while it
//! has not expired and has not been revoked.

use vstd::prelude::*;
use vstd::string::StringExecFns;
use vstd::utf8::encode_utf8;
use crate::crypto::{sha256, sha256_digest};
use crate::entity::{access_token, user};
use crate::error::{
    db_error, err, ApiError, DbError, DbResult, InternalErrorCode, STATUS_FORBIDDEN,
    STATUS_INTERNAL_SERVER_ERROR, STATUS_UNAUTHORIZED,
};
use crate::model::Timestamp;
use crate::text::chars_of;

verus! {

/// The header that carries the access token.
pub const AUTH_HEADER: &'static str = "Authorization";

/// Every access token handed out starts with this.
pub const ACCESS_TOKEN_PREFIX: &'static str = "cfs_";

pub open spec fn bearer_prefix() -> Seq<char> {
    "Bearer "@
}

pub open spec fn token_prefix() -> Seq<char> {
    "cfs_"@
}

/// `HeaderValue::to_str` accepts exactly the visible ASCII bytes and tab.
pub open spec fn is_visible_ascii(b: u8) -> bool {
    (32 <= b && b < 127) || b == 9
}

/// Header bytes read as characters, one per byte.
pub open spec fn ascii_chars(bytes: Seq<u8>) -> Seq<char> {
    bytes.map_values(|b: u8| b as char)
}

/// `str::strip_prefix`.
pub open spec fn strip_prefix(s: Seq<char>, p: Seq<char>) -> Option<Seq<char>> {
    if p.len() <= s.len() && s.take(p.len() as int) == p {
        Some(s.skip(p.len() as int))
    } else {
        None
    }
}

/// The token an `Authorization` header value presents: the header must be
/// visible ASCII and read `Bearer cfs_<token>`.
pub open spec fn header_token(header: Option<Seq<u8>>) -> Option<Seq<char>> {
    match header {
        None => None,
        Some(bytes) => if forall|i: int| 0 <= i < bytes.len() ==> is_visible_ascii(#[trigger] bytes[i]) {
            match strip_prefix(ascii_chars(bytes), bearer_prefix()) {
                None => None,
                Some(rest) => strip_prefix(rest, token_prefix()),
            }
        } else {
            None
        },
    }
}

pub open spec fn header_view(header: Option<&[u8]>) -> Option<Seq<u8>> {
    match header {
        None => None,
        Some(b) => Some(b@),
    }
}

/// The digest under which a token is stored.
pub open spec fn token_digest(token: Seq<char>) -> Seq<u8> {
    sha256_digest(encode_utf8(token))
}

/// The text handed to the user for a freshly made token.
pub open spec fn issued_token_text(raw: Seq<char>) -> Seq<char> {
    token_prefix() + raw
}

fn starts_with_at(s: &Vec<char>, at: usize, p: &Vec<char>) -> (r: bool)
    requires
        at <= s.len(),
    ensures
        r == (at + p.len() <= s.len() && s@.subrange(at as int, at + p.len()) == p@),
{
    if p.len() > s.len() - at {
        return false;
    }
    let mut i: usize = 0;
    while i < p.len()
        invariant
            at + p.len() <= s.len(),
            i <= p.len(),
            forall|k: int| 0 <= k < i ==> s@[at + k] == p@[k],
        decreases p.len() - i,
    {
        if s[at + i] != p[i] {
            assert(s@.subrange(at as int, at + p.len())[i as int] != p@[i as int]);
            return false;
        }
        i = i + 1;
    }
    assert(s@.subrange(at as int, at + p.len()) == p@);
    true
}

/// The token that an `Authorization` header value presents, if it presents
/// one: the value must be visible ASCII and read `Bearer cfs_<token>`.
pub fn get_token(header: Option<&[u8]>) -> (r: Option<String>)
    ensures
        match r {
            Some(t) => header_token(header_view(header)) == Some(t@),
            None => header_token(header_view(header)) is None,
        },
{
    let bytes = match header {
        None => return None,
        Some(b) => b,
    };
    let mut chars: Vec<char> = Vec::new();
    let mut i: usize = 0;
    while i < bytes.len()
        invariant
            i <= bytes@.len(),
            header_view(header) == Some(bytes@),
            chars@ == ascii_chars(bytes@.take(i as int)),
            forall|k: int| 0 <= k < i ==> is_visible_ascii(#[trigger] bytes@[k]),
        decreases bytes.len() - i,
    {
        let b = bytes[i];
        if !((32 <= b && b < 127) || b == 9) {
            assert(!is_visible_ascii(bytes@[i as int]));
            return None;
        }
        chars.push(b as char);
        assert(ascii_chars(bytes@.take(i + 1)) == ascii_chars(bytes@.take(i as int)).push(
            b as char,
        ));
        i = i + 1;
    }
    assert(bytes@.take(bytes@.len() as int) == bytes@);
    let bearer = chars_of("Bearer ");
    let prefix = chars_of("cfs_");
    if !starts_with_at(&chars, 0, &bearer) {
        return None;
    }
    let ghost rest = chars@.skip(bearer@.len() as int);
    assert(chars@.take(bearer@.len() as int) == chars@.subrange(0, bearer@.len() as int));
    if !starts_with_at(&chars, bearer.len(), &prefix) {
        proof {
            if bearer@.len() + prefix@.len() <= chars@.len() {
                assert(rest.take(prefix@.len() as int) =~= chars@.subrange(
                bearer@.len() as int,
                    (bearer@.len() + prefix@.len()) as int,
                ));
            }
        }
        return None;
    }
    assert(rest.take(prefix@.len() as int) =~= chars@.subrange(
        bearer@.len() as int,
        (bearer@.len() + prefix@.len()) as int,
    ));
    assert(rest.skip(prefix@.len() as int) =~= chars@.subrange(
        (bearer@.len() + prefix@.len()) as int,
        chars@.len() as int,
    ));
    let mut token = String::new();
    crate::text::push_chars(&mut token, &chars, bearer.len() + prefix.len(), chars.len());
    Some(token)
}

/// The SHA-256 digest of a token's bytes, under which it is stored.
pub fn hash_token(token: &str) -> (r: Vec<u8>)
    ensures
        r@ == token_digest(token@),
{
    sha256(token.as_bytes())
}

/// The text handed out for a token: `cfs_` followed by the token.
pub fn issue_token_text(raw: &str) -> (r: String)
    ensures
        r@ == issued_token_text(raw@),
{
    let mut out = String::from_str("cfs_");
    out.append(raw);
    out
}

/// The digest to look a request's token up by, or `401 Unauthorized` when
/// the request presents no token.
pub fn auth_lookup_key(header: Option<&[u8]>) -> (r: Result<Vec<u8>, ApiError>)
    ensures
        match header_token(header_view(header)) {
            None => r == Err::<Vec<u8>, ApiError>(
                ApiError(STATUS_UNAUTHORIZED, InternalErrorCode::Unauthorized),
            ),
            Some(t) => r matches Ok(d) && d@ == token_digest(t),
        },
{
    match get_token(header) {
        Some(t) => Ok(hash_token(t.as_str())),
        None => Err(err(STATUS_UNAUTHORIZED, InternalErrorCode::Unauthorized)),
    }
}

/// Whether a stored token may be used at `now`: it must not have expired
/// (`expires_at` after `now`) and must not have been revoked at or before
/// `now`.
pub open spec fn token_verdict(token: access_token::Model, now: Timestamp) -> Result<(), ApiError> {
    if token.expires_at.nanos <= now.nanos {
        Err(ApiError(STATUS_UNAUTHORIZED, InternalErrorCode::TokenExpired))
    } else if token.revoked_at matches Some(t) && t.nanos <= now.nanos {
        Err(ApiError(STATUS_UNAUTHORIZED, InternalErrorCode::TokenRevoked))
    } else {
        Ok(())
    }
}

/// Checks the token found for a request's digest: a failed lookup is `500`,
/// no such token is `401 Unauthorized`, and an expired or revoked one is
/// refused with `401`.
pub fn auth_check_token(found: DbResult<Option<access_token::Model>>, now: Timestamp) -> (r: Result<
    access_token::Model,
    ApiError,
>)
    ensures
        match found {
            Err(_) => r == Err::<access_token::Model, ApiError>(
                ApiError(STATUS_INTERNAL_SERVER_ERROR, InternalErrorCode::InternalDBError),
            ),
            Ok(None) => r == Err::<access_token::Model, ApiError>(
                ApiError(STATUS_UNAUTHORIZED, InternalErrorCode::Unauthorized),
            ),
            Ok(Some(tok)) => match token_verdict(tok, now) {
                Ok(()) => r == Ok::<access_token::Model, ApiError>(tok),
                Err(e) => r == Err::<access_token::Model, ApiError>(e),
            },
        },
        found matches Ok(Some(tok)) && tok.expires_at.nanos <= now.nanos ==> r
            == Err::<access_token::Model, ApiError>(
            ApiError(STATUS_UNAUTHORIZED, InternalErrorCode::TokenExpired),
        ),
        found matches Ok(Some(tok)) && now.nanos < tok.expires_at.nanos && (tok.revoked_at matches Some(
            t,
        ) && t.nanos <= now.nanos) ==> r == Err::<access_token::Model, ApiError>(
            ApiError(STATUS_UNAUTHORIZED, InternalErrorCode::TokenRevoked),
        ),
        r matches Ok(tok) ==> found == Ok::<Option<access_token::Model>, DbError>(Some(tok))
            && now.nanos < tok.expires_at.nanos && !(tok.revoked_at matches Some(t) && t.nanos
            <= now.nanos),
{
    let tok = match found {
        Err(_) => return Err(db_error()),
        Ok(None) => return Err(err(STATUS_UNAUTHORIZED, InternalErrorCode::Unauthorized)),
        Ok(Some(tok)) => tok,
    };
    if tok.expires_at.at_or_before(&now) {
        return Err(err(STATUS_UNAUTHORIZED, InternalErrorCode::TokenExpired));
    }
    if let Some(t) = &tok.revoked_at {
        if t.at_or_before(&now) {
            return Err(err(STATUS_UNAUTHORIZED, InternalErrorCode::TokenRevoked));
        }
    }
    Ok(tok)
}

/// The owner of an accepted token: a failed lookup is `500` internal database
/// error, and a token without an owner is `500` internal error.
pub fn auth_check_owner(found: DbResult<Option<user::Model>>) -> (r: Result<user::Model, ApiError>)
    ensures
        match found {
            Err(_) => r == Err::<user::Model, ApiError>(
                ApiError(STATUS_INTERNAL_SERVER_ERROR, InternalErrorCode::InternalDBError),
            ),
            Ok(None) => r == Err::<user::Model, ApiError>(
                ApiError(STATUS_INTERNAL_SERVER_ERROR, InternalErrorCode::InternalError),
            ),
            Ok(Some(u)) => r == Ok::<user::Model, ApiError>(u),
        },
{
    match found {
        Err(_) => Err(db_error()),
        Ok(None) => Err(err(STATUS_INTERNAL_SERVER_ERROR, InternalErrorCode::InternalError)),
        Ok(Some(u)) => Ok(u),
    }
}

/// The token with its last use set to `now`; nothing else changes.
pub fn mark_token_used(token: access_token::Model, now: Timestamp) -> (r: access_token::Model)
    ensures
        r == (access_token::Model { last_used_at: Some(now), ..token }),
{
    access_token::Model { last_used_at: Some(now), ..token }
}

/// The request proceeds as `user` once the token's last use is saved; a
/// failed save is `500`.
pub fn auth_admit(saved: DbResult<()>, user: user::Model) -> (r: Result<user::Model, ApiError>)
    ensures
        match saved {
            Err(_) => r == Err::<user::Model, ApiError>(
                ApiError(STATUS_INTERNAL_SERVER_ERROR, InternalErrorCode::InternalDBError),
            ),
            Ok(()) => r == Ok::<user::Model, ApiError>(user),
        },
{
    match saved {
        Err(_) => Err(db_error()),
        Ok(()) => Ok(user),
    }
}

/// Where the authentication of one request stands.
pub enum AuthState {
    /// Waiting for the stored token with the presented digest.
    FindingToken,
    /// Waiting for the owner of an accepted token.
    FindingOwner { token: access_token::Model },
    /// Waiting for the token's last use to be saved.
    SavingUse { user: user::Model },
    /// The request was admitted or refused.
    Finished,
}

/// What the server learned since the last step.
pub enum AuthEvent {
    /// The result of looking the digest up, and the time then.
    TokenFound { found: DbResult<Option<access_token::Model>>, now: Timestamp },
    /// The result of looking the token's owner up, and the time then.
    OwnerFound { found: DbResult<Option<user::Model>>, now: Timestamp },
    /// The result of saving the token's last use.
    UseSaved { saved: DbResult<()> },
}

/// What the server must do next.
pub enum AuthAction {
    /// Look up the stored token with this digest.
    FindToken { token_hash: Vec<u8> },
    /// Look up the user with this id.
    FindOwner { user_id: i64 },
    /// Save the token (its last use changed).
    SaveUse { token: access_token::Model },
    /// Let the request through as this user.
    Admit { user: user::Model },
    /// Answer the request with this error.
    Refuse { error: ApiError },
}

/// Whether an event answers the action a state is waiting on.
pub open spec fn auth_event_fits(state: AuthState, event: AuthEvent) -> bool {
    match state {
        AuthState::FindingToken => event is TokenFound,
        AuthState::FindingOwner { .. } => event is OwnerFound,
        AuthState::SavingUse { .. } => event is UseSaved,
        AuthState::Finished => false,
    }
}

/// What [`auth_start`] gives for a header value: the lookup of the presented
/// token's digest, or a refusal with `401 Unauthorized` when none is presented.
pub open spec fn auth_started(header: Option<Seq<u8>>, r: (AuthState, AuthAction)) -> bool {
    match header_token(header) {
        None => {
            &&& r.0 is Finished
            &&& r.1 == AuthAction::Refuse {
                error: ApiError(STATUS_UNAUTHORIZED, InternalErrorCode::Unauthorized),
            }
        },
        Some(t) => {
            &&& r.0 is FindingToken
            &&& r.1 is FindToken
            &&& r.1->token_hash@ == token_digest(t)
        },
    }
}

/// Starts authenticating a request from its `Authorization` header value:
/// look the presented token up by its digest, or refuse with
/// `401 Unauthorized` when none is presented.
pub fn auth_start(header: Option<&[u8]>) -> (r: (AuthState, AuthAction))
    ensures
        auth_started(header_view(header), r),
{
    match auth_lookup_key(header) {
        Ok(token_hash) => (AuthState::FindingToken, AuthAction::FindToken { token_hash }),
        Err(error) => (AuthState::Finished, AuthAction::Refuse { error }),
    }
}

/// The refusal of a request with `error`.
pub open spec fn refused(r: (AuthState, AuthAction), error: ApiError) -> bool {
    &&& r.0 is Finished
    &&& r.1 == AuthAction::Refuse { error }
}

/// What one step of authentication gives for a state and the event that
/// answers it. A token found by its digest must be acceptable at that time
/// ([`token_verdict`]); then its owner is looked up and must exist, and the
/// token's last use is recorded as the time the owner was found; once that is
/// saved the owner is admitted. Every failure refuses the request with the
/// error the matching check gives.
pub open spec fn auth_transition(state: AuthState, event: AuthEvent, r: (AuthState, AuthAction)) -> bool {
    match state {
        AuthState::FindingToken => match event {
            AuthEvent::TokenFound { found, now } => match found {
                Err(_) => refused(r, ApiError(STATUS_INTERNAL_SERVER_ERROR, InternalErrorCode::InternalDBError)),
                Ok(None) => refused(r, ApiError(STATUS_UNAUTHORIZED, InternalErrorCode::Unauthorized)),
                Ok(Some(tok)) => match token_verdict(tok, now) {
                    Err(e) => refused(r, e),
                    Ok(()) => {
                        &&& r.0 == AuthState::FindingOwner { token: tok }
                        &&& r.1 == AuthAction::FindOwner { user_id: tok.user_id }
                    },
                },
            },
            _ => false,
        },
        AuthState::FindingOwner { token } => match event {
            AuthEvent::OwnerFound { found, now } => match found {
                Err(_) => refused(r, ApiError(STATUS_INTERNAL_SERVER_ERROR, InternalErrorCode::InternalDBError)),
                Ok(None) => refused(r, ApiError(STATUS_INTERNAL_SERVER_ERROR, InternalErrorCode::InternalError)),
                Ok(Some(u)) => {
                    &&& r.0 == AuthState::SavingUse { user: u }
                    &&& r.1 == AuthAction::SaveUse {
                        token: access_token::Model { last_used_at: Some(now), ..token },
                    }
                },
            },
            _ => false,
        },
        AuthState::SavingUse { user } => match event {
            AuthEvent::UseSaved { saved } => match saved {
                Err(_) => refused(r, ApiError(STATUS_INTERNAL_SERVER_ERROR, InternalErrorCode::InternalDBError)),
                Ok(()) => {
                    &&& r.0 is Finished
                    &&& r.1 == AuthAction::Admit { user }
                },
            },
            _ => false,
        },
        AuthState::Finished => false,
    }
}

/// One step of authentication: see [`auth_transition`].
pub fn auth_step(state: AuthState, event: AuthEvent) -> (r: (AuthState, AuthAction))
    requires
        auth_event_fits(state, event),
    ensures
        auth_transition(state, event, r),
        event matches AuthEvent::TokenFound { found: Ok(Some(tok)), now } && state is FindingToken
            && tok.expires_at.nanos <= now.nanos ==> r.0 is Finished && r.1 == (AuthAction::Refuse {
            error: ApiError(STATUS_UNAUTHORIZED, InternalErrorCode::TokenExpired),
        }),
        state is FindingToken && r.1 is FindOwner ==> (event matches AuthEvent::TokenFound {
            found: Ok(Some(tok)),
            now,
        } && now.nanos < tok.expires_at.nanos && !(tok.revoked_at matches Some(t) && t.nanos
            <= now.nanos)),
{
    match state {
        AuthState::FindingToken => match event {
            AuthEvent::TokenFound { found, now } => match auth_check_token(found, now) {
                Ok(token) => {
                    let user_id = token.user_id;
                    (AuthState::FindingOwner { token }, AuthAction::FindOwner { user_id })
                },
                Err(error) => (AuthState::Finished, AuthAction::Refuse { error }),
            },
            _ => {
                proof {
                    assert(false);
                }
                (AuthState::Finished, AuthAction::Refuse { error: db_error() })
            },
        },
        AuthState::FindingOwner { token } => match event {
            AuthEvent::OwnerFound { found, now } => match auth_check_owner(found) {
                Ok(user) => (
                    AuthState::SavingUse { user },
                    AuthAction::SaveUse { token: mark_token_used(token, now) },
                ),
                Err(error) => (AuthState::Finished, AuthAction::Refuse { error }),
            },
            _ => {
                proof {
                    assert(false);
                }
                (AuthState::Finished, AuthAction::Refuse { error: db_error() })
            },
        },
        AuthState::SavingUse { user } => match event {
            AuthEvent::UseSaved { saved } => match auth_admit(saved, user) {
                Ok(user) => (AuthState::Finished, AuthAction::Admit { user }),
                Err(error) => (AuthState::Finished, AuthAction::Refuse { error }),
            },
            _ => {
                proof {
                    assert(false);
                }
                (AuthState::Finished, AuthAction::Refuse { error: db_error() })
            },
        },
        AuthState::Finished => {
            proof {
                assert(false);
            }
            (AuthState::Finished, AuthAction::Refuse { error: db_error() })
        },
    }
}

/// The events and actions of an admission of `user`: the token found was
/// acceptable at the time it was found, its owner was looked up and found to
/// be `user`, the token was saved with its last use set to the time the owner
/// was found, and the save succeeded.
pub open spec fn admitted_by(
    e1: AuthEvent,
    r1: (AuthState, AuthAction),
    e2: AuthEvent,
    r2: (AuthState, AuthAction),
    e3: AuthEvent,
    user: user::Model,
) -> bool {
    match (e1, e2, e3) {
        (
            AuthEvent::TokenFound { found: Ok(Some(tok)), now: t1 },
            AuthEvent::OwnerFound { found: Ok(Some(owner)), now: t2 },
            AuthEvent::UseSaved { saved: Ok(()) },
        ) => {
            &&& token_verdict(tok, t1) is Ok
            &&& r1.1 == AuthAction::FindOwner { user_id: tok.user_id }
            &&& owner == user
            &&& r2.1 == AuthAction::SaveUse {
                token: access_token::Model { last_used_at: Some(t2), ..tok },
            }
        },
        _ => false,
    }
}

/// A request is admitted only as the owner of a token it presented that was
/// acceptable when found: if a run of [`auth_start`] and [`auth_step`] ends
/// in admitting `user`, the header presented a token, its digest was looked
/// up, the token stored under it passed [`token_verdict`] at the time it was
/// found, that token's owner was looked up and found to be `user`, and the
/// token's last use was saved.
pub proof fn lemma_admission_needs_valid_token(
    header: Option<Seq<u8>>,
    r0: (AuthState, AuthAction),
    e1: AuthEvent,
    r1: (AuthState, AuthAction),
    e2: AuthEvent,
    r2: (AuthState, AuthAction),
    e3: AuthEvent,
    r3: (AuthState, AuthAction),
    user: user::Model,
)
    requires
        auth_started(header, r0),
        auth_event_fits(r0.0, e1),
        auth_transition(r0.0, e1, r1),
        auth_event_fits(r1.0, e2),
        auth_transition(r1.0, e2, r2),
        auth_event_fits(r2.0, e3),
        auth_transition(r2.0, e3, r3),
        r3.1 == (AuthAction::Admit { user }),
    ensures
        header_token(header) is Some,
        r0.1 == (AuthAction::FindToken { token_hash: r0.1->token_hash }),
        r0.1->token_hash@ == token_digest(header_token(header)->0),
        admitted_by(e1, r1, e2, r2, e3, user),
        e1 matches AuthEvent::TokenFound { found: Ok(Some(tok)), now } && now.nanos
            < tok.expires_at.nanos && !(tok.revoked_at matches Some(t) && t.nanos <= now.nanos),
{
}

/// A token is refused from the moment it expires, whatever else is stored
/// with it (its last use, its revocation): a stored token whose expiry is at
/// or before the time it is found makes the authentication step refuse the
/// request with `401 TokenExpired`.
pub proof fn lemma_expired_token_refused(
    tok: access_token::Model,
    now: Timestamp,
    r: (AuthState, AuthAction),
)
    requires
        tok.expires_at.nanos <= now.nanos,
        auth_transition(
            AuthState::FindingToken,
            AuthEvent::TokenFound { found: Ok(Some(tok)), now },
            r,
        ),
    ensures
        token_verdict(tok, now) == Err::<(), ApiError>(
            ApiError(STATUS_UNAUTHORIZED, InternalErrorCode::TokenExpired),
        ),
        r.0 is Finished,
        r.1 == (AuthAction::Refuse {
            error: ApiError(STATUS_UNAUTHORIZED, InternalErrorCode::TokenExpired),
        }),
{
}

/// A token still in force is accepted: a stored token that has not expired
/// and is not revoked at the time it is found leads to the lookup of its
/// owner.
pub proof fn lemma_live_token_accepted(
    tok: access_token::Model,
    now: Timestamp,
    r: (AuthState, AuthAction),
)
    requires
        now.nanos < tok.expires_at.nanos,
        tok.revoked_at is None || tok.revoked_at->Some_0.nanos > now.nanos,
        auth_transition(
            AuthState::FindingToken,
            AuthEvent::TokenFound { found: Ok(Some(tok)), now },
            r,
        ),
    ensures
        token_verdict(tok, now) is Ok,
        r.1 == (AuthAction::FindOwner { user_id: tok.user_id }),
{
}

/// An authenticated user may go on only while the account is enabled;
/// otherwise `401 AccountNotEnabled`.
pub fn check_enabled(user: &user::Model) -> (r: Result<(), ApiError>)
    ensures
        user.enabled ==> r is Ok,
        !user.enabled ==> r == Err::<(), ApiError>(
            ApiError(STATUS_UNAUTHORIZED, InternalErrorCode::AccountNotEnabled),
        ),
{
    if !user.enabled {
        Err(err(STATUS_UNAUTHORIZED, InternalErrorCode::AccountNotEnabled))
    } else {
        Ok(())
    }
}

/// An authenticated user may go on only with at least the `required` role;
/// otherwise `403 InsufficientRole`.
pub fn check_user_role_atleast(user: &user::Model, required: user::Role) -> (r: Result<
    (),
    ApiError,
>)
    ensures
        user.role.spec_rank() >= required.spec_rank() ==> r is Ok,
        user.role.spec_rank() < required.spec_rank() ==> r == Err::<(), ApiError>(
            ApiError(STATUS_FORBIDDEN, InternalErrorCode::InsufficientRole),
        ),
{
    if user.role.at_least(&required) {
        Ok(())
    } else {
        Err(err(STATUS_FORBIDDEN, InternalErrorCode::InsufficientRole))
    }
}

/// Characters sent as bytes, one byte per character.
pub open spec fn ascii_bytes(s: Seq<char>) -> Seq<u8> {
    s.map_values(|c: char| (c as u32) as u8)
}

/// Visible ASCII, the characters a token is made of.
pub open spec fn is_token_char(c: char) -> bool {
    32 <= (c as u32) && (c as u32) < 127
}

proof fn lemma_ascii_round_trip(s: Seq<char>)
    requires
        forall|i: int| 0 <= i < s.len() ==> is_token_char(#[trigger] s[i]),
    ensures
        ascii_chars(ascii_bytes(s)) == s,
        forall|i: int| 0 <= i < s.len() ==> is_visible_ascii(#[trigger] ascii_bytes(s)[i]),
{
    assert forall|i: int| 0 <= i < s.len() implies #[trigger] ascii_chars(ascii_bytes(s))[i]
        == s[i] && is_visible_ascii(ascii_bytes(s)[i]) by {
        let c = s[i];
        let b = (c as u32) as u8;
        assert(b as u32 == c as u32);
        assert((b as char) as u32 == c as u32);
        assert(ascii_bytes(s)[i] == b);
        assert(ascii_chars(ascii_bytes(s))[i] == b as char);
        vstd::utf8::char_u32_cast(c, c as u32);
        vstd::utf8::char_u32_cast(b as char, (b as char) as u32);
        assert(b as char == c);
    }
    assert(ascii_chars(ascii_bytes(s)) =~= s);
}

/// A token of visible ASCII characters, handed out as `cfs_<token>` and sent
/// back in the header `Authorization: Bearer cfs_<token>`, is read from the
/// header as the same token, so it is looked up under the digest stored for
/// it.
pub proof fn lemma_issued_token_is_presented(raw: Seq<char>)
    requires
        forall|i: int| 0 <= i < raw.len() ==> is_token_char(#[trigger] raw[i]),
    ensures
        header_token(Some(ascii_bytes(bearer_prefix() + issued_token_text(raw)))) == Some(raw),
{
    reveal_strlit("Bearer ");
    reveal_strlit("cfs_");
    let s = bearer_prefix() + issued_token_text(raw);
    assert forall|i: int| 0 <= i < s.len() implies is_token_char(#[trigger] s[i]) by {
        if i >= 11 {
            assert(s[i] == raw[i - 11]);
        }
    }
    lemma_ascii_round_trip(s);
    let rest = s.skip(7);
    assert(s.take(7) =~= bearer_prefix());
    assert(rest =~= issued_token_text(raw));
    assert(rest.take(4) =~= token_prefix());
    assert(rest.skip(4) =~= raw);
}

} // verus!
