//! Issuing, inspecting and revoking access tokens.

use vstd::prelude::*;
use vstd::utf8::encode_utf8;
use crate::api_types::{CreateTokenRes, GetTokenInfoRes, RequestTokenRes};
use crate::auth::{hash_token, issue_token_text, issued_token_text, strip_prefix, token_digest, token_prefix};
use crate::crypto::{argon2_hash_with_fresh_salt, argon2_verdict, argon2_verify, phc_is_well_formed, phc_parses};
use crate::entity::{access_token, user};
use crate::error::{
    db_error, err, no_content_once_saved, ApiError, ApiResponse, DbResult, InternalErrorCode,
    STATUS_BAD_REQUEST, STATUS_CREATED, STATUS_INTERNAL_SERVER_ERROR, STATUS_NO_CONTENT,
    STATUS_NOT_FOUND, STATUS_OK,
};
use crate::model::{Timestamp, NANOS_PER_DAY};
use crate::text::{chars_of, push_chars};

verus! {

/// What a password check answers: a stored hash that is not a PHC string, or
/// a wrong password, is `400 InvalidUsernameOrPassword`; any other failure of
/// the verifier is `500 HashPasswordVerify`.
pub open spec fn password_verdict(parsed: bool, verdict: Option<bool>) -> Result<(), ApiError> {
    if !parsed {
        Err(ApiError(STATUS_BAD_REQUEST, InternalErrorCode::InvalidUsernameOrPassword))
    } else {
        match verdict {
            Some(true) => Ok(()),
            Some(false) => Err(
                ApiError(STATUS_BAD_REQUEST, InternalErrorCode::InvalidUsernameOrPassword),
            ),
            None => Err(ApiError(STATUS_INTERNAL_SERVER_ERROR, InternalErrorCode::HashPasswordVerify)),
        }
    }
}

/// Turns whether the stored hash parsed, and the verifier's verdict, into the
/// answer of [`password_verdict`].
pub fn password_outcome(parsed: bool, verdict: Option<bool>) -> (r: Result<(), ApiError>)
    ensures
        r == password_verdict(parsed, verdict),
{
    if !parsed {
        return Err(err(STATUS_BAD_REQUEST, InternalErrorCode::InvalidUsernameOrPassword));
    }
    match verdict {
        Some(true) => Ok(()),
        Some(false) => Err(err(STATUS_BAD_REQUEST, InternalErrorCode::InvalidUsernameOrPassword)),
        None => Err(err(STATUS_INTERNAL_SERVER_ERROR, InternalErrorCode::HashPasswordVerify)),
    }
}

/// Checks a password against a stored Argon2 hash.
pub fn check_password(password: &str, stored_hash: &str) -> (r: Result<(), ApiError>)
    ensures
        !phc_parses(stored_hash@) ==> r == password_verdict(false, None),
        phc_parses(stored_hash@) ==> r == password_verdict(
            true,
            argon2_verdict(encode_utf8(password@), stored_hash@),
        ),
{
    if !phc_is_well_formed(stored_hash) {
        return password_outcome(false, None);
    }
    let verdict = argon2_verify(password.as_bytes(), stored_hash);
    password_outcome(true, verdict)
}

/// The user that asks for a token with a username and password: a failed
/// lookup is `500`; an unknown username is `400 InvalidUsernameOrPassword`
/// (after hashing the password anyway, so that the answer takes as long as
/// for a known name); a known one must pass [`check_password`].
pub fn authenticate_password(found: DbResult<Option<user::Model>>, password: &str) -> (r: Result<
    user::Model,
    ApiError,
>)
    ensures
        match found {
            Err(_) => r == Err::<user::Model, ApiError>(
                ApiError(STATUS_INTERNAL_SERVER_ERROR, InternalErrorCode::InternalDBError),
            ),
            Ok(None) => r == Err::<user::Model, ApiError>(
                ApiError(STATUS_BAD_REQUEST, InternalErrorCode::InvalidUsernameOrPassword),
            ),
            Ok(Some(u)) => {
                let v = if phc_parses(u.password_hash@) {
                    password_verdict(
                        true,
                        argon2_verdict(encode_utf8(password@), u.password_hash@),
                    )
                } else {
                    password_verdict(false, None)
                };
                match v {
                    Ok(()) => r == Ok::<user::Model, ApiError>(u),
                    Err(e) => r == Err::<user::Model, ApiError>(e),
                }
            },
        },
{
    match found {
        Err(_) => Err(db_error()),
        Ok(None) => {
            let _ = argon2_hash_with_fresh_salt(password.as_bytes());
            Err(err(STATUS_BAD_REQUEST, InternalErrorCode::InvalidUsernameOrPassword))
        },
        Ok(Some(u)) => {
            check_password(password, u.password_hash.as_str())?;
            Ok(u)
        },
    }
}

/// A new token row: stored under the digest of `raw_token`, named `name`,
/// created `now` and valid for `duration_days` days.
pub fn new_token_row(
    name: String,
    duration_days: u32,
    user_id: i64,
    raw_token: &str,
    now: Timestamp,
) -> (r: access_token::ActiveModel)
    requires
        now.valid(),
    ensures
        r.token_hash@ == token_digest(raw_token@),
        r.user_id == user_id,
        r.name == name,
        r.created_at == now,
        r.expires_at.nanos == now.nanos + duration_days * NANOS_PER_DAY,
        r.revoked_at is None,
        r.last_used_at is None,
{
    let expires = now.plus_days(duration_days);
    access_token::ActiveModel::new(hash_token(raw_token), user_id, Some(name), now, expires)
}

/// The answer once a token requested with a password is stored: `201` with
/// the token as handed out (`cfs_` + token) and its id.
pub fn requested_token_response(saved: DbResult<i64>, raw_token: &str) -> (r: ApiResponse<
    RequestTokenRes,
>)
    ensures
        match saved {
            Err(_) => r is Err && r->Err_0 == ApiError(
                STATUS_INTERNAL_SERVER_ERROR,
                InternalErrorCode::InternalDBError,
            ),
            Ok(id) => r matches Ok((s, res)) && s == STATUS_CREATED && res.token_id == id
                && res.token@ == issued_token_text(raw_token@),
        },
{
    match saved {
        Err(_) => Err(db_error()),
        Ok(id) => Ok((STATUS_CREATED, RequestTokenRes { token: issue_token_text(raw_token), token_id: id })),
    }
}

/// The answer once a token made by a signed-in user is stored: `201` with the
/// token as handed out (`cfs_` + token) and its id.
pub fn created_token_response(saved: DbResult<i64>, raw_token: &str) -> (r: ApiResponse<
    CreateTokenRes,
>)
    ensures
        match saved {
            Err(_) => r is Err && r->Err_0 == ApiError(
                STATUS_INTERNAL_SERVER_ERROR,
                InternalErrorCode::InternalDBError,
            ),
            Ok(id) => r matches Ok((s, res)) && s == STATUS_CREATED && res.token_id == id
                && res.token@ == issued_token_text(raw_token@),
        },
{
    match saved {
        Err(_) => Err(db_error()),
        Ok(id) => Ok((STATUS_CREATED, CreateTokenRes { token: issue_token_text(raw_token), token_id: id })),
    }
}

/// The digest to look a token up by when its holder asks about it: the
/// token must be given as handed out, starting with `cfs_`, else
/// `400 BadRequest`.
pub fn token_info_lookup_key(token: &str) -> (r: Result<Vec<u8>, ApiError>)
    ensures
        match strip_prefix(token@, token_prefix()) {
            None => r == Err::<Vec<u8>, ApiError>(
                ApiError(STATUS_BAD_REQUEST, InternalErrorCode::BadRequest),
            ),
            Some(raw) => r matches Ok(d) && d@ == token_digest(raw),
        },
{
    let chars = chars_of(token);
    let prefix = chars_of("cfs_");
    let n = prefix.len();
    if chars.len() < n {
        return Err(err(STATUS_BAD_REQUEST, InternalErrorCode::BadRequest));
    }
    let mut i: usize = 0;
    while i < n
        invariant
            n == prefix@.len() <= chars@.len(),
            chars@ == token@,
            prefix@ == token_prefix(),
            i <= n,
            forall|k: int| 0 <= k < i ==> chars@[k] == prefix@[k],
        decreases n - i,
    {
        if chars[i] != prefix[i] {
            assert(chars@.take(n as int)[i as int] != prefix@[i as int]);
            return Err(err(STATUS_BAD_REQUEST, InternalErrorCode::BadRequest));
        }
        i = i + 1;
    }
    assert(chars@.take(n as int) == prefix@);
    let mut raw = String::new();
    push_chars(&mut raw, &chars, n, chars.len());
    assert(chars@.subrange(n as int, chars@.len() as int) == chars@.skip(n as int));
    Ok(hash_token(raw.as_str()))
}

/// The answer about one of the caller's own tokens: `200` with its id, name
/// and times; `404 TokenNotFound` when the caller has no such token.
pub fn token_info_response(found: DbResult<Option<access_token::Model>>) -> (r: ApiResponse<
    GetTokenInfoRes,
>)
    ensures
        match found {
            Err(_) => r is Err && r->Err_0 == ApiError(
                STATUS_INTERNAL_SERVER_ERROR,
                InternalErrorCode::InternalDBError,
            ),
            Ok(None) => r is Err && r->Err_0 == ApiError(
                STATUS_NOT_FOUND,
                InternalErrorCode::TokenNotFound,
            ),
            Ok(Some(t)) => r matches Ok((s, res)) && s == STATUS_OK && res.id == t.id && res.name
                == t.name && res.created_at == t.created_at && res.expires_at == t.expires_at
                && res.revoked_at == t.revoked_at && res.last_used == t.last_used_at,
        },
{
    match found {
        Err(_) => Err(db_error()),
        Ok(None) => Err(err(STATUS_NOT_FOUND, InternalErrorCode::TokenNotFound)),
        Ok(Some(t)) => Ok(
            (
                STATUS_OK,
                GetTokenInfoRes {
                    id: t.id,
                    name: t.name,
                    created_at: t.created_at,
                    expires_at: t.expires_at,
                    revoked_at: t.revoked_at,
                    last_used: t.last_used_at,
                },
            ),
        ),
    }
}

/// The number of tokens that have not been revoked.
pub open spec fn live_count(tokens: Seq<access_token::Model>) -> nat
    decreases tokens.len(),
{
    if tokens.len() == 0 {
        0
    } else {
        live_count(tokens.drop_last()) + if tokens.last().revoked_at is None {
            1nat
        } else {
            0nat
        }
    }
}

/// The caller's token to revoke: it must exist among the caller's tokens
/// (`404 TokenNotFound`) and not be revoked already (`400 TokenAlreadyRevoked`).
pub fn plan_revoke(found: DbResult<Option<access_token::Model>>) -> (r: Result<
    access_token::Model,
    ApiError,
>)
    ensures
        match found {
            Err(_) => r == Err::<access_token::Model, ApiError>(
                ApiError(STATUS_INTERNAL_SERVER_ERROR, InternalErrorCode::InternalDBError),
            ),
            Ok(None) => r == Err::<access_token::Model, ApiError>(
                ApiError(STATUS_NOT_FOUND, InternalErrorCode::TokenNotFound),
            ),
            Ok(Some(t)) => if t.revoked_at is Some {
                r == Err::<access_token::Model, ApiError>(
                    ApiError(STATUS_BAD_REQUEST, InternalErrorCode::TokenAlreadyRevoked),
                )
            } else {
                r == Ok::<access_token::Model, ApiError>(t)
            },
        },
{
    match found {
        Err(_) => Err(db_error()),
        Ok(None) => Err(err(STATUS_NOT_FOUND, InternalErrorCode::TokenNotFound)),
        Ok(Some(t)) => if t.revoked_at.is_some() {
            Err(err(STATUS_BAD_REQUEST, InternalErrorCode::TokenAlreadyRevoked))
        } else {
            Ok(t)
        },
    }
}

/// Counts the tokens that have not been revoked.
pub fn count_live(tokens: &Vec<access_token::Model>) -> (n: usize)
    ensures
        n == live_count(tokens@),
{
    let mut n: usize = 0;
    let mut i: usize = 0;
    while i < tokens.len()
        invariant
            i <= tokens@.len(),
            n == live_count(tokens@.take(i as int)),
            n <= i,
        decreases tokens.len() - i,
    {
        assert(tokens@.take(i + 1).drop_last() == tokens@.take(i as int));
        if tokens[i].revoked_at.is_none() {
            n = n + 1;
        }
        i = i + 1;
    }
    assert(tokens@.take(tokens@.len() as int) == tokens@);
    n
}

/// A user may not revoke their last token that is still in force:
/// `400 CannotRevokeAllTokens` when exactly one of their tokens is unrevoked.
pub fn check_not_last_token(tokens: &DbResult<Vec<access_token::Model>>) -> (r: Result<(), ApiError>)
    ensures
        match tokens {
            Err(_) => r == Err::<(), ApiError>(
                ApiError(STATUS_INTERNAL_SERVER_ERROR, InternalErrorCode::InternalDBError),
            ),
            Ok(ts) => if live_count(ts@) == 1 {
                r == Err::<(), ApiError>(
                    ApiError(STATUS_BAD_REQUEST, InternalErrorCode::CannotRevokeAllTokens),
                )
            } else {
                r is Ok
            },
        },
{
    match tokens {
        Err(_) => Err(db_error()),
        Ok(ts) => if count_live(ts) == 1 {
            Err(err(STATUS_BAD_REQUEST, InternalErrorCode::CannotRevokeAllTokens))
        } else {
            Ok(())
        },
    }
}

/// The token revoked at `now`; nothing else changes.
pub fn revoke(token: access_token::Model, now: Timestamp) -> (r: access_token::Model)
    ensures
        r == (access_token::Model { revoked_at: Some(now), ..token }),
{
    access_token::Model { revoked_at: Some(now), ..token }
}

proof fn lemma_live_count_update(tokens: Seq<access_token::Model>, i: int, t: access_token::Model)
    requires
        0 <= i < tokens.len(),
        tokens[i].revoked_at is None,
        t.revoked_at is Some,
    ensures
        live_count(tokens.update(i, t)) + 1 == live_count(tokens),
    decreases tokens.len(),
{
    let u = tokens.update(i, t);
    if i == tokens.len() - 1 {
        assert(u.drop_last() == tokens.drop_last());
    } else {
        lemma_live_count_update(tokens.drop_last(), i, t);
        assert(u.drop_last() == tokens.drop_last().update(i, t));
    }
}

proof fn lemma_live_count_positive(tokens: Seq<access_token::Model>, i: int)
    requires
        0 <= i < tokens.len(),
        tokens[i].revoked_at is None,
    ensures
        live_count(tokens) >= 1,
    decreases tokens.len(),
{
    if i < tokens.len() - 1 {
        lemma_live_count_positive(tokens.drop_last(), i);
    }
}

/// A revocation that the checks allow never takes away a user's last token in
/// force: if the token to revoke is one of the user's unrevoked tokens and
/// [`check_not_last_token`] lets it through, then after revoking it at least
/// one of the user's tokens is still unrevoked.
pub proof fn lemma_revoke_keeps_a_token(tokens: Seq<access_token::Model>, i: int, now: Timestamp)
    requires
        0 <= i < tokens.len(),
        tokens[i].revoked_at is None,
        live_count(tokens) != 1,
    ensures
        live_count(tokens.update(i, access_token::Model { revoked_at: Some(now), ..tokens[i] }))
            >= 1,
{
    lemma_live_count_positive(tokens, i);
    lemma_live_count_update(tokens, i, access_token::Model { revoked_at: Some(now), ..tokens[i] });
}

/// Where the revocation of a token stands.
pub enum RevokeState {
    /// Waiting for the list of the caller's tokens; `target` is the one to revoke.
    Counting { target: access_token::Model },
    /// Waiting for the revoked token to be saved.
    Saving,
    /// The request was answered.
    Finished,
}

/// What the server learned since the last step of a revocation.
pub enum RevokeEvent {
    /// The caller's tokens, and the time then.
    TokensListed { tokens: DbResult<Vec<access_token::Model>>, now: Timestamp },
    /// The outcome of saving the revoked token.
    Saved { saved: DbResult<()> },
}

/// What the server must do next in a revocation.
pub enum RevokeAction {
    /// List the tokens of the user with this id.
    ListTokens { user_id: i64 },
    /// Save this token.
    Save { token: access_token::Model },
    /// Answer the request.
    Answer { answer: ApiResponse<()> },
}

/// Whether an event answers the action a revocation state is waiting on.
pub open spec fn revoke_event_fits(state: RevokeState, event: RevokeEvent) -> bool {
    match state {
        RevokeState::Counting { .. } => event is TokensListed,
        RevokeState::Saving => event is Saved,
        RevokeState::Finished => false,
    }
}

/// The answer to a revocation.
pub open spec fn answers_revoke(r: (RevokeState, RevokeAction), answer: ApiResponse<()>) -> bool {
    &&& r.0 is Finished
    &&& r.1 == RevokeAction::Answer { answer }
}

/// How a revocation starts from the lookup of the caller's token by id: the
/// token must exist among the caller's tokens and not be revoked already
/// ([`plan_revoke`]); then the caller's tokens are listed.
pub open spec fn revoke_started(
    found: DbResult<Option<access_token::Model>>,
    user_id: i64,
    r: (RevokeState, RevokeAction),
) -> bool {
    match found {
        Err(_) => answers_revoke(r, Err(ApiError(STATUS_INTERNAL_SERVER_ERROR, InternalErrorCode::InternalDBError))),
        Ok(None) => answers_revoke(r, Err(ApiError(STATUS_NOT_FOUND, InternalErrorCode::TokenNotFound))),
        Ok(Some(t)) => if t.revoked_at is Some {
            answers_revoke(r, Err(ApiError(STATUS_BAD_REQUEST, InternalErrorCode::TokenAlreadyRevoked)))
        } else {
            &&& r.0 == RevokeState::Counting { target: t }
            &&& r.1 == RevokeAction::ListTokens { user_id }
        },
    }
}

/// Starts revoking a token of the user `user_id`, given the outcome of
/// looking it up among that user's tokens.
pub fn revoke_start(found: DbResult<Option<access_token::Model>>, user_id: i64) -> (r: (
    RevokeState,
    RevokeAction,
))
    ensures
        revoke_started(found, user_id, r),
{
    match plan_revoke(found) {
        Err(e) => (RevokeState::Finished, RevokeAction::Answer { answer: Err(e) }),
        Ok(target) => (RevokeState::Counting { target }, RevokeAction::ListTokens { user_id }),
    }
}

/// What one step of a revocation gives: the last unrevoked token may not be
/// revoked ([`check_not_last_token`]); otherwise the target is saved revoked
/// at the time the tokens were listed, and once saved the answer is `204`.
/// A database failure is `500 InternalDBError`.
pub open spec fn revoke_transition(state: RevokeState, event: RevokeEvent, r: (RevokeState, RevokeAction)) -> bool {
    match state {
        RevokeState::Counting { target } => match event {
            RevokeEvent::TokensListed { tokens, now } => match tokens {
                Err(_) => answers_revoke(r, Err(ApiError(STATUS_INTERNAL_SERVER_ERROR, InternalErrorCode::InternalDBError))),
                Ok(ts) => if live_count(ts@) == 1 {
                    answers_revoke(r, Err(ApiError(STATUS_BAD_REQUEST, InternalErrorCode::CannotRevokeAllTokens)))
                } else {
                    &&& r.0 is Saving
                    &&& r.1 == RevokeAction::Save {
                        token: access_token::Model { revoked_at: Some(now), ..target },
                    }
                },
            },
            _ => false,
        },
        RevokeState::Saving => match event {
            RevokeEvent::Saved { saved } => match saved {
                Err(_) => answers_revoke(r, Err(ApiError(STATUS_INTERNAL_SERVER_ERROR, InternalErrorCode::InternalDBError))),
                Ok(()) => answers_revoke(r, Ok((STATUS_NO_CONTENT, ()))),
            },
            _ => false,
        },
        RevokeState::Finished => false,
    }
}

/// [`live_count`] is the number of tokens whose `revoked_at` is unset.
pub proof fn lemma_live_count_counts_unrevoked(tokens: Seq<access_token::Model>)
    ensures
        live_count(tokens) == tokens.filter(|t: access_token::Model| t.revoked_at is None).len(),
    decreases tokens.len(),
{
    reveal(Seq::filter);
    if tokens.len() > 0 {
        lemma_live_count_counts_unrevoked(tokens.drop_last());
    }
}

/// A revocation is saved exactly when the user does not hold exactly one
/// unrevoked token, whatever the target's expiry or last use: then the
/// target is saved with `revoked_at` set to the time the tokens were listed
/// and nothing else changed; with exactly one unrevoked token the request is
/// refused with `400 CannotRevokeAllTokens`.
pub proof fn lemma_revocation_saved_unless_last(
    target: access_token::Model,
    ts: Seq<access_token::Model>,
    listed: Vec<access_token::Model>,
    now: Timestamp,
    r: (RevokeState, RevokeAction),
)
    requires
        listed@ == ts,
        revoke_transition(
            RevokeState::Counting { target },
            RevokeEvent::TokensListed { tokens: Ok(listed), now },
            r,
        ),
    ensures
        ts.filter(|t: access_token::Model| t.revoked_at is None).len() != 1 ==> r.0 is Saving
            && r.1 == (RevokeAction::Save {
            token: access_token::Model { revoked_at: Some(now), ..target },
        }),
        ts.filter(|t: access_token::Model| t.revoked_at is None).len() == 1 ==> r.0 is Finished
            && r.1 == (RevokeAction::Answer {
            answer: Err(ApiError(STATUS_BAD_REQUEST, InternalErrorCode::CannotRevokeAllTokens)),
        }),
{
    lemma_live_count_counts_unrevoked(ts);
}

/// One step of a revocation: see [`revoke_transition`].
pub fn revoke_step(state: RevokeState, event: RevokeEvent) -> (r: (RevokeState, RevokeAction))
    requires
        revoke_event_fits(state, event),
    ensures
        revoke_transition(state, event, r),
        state is Counting && event is TokensListed && event->tokens is Ok
            && event->tokens->Ok_0@.filter(|t: access_token::Model| t.revoked_at is None).len() != 1
            ==> r.0 is Saving && r.1 == (RevokeAction::Save {
            token: access_token::Model {
                revoked_at: Some(event->TokensListed_now),
                ..state->Counting_target
            },
        }),
        state is Counting && event is TokensListed && event->tokens is Ok
            && event->tokens->Ok_0@.filter(|t: access_token::Model| t.revoked_at is None).len() == 1
            ==> r.0 is Finished && r.1 == (RevokeAction::Answer {
            answer: Err(ApiError(STATUS_BAD_REQUEST, InternalErrorCode::CannotRevokeAllTokens)),
        }),
{
    proof {
        if event is TokensListed && event->tokens is Ok {
            lemma_live_count_counts_unrevoked(event->tokens->Ok_0@);
        }
    }
    match state {
        RevokeState::Counting { target } => match event {
            RevokeEvent::TokensListed { tokens, now } => match check_not_last_token(&tokens) {
                Err(e) => (RevokeState::Finished, RevokeAction::Answer { answer: Err(e) }),
                Ok(()) => (RevokeState::Saving, RevokeAction::Save { token: revoke(target, now) }),
            },
            _ => {
                proof {
                    assert(false);
                }
                (RevokeState::Finished, RevokeAction::Answer { answer: Err(db_error()) })
            },
        },
        RevokeState::Saving => match event {
            RevokeEvent::Saved { saved } => (
                RevokeState::Finished,
                RevokeAction::Answer { answer: no_content_once_saved(saved) },
            ),
            _ => {
                proof {
                    assert(false);
                }
                (RevokeState::Finished, RevokeAction::Answer { answer: Err(db_error()) })
            },
        },
        RevokeState::Finished => {
            proof {
                assert(false);
            }
            (RevokeState::Finished, RevokeAction::Answer { answer: Err(db_error()) })
        },
    }
}

/// A revocation never saves away a user's last token in force: when the
/// token to revoke is the `i`-th of the user's listed tokens and the step
/// after listing them saves a token, that token is the target revoked, and
/// with it in place of the target at least one of the user's tokens is still
/// unrevoked.
pub proof fn lemma_revocation_keeps_a_token(
    target: access_token::Model,
    tokens: Seq<access_token::Model>,
    i: int,
    event: RevokeEvent,
    r: (RevokeState, RevokeAction),
)
    requires
        target.revoked_at is None,
        0 <= i < tokens.len(),
        tokens[i] == target,
        event matches RevokeEvent::TokensListed { tokens: Ok(ts), .. } && ts@ == tokens,
        revoke_transition(RevokeState::Counting { target }, event, r),
        r.1 is Save,
    ensures
        r.1->token.id == target.id,
        r.1->token.revoked_at is Some,
        live_count(tokens.update(i, r.1->token)) >= 1,
{
    let now = event->TokensListed_now;
    lemma_revoke_keeps_a_token(tokens, i, now);
}

} // verus!
