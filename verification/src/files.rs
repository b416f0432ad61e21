//! Files: each user's file records and the rules for storing, reading,
//! updating and deleting their contents.
//!
//! A file's contents are stored under `<username>/<file id>`; its record keeps
//! the 64-bit content hash as the `i64` with the same bits.

use vstd::prelude::*;
use crate::api_types::{CreateFileReq, CreateFileRes, GetFileInfoRes, UpdateFileReq, UpdateFileRes};
use crate::entity::tracked_file;
use crate::error::{
    db_error, err, no_content_once_saved, ApiError, ApiResponse, DbResult, InternalErrorCode,
    STATUS_CONFLICT, STATUS_CREATED, STATUS_INTERNAL_SERVER_ERROR, STATUS_NOT_FOUND,
    STATUS_NO_CONTENT, STATUS_OK, STATUS_PAYLOAD_TOO_LARGE,
};
use crate::model::{uuid_text, FileId, Timestamp};
use crate::text::push_char;

verus! {

/// Why the storage back end could not serve a request.
#[derive(Debug, PartialEq, Eq)]
pub enum StorageError {
    /// The back end failed; the text says why.
    Internal(String),
    /// Nothing is stored under the key.
    NotFound,
}

/// The key a user's file contents are stored under: `<username>/<file id>`
/// with the id in hyphenated lower-case form.
pub open spec fn storage_key_text(username: Seq<char>, id: FileId) -> Seq<char> {
    username + seq!['/'] + uuid_text(id.0)
}

/// Builds the storage key of a user's file.
pub fn storage_key(username: &str, id: FileId) -> (r: String)
    ensures
        r@ == storage_key_text(username@, id),
{
    let mut out = String::from_str(username);
    push_char(&mut out, '/');
    id.push_hyphenated(&mut out);
    out
}

/// The hash as the database keeps it: the `i64` with the same 64 bits.
pub fn hash_to_stored(h: u64) -> (r: i64)
    ensures
        r == h as i64,
{
    h as i64
}

/// The hash a database value stands for: the `u64` with the same 64 bits.
pub fn hash_from_stored(v: i64) -> (r: u64)
    ensures
        r == v as u64,
{
    v as u64
}

/// A content hash stored in the database reads back unchanged, and every
/// stored value stands for exactly one hash.
pub proof fn lemma_stored_hash_round_trip(h: u64, v: i64)
    ensures
        (h as i64) as u64 == h,
        (v as u64) as i64 == v,
{
    assert((h as i64) as u64 == h) by (bit_vector);
    assert((v as u64) as i64 == v) by (bit_vector);
}

/// Contents longer than the configured limit are refused with
/// `413 FileTooLarge`.
pub fn check_file_size(len: usize, max_file_size: u64) -> (r: Result<(), ApiError>)
    ensures
        len > max_file_size ==> r == Err::<(), ApiError>(
            ApiError(STATUS_PAYLOAD_TOO_LARGE, InternalErrorCode::FileTooLarge),
        ),
        len <= max_file_size ==> r is Ok,
{
    if len as u64 > max_file_size {
        Err(err(STATUS_PAYLOAD_TOO_LARGE, InternalErrorCode::FileTooLarge))
    } else {
        Ok(())
    }
}

/// A failure of the storage back end while writing or deleting is `500
/// StorageBackendError`.
pub fn storage_done(result: Result<(), StorageError>) -> (r: Result<(), ApiError>)
    ensures
        result is Ok ==> r is Ok,
        result is Err ==> r == Err::<(), ApiError>(
            ApiError(STATUS_INTERNAL_SERVER_ERROR, InternalErrorCode::StorageBackendError),
        ),
{
    match result {
        Ok(()) => Ok(()),
        Err(_) => Err(err(STATUS_INTERNAL_SERVER_ERROR, InternalErrorCode::StorageBackendError)),
    }
}

/// The record of a newly uploaded file, owned by `user_id` and written at
/// `now`; the contents are not part of the record.
pub fn new_file_row(id: FileId, req: CreateFileReq, user_id: i64, now: Timestamp) -> (r:
    tracked_file::Model)
    ensures
        r.id == id,
        r.name == req.name,
        r.hash == req.hash as i64,
        r.last_updated_from == req.machine_name,
        r.updated_at == now,
        r.deleted_at is None,
        r.user_id == user_id,
{
    tracked_file::Model {
        id,
        hash: hash_to_stored(req.hash),
        name: req.name,
        last_updated_from: req.machine_name,
        updated_at: now,
        deleted_at: None,
        user_id,
    }
}

/// The answer once a new file's record is inserted: `201` with its id. The
/// second value says whether the contents already stored must be deleted
/// again, which is so exactly when the insert failed (then the answer is
/// `500`).
pub fn created_file_response(inserted: DbResult<tracked_file::Model>) -> (r: (
    ApiResponse<CreateFileRes>,
    bool,
))
    ensures
        r.1 == inserted is Err,
        match inserted {
            Err(_) => r.0 is Err && r.0->Err_0 == ApiError(
                STATUS_INTERNAL_SERVER_ERROR,
                InternalErrorCode::InternalDBError,
            ),
            Ok(m) => r.0 matches Ok((s, res)) && s == STATUS_CREATED && res.id == m.id,
        },
{
    match inserted {
        Err(_) => (Err(db_error()), true),
        Ok(m) => (Ok((STATUS_CREATED, CreateFileRes { id: m.id })), false),
    }
}

/// Where the upload of a new file stands.
pub enum UploadState {
    /// Waiting for the contents to be stored under `key`; the request's
    /// fields (its contents already handed over) make the record after.
    Storing { key: String, id: FileId, user_id: i64, req: CreateFileReq },
    /// Waiting for the record to be inserted.
    Inserting { key: String },
    /// Waiting for contents stored without a record to be deleted.
    CleaningUp,
    /// The request was answered.
    Finished,
}

/// What the server learned since the last step of an upload.
pub enum UploadEvent {
    /// The outcome of storing the contents, and the time then.
    Stored { result: Result<(), StorageError>, now: Timestamp },
    /// The outcome of inserting the record.
    Inserted { result: DbResult<tracked_file::Model> },
    /// The clean-up was tried; its outcome changes nothing.
    CleanedUp,
}

/// What the server must do next in an upload.
pub enum UploadAction {
    /// Store these contents under `key`.
    Store { key: String, bytes: Vec<u8> },
    /// Insert this record.
    Insert { row: tracked_file::Model },
    /// Delete what is stored under `key`.
    Delete { key: String },
    /// Answer the request.
    Answer { answer: ApiResponse<CreateFileRes> },
}

/// Whether an event answers the action an upload state is waiting on.
pub open spec fn upload_event_fits(state: UploadState, event: UploadEvent) -> bool {
    match state {
        UploadState::Storing { .. } => event is Stored,
        UploadState::Inserting { .. } => event is Inserted,
        UploadState::CleaningUp => event is CleanedUp,
        UploadState::Finished => false,
    }
}

/// The answer to an upload: an error, or `201` with the new file's id.
pub open spec fn answers_upload(r: (UploadState, UploadAction), answer: Result<FileId, ApiError>) -> bool {
    &&& r.0 is Finished
    &&& r.1 is Answer
    &&& match answer {
        Ok(id) => r.1->answer matches Ok((s, res)) && s == STATUS_CREATED && res.id == id,
        Err(e) => r.1->answer == Err::<(u16, CreateFileRes), ApiError>(e),
    }
}

/// How an upload starts: contents over `max_file_size` bytes are refused
/// with `413 FileTooLarge` and nothing is stored; otherwise the contents are
/// stored under `<username>/<id>`.
pub open spec fn upload_started(
    username: Seq<char>,
    user_id: i64,
    id: FileId,
    req: CreateFileReq,
    max_file_size: u64,
    r: (UploadState, UploadAction),
) -> bool {
    if req.file_bytes.len() > max_file_size {
        answers_upload(r, Err(ApiError(STATUS_PAYLOAD_TOO_LARGE, InternalErrorCode::FileTooLarge)))
    } else {
        &&& r.0 is Storing
        &&& r.0->Storing_key@ == storage_key_text(username, id)
        &&& r.0->Storing_id == id
        &&& r.0->Storing_user_id == user_id
        &&& r.0->Storing_req.name == req.name
        &&& r.0->Storing_req.hash == req.hash
        &&& r.0->Storing_req.machine_name == req.machine_name
        &&& r.1 is Store
        &&& r.1->Store_key@ == storage_key_text(username, id)
        &&& r.1->bytes == req.file_bytes
    }
}

/// Starts the upload of a new file with identifier `id` for the user
/// `username` (`user_id`).
pub fn upload_start(username: &str, user_id: i64, id: FileId, req: CreateFileReq, max_file_size: u64) -> (r: (
    UploadState,
    UploadAction,
))
    ensures
        upload_started(username@, user_id, id, req, max_file_size, r),
{
    if let Err(e) = check_file_size(req.file_bytes.len(), max_file_size) {
        return (UploadState::Finished, UploadAction::Answer { answer: Err(e) });
    }
    let CreateFileReq { name, hash, file_bytes, machine_name } = req;
    let key = storage_key(username, id);
    let store_key = storage_key(username, id);
    let rest = CreateFileReq { name, hash, file_bytes: Vec::new(), machine_name };
    (
        UploadState::Storing { key, id, user_id, req: rest },
        UploadAction::Store { key: store_key, bytes: file_bytes },
    )
}

/// `uuid::Uuid::new_v4`, as the 128-bit value of the identifier. The value
/// is random, so nothing is claimed of it.
#[verifier::external_body]
fn fresh_file_id() -> (r: FileId) {
    FileId(uuid::Uuid::new_v4().as_u128())
}

/// Starts the upload of a new file under a freshly drawn random identifier,
/// which is returned beside the first step.
pub fn upload_start_new(username: &str, user_id: i64, req: CreateFileReq, max_file_size: u64) -> (r: (
    FileId,
    (UploadState, UploadAction),
))
    ensures
        upload_started(username@, user_id, r.0, req, max_file_size, r.1),
{
    let id = fresh_file_id();
    (id, upload_start(username, user_id, id, req, max_file_size))
}

/// What one step of an upload gives. Once the contents are stored, the
/// record is inserted, written at the time the contents were stored; a failed
/// store is `500 StorageBackendError`. Once the record is inserted the answer
/// is `201` with its id; when the insert fails, what was stored is deleted
/// again and the answer is `500 InternalDBError`, whatever the deletion gave.
pub open spec fn upload_transition(state: UploadState, event: UploadEvent, r: (UploadState, UploadAction)) -> bool {
    match state {
        UploadState::Storing { key, id, user_id, req } => match event {
            UploadEvent::Stored { result, now } => match result {
                Err(_) => answers_upload(
                    r,
                    Err(ApiError(STATUS_INTERNAL_SERVER_ERROR, InternalErrorCode::StorageBackendError)),
                ),
                Ok(()) => {
                    &&& r.0 is Inserting
                    &&& r.0->Inserting_key@ == key@
                    &&& r.1 == UploadAction::Insert {
                        row: tracked_file::Model {
                            id,
                            hash: req.hash as i64,
                            name: req.name,
                            last_updated_from: req.machine_name,
                            updated_at: now,
                            deleted_at: None,
                            user_id,
                        },
                    }
                },
            },
            _ => false,
        },
        UploadState::Inserting { key } => match event {
            UploadEvent::Inserted { result } => match result {
                Ok(m) => answers_upload(r, Ok(m.id)),
                Err(_) => {
                    &&& r.0 is CleaningUp
                    &&& r.1 is Delete
                    &&& r.1->Delete_key@ == key@
                },
            },
            _ => false,
        },
        UploadState::CleaningUp => match event {
            UploadEvent::CleanedUp => answers_upload(
                r,
                Err(ApiError(STATUS_INTERNAL_SERVER_ERROR, InternalErrorCode::InternalDBError)),
            ),
            _ => false,
        },
        UploadState::Finished => false,
    }
}

/// One step of an upload: see [`upload_transition`].
pub fn upload_step(state: UploadState, event: UploadEvent) -> (r: (UploadState, UploadAction))
    requires
        upload_event_fits(state, event),
    ensures
        upload_transition(state, event, r),
{
    match state {
        UploadState::Storing { key, id, user_id, req } => match event {
            UploadEvent::Stored { result, now } => match storage_done(result) {
                Err(e) => (UploadState::Finished, UploadAction::Answer { answer: Err(e) }),
                Ok(()) => {
                    let row = new_file_row(id, req, user_id, now);
                    (UploadState::Inserting { key }, UploadAction::Insert { row })
                },
            },
            _ => {
                proof {
                    assert(false);
                }
                (UploadState::Finished, UploadAction::Answer { answer: Err(db_error()) })
            },
        },
        UploadState::Inserting { key } => match event {
            UploadEvent::Inserted { result } => {
                let (answer, clean_up) = created_file_response(result);
                if clean_up {
                    (UploadState::CleaningUp, UploadAction::Delete { key })
                } else {
                    (UploadState::Finished, UploadAction::Answer { answer })
                }
            },
            _ => {
                proof {
                    assert(false);
                }
                (UploadState::Finished, UploadAction::Answer { answer: Err(db_error()) })
            },
        },
        UploadState::CleaningUp => (
            UploadState::Finished,
            UploadAction::Answer { answer: Err(db_error()) },
        ),
        UploadState::Finished => {
            proof {
                assert(false);
            }
            (UploadState::Finished, UploadAction::Answer { answer: Err(db_error()) })
        },
    }
}

/// Contents stored for a new file are never left without a record: when the
/// record cannot be inserted after the contents were stored, the next step
/// deletes what is stored under the same key.
pub proof fn lemma_upload_leaves_no_orphan(
    username: Seq<char>,
    user_id: i64,
    id: FileId,
    req: CreateFileReq,
    max_file_size: u64,
    r0: (UploadState, UploadAction),
    e1: UploadEvent,
    r1: (UploadState, UploadAction),
    e2: UploadEvent,
    r2: (UploadState, UploadAction),
)
    requires
        upload_started(username, user_id, id, req, max_file_size, r0),
        upload_event_fits(r0.0, e1),
        upload_transition(r0.0, e1, r1),
        upload_event_fits(r1.0, e2),
        upload_transition(r1.0, e2, r2),
        e2 matches UploadEvent::Inserted { result: Err(_) },
    ensures
        r0.1 is Store,
        r2.1 is Delete,
        r2.1->Delete_key@ == r0.1->Store_key@,
        r2.1->Delete_key@ == storage_key_text(username, id),
{
}

/// Contents uploaded are read back from where they were written: once the
/// upload's contents are stored (storage modelled as a map from key to
/// bytes) and its record is to be inserted, the key that
/// [`storage_key`] gives for the owner's name and that record's id holds
/// exactly the uploaded bytes, which [`file_contents_response`] then answers
/// with.
pub proof fn lemma_upload_then_read(
    username: Seq<char>,
    user_id: i64,
    id: FileId,
    req: CreateFileReq,
    max_file_size: u64,
    r0: (UploadState, UploadAction),
    e1: UploadEvent,
    r1: (UploadState, UploadAction),
    stored: Map<Seq<char>, Seq<u8>>,
)
    requires
        upload_started(username, user_id, id, req, max_file_size, r0),
        upload_event_fits(r0.0, e1),
        upload_transition(r0.0, e1, r1),
        r1.1 is Insert,
    ensures
        r0.1 is Store,
        r1.1->row.id == id,
        r1.1->row.user_id == user_id,
        stored.insert(r0.1->Store_key@, r0.1->bytes@).contains_key(
            storage_key_text(username, r1.1->row.id),
        ),
        stored.insert(r0.1->Store_key@, r0.1->bytes@)[storage_key_text(username, r1.1->row.id)]
            == req.file_bytes@,
{
}

/// The caller's file with the given id: a failed lookup is `500`, and a
/// file that does not exist or belongs to someone else is `404 FileNotFound`.
pub fn require_file(found: DbResult<Option<tracked_file::Model>>) -> (r: Result<
    tracked_file::Model,
    ApiError,
>)
    ensures
        match found {
            Err(_) => r == Err::<tracked_file::Model, ApiError>(
                ApiError(STATUS_INTERNAL_SERVER_ERROR, InternalErrorCode::InternalDBError),
            ),
            Ok(None) => r == Err::<tracked_file::Model, ApiError>(
                ApiError(STATUS_NOT_FOUND, InternalErrorCode::FileNotFound),
            ),
            Ok(Some(m)) => r == Ok::<tracked_file::Model, ApiError>(m),
        },
{
    match found {
        Err(_) => Err(db_error()),
        Ok(None) => Err(err(STATUS_NOT_FOUND, InternalErrorCode::FileNotFound)),
        Ok(Some(m)) => Ok(m),
    }
}

/// Like [`require_file`], and a deleted file is `404 FileDeleted`.
pub fn require_live_file(found: DbResult<Option<tracked_file::Model>>) -> (r: Result<
    tracked_file::Model,
    ApiError,
>)
    ensures
        match found {
            Err(_) => r == Err::<tracked_file::Model, ApiError>(
                ApiError(STATUS_INTERNAL_SERVER_ERROR, InternalErrorCode::InternalDBError),
            ),
            Ok(None) => r == Err::<tracked_file::Model, ApiError>(
                ApiError(STATUS_NOT_FOUND, InternalErrorCode::FileNotFound),
            ),
            Ok(Some(m)) => if m.deleted_at is Some {
                r == Err::<tracked_file::Model, ApiError>(
                    ApiError(STATUS_NOT_FOUND, InternalErrorCode::FileDeleted),
                )
            } else {
                r == Ok::<tracked_file::Model, ApiError>(m)
            },
        },
{
    let m = require_file(found)?;
    if m.deleted_at.is_some() {
        return Err(err(STATUS_NOT_FOUND, InternalErrorCode::FileDeleted));
    }
    Ok(m)
}

/// The answer about one of the caller's files, deleted ones included: `200`
/// with its id, name, hash, last writer and times.
pub fn file_info_response(found: DbResult<Option<tracked_file::Model>>) -> (r: ApiResponse<
    GetFileInfoRes,
>)
    ensures
        match found {
            Err(_) => r is Err && r->Err_0 == ApiError(
                STATUS_INTERNAL_SERVER_ERROR,
                InternalErrorCode::InternalDBError,
            ),
            Ok(None) => r is Err && r->Err_0 == ApiError(
                STATUS_NOT_FOUND,
                InternalErrorCode::FileNotFound,
            ),
            Ok(Some(m)) => r matches Ok((s, res)) && s == STATUS_OK && res.id == m.id && res.name
                == m.name && res.hash == m.hash as u64 && res.last_updated_from
                == m.last_updated_from && res.updated_at == m.updated_at && res.deleted_at
                == m.deleted_at,
        },
{
    let m = require_file(found)?;
    Ok(
        (
            STATUS_OK,
            GetFileInfoRes {
                id: m.id,
                name: m.name,
                hash: hash_from_stored(m.hash),
                last_updated_from: m.last_updated_from,
                updated_at: m.updated_at,
                deleted_at: m.deleted_at,
            },
        ),
    )
}

/// The answer with a live file's contents as fetched from storage: `200`
/// with the bytes; a failing back end is `500 StorageBackendError` and
/// contents missing from storage are `404 FileNotInStorage`.
pub fn file_contents_response(fetched: Result<Vec<u8>, StorageError>) -> (r: ApiResponse<Vec<u8>>)
    ensures
        match fetched {
            Ok(bytes) => r == Ok::<(u16, Vec<u8>), ApiError>((STATUS_OK, bytes)),
            Err(StorageError::Internal(_)) => r is Err && r->Err_0 == ApiError(
                STATUS_INTERNAL_SERVER_ERROR,
                InternalErrorCode::StorageBackendError,
            ),
            Err(StorageError::NotFound) => r is Err && r->Err_0 == ApiError(
                STATUS_NOT_FOUND,
                InternalErrorCode::FileNotInStorage,
            ),
        },
{
    match fetched {
        Ok(bytes) => Ok((STATUS_OK, bytes)),
        Err(StorageError::Internal(_)) => Err(
            err(STATUS_INTERNAL_SERVER_ERROR, InternalErrorCode::StorageBackendError),
        ),
        Err(StorageError::NotFound) => Err(err(STATUS_NOT_FOUND, InternalErrorCode::FileNotInStorage)),
    }
}

/// The record marked as deleted at `now`; nothing else changes.
pub fn mark_deleted(file: tracked_file::Model, now: Timestamp) -> (r: tracked_file::Model)
    ensures
        r == (tracked_file::Model { deleted_at: Some(now), ..file }),
{
    tracked_file::Model { deleted_at: Some(now), ..file }
}

/// Why an update request is refused before anything is stored: new contents
/// over the limit (`413 FileTooLarge`), or new contents sent without naming
/// the hash the file has now (`409 MismatchedFileHash`), so that an update
/// made without seeing the latest contents is refused.
pub open spec fn update_refusal(file: tracked_file::Model, req: UpdateFileReq, max_file_size: u64) -> Option<ApiError> {
    match req.update_contents {
        Some(c) => if c.file_bytes.len() > max_file_size {
            Some(ApiError(STATUS_PAYLOAD_TOO_LARGE, InternalErrorCode::FileTooLarge))
        } else if c.expected_hash != file.hash as u64 {
            Some(ApiError(STATUS_CONFLICT, InternalErrorCode::MismatchedFileHash))
        } else {
            None
        },
        None => None,
    }
}

/// The record after an accepted update at `now`: the writer and time are
/// always recorded, the name changes when a new one is given, and new
/// contents bring their hash.
pub open spec fn updated_record(file: tracked_file::Model, req: UpdateFileReq, now: Timestamp) -> tracked_file::Model {
    tracked_file::Model {
        last_updated_from: req.machine_name,
        updated_at: now,
        name: match req.name {
            Some(n) => n,
            None => file.name,
        },
        hash: match req.update_contents {
            Some(c) => c.hash as i64,
            None => file.hash,
        },
        ..file
    }
}

/// The contents an update request brings, if any.
pub open spec fn new_contents(req: UpdateFileReq) -> Option<Vec<u8>> {
    match req.update_contents {
        Some(c) => Some(c.file_bytes),
        None => None,
    }
}

/// The new state of a live file after an update request at `now`, and the
/// contents to store, if any; or why the request is refused.
pub fn plan_file_update(file: tracked_file::Model, req: UpdateFileReq, max_file_size: u64, now: Timestamp) -> (r: Result<
    (tracked_file::Model, Option<Vec<u8>>),
    ApiError,
>)
    ensures
        match update_refusal(file, req, max_file_size) {
            Some(e) => r == Err::<(tracked_file::Model, Option<Vec<u8>>), ApiError>(e),
            None => r == Ok::<(tracked_file::Model, Option<Vec<u8>>), ApiError>(
                (updated_record(file, req, now), new_contents(req)),
            ),
        },
        req.update_contents matches Some(c) && c.file_bytes.len() > max_file_size ==> r
            == Err::<(tracked_file::Model, Option<Vec<u8>>), ApiError>(
            ApiError(STATUS_PAYLOAD_TOO_LARGE, InternalErrorCode::FileTooLarge),
        ),
        req.update_contents matches Some(c) && c.file_bytes.len() <= max_file_size
            && c.expected_hash != file.hash as u64 ==> r == Err::<
            (tracked_file::Model, Option<Vec<u8>>),
            ApiError,
        >(ApiError(STATUS_CONFLICT, InternalErrorCode::MismatchedFileHash)),
        r matches Ok((m, Some(bytes))) ==> (req.update_contents matches Some(c)
            && c.expected_hash == file.hash as u64 && c.file_bytes.len() <= max_file_size
            && bytes == c.file_bytes && m.hash == c.hash as i64),
        r matches Ok((m, None)) ==> req.update_contents is None && m.hash == file.hash,
        req.update_contents is None ==> r is Ok,
{
    let current_hash = hash_from_stored(file.hash);
    let name = match req.name {
        Some(n) => n,
        None => file.name,
    };
    let mut updated = tracked_file::Model {
        last_updated_from: req.machine_name,
        updated_at: now,
        name,
        ..file
    };
    match req.update_contents {
        None => Ok((updated, None)),
        Some(c) => {
            check_file_size(c.file_bytes.len(), max_file_size)?;
            if c.expected_hash != current_hash {
                return Err(err(STATUS_CONFLICT, InternalErrorCode::MismatchedFileHash));
            }
            updated.hash = hash_to_stored(c.hash);
            Ok((updated, Some(c.file_bytes)))
        },
    }
}

/// The answer once an updated file record is saved: `201` with its name,
/// hash, last writer and time.
pub fn updated_file_response(saved: DbResult<tracked_file::Model>) -> (r: ApiResponse<
    UpdateFileRes,
>)
    ensures
        match saved {
            Err(_) => r is Err && r->Err_0 == ApiError(
                STATUS_INTERNAL_SERVER_ERROR,
                InternalErrorCode::InternalDBError,
            ),
            Ok(m) => r matches Ok((s, res)) && s == STATUS_CREATED && res.name == m.name
                && res.hash == m.hash as u64 && res.machine_name == m.last_updated_from
                && res.updated_at == m.updated_at,
        },
{
    match saved {
        Err(_) => Err(db_error()),
        Ok(m) => Ok(
            (
                STATUS_CREATED,
                UpdateFileRes {
                    name: m.name,
                    hash: hash_from_stored(m.hash),
                    machine_name: m.last_updated_from,
                    updated_at: m.updated_at,
                },
            ),
        ),
    }
}

/// Where the update of a file stands. The update runs in one database
/// transaction, begun once the file is known to be live.
pub enum UpdateState {
    /// Waiting for the transaction to begin.
    Beginning { file: tracked_file::Model, req: UpdateFileReq, key: String, max_file_size: u64 },
    /// Waiting for new contents to be stored; then the record is saved.
    Storing { updated: tracked_file::Model },
    /// Waiting for the record to be saved.
    Saving,
    /// Waiting for the transaction to commit.
    Committing { saved: tracked_file::Model },
    /// The request was answered (an unfinished transaction is rolled back).
    Finished,
}

/// What the server learned since the last step of an update.
pub enum UpdateEvent {
    /// The outcome of beginning the transaction, and the time then.
    Began { result: DbResult<()>, now: Timestamp },
    /// The outcome of storing the new contents.
    Stored { result: Result<(), StorageError> },
    /// The outcome of saving the record.
    Saved { result: DbResult<tracked_file::Model> },
    /// The outcome of committing the transaction.
    Committed { result: DbResult<()> },
}

/// What the server must do next in an update.
pub enum UpdateAction {
    /// Begin the transaction.
    Begin,
    /// Store these contents under `key`.
    Store { key: String, bytes: Vec<u8> },
    /// Save this record in the transaction.
    Save { row: tracked_file::Model },
    /// Commit the transaction.
    Commit,
    /// Answer the request.
    Answer { answer: ApiResponse<UpdateFileRes> },
}

/// Whether an event answers the action an update state is waiting on.
pub open spec fn update_event_fits(state: UpdateState, event: UpdateEvent) -> bool {
    match state {
        UpdateState::Beginning { .. } => event is Began,
        UpdateState::Storing { .. } => event is Stored,
        UpdateState::Saving => event is Saved,
        UpdateState::Committing { .. } => event is Committed,
        UpdateState::Finished => false,
    }
}

/// The answer to an update: an error, or `201` with the saved record's name,
/// hash, last writer and time.
pub open spec fn answers_update(r: (UpdateState, UpdateAction), answer: Result<tracked_file::Model, ApiError>) -> bool {
    &&& r.0 is Finished
    &&& r.1 is Answer
    &&& match answer {
        Ok(m) => r.1->Answer_answer matches Ok((s, res)) && s == STATUS_CREATED && res.name == m.name
            && res.hash == m.hash as u64 && res.machine_name == m.last_updated_from
            && res.updated_at == m.updated_at,
        Err(e) => r.1->Answer_answer == Err::<(u16, UpdateFileRes), ApiError>(e),
    }
}

/// How an update starts from the lookup of the caller's file: a failed
/// lookup is `500`, a missing file `404 FileNotFound` and a deleted one
/// `404 FileDeleted`; a live file's update begins a transaction, remembering
/// the key `<username>/<id>` its contents are stored under.
pub open spec fn update_started(
    found: DbResult<Option<tracked_file::Model>>,
    username: Seq<char>,
    req: UpdateFileReq,
    max_file_size: u64,
    r: (UpdateState, UpdateAction),
) -> bool {
    match found {
        Err(_) => answers_update(r, Err(ApiError(STATUS_INTERNAL_SERVER_ERROR, InternalErrorCode::InternalDBError))),
        Ok(None) => answers_update(r, Err(ApiError(STATUS_NOT_FOUND, InternalErrorCode::FileNotFound))),
        Ok(Some(m)) => if m.deleted_at is Some {
            answers_update(r, Err(ApiError(STATUS_NOT_FOUND, InternalErrorCode::FileDeleted)))
        } else {
            &&& r.0 is Beginning
            &&& r.0->Beginning_file == m
            &&& r.0->Beginning_req == req
            &&& r.0->Beginning_key@ == storage_key_text(username, m.id)
            &&& r.0->Beginning_max_file_size == max_file_size
            &&& r.1 is Begin
        },
    }
}

/// Starts updating one of `username`'s files, given the outcome of looking
/// it up.
pub fn update_start(
    found: DbResult<Option<tracked_file::Model>>,
    username: &str,
    req: UpdateFileReq,
    max_file_size: u64,
) -> (r: (UpdateState, UpdateAction))
    ensures
        update_started(found, username@, req, max_file_size, r),
{
    match require_live_file(found) {
        Err(e) => (UpdateState::Finished, UpdateAction::Answer { answer: Err(e) }),
        Ok(file) => {
            let key = storage_key(username, file.id);
            (UpdateState::Beginning { file, req, key, max_file_size }, UpdateAction::Begin)
        },
    }
}

/// Optimistic concurrency: new contents sent without naming the file's
/// current hash are refused with `409 MismatchedFileHash` (when they fit the
/// limit), whether or not a new name comes with them, and the step after
/// the transaction begins answers that refusal: nothing is stored or saved.
pub proof fn lemma_stale_hash_conflicts(
    file: tracked_file::Model,
    req: UpdateFileReq,
    key: String,
    max_file_size: u64,
    now: Timestamp,
    r: (UpdateState, UpdateAction),
)
    requires
        req.update_contents is Some,
        req.update_contents->Some_0.file_bytes.len() <= max_file_size,
        req.update_contents->Some_0.expected_hash != file.hash as u64,
        update_transition(
            UpdateState::Beginning { file, req, key, max_file_size },
            UpdateEvent::Began { result: Ok(()), now },
            r,
        ),
    ensures
        update_refusal(file, req, max_file_size) == Some(
            ApiError(STATUS_CONFLICT, InternalErrorCode::MismatchedFileHash),
        ),
        r.0 is Finished,
        r.1 is Answer,
        r.1->Answer_answer == Err::<(u16, UpdateFileRes), ApiError>(
            ApiError(STATUS_CONFLICT, InternalErrorCode::MismatchedFileHash),
        ),
{
}

/// An update whose contents name the current hash and fit the limit is
/// carried out: the new contents are stored and the record takes their hash,
/// keeping the file's id and owner.
pub proof fn lemma_current_hash_updates(
    file: tracked_file::Model,
    req: UpdateFileReq,
    key: String,
    max_file_size: u64,
    now: Timestamp,
    r: (UpdateState, UpdateAction),
)
    requires
        req.update_contents is Some,
        req.update_contents->Some_0.file_bytes.len() <= max_file_size,
        req.update_contents->Some_0.expected_hash == file.hash as u64,
        update_transition(
            UpdateState::Beginning { file, req, key, max_file_size },
            UpdateEvent::Began { result: Ok(()), now },
            r,
        ),
    ensures
        r.1 is Store,
        r.1->bytes == req.update_contents->Some_0.file_bytes,
        r.0 is Storing,
        r.0->updated.hash == req.update_contents->Some_0.hash as i64,
        r.0->updated.id == file.id,
        r.0->updated.user_id == file.user_id,
        r.0->updated.last_updated_from == req.machine_name,
        r.0->updated.updated_at == now,
{
}

/// What one step of an update gives. Once the transaction has begun, the
/// request is checked ([`update_refusal`]) and refused if it must be; new
/// contents are stored first and a failed store is `500
/// StorageBackendError`; then the record ([`updated_record`] at the time the
/// transaction began) is saved and the transaction committed, and the answer
/// describes the saved record. Any database failure is `500 InternalDBError`.
pub open spec fn update_transition(state: UpdateState, event: UpdateEvent, r: (UpdateState, UpdateAction)) -> bool {
    match state {
        UpdateState::Beginning { file, req, key, max_file_size } => match event {
            UpdateEvent::Began { result, now } => match result {
                Err(_) => answers_update(r, Err(ApiError(STATUS_INTERNAL_SERVER_ERROR, InternalErrorCode::InternalDBError))),
                Ok(()) => match update_refusal(file, req, max_file_size) {
                    Some(e) => answers_update(r, Err(e)),
                    None => match new_contents(req) {
                        Some(bytes) => {
                            &&& r.0 == UpdateState::Storing { updated: updated_record(file, req, now) }
                            &&& r.1 is Store
                            &&& r.1->Store_key@ == key@
                            &&& r.1->bytes == bytes
                        },
                        None => {
                            &&& r.0 is Saving
                            &&& r.1 == UpdateAction::Save { row: updated_record(file, req, now) }
                        },
                    },
                },
            },
            _ => false,
        },
        UpdateState::Storing { updated } => match event {
            UpdateEvent::Stored { result } => match result {
                Err(_) => answers_update(r, Err(ApiError(STATUS_INTERNAL_SERVER_ERROR, InternalErrorCode::StorageBackendError))),
                Ok(()) => {
                    &&& r.0 is Saving
                    &&& r.1 == UpdateAction::Save { row: updated }
                },
            },
            _ => false,
        },
        UpdateState::Saving => match event {
            UpdateEvent::Saved { result } => match result {
                Err(_) => answers_update(r, Err(ApiError(STATUS_INTERNAL_SERVER_ERROR, InternalErrorCode::InternalDBError))),
                Ok(m) => {
                    &&& r.0 == UpdateState::Committing { saved: m }
                    &&& r.1 is Commit
                },
            },
            _ => false,
        },
        UpdateState::Committing { saved } => match event {
            UpdateEvent::Committed { result } => match result {
                Err(_) => answers_update(r, Err(ApiError(STATUS_INTERNAL_SERVER_ERROR, InternalErrorCode::InternalDBError))),
                Ok(()) => answers_update(r, Ok(saved)),
            },
            _ => false,
        },
        UpdateState::Finished => false,
    }
}

/// One step of an update: see [`update_transition`].
pub fn update_step(state: UpdateState, event: UpdateEvent) -> (r: (UpdateState, UpdateAction))
    requires
        update_event_fits(state, event),
    ensures
        update_transition(state, event, r),
{
    match state {
        UpdateState::Beginning { file, req, key, max_file_size } => match event {
            UpdateEvent::Began { result, now } => {
                if result.is_err() {
                    return (UpdateState::Finished, UpdateAction::Answer { answer: Err(db_error()) });
                }
                match plan_file_update(file, req, max_file_size, now) {
                    Err(e) => (UpdateState::Finished, UpdateAction::Answer { answer: Err(e) }),
                    Ok((updated, Some(bytes))) => (
                        UpdateState::Storing { updated },
                        UpdateAction::Store { key, bytes },
                    ),
                    Ok((updated, None)) => (UpdateState::Saving, UpdateAction::Save { row: updated }),
                }
            },
            _ => {
                proof {
                    assert(false);
                }
                (UpdateState::Finished, UpdateAction::Answer { answer: Err(db_error()) })
            },
        },
        UpdateState::Storing { updated } => match event {
            UpdateEvent::Stored { result } => match storage_done(result) {
                Err(e) => (UpdateState::Finished, UpdateAction::Answer { answer: Err(e) }),
                Ok(()) => (UpdateState::Saving, UpdateAction::Save { row: updated }),
            },
            _ => {
                proof {
                    assert(false);
                }
                (UpdateState::Finished, UpdateAction::Answer { answer: Err(db_error()) })
            },
        },
        UpdateState::Saving => match event {
            UpdateEvent::Saved { result } => match result {
                Err(_) => (UpdateState::Finished, UpdateAction::Answer { answer: Err(db_error()) }),
                Ok(m) => (UpdateState::Committing { saved: m }, UpdateAction::Commit),
            },
            _ => {
                proof {
                    assert(false);
                }
                (UpdateState::Finished, UpdateAction::Answer { answer: Err(db_error()) })
            },
        },
        UpdateState::Committing { saved } => match event {
            UpdateEvent::Committed { result } => match result {
                Err(_) => (UpdateState::Finished, UpdateAction::Answer { answer: Err(db_error()) }),
                Ok(()) => (UpdateState::Finished, UpdateAction::Answer {
                    answer: updated_file_response(Ok(saved)),
                }),
            },
            _ => {
                proof {
                    assert(false);
                }
                (UpdateState::Finished, UpdateAction::Answer { answer: Err(db_error()) })
            },
        },
        UpdateState::Finished => {
            proof {
                assert(false);
            }
            (UpdateState::Finished, UpdateAction::Answer { answer: Err(db_error()) })
        },
    }
}

/// An update that names a hash other than the file's current one, or brings
/// contents over the limit, stores nothing and saves nothing: the step after
/// the transaction begins answers with the refusal.
pub proof fn lemma_refused_update_changes_nothing(
    state: UpdateState,
    event: UpdateEvent,
    r: (UpdateState, UpdateAction),
)
    requires
        state is Beginning,
        update_refusal(state->Beginning_file, state->Beginning_req, state->Beginning_max_file_size) is Some,
        event is Began,
        update_transition(state, event, r),
    ensures
        r.0 is Finished,
        r.1 is Answer,
        r.1->Answer_answer is Err,
{
}

/// Where the deletion of a file stands.
pub enum DeleteState {
    /// Waiting for the contents to be removed from storage.
    Removing { file: tracked_file::Model },
    /// Waiting for the record, marked deleted, to be saved.
    Marking,
    /// The request was answered.
    Finished,
}

/// What the server learned since the last step of a deletion.
pub enum DeleteEvent {
    /// The outcome of removing the contents, and the time then.
    Removed { result: Result<(), StorageError>, now: Timestamp },
    /// The outcome of saving the record.
    Saved { saved: DbResult<()> },
}

/// What the server must do next in a deletion.
pub enum DeleteAction {
    /// Remove what is stored under `key`.
    Remove { key: String },
    /// Save this record.
    Save { row: tracked_file::Model },
    /// Answer the request.
    Answer { answer: ApiResponse<()> },
}

/// Whether an event answers the action a deletion state is waiting on.
pub open spec fn delete_event_fits(state: DeleteState, event: DeleteEvent) -> bool {
    match state {
        DeleteState::Removing { .. } => event is Removed,
        DeleteState::Marking => event is Saved,
        DeleteState::Finished => false,
    }
}

/// The answer to a deletion.
pub open spec fn answers_delete(r: (DeleteState, DeleteAction), answer: ApiResponse<()>) -> bool {
    &&& r.0 is Finished
    &&& r.1 == DeleteAction::Answer { answer }
}

/// How a deletion starts from the lookup of the caller's file: only a live
/// file is deleted ([`require_live_file`]), and first its contents, stored
/// under `<username>/<id>`, are removed.
pub open spec fn delete_started(
    found: DbResult<Option<tracked_file::Model>>,
    username: Seq<char>,
    r: (DeleteState, DeleteAction),
) -> bool {
    match found {
        Err(_) => answers_delete(r, Err(ApiError(STATUS_INTERNAL_SERVER_ERROR, InternalErrorCode::InternalDBError))),
        Ok(None) => answers_delete(r, Err(ApiError(STATUS_NOT_FOUND, InternalErrorCode::FileNotFound))),
        Ok(Some(m)) => if m.deleted_at is Some {
            answers_delete(r, Err(ApiError(STATUS_NOT_FOUND, InternalErrorCode::FileDeleted)))
        } else {
            &&& r.0 == DeleteState::Removing { file: m }
            &&& r.1 is Remove
            &&& r.1->key@ == storage_key_text(username, m.id)
        },
    }
}

/// Starts deleting one of `username`'s files, given the outcome of looking
/// it up.
pub fn delete_start(found: DbResult<Option<tracked_file::Model>>, username: &str) -> (r: (
    DeleteState,
    DeleteAction,
))
    ensures
        delete_started(found, username@, r),
{
    match require_live_file(found) {
        Err(e) => (DeleteState::Finished, DeleteAction::Answer { answer: Err(e) }),
        Ok(file) => {
            let key = storage_key(username, file.id);
            (DeleteState::Removing { file }, DeleteAction::Remove { key })
        },
    }
}

/// What one step of a deletion gives: the record is marked deleted, at the
/// time the contents were removed, only once they are removed (a failing back
/// end is `500 StorageBackendError`); once it is saved the answer is `204`.
pub open spec fn delete_transition(state: DeleteState, event: DeleteEvent, r: (DeleteState, DeleteAction)) -> bool {
    match state {
        DeleteState::Removing { file } => match event {
            DeleteEvent::Removed { result, now } => match result {
                Err(_) => answers_delete(r, Err(ApiError(STATUS_INTERNAL_SERVER_ERROR, InternalErrorCode::StorageBackendError))),
                Ok(()) => {
                    &&& r.0 is Marking
                    &&& r.1 == DeleteAction::Save { row: tracked_file::Model { deleted_at: Some(now), ..file } }
                },
            },
            _ => false,
        },
        DeleteState::Marking => match event {
            DeleteEvent::Saved { saved } => match saved {
                Err(_) => answers_delete(r, Err(ApiError(STATUS_INTERNAL_SERVER_ERROR, InternalErrorCode::InternalDBError))),
                Ok(()) => answers_delete(r, Ok((STATUS_NO_CONTENT, ()))),
            },
            _ => false,
        },
        DeleteState::Finished => false,
    }
}

/// One step of a deletion: see [`delete_transition`].
pub fn delete_step(state: DeleteState, event: DeleteEvent) -> (r: (DeleteState, DeleteAction))
    requires
        delete_event_fits(state, event),
    ensures
        delete_transition(state, event, r),
{
    match state {
        DeleteState::Removing { file } => match event {
            DeleteEvent::Removed { result, now } => match storage_done(result) {
                Err(e) => (DeleteState::Finished, DeleteAction::Answer { answer: Err(e) }),
                Ok(()) => (DeleteState::Marking, DeleteAction::Save { row: mark_deleted(file, now) }),
            },
            _ => {
                proof {
                    assert(false);
                }
                (DeleteState::Finished, DeleteAction::Answer { answer: Err(db_error()) })
            },
        },
        DeleteState::Marking => match event {
            DeleteEvent::Saved { saved } => (
                DeleteState::Finished,
                DeleteAction::Answer { answer: no_content_once_saved(saved) },
            ),
            _ => {
                proof {
                    assert(false);
                }
                (DeleteState::Finished, DeleteAction::Answer { answer: Err(db_error()) })
            },
        },
        DeleteState::Finished => {
            proof {
                assert(false);
            }
            (DeleteState::Finished, DeleteAction::Answer { answer: Err(db_error()) })
        },
    }
}

} // verus!
