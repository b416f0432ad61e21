use sync_server::api_types::{CreateFileReq, UpdateContents, UpdateFileReq};
use sync_server::entity::tracked_file;
use sync_server::error::{ApiError, DbError, InternalErrorCode};
use sync_server::files::{
    check_file_size, created_file_response, file_contents_response, file_info_response,
    hash_from_stored, hash_to_stored, mark_deleted, new_file_row, plan_file_update,
    require_live_file, storage_done, storage_key, updated_file_response, StorageError,
};
use sync_server::model::{FileId, Timestamp};

const ID: u128 = 0x67e55044_10b1_426f_9247_bb680e5fe0c8;

fn file(hash: i64, deleted: Option<i128>) -> tracked_file::Model {
    tracked_file::Model {
        id: FileId(ID),
        hash,
        name: "notes.txt".to_string(),
        last_updated_from: "desk".to_string(),
        updated_at: Timestamp { nanos: 1 },
        deleted_at: deleted.map(|n| Timestamp { nanos: n }),
        user_id: 4,
    }
}

#[test]
fn storage_keys() {
    assert_eq!(
        storage_key("alice", FileId(ID)),
        "alice/67e55044-10b1-426f-9247-bb680e5fe0c8"
    );
    assert_eq!(storage_key("bob", FileId(0)), "bob/00000000-0000-0000-0000-000000000000");
    assert_eq!(
        storage_key("x", FileId(u128::MAX)),
        "x/ffffffff-ffff-ffff-ffff-ffffffffffff"
    );
}

#[test]
fn hashes_keep_their_bits() {
    for h in [0u64, 1, 42, i64::MAX as u64, 1u64 << 63, u64::MAX] {
        assert_eq!(hash_from_stored(hash_to_stored(h)), h);
    }
    assert_eq!(hash_to_stored(u64::MAX), -1);
    assert_eq!(hash_from_stored(-2), u64::MAX - 1);
}

#[test]
fn size_limit() {
    assert_eq!(check_file_size(10, 10), Ok(()));
    assert_eq!(
        check_file_size(11, 10),
        Err(ApiError(413, InternalErrorCode::FileTooLarge))
    );
    assert_eq!(
        storage_done(Err(StorageError::Internal("disk".to_string()))),
        Err(ApiError(500, InternalErrorCode::StorageBackendError))
    );
    assert_eq!(storage_done(Ok(())), Ok(()));
}

#[test]
fn creating_files() {
    let req = CreateFileReq {
        name: "a.txt".to_string(),
        hash: u64::MAX,
        file_bytes: vec![1, 2, 3],
        machine_name: "laptop".to_string(),
    };
    let row = new_file_row(FileId(5), req, 4, Timestamp { nanos: 9 });
    assert_eq!(row.hash, -1);
    assert_eq!(row.name, "a.txt");
    assert_eq!(row.last_updated_from, "laptop");
    assert_eq!(row.updated_at, Timestamp { nanos: 9 });
    assert!(row.deleted_at.is_none());
    let (res, cleanup) = created_file_response(Ok(row));
    let (s, body) = res.unwrap();
    assert_eq!((s, body.id, cleanup), (201, FileId(5), false));
    let (res, cleanup) = created_file_response(Err(DbError));
    assert!(cleanup);
    assert_eq!(res.err(), Some(ApiError(500, InternalErrorCode::InternalDBError)));
}

#[test]
fn reading_files() {
    let (s, info) = file_info_response(Ok(Some(file(-1, Some(3))))).unwrap();
    assert_eq!(s, 200);
    assert_eq!(info.hash, u64::MAX);
    assert_eq!(info.deleted_at, Some(Timestamp { nanos: 3 }));
    assert_eq!(
        file_info_response(Ok(None)).err(),
        Some(ApiError(404, InternalErrorCode::FileNotFound))
    );
    assert_eq!(
        require_live_file(Ok(Some(file(0, Some(3))))).err(),
        Some(ApiError(404, InternalErrorCode::FileDeleted))
    );
    assert_eq!(require_live_file(Ok(Some(file(0, None)))).unwrap().user_id, 4);
    assert_eq!(
        require_live_file(Err(DbError)).err(),
        Some(ApiError(500, InternalErrorCode::InternalDBError))
    );
    assert_eq!(file_contents_response(Ok(vec![9, 8])), Ok((200, vec![9, 8])));
    assert_eq!(
        file_contents_response(Err(StorageError::NotFound)),
        Err(ApiError(404, InternalErrorCode::FileNotInStorage))
    );
    assert_eq!(
        file_contents_response(Err(StorageError::Internal("x".to_string()))),
        Err(ApiError(500, InternalErrorCode::StorageBackendError))
    );
}

#[test]
fn deleting_files() {
    let d = mark_deleted(file(7, None), Timestamp { nanos: 12 });
    assert_eq!(d.deleted_at, Some(Timestamp { nanos: 12 }));
    assert_eq!(d.hash, 7);
    assert_eq!(d.name, "notes.txt");
}

#[test]
fn updating_files() {
    let now = Timestamp { nanos: 50 };
    // rename only
    let req = UpdateFileReq { name: Some("b.txt".to_string()), machine_name: "phone".to_string(), update_contents: None };
    let (m, bytes) = plan_file_update(file(7, None), req, 100, now).unwrap();
    assert!(bytes.is_none());
    assert_eq!((m.name.as_str(), m.last_updated_from.as_str(), m.hash, m.updated_at), ("b.txt", "phone", 7, now));

    // contents written against the current hash
    let req = UpdateFileReq {
        name: None,
        machine_name: "phone".to_string(),
        update_contents: Some(UpdateContents { file_bytes: vec![1; 10], expected_hash: 7, hash: u64::MAX }),
    };
    let (m, bytes) = plan_file_update(file(7, None), req, 10, now).unwrap();
    assert_eq!(bytes, Some(vec![1; 10]));
    assert_eq!(m.name, "notes.txt");
    assert_eq!(m.hash, -1);
    let (s, res) = updated_file_response(Ok(m)).unwrap();
    assert_eq!((s, res.hash, res.machine_name.as_str(), res.updated_at), (201, u64::MAX, "phone", now));

    // stale writer
    let req = UpdateFileReq {
        name: Some("c".to_string()),
        machine_name: "phone".to_string(),
        update_contents: Some(UpdateContents { file_bytes: vec![], expected_hash: 6, hash: 1 }),
    };
    assert_eq!(
        plan_file_update(file(7, None), req, 10, now).err(),
        Some(ApiError(409, InternalErrorCode::MismatchedFileHash))
    );

    // too large, checked before the hash
    let req = UpdateFileReq {
        name: None,
        machine_name: "phone".to_string(),
        update_contents: Some(UpdateContents { file_bytes: vec![0; 11], expected_hash: 6, hash: 1 }),
    };
    assert_eq!(
        plan_file_update(file(7, None), req, 10, now).err(),
        Some(ApiError(413, InternalErrorCode::FileTooLarge))
    );
    assert_eq!(
        updated_file_response(Err(DbError)).err(),
        Some(ApiError(500, InternalErrorCode::InternalDBError))
    );
}
