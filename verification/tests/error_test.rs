use sync_server::api_types::{GetAllFilesReq, LimitError, Role};
use sync_server::discriminators::{
    check_file_absent, create_user_response, discriminators_response, require_named_user,
    synced_files_response,
};
use sync_server::error::{
    db_error, err, no_content_once_saved, ApiError, DbError, InternalErrorCode,
    JsonRejectionKind, PathRejectionKind, QueryRejectionKind,
};

#[test]
fn error_construction() {
    assert_eq!(err(418, InternalErrorCode::BadRequest), ApiError(418, InternalErrorCode::BadRequest));
    assert_eq!(db_error(), ApiError(500, InternalErrorCode::InternalDBError));
    let e: ApiError = (404, InternalErrorCode::FileNotFound).into();
    assert_eq!(e, ApiError(404, InternalErrorCode::FileNotFound));
    assert_eq!(no_content_once_saved(Ok(())), Ok((204, ())));
    assert_eq!(no_content_once_saved(Err(DbError)), Err(ApiError(500, InternalErrorCode::InternalDBError)));
}

#[test]
fn extractor_rejections() {
    assert_eq!(
        ApiError::from_json_rejection(JsonRejectionKind::DataError, 422, "missing field".to_string()),
        ApiError(400, InternalErrorCode::JsonRejection("missing field".to_string()))
    );
    assert_eq!(
        ApiError::from_json_rejection(JsonRejectionKind::SyntaxError, 422, "bad json".to_string()),
        ApiError(400, InternalErrorCode::JsonRejection("bad json".to_string()))
    );
    assert_eq!(
        ApiError::from_json_rejection(JsonRejectionKind::MissingContentType, 415, "ignored".to_string()),
        ApiError(400, InternalErrorCode::JsonRejection("Expected Content-Type: application/json".to_string()))
    );
    assert_eq!(
        ApiError::from_json_rejection(JsonRejectionKind::Other, 413, "too big".to_string()),
        ApiError(413, InternalErrorCode::JsonRejection("too big".to_string()))
    );
    assert_eq!(
        ApiError::from_path_rejection(PathRejectionKind::FailedToDeserialize, 500, "p".to_string()),
        ApiError(400, InternalErrorCode::PathRejection("p".to_string()))
    );
    assert_eq!(
        ApiError::from_path_rejection(PathRejectionKind::Other, 500, "p".to_string()),
        ApiError(500, InternalErrorCode::PathRejection("p".to_string()))
    );
    assert_eq!(
        ApiError::from_query_rejection(QueryRejectionKind::FailedToDeserialize, 500, "q".to_string()),
        ApiError(400, InternalErrorCode::QueryRejection("q".to_string()))
    );
    assert_eq!(
        ApiError::from_query_rejection(QueryRejectionKind::Other, 503, "q".to_string()),
        ApiError(503, InternalErrorCode::QueryRejection("q".to_string()))
    );
}

#[test]
fn listing_requests() {
    let d = GetAllFilesReq::default();
    assert!(!d.include_deleted);
    assert_eq!(d.limit, Some(100));
    assert_eq!(d.offset, Some(0));
    assert_eq!(GetAllFilesReq::check_limit(Some(0)), Err(LimitError::LimitTooSmall));
    assert_eq!(GetAllFilesReq::check_limit(Some(1)), Ok(Some(1)));
    assert_eq!(GetAllFilesReq::check_limit(None), Ok(None));
    assert_eq!(Role::default(), Role::User);
    assert!(Role::Banned.rank() < Role::User.rank() && Role::User.rank() < Role::Admin.rank());
}

#[test]
fn discriminator_endpoints() {
    let (s, res) = create_user_response(Ok(()), "eve".to_string()).unwrap();
    assert_eq!(s, 201);
    assert_eq!(res.username, Some("eve".to_string()));
    assert!(res.errors.is_none());
    assert_eq!(
        require_named_user(Ok(None)).err(),
        Some(ApiError(500, InternalErrorCode::NoSuchUserFoundError))
    );
    let (s, res) = discriminators_response(Ok(vec!["a".to_string(), "b".to_string()])).unwrap();
    assert_eq!(s, 200);
    assert_eq!(res.discriminators, vec!["a".to_string(), "b".to_string()]);
    assert_eq!(check_file_absent(&Ok(None)), Ok(()));
    assert_eq!(synced_files_response(Ok(())), Ok((201, ())));
    assert_eq!(
        synced_files_response(Err(DbError)),
        Err(ApiError(500, InternalErrorCode::InternalDBError))
    );
}
