use sync_server::config::{
    Config, FileSize, FileSizeError, LocalStorageConfig, S3ConfigError, S3StorageConfig,
    StorageBackend,
};

fn parsed(s: &str) -> u64 {
    match FileSize::parse(s) {
        Ok(fs) => fs.0,
        Err(_) => panic!("{:?} should parse", s),
    }
}

#[test]
fn file_size_units() {
    assert_eq!(parsed("1b"), 1);
    assert_eq!(parsed("1k"), 1024);
    assert_eq!(parsed("1K"), 1024);
    assert_eq!(parsed("1M"), 1048576);
    assert_eq!(parsed("1m"), 1048576);
    assert_eq!(parsed("1g"), 1073741824);
    assert_eq!(parsed("1024k"), 1048576);
    assert_eq!(parsed("512"), 512);
    assert_eq!(parsed("0"), 0);
}

#[test]
fn file_size_whitespace_and_sign() {
    assert_eq!(parsed("  2 k \n"), 2048);
    assert_eq!(parsed("\t7"), 7);
    assert_eq!(parsed("+5k"), 5120);
    assert_eq!(parsed("18446744073709551615"), u64::MAX);
}

#[test]
fn file_size_errors() {
    assert!(matches!(FileSize::parse(""), Err(FileSizeError::Empty)));
    assert!(matches!(FileSize::parse("   "), Err(FileSizeError::Empty)));
    match FileSize::parse("1x") {
        Err(FileSizeError::InvalidSuffix(s)) => assert_eq!(s, "x"),
        _ => panic!("expected an invalid suffix"),
    }
    match FileSize::parse("12T") {
        Err(FileSizeError::InvalidSuffix(s)) => assert_eq!(s, "T"),
        _ => panic!("expected an invalid suffix"),
    }
    match FileSize::parse("k") {
        Err(FileSizeError::InvalidNumber(s)) => assert_eq!(s, ""),
        _ => panic!("expected an invalid number"),
    }
    match FileSize::parse("-1") {
        Err(FileSizeError::InvalidNumber(s)) => assert_eq!(s, "-1"),
        _ => panic!("expected an invalid number"),
    }
    match FileSize::parse("1.5k") {
        Err(FileSizeError::InvalidNumber(s)) => assert_eq!(s, "1.5"),
        _ => panic!("expected an invalid number"),
    }
    match FileSize::parse("18446744073709551616") {
        Err(FileSizeError::InvalidNumber(s)) => assert_eq!(s, "18446744073709551616"),
        _ => panic!("expected an invalid number"),
    }
    match FileSize::parse(" 17179869184g ") {
        Err(FileSizeError::Overflow(s)) => assert_eq!(s, "17179869184g"),
        _ => panic!("expected an overflow"),
    }
}

#[test]
fn file_size_to_human() {
    assert_eq!(FileSize(524288).to_human(), "512k");
    assert_eq!(FileSize(1073741824).to_human(), "1g");
    assert_eq!(FileSize(3145728).to_human(), "3m");
    assert_eq!(FileSize(1536).to_human(), "1536");
    assert_eq!(FileSize(0).to_human(), "0");
    assert_eq!(FileSize(2048).to_human(), "2k");
    assert_eq!(FileSize(u64::MAX).to_human(), "18446744073709551615");
}

#[test]
fn file_size_round_trip() {
    for v in [0u64, 1, 1023, 1024, 1536, 524288, 1048576, 3221225472, u64::MAX, 17179869183 * 1073741824] {
        let text = FileSize(v).to_human();
        assert_eq!(parsed(&text), v, "round trip of {}", v);
    }
}

#[test]
fn defaults() {
    assert_eq!(FileSize::default().0, 524288);
    assert_eq!(FileSize::default().to_human(), "512k");
    assert_eq!(LocalStorageConfig::default().path, "./storage");
    let s3 = S3StorageConfig::default();
    assert_eq!(s3.bucket, "sync-server");
    assert!(s3.region.is_none());
    assert!(s3.endpoint_url.is_none());
    let cfg = Config::default();
    assert!(!cfg.log_http_requests);
    assert_eq!(cfg.max_file_size, FileSize(524288));
    match cfg.storage_backend {
        StorageBackend::Local(l) => assert_eq!(l.path, "./storage"),
        StorageBackend::S3(_) => panic!("default storage is local"),
    }
}

#[test]
fn s3_connection_settings() {
    let mut cfg = S3StorageConfig::default();
    assert_eq!(cfg.connection_settings(), Err(S3ConfigError::MissingEndpointUrl));
    cfg.region = Some("us-west".to_string());
    assert_eq!(cfg.connection_settings(), Err(S3ConfigError::MissingEndpointUrl));
    cfg.endpoint_url = Some("https://s3.example".to_string());
    assert_eq!(
        cfg.connection_settings(),
        Ok(("https://s3.example".to_string(), "us-west".to_string()))
    );
    cfg.region = None;
    assert_eq!(cfg.connection_settings(), Err(S3ConfigError::MissingRegion));
}

#[test]
fn file_size_suffix_case_and_bytes() {
    for (lower, upper) in [("3b", "3B"), ("3k", "3K"), ("3m", "3M"), ("3g", "3G")] {
        assert_eq!(parsed(lower), parsed(upper));
    }
    assert_eq!(parsed("42b"), 42);
    assert_eq!(parsed("42"), 42);
    assert_eq!(parsed(" \t42b\n"), parsed("42b"));
    match (FileSize::parse("17179869184g"), FileSize::parse("17179869184G")) {
        (Err(FileSizeError::Overflow(a)), Err(FileSizeError::Overflow(b))) => {
            assert_eq!(a, "17179869184g");
            assert_eq!(b, "17179869184G");
        }
        _ => panic!("both should overflow"),
    }
}
