use opendal::error::{parse_error, Error, ErrorKind};
use opendal::ops::parse_u64;

#[test]
fn status_401_is_permission_denied() {
    let e = parse_error("read", "gdrive", 401, Vec::new());
    assert_eq!(e.kind(), ErrorKind::PermissionDenied);
    assert!(!e.is_temporary());
}

#[test]
fn status_403_is_permission_denied() {
    let e = parse_error("read", "gdrive", 403, Vec::new());
    assert_eq!(e.kind(), ErrorKind::PermissionDenied);
}

#[test]
fn status_404_is_not_found() {
    let e = parse_error("read", "gdrive", 404, Vec::new());
    assert_eq!(e.kind(), ErrorKind::NotFound);
    assert!(!e.is_temporary());
}

#[test]
fn status_409_and_412_are_condition_not_match() {
    assert_eq!(parse_error("write", "gdrive", 409, Vec::new()).kind(), ErrorKind::ConditionNotMatch);
    assert_eq!(parse_error("write", "gdrive", 412, Vec::new()).kind(), ErrorKind::ConditionNotMatch);
}

#[test]
fn status_429_is_unexpected_and_transient() {
    let e = parse_error("read", "gdrive", 429, Vec::new());
    assert_eq!(e.kind(), ErrorKind::Unexpected);
    assert!(e.is_temporary());
}

#[test]
fn status_500_is_unexpected_and_transient() {
    let e = parse_error("write", "vercel_artifacts", 500, Vec::new());
    assert_eq!(e.kind(), ErrorKind::Unexpected);
    assert!(e.is_temporary());
}

#[test]
fn status_418_is_unexpected_and_not_transient() {
    let e = parse_error("read", "gdrive", 418, Vec::new());
    assert_eq!(e.kind(), ErrorKind::Unexpected);
    assert!(!e.is_temporary());
}

#[test]
fn error_body_becomes_the_message() {
    let e = parse_error("read", "gdrive", 404, b"no such file".to_vec());
    assert_eq!(e.message, "no such file");
    assert_eq!(e.operation, "read");
    assert_eq!(e.context, vec![("service".to_string(), "gdrive".to_string())]);
}

#[test]
fn malformed_error_body_degrades_to_empty_message() {
    let e = parse_error("read", "gdrive", 500, vec![0xff, 0xfe, 0x80]);
    assert_eq!(e.kind(), ErrorKind::Unexpected);
    assert_eq!(e.message, "");
}

#[test]
fn with_operation_keeps_history_as_context() {
    let e = Error::new(ErrorKind::Unexpected, "boom")
        .with_operation("inner")
        .with_operation("outer");
    assert_eq!(e.operation, "outer");
    assert_eq!(e.context, vec![("called".to_string(), "inner".to_string())]);
}

#[test]
fn enrichment_never_changes_the_kind() {
    let e = Error::new(ErrorKind::NotFound, "absent")
        .with_operation("read")
        .with_context("path", "abc.txt")
        .with_source("transport closed")
        .set_temporary();
    assert_eq!(e.kind(), ErrorKind::NotFound);
    assert!(e.is_temporary());
    assert_eq!(e.source.as_deref(), Some("transport closed"));
}

#[test]
fn parse_u64_accepts_plain_decimals() {
    assert_eq!(parse_u64("0"), Some(0));
    assert_eq!(parse_u64("11"), Some(11));
    assert_eq!(parse_u64("18446744073709551615"), Some(u64::MAX));
}

#[test]
fn parse_u64_rejects_empty_garbage_and_overflow() {
    assert_eq!(parse_u64(""), None);
    assert_eq!(parse_u64("12a"), None);
    assert_eq!(parse_u64("-3"), None);
    assert_eq!(parse_u64("18446744073709551616"), None);
}
