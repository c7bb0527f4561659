use rustflow::error::{Error, Status, TFCode, TFError};

#[test]
fn fresh_status_is_success() {
    let status = Status::new();
    assert_eq!(status.code, 0);
    assert_eq!(status.message, "");
    assert!(status.to_result().is_ok());
}

#[test]
fn status_from_parts_keeps_code_and_message() {
    let status = Status::from_parts(3, String::from("bad graph def"));
    assert_eq!(status.code, 3);
    assert_eq!(status.message, "bad graph def");
}

#[test]
fn every_canonical_code_maps_to_its_taxonomy_entry() {
    let table = [
        (1, TFCode::Cancelled),
        (2, TFCode::Unknown),
        (3, TFCode::InvalidArgument),
        (4, TFCode::DeadlineExceeded),
        (5, TFCode::NotFound),
        (6, TFCode::AlreadyExists),
        (7, TFCode::PermissionDenied),
        (8, TFCode::ResourceExhausted),
        (9, TFCode::FailedPrecondition),
        (10, TFCode::Aborted),
        (11, TFCode::OutOfRange),
        (12, TFCode::Unimplemented),
        (13, TFCode::Internal),
        (14, TFCode::Unavailable),
        (15, TFCode::DataLoss),
        (16, TFCode::Unauthenticated),
    ];
    for (code, expected) in table {
        assert_eq!(TFCode::from_code(code), Some(expected));
    }
}

#[test]
fn success_code_maps_to_no_error() {
    assert_eq!(TFCode::from_code(0), None);
    assert_eq!(TFError::from_status(&Status::new()), None);
}

#[test]
fn code_outside_the_table_reads_as_unknown() {
    assert_eq!(TFCode::from_code(17), Some(TFCode::Unknown));
    assert_eq!(TFCode::from_code(9999), Some(TFCode::Unknown));
}

#[test]
fn failed_status_translates_code_and_passes_message_through() {
    let status = Status::from_parts(5, String::from("op not in graph"));
    let err = status.to_result().unwrap_err();
    assert_eq!(err.code(), TFCode::NotFound);
    assert_eq!(err.message(), "op not in graph");
}

#[test]
fn error_wraps_native_error_through_from() {
    let status = Status::from_parts(13, String::from("broken invariant"));
    let tferr = TFError::from_status(&status).unwrap();
    let err = Error::from(tferr);
    match err {
        Error::TFError(inner) => {
            assert_eq!(inner.code(), TFCode::Internal);
            assert_eq!(inner.message(), "broken invariant");
        }
        other => panic!("expected a native error, got {:?}", other),
    }
}
