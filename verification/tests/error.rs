use icelake::{ErrorKind, TableError};

#[test]
fn error_carries_kind_and_message() {
    let e = TableError::new(ErrorKind::Unexpected, "list metadata failed");
    assert_eq!(e.kind(), ErrorKind::Unexpected);
    assert_eq!(e.message(), "list metadata failed");
    assert_eq!(e.describe(), "Unexpected: list metadata failed");
}

#[test]
fn error_with_cause_appends_the_cause() {
    let e = TableError::with_cause(ErrorKind::IcebergDataInvalid, "Invalid metadata file name", "x");
    assert_eq!(e.kind(), ErrorKind::IcebergDataInvalid);
    assert_eq!(e.message(), "Invalid metadata file name: x");
    assert_eq!(e.describe(), "IcebergDataInvalid: Invalid metadata file name: x");
    assert_eq!(ErrorKind::IcebergDataInvalid.name(), "IcebergDataInvalid");
    assert_eq!(ErrorKind::Unexpected.name(), "Unexpected");
}
