use ast_toolkit_2::railroad::error::Error;
use std::io::{Error as IoError, ErrorKind};

#[test]
fn a_written_file_is_success() {
    assert!(Error::from_write("out.svg".to_string(), Ok(())).is_ok());
}

#[test]
fn a_failed_write_keeps_path_and_cause() {
    let cause = IoError::new(ErrorKind::PermissionDenied, "denied");
    match Error::from_write("/root/out.svg".to_string(), Err(cause)) {
        Err(Error::FileWrite { path, err }) => {
            assert_eq!(path, "/root/out.svg");
            assert_eq!(err.kind(), ErrorKind::PermissionDenied);
            assert_eq!(err.to_string(), "denied");
        },
        Ok(()) => panic!("a failed write was taken for a success"),
    }
}

#[test]
fn message_quotes_the_path() {
    let error = Error::FileWrite { path: "a \"b\".svg".to_string(), err: IoError::new(ErrorKind::Other, "x") };
    assert_eq!(error.message(), "Failed to write to file \"a \\\"b\\\".svg\"");
    let error = Error::FileWrite { path: "out.svg".to_string(), err: IoError::new(ErrorKind::Other, "x") };
    assert_eq!(error.message(), "Failed to write to file \"out.svg\"");
}

#[test]
fn source_is_the_cause() {
    let error = Error::FileWrite { path: "p".to_string(), err: IoError::new(ErrorKind::NotFound, "gone") };
    assert_eq!(error.source().kind(), ErrorKind::NotFound);
    assert_eq!(error.source().to_string(), "gone");
}
