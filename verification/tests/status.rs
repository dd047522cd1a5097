use movie_service::status::{Code, Status};

const CODES: [Code; 17] = [
    Code::Success,
    Code::Cancelled,
    Code::Unknown,
    Code::InvalidArgument,
    Code::DeadlineExceeded,
    Code::NotFound,
    Code::AlreadyExists,
    Code::PermissionDenied,
    Code::ResourceExhausted,
    Code::FailedPrecondition,
    Code::Aborted,
    Code::OutOfRange,
    Code::Unimplemented,
    Code::Internal,
    Code::Unavailable,
    Code::DataLoss,
    Code::Unauthenticated,
];

#[test]
fn codes_are_numbered_from_zero() {
    for (number, code) in CODES.iter().enumerate() {
        assert_eq!(code.number(), number as i32);
        assert_eq!(Code::from_number(number as i32), *code);
    }
}

#[test]
fn a_number_that_stands_for_no_code_is_unknown() {
    assert_eq!(Code::from_number(17), Code::Unknown);
    assert_eq!(Code::from_number(-1), Code::Unknown);
    assert_eq!(Code::from_number(i32::MAX), Code::Unknown);
}

#[test]
fn every_code_has_its_description() {
    let expected = [
        "The operation completed successfully",
        "The operation was cancelled",
        "Unknown error",
        "Client specified an invalid argument",
        "Deadline expired before operation could complete",
        "Some requested entity was not found",
        "Some entity that we attempted to create already exists",
        "The caller does not have permission to execute the specified operation",
        "Some resource has been exhausted",
        "The system is not in a state required for the operation's execution",
        "The operation was aborted",
        "Operation was attempted past the valid range",
        "Operation is not implemented or not supported",
        "Internal error",
        "The service is currently unavailable",
        "Unrecoverable data loss or corruption",
        "The request does not have valid authentication credentials",
    ];
    for (code, text) in CODES.iter().zip(expected) {
        assert_eq!(code.description(), text);
    }
}

#[test]
fn constructors_set_code_and_message() {
    let status = Status::not_found("Movie not found");
    assert_eq!(status.code(), Code::NotFound);
    assert_eq!(status.message(), "Movie not found");
    assert_eq!(Status::internal("Lock error").code(), Code::Internal);
    assert_eq!(Status::invalid_argument("No movie provided").code(), Code::InvalidArgument);
    assert_eq!(Status::new(Code::Unavailable, "down"), Status::new(Code::Unavailable, "down"));
    assert_ne!(Status::new(Code::Unavailable, "down"), Status::new(Code::Unknown, "down"));
}

#[test]
fn a_clone_of_a_status_equals_it() {
    let status = Status::invalid_argument("No movie provided");
    assert_eq!(status.clone(), status);
}
