//! The outcome of a remote call: a status code and a message.

use vstd::prelude::*;

verus! {

/// The status codes of a remote call.
#[derive(Debug, Clone, Copy, PartialEq, Eq, Structural, Hash)]
pub enum Code {
    Success,
    Cancelled,
    Unknown,
    InvalidArgument,
    DeadlineExceeded,
    NotFound,
    AlreadyExists,
    PermissionDenied,
    ResourceExhausted,
    FailedPrecondition,
    Aborted,
    OutOfRange,
    Unimplemented,
    Internal,
    Unavailable,
    DataLoss,
    Unauthenticated,
}

/// The code that the number `number` stands for on the wire. A number that
/// stands for none is read as [`Code::Unknown`].
pub open spec fn code_of_number(number: int) -> Code {
    if number == 0 {
        Code::Success
    } else if number == 1 {
        Code::Cancelled
    } else if number == 3 {
        Code::InvalidArgument
    } else if number == 4 {
        Code::DeadlineExceeded
    } else if number == 5 {
        Code::NotFound
    } else if number == 6 {
        Code::AlreadyExists
    } else if number == 7 {
        Code::PermissionDenied
    } else if number == 8 {
        Code::ResourceExhausted
    } else if number == 9 {
        Code::FailedPrecondition
    } else if number == 10 {
        Code::Aborted
    } else if number == 11 {
        Code::OutOfRange
    } else if number == 12 {
        Code::Unimplemented
    } else if number == 13 {
        Code::Internal
    } else if number == 14 {
        Code::Unavailable
    } else if number == 15 {
        Code::DataLoss
    } else if number == 16 {
        Code::Unauthenticated
    } else {
        Code::Unknown
    }
}

/// The sentence that describes a code.
pub open spec fn code_description(code: Code) -> Seq<char> {
    match code {
        Code::Success => "The operation completed successfully"@,
        Code::Cancelled => "The operation was cancelled"@,
        Code::Unknown => "Unknown error"@,
        Code::InvalidArgument => "Client specified an invalid argument"@,
        Code::DeadlineExceeded => "Deadline expired before operation could complete"@,
        Code::NotFound => "Some requested entity was not found"@,
        Code::AlreadyExists => "Some entity that we attempted to create already exists"@,
        Code::PermissionDenied => "The caller does not have permission to execute the specified operation"@,
        Code::ResourceExhausted => "Some resource has been exhausted"@,
        Code::FailedPrecondition => "The system is not in a state required for the operation's execution"@,
        Code::Aborted => "The operation was aborted"@,
        Code::OutOfRange => "Operation was attempted past the valid range"@,
        Code::Unimplemented => "Operation is not implemented or not supported"@,
        Code::Internal => "Internal error"@,
        Code::Unavailable => "The service is currently unavailable"@,
        Code::DataLoss => "Unrecoverable data loss or corruption"@,
        Code::Unauthenticated => "The request does not have valid authentication credentials"@,
    }
}

/// `tonic::Code::from(i32)` followed by the code's `to_string()`: the number
/// is read as `code_of_number` says, and the text is the sentence that
/// `tonic::Code::description` gives for that code.
#[verifier::external_body]
fn code_text(number: i32) -> (text: String)
    ensures
        text@ == code_description(code_of_number(number as int)),
{
    tonic::Code::from(number).to_string()
}

impl Code {
    /// The number that stands for the code on the wire.
    pub open spec fn spec_number(self) -> int {
        match self {
            Code::Success => 0,
            Code::Cancelled => 1,
            Code::Unknown => 2,
            Code::InvalidArgument => 3,
            Code::DeadlineExceeded => 4,
            Code::NotFound => 5,
            Code::AlreadyExists => 6,
            Code::PermissionDenied => 7,
            Code::ResourceExhausted => 8,
            Code::FailedPrecondition => 9,
            Code::Aborted => 10,
            Code::OutOfRange => 11,
            Code::Unimplemented => 12,
            Code::Internal => 13,
            Code::Unavailable => 14,
            Code::DataLoss => 15,
            Code::Unauthenticated => 16,
        }
    }

    /// The number that stands for the code on the wire.
    pub fn number(self) -> (number: i32)
        ensures
            number == self.spec_number(),
            code_of_number(number as int) == self,
    {
        match self {
            Code::Success => 0,
            Code::Cancelled => 1,
            Code::Unknown => 2,
            Code::InvalidArgument => 3,
            Code::DeadlineExceeded => 4,
            Code::NotFound => 5,
            Code::AlreadyExists => 6,
            Code::PermissionDenied => 7,
            Code::ResourceExhausted => 8,
            Code::FailedPrecondition => 9,
            Code::Aborted => 10,
            Code::OutOfRange => 11,
            Code::Unimplemented => 12,
            Code::Internal => 13,
            Code::Unavailable => 14,
            Code::DataLoss => 15,
            Code::Unauthenticated => 16,
        }
    }

    /// The code that `number` stands for; [`Code::Unknown`] where it stands
    /// for none.
    pub fn from_number(number: i32) -> (code: Code)
        ensures
            code == code_of_number(number as int),
    {
        match number {
            0 => Code::Success,
            1 => Code::Cancelled,
            3 => Code::InvalidArgument,
            4 => Code::DeadlineExceeded,
            5 => Code::NotFound,
            6 => Code::AlreadyExists,
            7 => Code::PermissionDenied,
            8 => Code::ResourceExhausted,
            9 => Code::FailedPrecondition,
            10 => Code::Aborted,
            11 => Code::OutOfRange,
            12 => Code::Unimplemented,
            13 => Code::Internal,
            14 => Code::Unavailable,
            15 => Code::DataLoss,
            16 => Code::Unauthenticated,
            _ => Code::Unknown,
        }
    }

    /// The sentence that describes the code.
    pub fn description(self) -> (text: String)
        ensures
            text@ == code_description(self),
    {
        code_text(self.number())
    }
}

/// What a [`Status`] is in contracts.
pub struct StatusView {
    pub code: Code,
    pub message: Seq<char>,
}

/// The failure of a remote call.
#[derive(Debug, PartialEq, Eq)]
pub struct Status {
    code: Code,
    message: String,
}

impl View for Status {
    type V = StatusView;

    closed spec fn view(&self) -> StatusView {
        StatusView { code: self.code, message: self.message@ }
    }
}

impl Clone for Status {
    fn clone(&self) -> (copy: Self)
        ensures
            copy@ == self@,
    {
        Status { code: self.code, message: self.message.clone() }
    }
}

impl Status {
    /// A status with the given code and message.
    pub fn new(code: Code, message: &str) -> (status: Status)
        ensures
            status@ == (StatusView { code, message: message@ }),
    {
        Status { code, message: message.to_owned() }
    }

    /// A status with the code [`Code::InvalidArgument`].
    pub fn invalid_argument(message: &str) -> (status: Status)
        ensures
            status@ == (StatusView { code: Code::InvalidArgument, message: message@ }),
    {
        Status::new(Code::InvalidArgument, message)
    }

    /// A status with the code [`Code::NotFound`].
    pub fn not_found(message: &str) -> (status: Status)
        ensures
            status@ == (StatusView { code: Code::NotFound, message: message@ }),
    {
        Status::new(Code::NotFound, message)
    }

    /// A status with the code [`Code::Internal`].
    pub fn internal(message: &str) -> (status: Status)
        ensures
            status@ == (StatusView { code: Code::Internal, message: message@ }),
    {
        Status::new(Code::Internal, message)
    }

    /// The code.
    pub fn code(&self) -> (code: Code)
        ensures
            code == self@.code,
    {
        self.code
    }

    /// The message.
    pub fn message(&self) -> (message: &str)
        ensures
            message@ == self@.message,
    {
        self.message.as_str()
    }
}

/// The view of an answer: of the message, or of the status.
pub open spec fn outcome<T: View>(result: Result<T, Status>) -> Result<T::V, StatusView> {
    match result {
        Ok(message) => Ok(message@),
        Err(status) => Err(status@),
    }
}

} // verus!
