use vstd::prelude::*;

verus! {

/// Code a native status carries when the call it reports on succeeded.
pub const TF_OK: u32 = 0;
pub const TF_CANCELLED: u32 = 1;
pub const TF_UNKNOWN: u32 = 2;
pub const TF_INVALID_ARGUMENT: u32 = 3;
pub const TF_DEADLINE_EXCEEDED: u32 = 4;
pub const TF_NOT_FOUND: u32 = 5;
pub const TF_ALREADY_EXISTS: u32 = 6;
pub const TF_PERMISSION_DENIED: u32 = 7;
pub const TF_RESOURCE_EXHAUSTED: u32 = 8;
pub const TF_FAILED_PRECONDITION: u32 = 9;
pub const TF_ABORTED: u32 = 10;
pub const TF_OUT_OF_RANGE: u32 = 11;
pub const TF_UNIMPLEMENTED: u32 = 12;
pub const TF_INTERNAL: u32 = 13;
pub const TF_UNAVAILABLE: u32 = 14;
pub const TF_DATA_LOSS: u32 = 15;
pub const TF_UNAUTHENTICATED: u32 = 16;

/// The closed taxonomy of canonical error codes the native runtime reports.
#[derive(Debug, Clone, Copy, PartialEq, Eq, Structural)]
pub enum TFCode {
    Cancelled,
    Unknown,
    InvalidArgument,
    DeadlineExceeded,
    NotFound,
    AlreadyExists,
    PermissionDenied,
    ResourceExhausted,
    FailedPrecondition,
    Aborted,
    OutOfRange,
    Unimplemented,
    Internal,
    Unavailable,
    DataLoss,
    Unauthenticated,
}

/// The canonical code a numeric status value names: `None` for success,
/// otherwise the matching taxonomy entry. A value outside the native
/// table is read leniently as `Unknown` rather than refused.
pub open spec fn spec_code_from(code: u32) -> Option<TFCode> {
    if code == TF_OK {
        None
    } else if code == TF_CANCELLED {
        Some(TFCode::Cancelled)
    } else if code == TF_UNKNOWN {
        Some(TFCode::Unknown)
    } else if code == TF_INVALID_ARGUMENT {
        Some(TFCode::InvalidArgument)
    } else if code == TF_DEADLINE_EXCEEDED {
        Some(TFCode::DeadlineExceeded)
    } else if code == TF_NOT_FOUND {
        Some(TFCode::NotFound)
    } else if code == TF_ALREADY_EXISTS {
        Some(TFCode::AlreadyExists)
    } else if code == TF_PERMISSION_DENIED {
        Some(TFCode::PermissionDenied)
    } else if code == TF_RESOURCE_EXHAUSTED {
        Some(TFCode::ResourceExhausted)
    } else if code == TF_FAILED_PRECONDITION {
        Some(TFCode::FailedPrecondition)
    } else if code == TF_ABORTED {
        Some(TFCode::Aborted)
    } else if code == TF_OUT_OF_RANGE {
        Some(TFCode::OutOfRange)
    } else if code == TF_UNIMPLEMENTED {
        Some(TFCode::Unimplemented)
    } else if code == TF_INTERNAL {
        Some(TFCode::Internal)
    } else if code == TF_UNAVAILABLE {
        Some(TFCode::Unavailable)
    } else if code == TF_DATA_LOSS {
        Some(TFCode::DataLoss)
    } else if code == TF_UNAUTHENTICATED {
        Some(TFCode::Unauthenticated)
    } else {
        Some(TFCode::Unknown)
    }
}

/// A native status, materialized as the plain pair the runtime reports
/// through its out-parameter convention: a numeric canonical code and the
/// runtime's own human-readable message.
pub struct Status {
    pub code: u32,
    pub message: String,
}

impl Status {
    /// A fresh status, as the native runtime hands it out before any call:
    /// success, with no message.
    pub fn new() -> (r: Status)
        ensures
            r.code == TF_OK,
            r.message@ == Seq::<char>::empty(),
    {
        Status { code: TF_OK, message: String::new() }
    }

    /// The status pair observed at the native boundary once a fallible
    /// call has completed.
    pub fn from_parts(code: u32, message: String) -> (r: Status)
        ensures
            r.code == code,
            r.message == message,
    {
        Status { code, message }
    }

    /// Success when the code says "no error", otherwise the typed error
    /// carrying the matching taxonomy entry and the unmodified message.
    pub fn to_result(&self) -> (r: Result<(), TFError>)
        ensures
            r is Ok <==> self.code == TF_OK,
            r is Err ==> Some(r->Err_0.code_spec()) == spec_code_from(self.code)
                && r->Err_0.message_spec() == self.message@,
    {
        match TFError::from_status(self) {
            Some(err) => Err(err),
            None => Ok(()),
        }
    }
}

impl TFCode {
    /// The taxonomy entry for a numeric code, `None` on the success code.
    pub fn from_code(code: u32) -> (r: Option<TFCode>)
        ensures
            r == spec_code_from(code),
    {
        if code == TF_OK {
            None
        } else if code == TF_CANCELLED {
            Some(TFCode::Cancelled)
        } else if code == TF_UNKNOWN {
            Some(TFCode::Unknown)
        } else if code == TF_INVALID_ARGUMENT {
            Some(TFCode::InvalidArgument)
        } else if code == TF_DEADLINE_EXCEEDED {
            Some(TFCode::DeadlineExceeded)
        } else if code == TF_NOT_FOUND {
            Some(TFCode::NotFound)
        } else if code == TF_ALREADY_EXISTS {
            Some(TFCode::AlreadyExists)
        } else if code == TF_PERMISSION_DENIED {
            Some(TFCode::PermissionDenied)
        } else if code == TF_RESOURCE_EXHAUSTED {
            Some(TFCode::ResourceExhausted)
        } else if code == TF_FAILED_PRECONDITION {
            Some(TFCode::FailedPrecondition)
        } else if code == TF_ABORTED {
            Some(TFCode::Aborted)
        } else if code == TF_OUT_OF_RANGE {
            Some(TFCode::OutOfRange)
        } else if code == TF_UNIMPLEMENTED {
            Some(TFCode::Unimplemented)
        } else if code == TF_INTERNAL {
            Some(TFCode::Internal)
        } else if code == TF_UNAVAILABLE {
            Some(TFCode::Unavailable)
        } else if code == TF_DATA_LOSS {
            Some(TFCode::DataLoss)
        } else if code == TF_UNAUTHENTICATED {
            Some(TFCode::Unauthenticated)
        } else {
            Some(TFCode::Unknown)
        }
    }

    /// The taxonomy entry a status names, `None` when the status reports success.
    pub fn from_status(status: &Status) -> (r: Option<TFCode>)
        ensures
            r == spec_code_from(status.code),
    {
        TFCode::from_code(status.code)
    }
}

/// A native runtime error: the canonical code a failed call reported,
/// together with the runtime's message text, passed through unmodified.
#[derive(Debug, PartialEq, Eq)]
pub struct TFError {
    code: TFCode,
    message: String,
}

impl TFError {
    pub closed spec fn code_spec(&self) -> TFCode {
        self.code
    }

    pub closed spec fn message_spec(&self) -> Seq<char> {
        self.message@
    }

    /// The typed error a status names, `None` when the status reports success.
    pub fn from_status(status: &Status) -> (r: Option<TFError>)
        ensures
            r is Some <==> status.code != TF_OK,
            r is Some ==> Some(r->Some_0.code_spec()) == spec_code_from(status.code)
                && r->Some_0.message_spec() == status.message@,
    {
        match TFCode::from_status(status) {
            Some(code) => Some(TFError { code, message: status.message.clone() }),
            None => None,
        }
    }

    pub fn code(&self) -> (r: TFCode)
        ensures
            r == self.code_spec(),
    {
        self.code
    }

    pub fn message(&self) -> (r: &String)
        ensures
            r@ == self.message_spec(),
    {
        &self.message
    }
}

/// Any error this library produces: a translated native error, a tensor
/// shape that disagrees with its data, or a native allocator that yielded
/// a null handle with no status to explain it.
#[derive(Debug, PartialEq, Eq)]
pub enum Error {
    TFError(TFError),
    InvalidShape { data_len: usize, shape: Vec<i64> },
    ObjectCreationFailure,
}

impl From<TFError> for Error {
    fn from(err: TFError) -> (r: Error) {
        Error::TFError(err)
    }
}

impl vstd::std_specs::convert::FromSpecImpl<TFError> for Error {
    open spec fn obeys_from_spec() -> bool {
        true
    }

    open spec fn from_spec(err: TFError) -> Error {
        Error::TFError(err)
    }
}

} // verus!
