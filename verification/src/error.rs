//! The error taxonomy of route operations, and the mapping from native status
//! codes into it.

use vstd::prelude::*;
use vstd::string::StringExecFns;

verus! {

/// The kinds of failure a route operation can report.
#[derive(Clone, Copy, Debug, PartialEq, Eq, Hash, Structural)]
pub enum ErrorKind {
    NotFound,
    PermissionDenied,
    InvalidInput,
    AlreadyExists,
    Other,
}

/// A failed route operation: its kind, and a message made of the operation's
/// description, a colon and a space, and the kind's description.
#[derive(Clone, Debug, PartialEq, Eq)]
pub struct RouteError {
    pub kind: ErrorKind,
    pub message: String,
}

/// The native status code that reports success.
pub const NO_ERROR: u32 = 0;

/// The native status code for a missing file or entry.
pub const ERROR_FILE_NOT_FOUND: u32 = 2;

/// The native status code for a caller without the privilege needed.
pub const ERROR_ACCESS_DENIED: u32 = 5;

/// The native status code for an invalid parameter.
pub const ERROR_INVALID_PARAMETER: u32 = 87;

/// The native status code for an element that was not found.
pub const ERROR_NOT_FOUND: u32 = 1168;

/// The native status code for an object that already exists.
pub const ERROR_OBJECT_ALREADY_EXISTS: u32 = 5010;

/// The kind that a native status code is mapped to.
pub open spec fn kind_of_code(code: u32) -> ErrorKind {
    if code == ERROR_FILE_NOT_FOUND || code == ERROR_NOT_FOUND {
        ErrorKind::NotFound
    } else if code == ERROR_ACCESS_DENIED {
        ErrorKind::PermissionDenied
    } else if code == ERROR_INVALID_PARAMETER {
        ErrorKind::InvalidInput
    } else if code == ERROR_OBJECT_ALREADY_EXISTS {
        ErrorKind::AlreadyExists
    } else {
        ErrorKind::Other
    }
}

/// The description of a kind, as it stands at the end of a message.
pub open spec fn kind_text(kind: ErrorKind) -> Seq<char> {
    match kind {
        ErrorKind::NotFound => "entity not found"@,
        ErrorKind::PermissionDenied => "permission denied"@,
        ErrorKind::InvalidInput => "invalid input parameter"@,
        ErrorKind::AlreadyExists => "entity already exists"@,
        ErrorKind::Other => "other error"@,
    }
}

/// The message of an error of the given kind raised by the operation that
/// `context` describes.
pub open spec fn message_text(context: Seq<char>, kind: ErrorKind) -> Seq<char> {
    context + ": "@ + kind_text(kind)
}

impl ErrorKind {
    /// The description of the kind.
    pub fn describe(&self) -> (s: &'static str)
        ensures
            s@ == kind_text(*self),
    {
        match self {
            ErrorKind::NotFound => "entity not found",
            ErrorKind::PermissionDenied => "permission denied",
            ErrorKind::InvalidInput => "invalid input parameter",
            ErrorKind::AlreadyExists => "entity already exists",
            ErrorKind::Other => "other error",
        }
    }
}

impl RouteError {
    /// An error of the given kind raised by the operation that `context`
    /// describes.
    pub fn new(kind: ErrorKind, context: &str) -> (e: RouteError)
        ensures
            e.kind == kind,
            e.message@ == message_text(context@, kind),
    {
        let mut message = String::from_str(context);
        message.append(": ");
        message.append(kind.describe());
        RouteError { kind, message }
    }
}

/// Maps a native status code to the kind it stands for.
pub fn kind_from_code(code: u32) -> (kind: ErrorKind)
    ensures
        kind == kind_of_code(code),
{
    if code == ERROR_FILE_NOT_FOUND || code == ERROR_NOT_FOUND {
        ErrorKind::NotFound
    } else if code == ERROR_ACCESS_DENIED {
        ErrorKind::PermissionDenied
    } else if code == ERROR_INVALID_PARAMETER {
        ErrorKind::InvalidInput
    } else if code == ERROR_OBJECT_ALREADY_EXISTS {
        ErrorKind::AlreadyExists
    } else {
        ErrorKind::Other
    }
}

/// The error for a native status code returned by the operation that `msg`
/// describes: codes 2 and 1168 are `NotFound`, 5 is `PermissionDenied`, 87 is
/// `InvalidInput`, 5010 is `AlreadyExists`, every other code is `Other`.
pub fn code_to_error(code: u32, msg: &str) -> (e: RouteError)
    ensures
        e.kind == kind_of_code(code),
        e.message@ == message_text(msg@, kind_of_code(code)),
{
    RouteError::new(kind_from_code(code), msg)
}

/// Turns the status code of a native call into a result: success for code 0,
/// otherwise the mapped error.
pub fn check_status(code: u32, msg: &str) -> (r: Result<(), RouteError>)
    ensures
        r is Ok <==> code == NO_ERROR,
        r is Err ==> r->Err_0.kind == kind_of_code(code) && r->Err_0.message@ == message_text(
            msg@,
            kind_of_code(code),
        ),
{
    if code == NO_ERROR {
        Ok(())
    } else {
        Err(code_to_error(code, msg))
    }
}

} // verus!
