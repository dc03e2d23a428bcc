//! Errors that requests are answered with.
use vstd::prelude::*;

verus! {

/// Class of a refused or failed request. `Stored` carries the wire code of a
/// failure that an earlier attempt left in the journal.
#[derive(Debug, Clone, Copy, PartialEq, Eq, Structural)]
pub enum ErrorCode {
    Conflict,
    ExecutableFormat,
    ExecutableIdentityDrift,
    Internal,
    InvalidParams,
    JournalCapacity,
    Lockdown,
    MethodNotFound,
    PlatformUnsupported,
    PolicyDenied,
    TokenRevoked,
    Unauthorized,
    Stored(i64),
}

/// A typed error answer.
#[derive(Debug)]
pub struct IpcError {
    pub code: ErrorCode,
    pub message: String,
}

impl IpcError {
    /// The error says exactly this.
    pub open spec fn is(self, code: ErrorCode, message: Seq<char>) -> bool {
        self.code == code && self.message@ == message
    }

    /// An error with a fixed message.
    pub fn new(code: ErrorCode, message: &str) -> (e: IpcError)
        ensures
            e.is(code, message@),
    {
        IpcError { code, message: message.to_owned() }
    }

    /// An error with a composed message.
    pub fn with_message(code: ErrorCode, message: String) -> (e: IpcError)
        ensures
            e.code == code,
            e.message == message,
            e.is(code, message@),
    {
        IpcError { code, message }
    }

    /// A copy of the error.
    pub fn copy(&self) -> (e: IpcError)
        ensures
            e == *self,
    {
        IpcError { code: self.code, message: self.message.clone() }
    }

    /// The text of the error.
    pub fn to_text(&self) -> (s: String)
        ensures
            s@ == self.message@,
    {
        self.message.clone()
    }
}

/// How an execution failed. One whose outcome is uncertain may have taken place
/// all the same: it is never tried again, and never recorded as a failure.
#[derive(Debug)]
pub struct ExecutionFailure {
    pub error: IpcError,
    pub uncertain: bool,
}

impl ExecutionFailure {
    /// A failure that is certain.
    pub fn definite(error: IpcError) -> (failure: ExecutionFailure)
        ensures
            failure == (ExecutionFailure { error, uncertain: false }),
    {
        ExecutionFailure { error, uncertain: false }
    }
}

} // verus!
