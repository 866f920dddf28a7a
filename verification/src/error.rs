//! The errors that opening a socket and connecting it can end in.

use vstd::prelude::*;

verus! {

/// The point of an operation at which the socket stack reported a failure.
#[derive(Clone, Copy, Debug, PartialEq, Eq)]
pub enum FailurePoint {
    /// The socket could not be opened.
    Open,
    /// The hostname could not be resolved to any address.
    Resolution,
    /// No resolved address could be connected to.
    Connect,
}

/// Why an operation failed.
///
/// The three variants that come from the socket stack carry the name of the
/// operation that failed, the code that the stack returned, and the value that
/// the last-error register held when the error was built.
#[derive(Clone, Copy, Debug, PartialEq, Eq)]
pub enum Error {
    /// The hostname, with its terminating NUL, does not fit the name buffer.
    /// Nothing was asked of the socket stack.
    HostnameTooLong,
    /// The socket stack refused to open a socket.
    OpenFailed(&'static str, i32, i32),
    /// The resolver returned a non-zero code or no address at all.
    ResolutionFailed(&'static str, i32, i32),
    /// The attempts on the resolved addresses ended without a connection.
    ConnectFailed(&'static str, i32, i32),
}

/// The error that stands for a failure at `point` of `operation`, with the
/// stack's `code` and the register's `last_error`.
pub open spec fn classified(
    point: FailurePoint,
    operation: &'static str,
    code: i32,
    last_error: i32,
) -> Error {
    match point {
        FailurePoint::Open => Error::OpenFailed(operation, code, last_error),
        FailurePoint::Resolution => Error::ResolutionFailed(operation, code, last_error),
        FailurePoint::Connect => Error::ConnectFailed(operation, code, last_error),
    }
}

/// Builds the error for a failure that the socket stack reported.
///
/// This is a pure transformation: the register is not read here, its value is
/// handed in by whoever read it.
pub fn classify(point: FailurePoint, operation: &'static str, code: i32, last_error: i32) -> (error:
    Error)
    ensures
        error == classified(point, operation, code, last_error),
{
    match point {
        FailurePoint::Open => Error::OpenFailed(operation, code, last_error),
        FailurePoint::Resolution => Error::ResolutionFailed(operation, code, last_error),
        FailurePoint::Connect => Error::ConnectFailed(operation, code, last_error),
    }
}

impl Error {
    /// The code that the socket stack returned, where the error comes from it.
    pub open spec fn spec_code(self) -> Option<i32> {
        match self {
            Error::HostnameTooLong => None,
            Error::OpenFailed(_, code, _) => Some(code),
            Error::ResolutionFailed(_, code, _) => Some(code),
            Error::ConnectFailed(_, code, _) => Some(code),
        }
    }

    /// The value of the last-error register that the error carries, where it
    /// comes from the socket stack.
    pub open spec fn spec_last_error(self) -> Option<i32> {
        match self {
            Error::HostnameTooLong => None,
            Error::OpenFailed(_, _, last_error) => Some(last_error),
            Error::ResolutionFailed(_, _, last_error) => Some(last_error),
            Error::ConnectFailed(_, _, last_error) => Some(last_error),
        }
    }

    /// The code that the socket stack returned, if the error comes from it.
    #[verifier::when_used_as_spec(spec_code)]
    pub fn code(self) -> (code: Option<i32>)
        ensures
            code == self.spec_code(),
    {
        match self {
            Error::HostnameTooLong => None,
            Error::OpenFailed(_, code, _) => Some(code),
            Error::ResolutionFailed(_, code, _) => Some(code),
            Error::ConnectFailed(_, code, _) => Some(code),
        }
    }

    /// The snapshot of the last-error register, if the error comes from the
    /// socket stack.
    #[verifier::when_used_as_spec(spec_last_error)]
    pub fn last_error(self) -> (last_error: Option<i32>)
        ensures
            last_error == self.spec_last_error(),
    {
        match self {
            Error::HostnameTooLong => None,
            Error::OpenFailed(_, _, last_error) => Some(last_error),
            Error::ResolutionFailed(_, _, last_error) => Some(last_error),
            Error::ConnectFailed(_, _, last_error) => Some(last_error),
        }
    }
}

} // verus!
