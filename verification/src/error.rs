//! Failure kinds, their stable status codes, and the cell that keeps the
//! failure of the most recent call.

use vstd::prelude::*;

verus! {

/// The class of a failure.
#[derive(Clone, Copy, Debug, PartialEq, Eq, Hash, Structural)]
pub enum ErrorKind {
    /// A malformed identifier, an unknown enumeration value, a malformed
    /// text encoding, or a required text argument that is absent.
    Input,
    /// The handle is unknown or has been released.
    HandleNotFound,
    /// The handle resolves to an object of another type than required.
    TypeMismatch,
    /// The cryptographic services rejected the operation.
    Crypto,
    /// The registry cannot issue the handles that the call needs.
    Resource,
}

/// The status that an entry point returns.
#[derive(Clone, Copy, Debug, PartialEq, Eq, Hash, Structural)]
pub enum ErrorCode {
    Success,
    Input,
    HandleNotFound,
    TypeMismatch,
    Crypto,
    Resource,
}

impl ErrorKind {
    /// The status that stands for this kind of failure.
    pub open spec fn code_spec(self) -> ErrorCode {
        match self {
            ErrorKind::Input => ErrorCode::Input,
            ErrorKind::HandleNotFound => ErrorCode::HandleNotFound,
            ErrorKind::TypeMismatch => ErrorCode::TypeMismatch,
            ErrorKind::Crypto => ErrorCode::Crypto,
            ErrorKind::Resource => ErrorCode::Resource,
        }
    }

    pub fn code(self) -> (code: ErrorCode)
        ensures
            code == self.code_spec(),
    {
        match self {
            ErrorKind::Input => ErrorCode::Input,
            ErrorKind::HandleNotFound => ErrorCode::HandleNotFound,
            ErrorKind::TypeMismatch => ErrorCode::TypeMismatch,
            ErrorKind::Crypto => ErrorCode::Crypto,
            ErrorKind::Resource => ErrorCode::Resource,
        }
    }
}

impl ErrorCode {
    /// The number that crosses the boundary: zero for success, a fixed
    /// positive number for each kind of failure.
    pub open spec fn number_spec(self) -> int {
        match self {
            ErrorCode::Success => 0,
            ErrorCode::Input => 1,
            ErrorCode::HandleNotFound => 2,
            ErrorCode::TypeMismatch => 3,
            ErrorCode::Crypto => 4,
            ErrorCode::Resource => 5,
        }
    }

    /// The kind of failure that this status reports, if it reports one.
    pub open spec fn kind_spec(self) -> Option<ErrorKind> {
        match self {
            ErrorCode::Success => None,
            ErrorCode::Input => Some(ErrorKind::Input),
            ErrorCode::HandleNotFound => Some(ErrorKind::HandleNotFound),
            ErrorCode::TypeMismatch => Some(ErrorKind::TypeMismatch),
            ErrorCode::Crypto => Some(ErrorKind::Crypto),
            ErrorCode::Resource => Some(ErrorKind::Resource),
        }
    }

    pub fn number(self) -> (n: i64)
        ensures
            n == self.number_spec(),
    {
        match self {
            ErrorCode::Success => 0,
            ErrorCode::Input => 1,
            ErrorCode::HandleNotFound => 2,
            ErrorCode::TypeMismatch => 3,
            ErrorCode::Crypto => 4,
            ErrorCode::Resource => 5,
        }
    }

    pub fn kind(self) -> (kind: Option<ErrorKind>)
        ensures
            kind == self.kind_spec(),
    {
        match self {
            ErrorCode::Success => None,
            ErrorCode::Input => Some(ErrorKind::Input),
            ErrorCode::HandleNotFound => Some(ErrorKind::HandleNotFound),
            ErrorCode::TypeMismatch => Some(ErrorKind::TypeMismatch),
            ErrorCode::Crypto => Some(ErrorKind::Crypto),
            ErrorCode::Resource => Some(ErrorKind::Resource),
        }
    }
}

/// No failure maps to the success status, and the status tells the kind.
pub proof fn lemma_code_tells_kind(kind: ErrorKind)
    ensures
        kind.code_spec() != ErrorCode::Success,
        kind.code_spec().number_spec() != 0,
        kind.code_spec().kind_spec() == Some(kind),
{
}

/// Two statuses with the same number are the same status.
pub proof fn lemma_number_tells_code(a: ErrorCode, b: ErrorCode)
    requires
        a.number_spec() == b.number_spec(),
    ensures
        a == b,
{
}

/// A failure: its kind and a message for the caller to read.
#[derive(Clone, Debug, PartialEq, Eq)]
pub struct Failure {
    pub kind: ErrorKind,
    pub message: String,
}

/// What a failure says, with its message as a sequence of characters.
pub struct FailureView {
    pub kind: ErrorKind,
    pub message: Seq<char>,
}

impl View for Failure {
    type V = FailureView;

    open spec fn view(&self) -> FailureView {
        FailureView { kind: self.kind, message: self.message@ }
    }
}

impl Failure {
    pub fn new(kind: ErrorKind, message: &str) -> (failure: Failure)
        ensures
            failure@ == (FailureView { kind, message: message@ }),
    {
        Failure { kind, message: message.to_owned() }
    }
}

/// The view of an optional failure.
pub open spec fn failure_view(failure: Option<Failure>) -> Option<FailureView> {
    match failure {
        Some(f) => Some(f@),
        None => None,
    }
}

/// The failure of a result, if it is one.
pub open spec fn result_failure<T>(result: Result<T, Failure>) -> Option<FailureView> {
    match result {
        Ok(_) => None,
        Err(failure) => Some(failure@),
    }
}

/// The status that stands for a result.
pub open spec fn result_code<T>(result: Result<T, Failure>) -> ErrorCode {
    match result {
        Ok(_) => ErrorCode::Success,
        Err(failure) => failure.kind.code_spec(),
    }
}

/// The cell that holds the failure of the most recent call, or nothing after
/// a call that succeeded. Each call overwrites it: it is no log.
pub struct LastError {
    current: Option<Failure>,
}

impl View for LastError {
    type V = Option<FailureView>;

    closed spec fn view(&self) -> Option<FailureView> {
        failure_view(self.current)
    }
}

impl LastError {
    /// A cell that holds no failure.
    pub fn new() -> (cell: LastError)
        ensures
            cell@ is None,
    {
        LastError { current: None }
    }

    /// Overwrites the cell with the outcome of a call and returns the status
    /// that stands for it.
    pub fn set(&mut self, failure: Option<Failure>) -> (code: ErrorCode)
        ensures
            final(self)@ == failure_view(failure),
            code == match failure {
                Some(f) => f.kind.code_spec(),
                None => ErrorCode::Success,
            },
    {
        let code = match &failure {
            Some(f) => f.kind.code(),
            None => ErrorCode::Success,
        };
        self.current = failure;
        code
    }

    /// The status of the most recent call.
    pub fn code(&self) -> (code: ErrorCode)
        ensures
            code == match self@ {
                Some(f) => f.kind.code_spec(),
                None => ErrorCode::Success,
            },
    {
        match &self.current {
            Some(f) => f.kind.code(),
            None => ErrorCode::Success,
        }
    }

    /// The kind of the most recent failure, if the most recent call failed.
    pub fn kind(&self) -> (kind: Option<ErrorKind>)
        ensures
            kind == match self@ {
                Some(f) => Some(f.kind),
                None => None,
            },
    {
        match &self.current {
            Some(f) => Some(f.kind),
            None => None,
        }
    }

    /// The message of the most recent failure, if the most recent call failed.
    pub fn message(&self) -> (message: Option<String>)
        ensures
            match self@ {
                Some(f) => message matches Some(m) && m@ == f.message,
                None => message is None,
            },
    {
        match &self.current {
            Some(f) => Some(f.message.clone()),
            None => None,
        }
    }
}

} // verus!
