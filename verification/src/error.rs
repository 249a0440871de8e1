//! What can go wrong in a reconciliation pass, and how each failure is
//! classed: only a malformed resource is given up on, everything else is
//! tried again after a backoff.

use vstd::prelude::*;
use vstd::string::*;

verus! {

/// HTTP status of a request for an object that is not there.
pub const NOT_FOUND: u16 = 404;

/// HTTP status of a write that lost against a concurrent writer.
pub const CONFLICT: u16 = 409;

/// A failed call to the cluster API, as plain values: the HTTP status where
/// the server answered, none where the request never got that far.
#[derive(Clone, Debug, PartialEq, Eq)]
pub struct ApiError {
    pub code: Option<u16>,
    pub message: String,
}

pub struct ApiErrorView {
    pub code: Option<u16>,
    pub message: Seq<char>,
}

impl View for ApiError {
    type V = ApiErrorView;

    open spec fn view(&self) -> ApiErrorView {
        ApiErrorView { code: self.code, message: self.message@ }
    }
}

impl ApiErrorView {
    pub open spec fn is_not_found(self) -> bool {
        self.code == Some(NOT_FOUND)
    }

    pub open spec fn is_conflict(self) -> bool {
        self.code == Some(CONFLICT)
    }
}

impl ApiError {
    /// Whether the server said that the target does not exist.
    pub fn is_not_found(&self) -> (found: bool)
        ensures
            found == self@.is_not_found(),
    {
        match self.code {
            Some(code) => code == NOT_FOUND,
            None => false,
        }
    }

    /// Whether the server refused the write because another writer got there
    /// first.
    pub fn is_conflict(&self) -> (conflict: bool)
        ensures
            conflict == self@.is_conflict(),
    {
        match self.code {
            Some(code) => code == CONFLICT,
            None => false,
        }
    }
}

/// The classes of failure that the controller tells apart.
#[derive(Clone, Copy, Debug, PartialEq, Eq, Structural)]
pub enum ErrorKind {
    /// The resource itself is malformed; no retry can mend it.
    Input,
    /// A call to the cluster API failed.
    Transport,
    /// The completion provider failed or timed out.
    ExternalService,
    /// A status write was rejected because of a concurrent writer.
    Conflict,
}

/// The errors of a reconciliation pass.
#[derive(Clone, Debug, PartialEq, Eq)]
pub enum AiOperatorError {
    /// The cluster API reported a failure.
    KubeError { source: ApiError },
    /// Error in user input or in the resource's definition, typically a
    /// missing field.
    UserInputError(String),
    /// The completion provider gave no answer.
    CompletionError(String),
}

pub enum AiOperatorErrorView {
    KubeError { source: ApiErrorView },
    UserInputError(Seq<char>),
    CompletionError(Seq<char>),
}

impl View for AiOperatorError {
    type V = AiOperatorErrorView;

    open spec fn view(&self) -> AiOperatorErrorView {
        match self {
            AiOperatorError::KubeError { source } => AiOperatorErrorView::KubeError {
                source: source@,
            },
            AiOperatorError::UserInputError(reason) => AiOperatorErrorView::UserInputError(
                reason@,
            ),
            AiOperatorError::CompletionError(reason) => AiOperatorErrorView::CompletionError(
                reason@,
            ),
        }
    }
}

impl AiOperatorErrorView {
    pub open spec fn kind(self) -> ErrorKind {
        match self {
            AiOperatorErrorView::KubeError { source } => if source.is_conflict() {
                ErrorKind::Conflict
            } else {
                ErrorKind::Transport
            },
            AiOperatorErrorView::UserInputError(_) => ErrorKind::Input,
            AiOperatorErrorView::CompletionError(_) => ErrorKind::ExternalService,
        }
    }

    /// Every class but a malformed resource is worth another attempt.
    pub open spec fn is_retryable(self) -> bool {
        self.kind() != ErrorKind::Input
    }

    /// The text shown for the error: a prefix that names its origin, then
    /// the detail.
    pub open spec fn message(self) -> Seq<char> {
        match self {
            AiOperatorErrorView::KubeError { source } => "Kubernetes Example Operator Error: "@
                + source.message,
            AiOperatorErrorView::UserInputError(reason) => "Invalid AiOperator CRD: "@ + reason,
            AiOperatorErrorView::CompletionError(reason) => "Completion provider error: "@
                + reason,
        }
    }
}

impl AiOperatorError {
    /// The class of this error.
    pub fn kind(&self) -> (kind: ErrorKind)
        ensures
            kind == self@.kind(),
    {
        match self {
            AiOperatorError::KubeError { source } => {
                if source.is_conflict() {
                    ErrorKind::Conflict
                } else {
                    ErrorKind::Transport
                }
            },
            AiOperatorError::UserInputError(_) => ErrorKind::Input,
            AiOperatorError::CompletionError(_) => ErrorKind::ExternalService,
        }
    }

    /// Whether a later pass may succeed where this one failed.
    pub fn is_retryable(&self) -> (retryable: bool)
        ensures
            retryable == self@.is_retryable(),
    {
        match self.kind() {
            ErrorKind::Input => false,
            _ => true,
        }
    }

    /// The text shown for the error.
    pub fn message(&self) -> (text: String)
        ensures
            text@ == self@.message(),
    {
        match self {
            AiOperatorError::KubeError { source } => {
                String::from_str("Kubernetes Example Operator Error: ").concat(
                    source.message.as_str(),
                )
            },
            AiOperatorError::UserInputError(reason) => {
                String::from_str("Invalid AiOperator CRD: ").concat(reason.as_str())
            },
            AiOperatorError::CompletionError(reason) => {
                String::from_str("Completion provider error: ").concat(reason.as_str())
            },
        }
    }
}

} // verus!
