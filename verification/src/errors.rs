//! The closed set of failure codes and the error value every fallible
//! operation reports.

use vstd::prelude::*;

verus! {

/// Machine-readable failure codes. The set is closed: a new failure mode gets
/// a new code, and the meaning of an existing code never changes.
#[derive(Debug, Clone, Copy, PartialEq, Eq, Structural)]
pub enum ErrorCode {
    ConfigMissing,
    ConfigInvalid,
    ProviderUnavailable,
    ProviderError,
    SearchUnavailable,
    SearchError,
    LocalModelLoadFailed,
    Timeout,
    Internal,
}

impl ErrorCode {
    /// The stable textual name of the code, as it appears in failure summaries.
    pub open spec fn label(self) -> Seq<char> {
        match self {
            ErrorCode::ConfigMissing => "ConfigMissing"@,
            ErrorCode::ConfigInvalid => "ConfigInvalid"@,
            ErrorCode::ProviderUnavailable => "ProviderUnavailable"@,
            ErrorCode::ProviderError => "ProviderError"@,
            ErrorCode::SearchUnavailable => "SearchUnavailable"@,
            ErrorCode::SearchError => "SearchError"@,
            ErrorCode::LocalModelLoadFailed => "LocalModelLoadFailed"@,
            ErrorCode::Timeout => "Timeout"@,
            ErrorCode::Internal => "Internal"@,
        }
    }

    /// Returns the textual name of the code.
    pub fn name(self) -> (r: &'static str)
        ensures
            r@ == self.label(),
    {
        match self {
            ErrorCode::ConfigMissing => "ConfigMissing",
            ErrorCode::ConfigInvalid => "ConfigInvalid",
            ErrorCode::ProviderUnavailable => "ProviderUnavailable",
            ErrorCode::ProviderError => "ProviderError",
            ErrorCode::SearchUnavailable => "SearchUnavailable",
            ErrorCode::SearchError => "SearchError",
            ErrorCode::LocalModelLoadFailed => "LocalModelLoadFailed",
            ErrorCode::Timeout => "Timeout",
            ErrorCode::Internal => "Internal",
        }
    }
}

/// A failure: a code that programs match on and a message for people.
#[derive(Debug)]
pub struct CoreError {
    pub code: ErrorCode,
    pub message: String,
}

/// What a `CoreError` holds, with the message as a plain sequence of
/// characters.
pub ghost struct ErrorView {
    pub code: ErrorCode,
    pub message: Seq<char>,
}

impl View for CoreError {
    type V = ErrorView;

    open spec fn view(&self) -> ErrorView {
        ErrorView { code: self.code, message: self.message@ }
    }
}

impl CoreError {
    /// Builds the error value with the given code and message.
    pub fn new(code: ErrorCode, message: &str) -> (e: Self)
        ensures
            e.code == code,
            e.message@ == message@,
    {
        CoreError { code, message: message.to_owned() }
    }

    /// The human-readable text of the error: its message.
    pub fn describe(&self) -> (r: String)
        ensures
            r@ == self.message@,
    {
        self.message.clone()
    }

    /// Whether the error carries the given code.
    pub fn has_code(&self, code: ErrorCode) -> (r: bool)
        ensures
            r == (self.code == code),
    {
        self.code == code
    }
}

/// Two errors are equal when their codes are: the message is diagnostic only.
impl PartialEq for CoreError {
    fn eq(&self, other: &Self) -> (r: bool) {
        self.code == other.code
    }
}

impl vstd::std_specs::cmp::PartialEqSpecImpl for CoreError {
    open spec fn obeys_eq_spec() -> bool {
        true
    }

    open spec fn eq_spec(&self, other: &Self) -> bool {
        self.code == other.code
    }
}

} // verus!
