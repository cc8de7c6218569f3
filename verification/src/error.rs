//! The typed failures that a pipeline run or a verification pass can end with.

use vstd::prelude::*;
use vstd::string::*;

verus! {

/// What went wrong, by category.
#[derive(Clone, Copy, Debug, PartialEq, Eq, Structural)]
pub enum ErrorKind {
    /// The request body is not text.
    InvalidInput,
    /// A workspace or store location could not be read or written.
    IoError,
    /// The toolchain could not be run or did not compile the guest.
    BuildError,
    /// The engine could not load, execute or prove the guest.
    ProvingError,
    /// The guest did not end with the success exit status.
    ExitCodeMismatch,
    /// A proof or a stored record could not be encoded or decoded.
    SerializationError,
    /// A stored proof does not attest the binary it was checked against.
    VerificationError,
}

/// The name under which a category is reported.
pub open spec fn kind_name(kind: ErrorKind) -> Seq<char> {
    match kind {
        ErrorKind::InvalidInput => "InvalidInput"@,
        ErrorKind::IoError => "IoError"@,
        ErrorKind::BuildError => "BuildError"@,
        ErrorKind::ProvingError => "ProvingError"@,
        ErrorKind::ExitCodeMismatch => "ExitCodeMismatch"@,
        ErrorKind::SerializationError => "SerializationError"@,
        ErrorKind::VerificationError => "VerificationError"@,
    }
}

impl ErrorKind {
    /// The name under which the category is reported.
    pub fn name(self) -> (name: &'static str)
        ensures
            name@ == kind_name(self),
    {
        match self {
            ErrorKind::InvalidInput => "InvalidInput",
            ErrorKind::IoError => "IoError",
            ErrorKind::BuildError => "BuildError",
            ErrorKind::ProvingError => "ProvingError",
            ErrorKind::ExitCodeMismatch => "ExitCodeMismatch",
            ErrorKind::SerializationError => "SerializationError",
            ErrorKind::VerificationError => "VerificationError",
        }
    }
}

/// A failure as it is reported to the caller: the category and a human-readable detail.
#[derive(Clone, Debug, PartialEq, Eq)]
pub struct PipelineError {
    pub kind: ErrorKind,
    pub detail: String,
}

/// The mathematical content of a [`PipelineError`].
pub struct ErrorView {
    pub kind: ErrorKind,
    pub detail: Seq<char>,
}

impl View for PipelineError {
    type V = ErrorView;

    open spec fn view(&self) -> ErrorView {
        ErrorView { kind: self.kind, detail: self.detail@ }
    }
}

/// The line that reports a failure: the name of the category, a colon and a space,
/// and the detail.
pub open spec fn report_line(error: ErrorView) -> Seq<char> {
    kind_name(error.kind) + ": "@ + error.detail
}

impl PipelineError {
    /// The failure as one line of text, for a log or a response.
    pub fn report(&self) -> (line: String)
        ensures
            line@ == report_line(self@),
    {
        let mut line = String::new();
        line.append(self.kind.name());
        line.append(": ");
        line.append(self.detail.as_str());
        line
    }

    /// Builds the failure of category `kind` with the given detail.
    pub fn new(kind: ErrorKind, detail: String) -> (error: PipelineError)
        ensures
            error@ == (ErrorView { kind, detail: detail@ }),
    {
        PipelineError { kind, detail }
    }

    /// Builds the failure of category `kind` with a fixed message as its detail.
    pub fn with_message(kind: ErrorKind, message: &str) -> (error: PipelineError)
        ensures
            error@ == (ErrorView { kind, detail: message@ }),
    {
        let mut detail = String::new();
        detail.append(message);
        assert(detail@ == message@);
        PipelineError { kind, detail }
    }
}

} // verus!
