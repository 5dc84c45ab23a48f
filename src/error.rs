//! The crate's error type

use std::backtrace::Backtrace;
use vstd::prelude::*;

verus! {

#[verifier::external_type_specification]
#[verifier::external_body]
pub struct ExBacktrace(Backtrace);

/// Relies on `std::backtrace::Backtrace::capture`: records the current call
/// stack where the environment enables it, and a disabled trace otherwise.
#[verifier::external_body]
fn capture_backtrace() -> Backtrace {
    Backtrace::capture()
}

/// Relies on `std::backtrace::Backtrace::status`: tells whether frames were
/// actually recorded.
#[verifier::external_body]
fn backtrace_is_captured(backtrace: &Backtrace) -> bool {
    matches!(backtrace.status(), std::backtrace::BacktraceStatus::Captured)
}

/// The class of an error
#[derive(Debug, Clone, Copy, PartialEq, Eq, Structural)]
pub enum ErrorKind {
    /// The engine answered with a failure result code
    Engine(i32),
    /// A value could not be converted into or out of the dynamic value bridge
    Conversion,
    /// A text contains a NUL character, which a C string cannot carry
    MalformedInput,
    /// A row was asked for while none is pending
    NoRow,
    /// The engine was built without thread safety, so a connection cannot be shared
    NotThreadsafe,
}

/// The crate's error type
#[derive(Debug)]
pub struct Error {
    /// The class of the error
    pub kind: ErrorKind,
    /// The error description
    pub error: String,
    /// The underlying error
    pub source: Option<Box<Error>>,
    /// The backtrace, where one could be captured
    pub backtrace: Option<Backtrace>,
}

/// The text that describes an error: its message on one line, then its cause
/// (itself described the same way) after " caused by: ", on a line of its own.
pub open spec fn described(e: Error) -> Seq<char>
    decreases e,
{
    match e.source {
        Some(source) => e.error@ + "\n"@ + " caused by: "@ + described(*source) + "\n"@,
        None => e.error@ + "\n"@,
    }
}

impl Error {
    /// Creates a new error and captures a backtrace
    pub fn new(kind: ErrorKind, error: String, source: Option<Box<Error>>) -> (r: Self)
        ensures
            r.kind == kind,
            r.error == error,
            r.source == source,
    {
        let backtrace = capture_backtrace();
        let backtrace = if backtrace_is_captured(&backtrace) {
            Some(backtrace)
        } else {
            None
        };
        Self { kind, error, source, backtrace }
    }

    /// Whether the error has captured a backtrace or not
    pub fn has_backtrace(&self) -> (r: bool)
        ensures
            r == self.backtrace.is_some(),
    {
        self.backtrace.is_some()
    }

    /// The underlying error, if any
    pub fn source(&self) -> (r: Option<&Error>)
        ensures
            r == match self.source {
                Some(source) => Some(&*source),
                None => None::<&Error>,
            },
    {
        match &self.source {
            Some(source) => Some(&**source),
            None => None,
        }
    }

    /// Describes the error and its chain of causes
    pub fn describe(&self) -> (r: String)
        ensures
            r@ == described(*self),
        decreases self,
    {
        let mut text = self.error.clone();
        text.append("\n");
        match &self.source {
            Some(source) => {
                let cause = source.describe();
                text.append(" caused by: ");
                text.append(cause.as_str());
                text.append("\n");
            },
            None => {},
        }
        text
    }
}

} // verus!
