//! The fault translator: internal failures keep a chain of call-site
//! breadcrumbs for the operator's log, and reach the client only as a fixed,
//! opaque error.

use crate::text::{decimal, decimal_string};
use vstd::prelude::*;
use vstd::string::*;

verus! {

/// A call site: the operation that was running, and where in the source.
#[derive(Debug)]
pub struct Frame {
    pub operation: String,
    pub file: String,
    pub line: u32,
}

/// The mathematical content of a [`Frame`].
pub ghost struct FrameView {
    pub operation: Seq<char>,
    pub file: Seq<char>,
    pub line: u32,
}

impl View for Frame {
    type V = FrameView;

    open spec fn view(&self) -> FrameView {
        FrameView { operation: self.operation@, file: self.file@, line: self.line }
    }
}

/// An internal failure: its root cause, and the call sites it passed
/// through on the way up, innermost first.
#[derive(Debug)]
pub struct ContextualError {
    pub cause: String,
    pub frames: Vec<Frame>,
}

/// The mathematical content of a [`ContextualError`].
pub ghost struct ContextualErrorView {
    pub cause: Seq<char>,
    pub frames: Seq<FrameView>,
}

impl View for ContextualError {
    type V = ContextualErrorView;

    open spec fn view(&self) -> ContextualErrorView {
        ContextualErrorView {
            cause: self.cause@,
            frames: Seq::new(self.frames@.len(), |i: int| self.frames@[i]@),
        }
    }
}

/// What a client is told about an internal failure, and what the operator's
/// log is given.
#[derive(Debug)]
pub struct FaultResponse {
    /// The HTTP status of the response.
    pub status: u16,
    /// The body of the response.
    pub message: &'static str,
    /// The lines for the diagnostic log, to be written at error severity.
    pub diagnostic: Vec<String>,
}

/// The status of every translated failure.
pub const INTERNAL_SERVER_ERROR: u16 = 500;

/// The body of every translated failure.
pub open spec fn generic_message() -> Seq<char> {
    "Internal Server Error"@
}

/// The breadcrumb of a call site: `<operation> @ <file>:<line>`.
pub open spec fn breadcrumb(operation: Seq<char>, file: Seq<char>, line: u32) -> Seq<char> {
    operation + " @ "@ + file + ":"@ + decimal(line as nat)
}

/// The diagnostic lines of a failure: the breadcrumbs from the outermost call
/// site to the innermost, then the cause.
pub open spec fn diagnostic_lines(error: ContextualErrorView) -> Seq<Seq<char>> {
    Seq::new(
        error.frames.len() + 1,
        |i: int|
            if i < error.frames.len() {
                let frame = error.frames[error.frames.len() - 1 - i];
                breadcrumb(frame.operation, frame.file, frame.line)
            } else {
                error.cause
            },
    )
}

/// Renders the breadcrumb of a call site.
pub fn log_method_location(file: &str, line: u32, method: &str) -> (text: String)
    ensures
        text@ == breadcrumb(method@, file@, line),
{
    let mut text = String::from_str(method);
    text.append(" @ ");
    text.append(file);
    text.append(":");
    let number = decimal_string(line as u64);
    text.append(number.as_str());
    text
}

impl ContextualError {
    /// A failure with the given cause that has passed through no call site
    /// yet.
    pub fn new(cause: &str) -> (error: ContextualError)
        ensures
            error@.cause == cause@,
            error@.frames.len() == 0,
    {
        ContextualError { cause: cause.to_owned(), frames: Vec::new() }
    }

    /// The root cause, for the log only.
    pub fn root_cause(&self) -> (cause: &str)
        ensures
            cause@ == self@.cause,
    {
        self.cause.as_str()
    }
}

/// Attaches a call site to a failure. The cause and the call sites already
/// attached are kept; the new one becomes the outermost.
pub fn wrap_with_location(error: ContextualError, call_site: Frame) -> (wrapped: ContextualError)
    ensures
        wrapped@.cause == error@.cause,
        wrapped@.frames == error@.frames.push(call_site@),
{
    let ContextualError { cause, frames } = error;
    let mut frames = frames;
    frames.push(call_site);
    let wrapped = ContextualError { cause, frames };
    assert(wrapped@.frames =~= error@.frames.push(call_site@));
    wrapped
}

/// The view of a list of texts.
pub open spec fn lines_view(lines: Vec<String>) -> Seq<Seq<char>> {
    Seq::new(lines@.len(), |i: int| lines@[i]@)
}

/// Translates an internal failure: the client gets the fixed status and the
/// fixed message, whatever the failure holds; the whole chain goes to the
/// diagnostic log.
pub fn translate_to_response(error: &ContextualError) -> (response: FaultResponse)
    ensures
        response.status == INTERNAL_SERVER_ERROR,
        response.message@ == generic_message(),
        lines_view(response.diagnostic) == diagnostic_lines(error@),
{
    let count: usize = error.frames.len();
    let mut diagnostic: Vec<String> = Vec::new();
    let mut done: usize = 0;
    while done < count
        invariant
            done <= count,
            count == error.frames@.len(),
            diagnostic@.len() == done,
            forall|i: int|
                0 <= i < done ==> (#[trigger] diagnostic@[i])@ == diagnostic_lines(error@)[i],
        decreases count - done,
    {
        let frame = &error.frames[count - 1 - done];
        let line = log_method_location(frame.file.as_str(), frame.line, frame.operation.as_str());
        diagnostic.push(line);
        done = done + 1;
    }
    diagnostic.push(error.cause.clone());
    assert(lines_view(diagnostic) =~= diagnostic_lines(error@));
    FaultResponse { status: INTERNAL_SERVER_ERROR, message: "Internal Server Error", diagnostic }
}

} // verus!
