//! Host-owned records of script failures.
//!
//! An [`Exception`] is what remains of a thrown script value once it has been
//! copied out of the engine: three owned strings and nothing that points back
//! into engine memory. [`Error`] is the error type of the whole crate.

use vstd::prelude::*;
use vstd::string::*;

verus! {

/// The mathematical content of an [`Exception`].
pub struct ExceptionView {
    pub name: Seq<char>,
    pub message: Seq<char>,
    pub stack: Seq<char>,
}

/// An exception thrown by script code, fully copied into host memory.
#[derive(Debug)]
pub struct Exception {
    /// The `name` property of the thrown value, or empty.
    pub name: String,
    /// The `message` property of the thrown value, or empty.
    pub message: String,
    /// The `stack` property of the thrown value, or empty.
    pub stack: String,
}

impl View for Exception {
    type V = ExceptionView;

    open spec fn view(&self) -> ExceptionView {
        ExceptionView { name: self.name@, message: self.message@, stack: self.stack@ }
    }
}

/// What a looked-up string property contributes to an exception record: its
/// text when the property was present and a string, nothing otherwise.
pub open spec fn text_or_empty(part: Option<String>) -> Seq<char> {
    match part {
        Some(text) => text@,
        None => Seq::empty(),
    }
}

/// The one-line-plus-stack rendering of an exception:
/// the name, `": "`, the message, a line feed, the stack.
pub open spec fn rendered(e: ExceptionView) -> Seq<char> {
    e.name + ": "@ + e.message + "\n"@ + e.stack
}

/// Unwraps a looked-up property, degrading an absent one to the empty string.
fn owned_or_empty(part: Option<String>) -> (text: String)
    ensures
        text@ == text_or_empty(part),
{
    match part {
        Some(text) => text,
        None => String::new(),
    }
}

impl Exception {
    /// Builds the record from the three property lookups made on a thrown
    /// value. A lookup that found no string (`None`) yields an empty field; it
    /// is never an error.
    pub fn from_parts(name: Option<String>, message: Option<String>, stack: Option<String>) -> (e:
        Exception)
        ensures
            e@.name == text_or_empty(name),
            e@.message == text_or_empty(message),
            e@.stack == text_or_empty(stack),
    {
        Exception {
            name: owned_or_empty(name),
            message: owned_or_empty(message),
            stack: owned_or_empty(stack),
        }
    }

    /// The record of a thrown value that carries no string properties at all,
    /// such as a thrown primitive.
    pub fn empty() -> (e: Exception)
        ensures
            e@.name.len() == 0,
            e@.message.len() == 0,
            e@.stack.len() == 0,
    {
        Exception::from_parts(None, None, None)
    }

    /// Renders the exception as `name: message`, a line feed, and the stack.
    pub fn to_text(&self) -> (text: String)
        ensures
            text@ == rendered(self@),
    {
        let mut text = self.name.clone();
        text.append(": ");
        text.append(self.message.as_str());
        text.append("\n");
        text.append(self.stack.as_str());
        text
    }

    /// Builds the record from what was found on a thrown value: `None` when
    /// the value is no object, and so has no properties to look up; the three
    /// lookups of `name`, `message` and `stack` when it is one.
    ///
    /// A thrown value that is no object degrades to the record of three
    /// empty strings; so does each lookup that found no string.
    pub fn from_thrown(found: Option<(Option<String>, Option<String>, Option<String>)>) -> (e:
        Exception)
        ensures
            e@ == thrown_record(found),
    {
        let e = match found {
            Some((name, message, stack)) => Exception::from_parts(name, message, stack),
            None => Exception::empty(),
        };
        assert(e@.name =~= thrown_record(found).name);
        assert(e@.message =~= thrown_record(found).message);
        assert(e@.stack =~= thrown_record(found).stack);
        e
    }
}

/// The record that stands for a thrown value, given what was found on it:
/// nothing when it is no object, else the lookups of its three properties.
pub open spec fn thrown_record(
    found: Option<(Option<String>, Option<String>, Option<String>)>,
) -> ExceptionView {
    match found {
        Some((name, message, stack)) => ExceptionView {
            name: text_or_empty(name),
            message: text_or_empty(message),
            stack: text_or_empty(stack),
        },
        None => ExceptionView { name: Seq::empty(), message: Seq::empty(), stack: Seq::empty() },
    }
}

/// The mathematical content of an [`Error`].
pub enum ErrorView {
    Exception(ExceptionView),
    Encoding,
    EngineInit,
    Unknown,
}

/// Everything that can go wrong in this crate.
#[derive(Debug)]
pub enum Error {
    /// Script code threw: during evaluation, in a queued job, or by rejecting a
    /// promise. The exception is already copied out of the engine.
    Exception(Exception),
    /// The source text or the file name holds a NUL byte and so cannot be
    /// handed to the engine; nothing was evaluated.
    Encoding,
    /// The engine instance or its context could not be allocated.
    EngineInit,
    /// The engine failed in a way that has no script exception behind it, for
    /// instance when it is handed a value that another engine instance made.
    Unknown,
}

impl View for Error {
    type V = ErrorView;

    open spec fn view(&self) -> ErrorView {
        match self {
            Error::Exception(e) => ErrorView::Exception(e@),
            Error::Encoding => ErrorView::Encoding,
            Error::EngineInit => ErrorView::EngineInit,
            Error::Unknown => ErrorView::Unknown,
        }
    }
}

/// The text that describes an error to a person.
pub open spec fn error_text(e: ErrorView) -> Seq<char> {
    match e {
        ErrorView::Exception(x) => rendered(x),
        ErrorView::Encoding => "source contains a NUL byte"@,
        ErrorView::EngineInit => "engine could not be initialised"@,
        ErrorView::Unknown => "unknown error"@,
    }
}

impl Error {
    /// Describes the error: the rendering of the exception for a script
    /// exception, a fixed sentence for each other kind.
    pub fn to_text(&self) -> (text: String)
        ensures
            text@ == error_text(self@),
    {
        match self {
            Error::Exception(e) => e.to_text(),
            Error::Encoding => String::from_str("source contains a NUL byte"),
            Error::EngineInit => String::from_str("engine could not be initialised"),
            Error::Unknown => String::from_str("unknown error"),
        }
    }
}

/// What running one queued job amounts to for the host, given what the
/// engine reported of it: whether a job ran, or what the job threw. A job
/// that threw is an error that carries its exception; nothing else is.
pub fn job_outcome(ran: Result<bool, Exception>) -> (res: Result<bool, Error>)
    ensures
        res == job_outcome_of(ran),
{
    match ran {
        Ok(ran) => Ok(ran),
        Err(thrown) => Err(Error::Exception(thrown)),
    }
}

/// The result of [`job_outcome`].
pub open spec fn job_outcome_of(ran: Result<bool, Exception>) -> Result<bool, Error> {
    match ran {
        Ok(ran) => Ok(ran),
        Err(thrown) => Err(Error::Exception(thrown)),
    }
}

} // verus!
