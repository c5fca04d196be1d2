//! The closed set of failures that the binding reports.
use std::string::FromUtf8Error;
use vstd::prelude::*;

verus! {

/// The error that `String::from_utf8` hands back for bytes that are not UTF-8.
/// Nothing inside it is visible to the proofs.
#[verifier::external_type_specification]
#[verifier::external_body]
pub struct ExFromUtf8Error(FromUtf8Error);

/// The kind and detail of a failure, as the contracts speak of it.
pub enum Fault {
    /// Stored bytes were asked for as text and are not valid UTF-8.
    InvalidEncoding,
    /// An argument was refused before any call to the engine.
    InvalidArgument(Seq<char>),
    /// The operating system reported an error.
    IoFailure(Seq<char>),
    /// The engine reported a failure: its message and its raw error code.
    EngineFailure(Seq<char>, int),
    /// The engine returned a result that cannot be well formed.
    Corruption(Seq<char>),
    /// No record is stored under the key.
    NotFound,
}

/// A failure of the binding.
#[derive(Debug)]
pub enum GdbmError {
    /// Stored bytes were asked for as text and are not valid UTF-8.
    InvalidEncoding(FromUtf8Error),
    /// An argument was refused before any call to the engine: an oversized
    /// buffer, a number out of range, a nul byte in a path.
    InvalidArgument(String),
    /// The operating system reported an error.
    IoFailure(String),
    /// The engine reported a failure: its message and its raw error code.
    EngineFailure(String, i32),
    /// The engine returned a result that cannot be well formed.
    Corruption(String),
    /// No record is stored under the key.
    NotFound,
}

/// The view keeps the kind of a failure and its message and code. Of a
/// decoding error it keeps the kind alone; the error's text is given by
/// `message_of`.
impl View for GdbmError {
    type V = Fault;

    open spec fn view(&self) -> Fault {
        match *self {
            GdbmError::InvalidEncoding(_) => Fault::InvalidEncoding,
            GdbmError::InvalidArgument(m) => Fault::InvalidArgument(m@),
            GdbmError::IoFailure(m) => Fault::IoFailure(m@),
            GdbmError::EngineFailure(m, c) => Fault::EngineFailure(m@, c as int),
            GdbmError::Corruption(m) => Fault::Corruption(m@),
            GdbmError::NotFound => Fault::NotFound,
        }
    }
}

/// The fixed, short name of each kind of failure.
pub open spec fn description_of(fault: Fault) -> Seq<char> {
    match fault {
        Fault::InvalidEncoding => "invalid utf-8 sequence"@,
        Fault::InvalidArgument(_) => "invalid argument"@,
        Fault::IoFailure(_) => "I/O error"@,
        Fault::EngineFailure(_, _) => "gdbm error"@,
        Fault::Corruption(_) => "corrupt result"@,
        Fault::NotFound => "item not found"@,
    }
}

/// The text that the standard library prints for a decoding error. Its
/// documentation does not give the wording, so none is stated here: only that
/// the text is a function of the error.
pub uninterp spec fn encoding_error_rendering(err: FromUtf8Error) -> Seq<char>;

/// The message of a failure: the one it was built with, the fixed text for a
/// missing record, or the standard library's rendering of a decoding error.
pub open spec fn message_of(err: GdbmError) -> Seq<char> {
    match err {
        GdbmError::InvalidEncoding(e) => encoding_error_rendering(e),
        GdbmError::InvalidArgument(m) => m@,
        GdbmError::IoFailure(m) => m@,
        GdbmError::EngineFailure(m, _) => m@,
        GdbmError::Corruption(m) => m@,
        GdbmError::NotFound => "item not found"@,
    }
}

/// Renders the decoding error held by an `InvalidEncoding` through the
/// `to_string` that `FromUtf8Error` has from its `Display`. The result is the
/// standard library's text for that error, whatever its wording.
#[verifier::external_body]
fn encoding_error_text(err: &FromUtf8Error) -> (text: String)
    ensures
        text@ == encoding_error_rendering(*err),
{
    err.to_string()
}

impl GdbmError {
    /// A validation failure with the given message.
    pub fn invalid_argument(message: &str) -> (e: GdbmError)
        ensures
            e@ == Fault::InvalidArgument(message@),
    {
        GdbmError::InvalidArgument(String::from_str(message))
    }

    /// The fixed, short name of this kind of failure.
    pub fn description(&self) -> (text: &'static str)
        ensures
            text@ == description_of(self@),
    {
        match self {
            GdbmError::InvalidEncoding(_) => "invalid utf-8 sequence",
            GdbmError::InvalidArgument(_) => "invalid argument",
            GdbmError::IoFailure(_) => "I/O error",
            GdbmError::EngineFailure(_, _) => "gdbm error",
            GdbmError::Corruption(_) => "corrupt result",
            GdbmError::NotFound => "item not found",
        }
    }

    /// The raw error code of the engine, where the failure carries one.
    pub fn code(&self) -> (code: Option<i32>)
        ensures
            code == match *self {
                GdbmError::EngineFailure(_, c) => Some(c),
                _ => None,
            },
    {
        match self {
            GdbmError::EngineFailure(_, c) => Some(*c),
            _ => None,
        }
    }

    /// The message of this failure as an owned string: the message it was
    /// built with, the fixed text for a missing record, or the standard
    /// library's rendering of a decoding error.
    pub fn to_string(&self) -> (text: String)
        ensures
            text@ == message_of(*self),
    {
        match self {
            GdbmError::InvalidEncoding(err) => encoding_error_text(err),
            GdbmError::InvalidArgument(m) => m.clone(),
            GdbmError::IoFailure(m) => m.clone(),
            GdbmError::EngineFailure(m, _) => m.clone(),
            GdbmError::Corruption(m) => m.clone(),
            GdbmError::NotFound => String::from_str("item not found"),
        }
    }
}

} // verus!
