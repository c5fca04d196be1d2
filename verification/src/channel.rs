//! One reading of the engine's last-error location.
use crate::error::{Fault, GdbmError};
use vstd::prelude::*;

verus! {

/// The engine's last error as read right after a call: the raw code and the
/// engine's own rendering of it, copied into an owned string. Code zero means
/// that no error is recorded.
pub struct LastError {
    pub code: i32,
    pub message: String,
}

impl LastError {
    /// Holds a reading of the last-error location.
    pub fn new(code: i32, message: String) -> (last: LastError)
        ensures
            last.code == code,
            last.message == message,
    {
        LastError { code, message }
    }

    /// Whether the engine has recorded an error.
    pub fn is_set(&self) -> (set: bool)
        ensures
            set == (self.code != 0),
    {
        self.code != 0
    }

    /// The engine's message for the recorded code.
    pub fn get_error(&self) -> (text: String)
        ensures
            text@ == self.message@,
    {
        self.message.clone()
    }

    /// The engine failure that this reading describes.
    pub fn to_failure(&self) -> (e: GdbmError)
        ensures
            e@ == Fault::EngineFailure(self.message@, self.code as int),
    {
        GdbmError::EngineFailure(self.message.clone(), self.code)
    }
}

} // verus!
