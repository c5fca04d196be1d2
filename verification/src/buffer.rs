//! Buffers that the engine allocates and hands back.
use crate::channel::LastError;
use crate::error::{Fault, GdbmError};
use vstd::prelude::*;
use vstd::string::StringExecFns;

verus! {

/// A buffer that the engine allocated and returned: the address where it lies
/// (zero for a null pointer) and the length that the engine declares for it.
/// The value cannot be copied, and `release` consumes it, so the address is
/// handed to the deallocator at most once.
#[derive(Debug)]
pub struct ForeignBuffer {
    pub address: usize,
    pub dsize: i32,
}

/// What a returned buffer means, given the last-error reading taken right
/// after the call: the number of bytes to read from it, or the failure. A null
/// pointer with no recorded error is a missing record; a null pointer with a
/// recorded error is a failure of the engine; a negative length is corruption.
pub open spec fn buffer_outcome(buffer: ForeignBuffer, last: LastError) -> Result<usize, Fault> {
    if buffer.address == 0 {
        if last.code == 0 {
            Err(Fault::NotFound)
        } else {
            Err(Fault::EngineFailure(last.message@, last.code as int))
        }
    } else if buffer.dsize < 0 {
        Err(Fault::Corruption("content has negative size"@))
    } else {
        Ok(buffer.dsize as usize)
    }
}

impl ForeignBuffer {
    /// Takes charge of a buffer as the engine returned it.
    pub fn new(address: usize, dsize: i32) -> (buffer: ForeignBuffer)
        ensures
            buffer.address == address,
            buffer.dsize == dsize,
    {
        ForeignBuffer { address, dsize }
    }

    /// Whether the engine returned a null pointer.
    pub fn is_null(&self) -> (null: bool)
        ensures
            null == (self.address == 0),
    {
        self.address == 0
    }

    /// The number of bytes that may be read from the buffer, or why none may.
    pub fn inspect(&self, last: &LastError) -> (r: Result<usize, GdbmError>)
        ensures
            match buffer_outcome(*self, *last) {
                Ok(len) => r == Ok::<usize, GdbmError>(len),
                Err(fault) => (r matches Err(e) && e@ == fault),
            },
    {
        if self.address == 0 {
            if last.code == 0 {
                Err(GdbmError::NotFound)
            } else {
                Err(last.to_failure())
            }
        } else if self.dsize < 0 {
            Err(GdbmError::Corruption(String::from_str("content has negative size")))
        } else {
            Ok(self.dsize as usize)
        }
    }

    /// Gives up the buffer. The result is the address to pass to the engine's
    /// deallocator, exactly when there is one: a null pointer needs no release,
    /// every other buffer does, readable or not.
    pub fn release(self) -> (address: Option<usize>)
        ensures
            self.address == 0 ==> address is None,
            self.address != 0 ==> address == Some(self.address),
    {
        if self.address == 0 {
            None
        } else {
            Some(self.address)
        }
    }
}

} // verus!
