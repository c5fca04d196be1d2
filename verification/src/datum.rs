//! Borrowed buffer descriptors for bytes that go into the engine.
use crate::error::{Fault, GdbmError};
use vstd::prelude::*;
use vstd::string::StringExecFns;

verus! {

/// The largest byte length that the engine's signed 32-bit size field holds.
pub const MAX_DSIZE: usize = 0x7fff_ffff;

/// Whether bytes of this length can be described to the engine.
pub open spec fn fits(bytes: Seq<u8>) -> bool {
    bytes.len() <= MAX_DSIZE
}

/// The failure for an oversized argument, which it names.
pub open spec fn too_large(what: Seq<char>) -> Fault {
    Fault::InvalidArgument(what + " too large"@)
}

/// A non-owning descriptor of caller bytes: the bytes and their length as the
/// engine's size field holds it. It borrows the bytes, so they stay valid and
/// unchanged for as long as the descriptor lives.
pub struct Datum<'a> {
    data: &'a [u8],
    dsize: i32,
}

impl<'a> Datum<'a> {
    #[verifier::type_invariant]
    spec fn size_matches(self) -> bool {
        self.dsize as int == self.data@.len()
    }

    /// The bytes described.
    pub closed spec fn view(&self) -> Seq<u8> {
        self.data@
    }

    /// The bytes described.
    pub fn as_slice(&self) -> (bytes: &'a [u8])
        ensures
            bytes@ == self@,
    {
        self.data
    }

    /// The length of the bytes, as passed to the engine.
    pub fn dsize(&self) -> (size: i32)
        ensures
            size as int == self@.len(),
    {
        proof {
            use_type_invariant(self);
        }
        self.dsize
    }
}

/// Describes `data` for the engine. Succeeds exactly when the length fits the
/// signed 32-bit size field; otherwise the failure names the argument, `what`,
/// as too large. Nothing is copied.
pub fn datum<'a>(what: &str, data: &'a [u8]) -> (r: Result<Datum<'a>, GdbmError>)
    ensures
        fits(data@) ==> (r matches Ok(d) && d@ == data@),
        !fits(data@) ==> (r matches Err(e) && e@ == too_large(what@)),
{
    if data.len() > MAX_DSIZE {
        return Err(GdbmError::InvalidArgument(String::from_str(what).concat(" too large")));
    }
    Ok(Datum { data, dsize: data.len() as i32 })
}

} // verus!
