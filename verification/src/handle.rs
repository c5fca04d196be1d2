//! The database handle and the meaning of every reply of the engine.
use crate::buffer::{buffer_outcome, ForeignBuffer};
use crate::channel::LastError;
use crate::datum::{datum, fits, too_large, Datum};
use crate::error::{Fault, GdbmError};
use crate::flags::{Open, Store, INSERT, OPEN_ALL, REPLACE};
use crate::text::{decode, decode_trimmed, decoded, text_view, trim_nul};
use vstd::prelude::*;
use vstd::slice::slice_to_vec;

verus! {

/// The largest value that the engine's signed 32-bit parameters hold.
pub const MAX_PARAM: u32 = 0x7fff_ffff;

/// Whether the path holds a zero byte, which a C string cannot.
pub open spec fn has_nul(path: Seq<u8>) -> bool {
    exists|i: int| 0 <= i < path.len() && path[i] == 0
}

/// A yes-or-no result as the contracts speak of it.
pub open spec fn flag_view(r: Result<bool, GdbmError>) -> Result<bool, Fault> {
    match r {
        Ok(b) => Ok(b),
        Err(e) => Err(e@),
    }
}

/// A byte result as the contracts speak of it.
pub open spec fn bytes_view(r: Result<Vec<u8>, GdbmError>) -> Result<Seq<u8>, Fault> {
    match r {
        Ok(v) => Ok(v@),
        Err(e) => Err(e@),
    }
}

/// The failure that a last-error reading describes.
pub open spec fn failure_of(last: LastError) -> Fault {
    Fault::EngineFailure(last.message@, last.code as int)
}

/// The arguments of an open call that passed validation.
pub open spec fn open_accepts(path: Seq<u8>, block_size: u32, mode: u32) -> bool {
    block_size <= MAX_PARAM && mode <= MAX_PARAM && !has_nul(path)
}

/// The failure of an open call whose arguments are refused: the block size is
/// looked at first, then the mode, then the path.
pub open spec fn open_refusal(path: Seq<u8>, block_size: u32, mode: u32) -> Fault {
    if block_size > MAX_PARAM {
        Fault::InvalidArgument("block_size too large"@)
    } else if mode > MAX_PARAM {
        Fault::InvalidArgument("invalid mode"@)
    } else {
        Fault::InvalidArgument("nul byte found in provided data"@)
    }
}

/// The failure of a store call whose buffers are refused: the key is looked at
/// first.
pub open spec fn store_refusal(key: Seq<u8>, content: Seq<u8>) -> Fault {
    if !fits(key) {
        too_large("key"@)
    } else {
        too_large("content"@)
    }
}

/// The engine's flag for a store that replaces, or does not.
pub open spec fn store_flag(replace: bool) -> u32 {
    if replace {
        REPLACE
    } else {
        INSERT
    }
}

/// What the result code of a store means: a negative code is a failure of the
/// engine, zero says that the record was written, a positive code that it was
/// not because the key exists.
pub open spec fn store_outcome(code: i32, last: LastError) -> Result<bool, Fault> {
    if code < 0 {
        Err(failure_of(last))
    } else {
        Ok(code == 0)
    }
}

/// What the result code of a delete means: a negative code with no recorded
/// error says that the key was absent, with a recorded error that the engine
/// failed; any other code says that a record was removed.
pub open spec fn delete_outcome(code: i32, last: LastError) -> Result<bool, Fault> {
    if code < 0 {
        if last.code == 0 {
            Ok(false)
        } else {
            Err(failure_of(last))
        }
    } else {
        Ok(true)
    }
}

/// What the result code of an existence test means: zero says that the key
/// was found; any other code with no recorded error that it was not, with a
/// recorded error that the engine failed.
pub open spec fn exists_outcome(code: i32, last: LastError) -> Result<bool, Fault> {
    if code == 0 {
        Ok(true)
    } else if last.code == 0 {
        Ok(false)
    } else {
        Err(failure_of(last))
    }
}

/// What a fetch returns: the bytes copied out of the buffer where it may be
/// read, else the failure that the buffer stands for.
pub open spec fn fetch_outcome(buffer: ForeignBuffer, copied: Seq<u8>, last: LastError) -> Result<
    Seq<u8>,
    Fault,
> {
    match buffer_outcome(buffer, last) {
        Ok(_) => Ok(copied),
        Err(fault) => Err(fault),
    }
}

/// What a text fetch returns: the fetched bytes decoded strictly.
pub open spec fn string_outcome(buffer: ForeignBuffer, copied: Seq<u8>, last: LastError) -> Result<
    Seq<char>,
    Fault,
> {
    match fetch_outcome(buffer, copied, last) {
        Ok(bytes) => decoded(bytes),
        Err(fault) => Err(fault),
    }
}

/// What a trimming text fetch returns: the fetched bytes, without one
/// trailing zero byte, decoded strictly.
pub open spec fn cstring_outcome(buffer: ForeignBuffer, copied: Seq<u8>, last: LastError) -> Result<
    Seq<char>,
    Fault,
> {
    match fetch_outcome(buffer, copied, last) {
        Ok(bytes) => decoded(trim_nul(bytes)),
        Err(fault) => Err(fault),
    }
}

/// The validated arguments of one open call, in the types of the engine's
/// parameters.
#[derive(Debug)]
pub struct OpenCall {
    path: Vec<u8>,
    block_size: i32,
    flags: i32,
    mode: i32,
}

impl OpenCall {
    #[verifier::type_invariant]
    spec fn valid(self) -> bool {
        &&& self.path@.len() > 0
        &&& self.path@.last() == 0
        &&& !has_nul(self.path@.drop_last())
        &&& self.block_size >= 0
        &&& 0 <= self.flags <= OPEN_ALL
        &&& self.mode >= 0
    }

    /// The path as a C string: the bytes given, then the terminating zero.
    pub closed spec fn spec_path(&self) -> Seq<u8> {
        self.path@
    }

    /// The block size passed to the engine.
    pub closed spec fn spec_block_size(&self) -> int {
        self.block_size as int
    }

    /// The flags passed to the engine, in its encoding.
    pub closed spec fn spec_flags(&self) -> int {
        self.flags as int
    }

    /// The file mode passed to the engine.
    pub closed spec fn spec_mode(&self) -> int {
        self.mode as int
    }

    /// Whether the call carries exactly these arguments: the path with its
    /// terminating zero, and each number unchanged.
    pub open spec fn carries(&self, path: Seq<u8>, block_size: u32, flags: Open, mode: u32) -> bool {
        &&& self.spec_path() == path.push(0)
        &&& self.spec_block_size() == block_size
        &&& self.spec_flags() == flags@
        &&& self.spec_mode() == mode
    }

    /// The path as a C string: it ends in its only zero byte.
    pub fn path(&self) -> (path: &[u8])
        ensures
            path@ == self.spec_path(),
            path@.len() > 0,
            path@.last() == 0,
            !has_nul(path@.drop_last()),
    {
        proof {
            use_type_invariant(self);
        }
        self.path.as_slice()
    }

    /// The block size, never negative.
    pub fn block_size(&self) -> (block_size: i32)
        ensures
            block_size == self.spec_block_size(),
            block_size >= 0,
    {
        proof {
            use_type_invariant(self);
        }
        self.block_size
    }

    /// The flags in the engine's encoding.
    pub fn flags(&self) -> (flags: i32)
        ensures
            flags == self.spec_flags(),
            0 <= flags <= OPEN_ALL,
    {
        proof {
            use_type_invariant(self);
        }
        self.flags
    }

    /// The file mode, never negative.
    pub fn mode(&self) -> (mode: i32)
        ensures
            mode == self.spec_mode(),
            mode >= 0,
    {
        proof {
            use_type_invariant(self);
        }
        self.mode
    }
}

/// The validated arguments of a call that takes a key: fetch, delete and the
/// existence test.
pub struct KeyCall<'a> {
    key: Datum<'a>,
}

impl<'a> KeyCall<'a> {
    /// The bytes of the key.
    pub closed spec fn spec_key(&self) -> Seq<u8> {
        self.key@
    }

    /// The descriptor of the key.
    pub fn key(&self) -> (key: &Datum<'a>)
        ensures
            key@ == self.spec_key(),
    {
        &self.key
    }
}

/// The validated arguments of one store call.
pub struct StoreCall<'a> {
    key: Datum<'a>,
    content: Datum<'a>,
    flag: Store,
}

impl<'a> StoreCall<'a> {
    /// The bytes of the key.
    pub closed spec fn spec_key(&self) -> Seq<u8> {
        self.key@
    }

    /// The bytes of the record.
    pub closed spec fn spec_content(&self) -> Seq<u8> {
        self.content@
    }

    /// The store flag.
    pub closed spec fn spec_flag(&self) -> Store {
        self.flag
    }

    /// Whether the call carries exactly these arguments.
    pub open spec fn carries(&self, key: Seq<u8>, content: Seq<u8>, replace: bool) -> bool {
        &&& self.spec_key() == key
        &&& self.spec_content() == content
        &&& self.spec_flag()@ == store_flag(replace)
    }

    /// The descriptor of the key.
    pub fn key(&self) -> (key: &Datum<'a>)
        ensures
            key@ == self.spec_key(),
    {
        &self.key
    }

    /// The descriptor of the record.
    pub fn content(&self) -> (content: &Datum<'a>)
        ensures
            content@ == self.spec_content(),
    {
        &self.content
    }

    /// The store flag.
    pub fn flag(&self) -> (flag: Store)
        ensures
            flag == self.spec_flag(),
    {
        self.flag
    }
}

/// An open database: the owner of one handle of the engine. A value exists
/// only for a handle that an open call returned, is never copied, and gives
/// the handle up once, in `close`.
#[derive(Debug)]
pub struct Gdbm {
    db_handle: usize,
}

impl Gdbm {
    #[verifier::type_invariant]
    spec fn is_open(self) -> bool {
        self.db_handle != 0
    }

    /// The handle of the engine that this value owns.
    pub closed spec fn spec_handle(&self) -> usize {
        self.db_handle
    }

    /// Validates the arguments of an open call and puts them in the engine's
    /// types. The block size and the mode must fit a signed 32-bit integer and
    /// the path must hold no zero byte.
    pub fn open(path: &[u8], block_size: u32, flags: Open, mode: u32) -> (r: Result<
        OpenCall,
        GdbmError,
    >)
        ensures
            open_accepts(path@, block_size, mode) ==> (r matches Ok(call) && call.carries(
                path@,
                block_size,
                flags,
                mode,
            )),
            !open_accepts(path@, block_size, mode) ==> (r matches Err(e) && e@ == open_refusal(
                path@,
                block_size,
                mode,
            )),
    {
        if block_size > MAX_PARAM {
            return Err(GdbmError::invalid_argument("block_size too large"));
        }
        if mode > MAX_PARAM {
            return Err(GdbmError::invalid_argument("invalid mode"));
        }
        let mut i: usize = 0;
        while i < path.len()
            invariant
                i <= path.len(),
                block_size <= MAX_PARAM,
                mode <= MAX_PARAM,
                forall|j: int| 0 <= j < i ==> path@[j] != 0,
            decreases path.len() - i,
        {
            if path[i] == 0 {
                assert(path@[i as int] == 0);
                return Err(GdbmError::invalid_argument("nul byte found in provided data"));
            }
            i += 1;
        }
        let mut owned: Vec<u8> = slice_to_vec(path);
        owned.push(0);
        let bits: u32 = flags.bits();
        assert(owned@.drop_last() =~= path@);
        Ok(
            OpenCall {
                path: owned,
                block_size: block_size as i32,
                flags: bits as i32,
                mode: mode as i32,
            },
        )
    }

    /// Takes ownership of what an open call returned. A null handle (zero) is
    /// a failure of the engine, reported with the engine's own message and
    /// code from the last-error reading taken right after the call; any other
    /// handle becomes an open database.
    pub fn new(call: OpenCall, handle: usize, last: &LastError) -> (r: Result<Gdbm, GdbmError>)
        ensures
            handle != 0 ==> (r matches Ok(db) && db.spec_handle() == handle),
            handle == 0 ==> (r matches Err(e) && e@ == failure_of(*last)),
    {
        if handle == 0 {
            return Err(last.to_failure());
        }
        Ok(Gdbm { db_handle: handle })
    }

    /// The handle to pass to the engine. It is never null.
    pub fn handle(&self) -> (handle: usize)
        ensures
            handle == self.spec_handle(),
            handle != 0,
    {
        proof {
            use_type_invariant(self);
        }
        self.db_handle
    }

    /// Ends the life of the database value and gives back the handle, which is
    /// then to be closed: once, since the value is gone.
    pub fn close(self) -> (handle: usize)
        ensures
            handle == self.spec_handle(),
            handle != 0,
    {
        proof {
            use_type_invariant(&self);
        }
        self.db_handle
    }

    /// Validates a key for fetch, delete or the existence test. A key whose
    /// length does not fit the engine's size field is refused here, before any
    /// call.
    pub fn key_call<'a>(&self, key: &'a [u8]) -> (r: Result<KeyCall<'a>, GdbmError>)
        ensures
            fits(key@) ==> (r matches Ok(call) && call.spec_key() == key@),
            !fits(key@) ==> (r matches Err(e) && e@ == too_large("key"@)),
    {
        match datum("key", key) {
            Ok(key) => Ok(KeyCall { key }),
            Err(e) => Err(e),
        }
    }

    /// Validates the buffers of a store and picks its flag: replace, or
    /// insert only. An oversized key or record is refused here, before any
    /// call, the key first.
    pub fn store_call<'a>(&self, key: &'a [u8], content: &'a [u8], replace: bool) -> (r: Result<
        StoreCall<'a>,
        GdbmError,
    >)
        ensures
            fits(key@) && fits(content@) ==> (r matches Ok(call) && call.carries(
                key@,
                content@,
                replace,
            )),
            !(fits(key@) && fits(content@)) ==> (r matches Err(e) && e@ == store_refusal(
                key@,
                content@,
            )),
    {
        let key = match datum("key", key) {
            Ok(key) => key,
            Err(e) => {
                return Err(e);
            },
        };
        let content = match datum("content", content) {
            Ok(content) => content,
            Err(e) => {
                return Err(e);
            },
        };
        Ok(StoreCall { key, content, flag: Store::select(replace) })
    }

    /// The result of a store, from the engine's result code and the last-error
    /// reading taken right after the call: `true` if the record was written,
    /// `false` if it was not because the key exists, and the engine's failure
    /// for a negative code.
    pub fn store(&self, call: StoreCall, code: i32, last: &LastError) -> (r: Result<
        bool,
        GdbmError,
    >)
        ensures
            flag_view(r) == store_outcome(code, *last),
    {
        if code < 0 {
            return Err(last.to_failure());
        }
        Ok(code == 0)
    }

    /// The result of a fetch, from the buffer that the engine returned, the
    /// bytes copied out of it (empty where it could not be read) and the
    /// last-error reading: the bytes, or a missing record, a failure of the
    /// engine, or corruption.
    pub fn fetch_data(
        &self,
        call: KeyCall,
        buffer: &ForeignBuffer,
        copied: Vec<u8>,
        last: &LastError,
    ) -> (r: Result<Vec<u8>, GdbmError>)
        ensures
            bytes_view(r) == fetch_outcome(*buffer, copied@, *last),
    {
        match buffer.inspect(last) {
            Ok(_) => Ok(copied),
            Err(e) => Err(e),
        }
    }

    /// The result of a fetch as text: the bytes must be valid UTF-8.
    pub fn fetch_string(
        &self,
        call: KeyCall,
        buffer: &ForeignBuffer,
        copied: Vec<u8>,
        last: &LastError,
    ) -> (r: Result<String, GdbmError>)
        ensures
            text_view(r) == string_outcome(*buffer, copied@, *last),
    {
        match self.fetch_data(call, buffer, copied, last) {
            Ok(bytes) => decode(bytes),
            Err(e) => Err(e),
        }
    }

    /// The result of a fetch as text, without one trailing zero byte: C
    /// programs often store strings together with their terminator.
    pub fn fetch_cstring(
        &self,
        call: KeyCall,
        buffer: &ForeignBuffer,
        copied: Vec<u8>,
        last: &LastError,
    ) -> (r: Result<String, GdbmError>)
        ensures
            text_view(r) == cstring_outcome(*buffer, copied@, *last),
    {
        match self.fetch_data(call, buffer, copied, last) {
            Ok(bytes) => decode_trimmed(bytes),
            Err(e) => Err(e),
        }
    }

    /// The result of a delete: `true` if a record was removed, `false` if the
    /// key was absent, and the engine's failure otherwise.
    pub fn delete(&self, call: KeyCall, code: i32, last: &LastError) -> (r: Result<
        bool,
        GdbmError,
    >)
        ensures
            flag_view(r) == delete_outcome(code, *last),
    {
        if code < 0 {
            if last.code == 0 {
                return Ok(false);
            }
            return Err(last.to_failure());
        }
        Ok(true)
    }

    /// The result of an existence test: `true` if the key was found, `false`
    /// if it was not, and the engine's failure otherwise.
    pub fn contains_key(&self, call: KeyCall, code: i32, last: &LastError) -> (r: Result<
        bool,
        GdbmError,
    >)
        ensures
            flag_view(r) == exists_outcome(code, *last),
    {
        if code == 0 {
            Ok(true)
        } else if last.code == 0 {
            Ok(false)
        } else {
            Err(last.to_failure())
        }
    }
}

} // verus!
