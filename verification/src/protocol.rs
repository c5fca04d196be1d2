//! The engine's documented replies, and what they make of the operations.
//!
//! The engine itself is out of sight of every proof here. What is in sight is
//! its interface: for a database that holds given records, which result code,
//! buffer and last-error state a call that does not fail comes back with. The
//! laws of this module say what the binding returns whenever the engine keeps
//! to that interface.
use crate::buffer::ForeignBuffer;
use crate::channel::LastError;
use crate::error::Fault;
use crate::handle::{
    cstring_outcome, delete_outcome, exists_outcome, fetch_outcome, store_outcome, string_outcome,
};
use crate::text::{decoded, trim_nul};
use vstd::utf8::valid_utf8;
use vstd::prelude::*;

verus! {

/// Whether a store on `db` writes: always when it replaces, else only where
/// the key is absent.
pub open spec fn store_writes(db: Map<Seq<u8>, Seq<u8>>, key: Seq<u8>, replace: bool) -> bool {
    replace || !db.contains_key(key)
}

/// The reply of a store that does not fail: zero where the record is written,
/// a positive code where it is not because the key exists.
pub open spec fn store_reply(db: Map<Seq<u8>, Seq<u8>>, key: Seq<u8>, replace: bool, code: i32) -> bool {
    if store_writes(db, key, replace) {
        code == 0
    } else {
        code > 0
    }
}

/// The records after a store that does not fail.
pub open spec fn after_store(
    db: Map<Seq<u8>, Seq<u8>>,
    key: Seq<u8>,
    content: Seq<u8>,
    replace: bool,
) -> Map<Seq<u8>, Seq<u8>> {
    if store_writes(db, key, replace) {
        db.insert(key, content)
    } else {
        db
    }
}

/// The records after a delete that does not fail.
pub open spec fn after_delete(db: Map<Seq<u8>, Seq<u8>>, key: Seq<u8>) -> Map<Seq<u8>, Seq<u8>> {
    db.remove(key)
}

/// The reply of a fetch that does not fail: for a stored key a buffer that is
/// not null, declares the record's length and holds the record's bytes, which
/// were copied out of it; for an absent key a null pointer and no recorded
/// error.
pub open spec fn fetch_reply(
    db: Map<Seq<u8>, Seq<u8>>,
    key: Seq<u8>,
    buffer: ForeignBuffer,
    copied: Seq<u8>,
    last: LastError,
) -> bool {
    if db.contains_key(key) {
        buffer.address != 0 && buffer.dsize as int == db[key].len() && copied == db[key]
    } else {
        buffer.address == 0 && last.code == 0
    }
}

/// The reply of an existence test that does not fail: zero for a stored key,
/// another code and no recorded error for an absent one.
pub open spec fn exists_reply(db: Map<Seq<u8>, Seq<u8>>, key: Seq<u8>, code: i32, last: LastError) -> bool {
    if db.contains_key(key) {
        code == 0
    } else {
        code != 0 && last.code == 0
    }
}

/// The reply of a delete that does not fail: a code that is not negative for
/// a stored key, a negative code and no recorded error for an absent one.
pub open spec fn delete_reply(db: Map<Seq<u8>, Seq<u8>>, key: Seq<u8>, code: i32, last: LastError) -> bool {
    if db.contains_key(key) {
        code >= 0
    } else {
        code < 0 && last.code == 0
    }
}

/// Round trip: a store that replaces returns `true`, and a fetch of the same
/// key right after it returns exactly the bytes stored.
pub proof fn law_replace_round_trip(
    db: Map<Seq<u8>, Seq<u8>>,
    key: Seq<u8>,
    content: Seq<u8>,
    code: i32,
    stored: LastError,
    buffer: ForeignBuffer,
    copied: Seq<u8>,
    fetched: LastError,
)
    requires
        store_reply(db, key, true, code),
        fetch_reply(after_store(db, key, content, true), key, buffer, copied, fetched),
    ensures
        store_outcome(code, stored) == Ok::<bool, Fault>(true),
        fetch_outcome(buffer, copied, fetched) == Ok::<Seq<u8>, Fault>(content),
{
}

/// Insert-only does not overwrite: after an insert-only store that wrote
/// `first`, a second insert-only store under the same key returns `false`
/// and a fetch still returns `first`.
pub proof fn law_insert_keeps_first(
    db: Map<Seq<u8>, Seq<u8>>,
    key: Seq<u8>,
    first: Seq<u8>,
    second: Seq<u8>,
    code1: i32,
    stored1: LastError,
    code2: i32,
    stored2: LastError,
    buffer: ForeignBuffer,
    copied: Seq<u8>,
    fetched: LastError,
)
    requires
        store_reply(db, key, false, code1),
        store_outcome(code1, stored1) == Ok::<bool, Fault>(true),
        store_reply(after_store(db, key, first, false), key, false, code2),
        fetch_reply(
            after_store(after_store(db, key, first, false), key, second, false),
            key,
            buffer,
            copied,
            fetched,
        ),
    ensures
        store_outcome(code2, stored2) == Ok::<bool, Fault>(false),
        fetch_outcome(buffer, copied, fetched) == Ok::<Seq<u8>, Fault>(first),
{
}

/// Replace overwrites: after an insert-only store, a replacing store under
/// the same key returns `true` and a fetch returns the second record.
pub proof fn law_replace_overwrites(
    db: Map<Seq<u8>, Seq<u8>>,
    key: Seq<u8>,
    first: Seq<u8>,
    second: Seq<u8>,
    code1: i32,
    code2: i32,
    stored2: LastError,
    buffer: ForeignBuffer,
    copied: Seq<u8>,
    fetched: LastError,
)
    requires
        store_reply(db, key, false, code1),
        store_reply(after_store(db, key, first, false), key, true, code2),
        fetch_reply(
            after_store(after_store(db, key, first, false), key, second, true),
            key,
            buffer,
            copied,
            fetched,
        ),
    ensures
        store_outcome(code2, stored2) == Ok::<bool, Fault>(true),
        fetch_outcome(buffer, copied, fetched) == Ok::<Seq<u8>, Fault>(second),
{
}

/// A key exists right after a store of it that did not fail, whether the
/// store wrote or found the key taken.
pub proof fn law_exists_after_store(
    db: Map<Seq<u8>, Seq<u8>>,
    key: Seq<u8>,
    content: Seq<u8>,
    replace: bool,
    code: i32,
    last: LastError,
)
    requires
        exists_reply(after_store(db, key, content, replace), key, code, last),
    ensures
        exists_outcome(code, last) == Ok::<bool, Fault>(true),
{
}

/// A key does not exist right after a delete of it that did not fail.
pub proof fn law_absent_after_delete(
    db: Map<Seq<u8>, Seq<u8>>,
    key: Seq<u8>,
    code: i32,
    last: LastError,
)
    requires
        exists_reply(after_delete(db, key), key, code, last),
    ensures
        exists_outcome(code, last) == Ok::<bool, Fault>(false),
{
}

/// A delete of an absent key returns `false`, and is no error.
pub proof fn law_delete_absent(db: Map<Seq<u8>, Seq<u8>>, key: Seq<u8>, code: i32, last: LastError)
    requires
        !db.contains_key(key),
        delete_reply(db, key, code, last),
    ensures
        delete_outcome(code, last) == Ok::<bool, Fault>(false),
{
}

/// A delete of a stored key returns `true`, and a fetch of the key right
/// after it reports a missing record.
pub proof fn law_delete_present(
    db: Map<Seq<u8>, Seq<u8>>,
    key: Seq<u8>,
    code: i32,
    deleted: LastError,
    buffer: ForeignBuffer,
    copied: Seq<u8>,
    fetched: LastError,
)
    requires
        db.contains_key(key),
        delete_reply(db, key, code, deleted),
        fetch_reply(after_delete(db, key), key, buffer, copied, fetched),
    ensures
        delete_outcome(code, deleted) == Ok::<bool, Fault>(true),
        fetch_outcome(buffer, copied, fetched) == Err::<Seq<u8>, Fault>(Fault::NotFound),
{
}

/// A text fetch of a stored key decodes the stored bytes: strictly, so that
/// bytes that are not valid UTF-8 are an encoding failure, or after one
/// trailing zero byte was removed.
pub proof fn law_text_of_stored_bytes(
    db: Map<Seq<u8>, Seq<u8>>,
    key: Seq<u8>,
    buffer: ForeignBuffer,
    copied: Seq<u8>,
    last: LastError,
)
    requires
        db.contains_key(key),
        fetch_reply(db, key, buffer, copied, last),
    ensures
        string_outcome(buffer, copied, last) == decoded(db[key]),
        !valid_utf8(db[key]) ==> string_outcome(buffer, copied, last) == Err::<Seq<char>, Fault>(
            Fault::InvalidEncoding,
        ),
        cstring_outcome(buffer, copied, last) == decoded(trim_nul(db[key])),
{
}

} // verus!
