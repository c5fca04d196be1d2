//! The operations of the binding, driven by a small in-memory stand-in for the
//! engine that answers each call the way the engine's interface documents.
use std::collections::HashMap;

use gdbm::{Datum, ForeignBuffer, Gdbm, GdbmError, LastError, Open};

struct Engine {
    records: HashMap<Vec<u8>, Vec<u8>>,
}

fn no_error() -> LastError {
    LastError::new(0, "No error".to_string())
}

impl Engine {
    fn store(&mut self, key: &Datum, content: &Datum, flag: u32) -> (i32, LastError) {
        assert_eq!(key.dsize() as usize, key.as_slice().len());
        assert_eq!(content.dsize() as usize, content.as_slice().len());
        if flag == 0 && self.records.contains_key(key.as_slice()) {
            return (1, no_error());
        }
        self.records.insert(key.as_slice().to_vec(), content.as_slice().to_vec());
        (0, no_error())
    }

    fn fetch(&self, key: &Datum) -> (ForeignBuffer, Vec<u8>, LastError) {
        match self.records.get(key.as_slice()) {
            Some(content) => {
                let buffer = ForeignBuffer::new(0x1000, content.len() as i32);
                (buffer, content.clone(), no_error())
            }
            None => (ForeignBuffer::new(0, 0), Vec::new(), no_error()),
        }
    }

    fn delete(&mut self, key: &Datum) -> (i32, LastError) {
        match self.records.remove(key.as_slice()) {
            Some(_) => (0, no_error()),
            None => (-1, no_error()),
        }
    }

    fn probe(&self, key: &Datum) -> (i32, LastError) {
        if self.records.contains_key(key.as_slice()) {
            (0, no_error())
        } else {
            (1, no_error())
        }
    }
}

struct Session {
    db: Gdbm,
    engine: Engine,
}

impl Session {
    fn create() -> Session {
        let call = Gdbm::open(b"test.db", 0, Open::newdb(), 0o600).expect("Gdbm::new");
        assert_eq!(call.path(), b"test.db\0");
        assert_eq!(call.flags(), 3);
        let db = Gdbm::new(call, 0x7000, &no_error()).expect("Gdbm::new");
        Session { db, engine: Engine { records: HashMap::new() } }
    }

    fn store(&mut self, key: &[u8], content: &[u8], replace: bool) -> Result<bool, GdbmError> {
        let call = self.db.store_call(key, content, replace)?;
        let (code, last) = self.engine.store(call.key(), call.content(), call.flag().bits());
        self.db.store(call, code, &last)
    }

    fn fetch_data(&self, key: &[u8]) -> Result<Vec<u8>, GdbmError> {
        let call = self.db.key_call(key)?;
        let (buffer, copied, last) = self.engine.fetch(call.key());
        let result = self.db.fetch_data(call, &buffer, copied, &last);
        let _ = buffer.release();
        result
    }

    fn fetch_string(&self, key: &[u8]) -> Result<String, GdbmError> {
        let call = self.db.key_call(key)?;
        let (buffer, copied, last) = self.engine.fetch(call.key());
        self.db.fetch_string(call, &buffer, copied, &last)
    }

    fn fetch_cstring(&self, key: &[u8]) -> Result<String, GdbmError> {
        let call = self.db.key_call(key)?;
        let (buffer, copied, last) = self.engine.fetch(call.key());
        self.db.fetch_cstring(call, &buffer, copied, &last)
    }

    fn delete(&mut self, key: &[u8]) -> Result<bool, GdbmError> {
        let call = self.db.key_call(key)?;
        let (code, last) = self.engine.delete(call.key());
        self.db.delete(call, code, &last)
    }

    fn contains_key(&self, key: &[u8]) -> Result<bool, GdbmError> {
        let call = self.db.key_call(key)?;
        let (code, last) = self.engine.probe(call.key());
        self.db.contains_key(call, code, &last)
    }
}

#[test]
fn create_test() {
    let mut db = Session::create();
    let data = "blah".to_string();
    let store_result = db.store(b"foo", data.as_bytes(), true).expect("store");
    assert_eq!(store_result, true);
    let store_result = db.store(b"foo", data.as_bytes(), false).expect("store");
    assert_eq!(store_result, false);
    let fetch_result = db.fetch_string(b"foo").expect("fetch");
    assert_eq!("blah".to_string(), fetch_result);
    assert_eq!(db.delete(b"foo").expect("delete"), true);
    assert!(matches!(db.fetch_data(b"foo"), Err(GdbmError::NotFound)));
    let handle = db.db.close();
    assert_eq!(handle, 0x7000);
}

#[test]
fn replace_round_trip() {
    let mut db = Session::create();
    let content: Vec<u8> = vec![0, 255, 1, 254, 0];
    assert_eq!(db.store(b"k", &content, true).unwrap(), true);
    assert_eq!(db.fetch_data(b"k").unwrap(), content);
    assert_eq!(db.store(b"k", b"", true).unwrap(), true);
    assert_eq!(db.fetch_data(b"k").unwrap(), Vec::<u8>::new());
    assert_eq!(db.store(b"", b"empty key", true).unwrap(), true);
    assert_eq!(db.fetch_data(b"").unwrap(), b"empty key".to_vec());
}

#[test]
fn insert_only_keeps_first() {
    let mut db = Session::create();
    assert_eq!(db.store(b"k", b"v1", false).unwrap(), true);
    assert_eq!(db.store(b"k", b"v2", false).unwrap(), false);
    assert_eq!(db.fetch_data(b"k").unwrap(), b"v1".to_vec());
}

#[test]
fn replace_overwrites() {
    let mut db = Session::create();
    assert_eq!(db.store(b"k", b"v1", false).unwrap(), true);
    assert_eq!(db.store(b"k", b"v2", true).unwrap(), true);
    assert_eq!(db.fetch_data(b"k").unwrap(), b"v2".to_vec());
}

#[test]
fn key_exists_after_store_and_not_after_delete() {
    let mut db = Session::create();
    assert_eq!(db.contains_key(b"k").unwrap(), false);
    assert_eq!(db.store(b"k", b"v", true).unwrap(), true);
    assert_eq!(db.contains_key(b"k").unwrap(), true);
    assert_eq!(db.delete(b"k").unwrap(), true);
    assert_eq!(db.contains_key(b"k").unwrap(), false);
}

#[test]
fn delete_absent_then_present() {
    let mut db = Session::create();
    assert_eq!(db.delete(b"k").unwrap(), false);
    assert_eq!(db.store(b"k", b"v", false).unwrap(), true);
    assert_eq!(db.delete(b"k").unwrap(), true);
    assert!(matches!(db.fetch_data(b"k"), Err(GdbmError::NotFound)));
    assert_eq!(db.delete(b"k").unwrap(), false);
}

#[test]
fn strict_text_refuses_ill_formed_bytes() {
    let mut db = Session::create();
    assert_eq!(db.store(b"bad", &[b'a', 0xff, b'b'], true).unwrap(), true);
    let err = db.fetch_string(b"bad").unwrap_err();
    assert!(matches!(err, GdbmError::InvalidEncoding(_)));
    assert_eq!(err.description(), "invalid utf-8 sequence");
    assert_eq!(err.to_string(), "invalid utf-8 sequence of 1 bytes from index 1");
    assert!(matches!(db.fetch_cstring(b"bad"), Err(GdbmError::InvalidEncoding(_))));
    assert_eq!(db.fetch_data(b"bad").unwrap(), vec![b'a', 0xff, b'b']);
}

#[test]
fn strict_text_keeps_a_trailing_zero() {
    let mut db = Session::create();
    assert_eq!(db.store(b"c", b"blah\0", true).unwrap(), true);
    assert_eq!(db.fetch_string(b"c").unwrap(), "blah\0");
    assert_eq!(db.store(b"u", "gr\u{fc}n \u{1f600}".as_bytes(), true).unwrap(), true);
    assert_eq!(db.fetch_string(b"u").unwrap(), "gr\u{fc}n \u{1f600}");
}

#[test]
fn trimming_text_drops_one_trailing_zero() {
    let mut db = Session::create();
    assert_eq!(db.store(b"one", b"blah\0", true).unwrap(), true);
    assert_eq!(db.store(b"two", b"blah\0\0", true).unwrap(), true);
    assert_eq!(db.store(b"none", b"blah", true).unwrap(), true);
    assert_eq!(db.store(b"only", b"\0", true).unwrap(), true);
    assert_eq!(db.store(b"empty", b"", true).unwrap(), true);
    assert_eq!(db.fetch_cstring(b"one").unwrap(), "blah");
    assert_eq!(db.fetch_cstring(b"two").unwrap(), "blah\0");
    assert_eq!(db.fetch_cstring(b"none").unwrap(), "blah");
    assert_eq!(db.fetch_cstring(b"only").unwrap(), "");
    assert_eq!(db.fetch_cstring(b"empty").unwrap(), "");
    assert!(matches!(db.fetch_cstring(b"absent"), Err(GdbmError::NotFound)));
}
