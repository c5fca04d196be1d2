//! The option sets of the open and store calls, in the engine's encoding.
use vstd::prelude::*;

verus! {

/// Read-only access.
pub const READER: u32 = 0;
/// Read and write access to an existing database.
pub const WRITER: u32 = 1;
/// Read and write access; the database is created if it does not exist.
pub const WRCREAT: u32 = 2;
/// Read and write access to a database that is always created afresh.
pub const NEWDB: u32 = 3;
/// Fast mode: writes are not flushed one by one.
pub const FAST: u32 = 16;
/// Sync mode: every write is flushed to disk.
pub const SYNC: u32 = 32;
/// The engine takes no lock on the database file.
pub const NOLOCK: u32 = 64;
/// Every bit that an open flag set may hold.
pub const OPEN_ALL: u32 = 115;

/// Store flag: leave an existing record untouched.
pub const INSERT: u32 = 0;
/// Store flag: overwrite an existing record.
pub const REPLACE: u32 = 1;

/// Flags of the open call: an access mode in the two low bits, combined by
/// bitwise or with the independent option bits.
#[derive(Clone, Copy, Debug, PartialEq, Eq, Structural)]
pub struct Open {
    bits: u32,
}

impl Open {
    #[verifier::type_invariant]
    spec fn known_bits(self) -> bool {
        self.bits & !OPEN_ALL == 0
    }

    /// The numeric value of the set.
    pub closed spec fn view(&self) -> u32 {
        self.bits
    }

    /// Read-only access.
    pub fn reader() -> (f: Open)
        ensures
            f@ == READER,
    {
        assert(0u32 & !115u32 == 0) by (bit_vector);
        Open { bits: READER }
    }

    /// Read and write access to an existing database.
    pub fn writer() -> (f: Open)
        ensures
            f@ == WRITER,
    {
        assert(1u32 & !115u32 == 0) by (bit_vector);
        Open { bits: WRITER }
    }

    /// Read and write access, creating the database if it does not exist.
    pub fn wrcreat() -> (f: Open)
        ensures
            f@ == WRCREAT,
    {
        assert(2u32 & !115u32 == 0) by (bit_vector);
        Open { bits: WRCREAT }
    }

    /// Read and write access to a database created afresh.
    pub fn newdb() -> (f: Open)
        ensures
            f@ == NEWDB,
    {
        assert(3u32 & !115u32 == 0) by (bit_vector);
        Open { bits: NEWDB }
    }

    /// Fast mode.
    pub fn fast() -> (f: Open)
        ensures
            f@ == FAST,
    {
        assert(16u32 & !115u32 == 0) by (bit_vector);
        Open { bits: FAST }
    }

    /// Sync mode.
    pub fn sync() -> (f: Open)
        ensures
            f@ == SYNC,
    {
        assert(32u32 & !115u32 == 0) by (bit_vector);
        Open { bits: SYNC }
    }

    /// No locking by the engine.
    pub fn nolock() -> (f: Open)
        ensures
            f@ == NOLOCK,
    {
        assert(64u32 & !115u32 == 0) by (bit_vector);
        Open { bits: NOLOCK }
    }

    /// The set with exactly the given bits, if every one of them is a known
    /// open flag.
    pub fn from_bits(bits: u32) -> (r: Option<Open>)
        ensures
            bits & !OPEN_ALL == 0 ==> (r matches Some(f) && f@ == bits),
            bits & !OPEN_ALL != 0 ==> r is None,
    {
        if bits & !OPEN_ALL == 0 {
            Some(Open { bits })
        } else {
            None
        }
    }

    /// The numeric value of the set. It never exceeds the sum of all flags.
    pub fn bits(&self) -> (bits: u32)
        ensures
            bits == self@,
            bits <= OPEN_ALL,
    {
        proof {
            use_type_invariant(self);
            let b = self.bits;
            assert(b & !115u32 == 0 ==> b <= 115u32) by (bit_vector);
        }
        self.bits
    }

    /// The flags of both sets, combined by bitwise or.
    pub fn union(self, other: Open) -> (f: Open)
        ensures
            f@ == self@ | other@,
    {
        proof {
            use_type_invariant(self);
            use_type_invariant(other);
            let a = self.bits;
            let b = other.bits;
            assert(a & !115u32 == 0 && b & !115u32 == 0 ==> (a | b) & !115u32 == 0)
                by (bit_vector);
        }
        Open { bits: self.bits | other.bits }
    }

    /// Whether every bit of `other` is set in `self`.
    pub fn contains(&self, other: Open) -> (held: bool)
        ensures
            held == (self@ & other@ == other@),
    {
        self.bits & other.bits == other.bits
    }

    /// The access mode alone: the two low bits.
    pub fn access_mode(&self) -> (mode: u32)
        ensures
            mode == self@ & 3,
            mode <= NEWDB,
    {
        proof {
            let b = self.bits;
            assert(b & 3u32 <= 3u32) by (bit_vector);
        }
        self.bits & 3
    }
}

/// Flag of the store call: insert only, or replace.
#[derive(Clone, Copy, Debug, PartialEq, Eq, Structural)]
pub struct Store {
    bits: u32,
}

impl Store {
    #[verifier::type_invariant]
    spec fn known_bits(self) -> bool {
        self.bits == INSERT || self.bits == REPLACE
    }

    /// The numeric value of the flag.
    pub closed spec fn view(&self) -> u32 {
        self.bits
    }

    /// The flag for a store that overwrites (`replace`) or does not.
    pub fn select(replace: bool) -> (f: Store)
        ensures
            f@ == if replace { REPLACE } else { INSERT },
    {
        if replace {
            Store { bits: REPLACE }
        } else {
            Store { bits: INSERT }
        }
    }

    /// The numeric value of the flag: zero or one.
    pub fn bits(&self) -> (bits: u32)
        ensures
            bits == self@,
            bits == INSERT || bits == REPLACE,
    {
        proof {
            use_type_invariant(self);
        }
        self.bits
    }
}

} // verus!
