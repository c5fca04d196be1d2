//! A verified, I/O-free core for a safe binding to the GNU dbm storage engine.
//!
//! The engine is reached through a C interface made of raw handles, pointer and
//! length descriptors and a shared last-error location. Everything that decides
//! is kept here and proved: which arguments may cross the boundary, what each
//! reply of the engine means, and which error a failure becomes. The calls
//! themselves are made by the embedding code, which hands every reply back as
//! plain values.
pub mod buffer;
pub mod channel;
pub mod datum;
pub mod error;
pub mod flags;
pub mod handle;
pub mod protocol;
pub mod text;

pub use buffer::ForeignBuffer;
pub use channel::LastError;
pub use datum::{datum, Datum};
pub use error::{Fault, GdbmError};
pub use flags::{Open, Store};
pub use handle::{Gdbm, KeyCall, OpenCall, StoreCall};
