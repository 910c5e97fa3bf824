//! NoDb: a small embedded key-value store.
//!
//! An in-memory map of scalar entries plus a separate map of named lists,
//! mirrored to a backing file in one of several serialization formats, with
//! a configurable dump policy. Every mutating operation follows the same
//! discipline: mutate in memory, ask the dump policy whether to flush, and
//! roll the mutation back if a required flush fails.

pub mod crypto;
pub mod disk;
pub mod error;
pub mod ext;
pub mod iter;
pub mod kv;
pub mod nodb;
pub mod ser;
pub mod value;

pub use crate::crypto::B64;
pub use crate::disk::Backing;
pub use crate::error::NoDbError;
pub use crate::ext::NoDbExt;
pub use crate::iter::NoDbIter;
pub use crate::iter::NoDbIterItem;
pub use crate::iter::NoDbListIter;
pub use crate::iter::NoDbListIterItem;
pub use crate::nodb::DumpPolicy;
pub use crate::nodb::NoDb;
pub use crate::ser::SerializationMethod;
pub use crate::value::DbKind;
pub use crate::value::DbValue;
