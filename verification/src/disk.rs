//! The store's model of its backing file.
//!
//! The store itself performs no file I/O; it keeps the bytes that the
//! backing file holds after the last successful flush. The surrounding
//! program carries `content()` to the real path after each successful
//! mutating call, using a fresh temporary file renamed over the original,
//! so the two-step write-then-rename appears here as one atomic
//! replacement. `set_fail_writes` injects a write failure — what a full
//! disk or a permission error does to the real file — so the store's
//! rollback discipline can be exercised.

use vstd::prelude::*;

use crate::error::NoDbError;

verus! {

/// The backing file: its bytes, or `None` while no flush has happened yet,
/// plus the injected-failure switch.
pub struct Backing {
    file: Option<Vec<u8>>,
    fail_writes: bool,
}

impl Backing {
    /// The bytes the file holds, if it exists.
    pub closed spec fn file_spec(self) -> Option<Seq<u8>> {
        match self.file {
            Some(v) => Some(v@),
            None => None,
        }
    }

    /// True while writes are set to fail.
    pub closed spec fn fails(self) -> bool {
        self.fail_writes
    }

    /// A backing with no file yet, as `NoDb::new` starts from.
    pub fn new_empty() -> (r: Self)
        ensures
            r.file_spec() is None,
            !r.fails(),
    {
        Backing { file: None, fail_writes: false }
    }

    /// A backing holding the bytes read from an existing file, as
    /// `NoDb::load` starts from.
    pub fn from_bytes(bytes: Vec<u8>) -> (r: Self)
        ensures
            r.file_spec() == Some(bytes@),
            !r.fails(),
    {
        Backing { file: Some(bytes), fail_writes: false }
    }

    /// Switches injected write failure on or off.
    pub fn set_fail_writes(&mut self, fail: bool)
        ensures
            final(self).fails() == fail,
            final(self).file_spec() == old(self).file_spec(),
    {
        self.fail_writes = fail;
    }

    /// The current file bytes, if the file exists.
    pub fn content(&self) -> (r: Option<&Vec<u8>>)
        ensures
            match r {
                Some(v) => self.file_spec() == Some(v@),
                None => self.file_spec() is None,
            },
    {
        match &self.file {
            Some(v) => Some(v),
            None => None,
        }
    }

    /// Replaces the file's bytes atomically, or fails without touching them
    /// when failure is injected.
    pub fn write(&mut self, bytes: Vec<u8>) -> (r: Result<(), NoDbError>)
        ensures
            final(self).fails() == old(self).fails(),
            match r {
                Ok(()) => !old(self).fails() && final(self).file_spec() == Some(bytes@),
                Err(e) => old(self).fails() && e == NoDbError::Io && final(self).file_spec()
                    == old(self).file_spec(),
            },
    {
        if self.fail_writes {
            Err(NoDbError::Io)
        } else {
            self.file = Some(bytes);
            Ok(())
        }
    }
}

} // verus!
