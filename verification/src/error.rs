//! The error cases the store reports to its caller.

use vstd::prelude::*;

verus! {

/// What went wrong during a store operation.
///
/// Anything else — an unknown key, a wrong expected kind, an index out of
/// range — is a silent miss (`None` or `false`), never an error.
#[derive(Clone, Copy, Debug, PartialEq, Eq, Structural)]
pub enum NoDbError {
    /// The backing file could not be written or read.
    Io,
    /// The selected format could not encode the store payload.
    Encoding,
    /// The backing bytes could not be decoded as a whole store.
    Decoding,
}

} // verus!
