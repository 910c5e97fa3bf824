//! The base64 helper: a small utility for carrying bytes as text.
//!
//! Earlier revisions of the on-disk layout passed the whole-store payload
//! through this encoding before writing; the current layout writes raw
//! codec bytes, so this stands alone as a utility for callers.

use vstd::prelude::*;

use crate::error::NoDbError;

verus! {

/// The base64 text of a byte sequence, in the standard alphabet with
/// padding.
pub uninterp spec fn b64_of(data: Seq<u8>) -> Seq<char>;

/// The bytes a base64 text decodes to, if it is well-formed.
pub uninterp spec fn b64_parse(text: Seq<char>) -> Option<Seq<u8>>;

/// The base64 encoder/decoder.
#[derive(Clone, Copy)]
pub struct B64;

impl B64 {
    /// A new instance; the encoder keeps no state.
    pub fn new() -> (r: Self) {
        B64
    }

    /// Encodes bytes as base64 text.
    ///
    /// Relies on base64's standard-alphabet engine: the output is a
    /// function of the input alone, four characters for every three input
    /// bytes begun, and decodes back to the input.
    #[verifier::external_body]
    pub fn encrypt(&self, data: &Vec<u8>) -> (r: String)
        ensures
            r@ == b64_of(data@),
            b64_parse(r@) == Some(data@),
            r@.len() == 4 * ((data@.len() + 2) / 3),
    {
        base64::Engine::encode(&base64::engine::general_purpose::STANDARD, data)
    }

    /// Decodes base64 text back to bytes; fails exactly on text that is
    /// not well-formed base64.
    ///
    /// Relies on base64's standard-alphabet engine: the result is a
    /// function of the input alone.
    #[verifier::external_body]
    pub fn decrypt(&self, data: &str) -> (r: Result<Vec<u8>, NoDbError>)
        ensures
            match r {
                Ok(v) => b64_parse(data@) == Some(v@),
                Err(e) => b64_parse(data@) is None && e == NoDbError::Decoding,
            },
    {
        base64::Engine::decode(&base64::engine::general_purpose::STANDARD, data).map_err(
            |_| NoDbError::Decoding,
        )
    }
}

} // verus!
