//! The self-describing binary codec, backed by serde_cbor.
//!
//! Values and the whole store are written and read by serde_cbor;
//! payloads carry the two maps as nested byte sequences directly.

use vstd::prelude::*;

use crate::error::NoDbError;
use crate::kv::keys_distinct;
use crate::kv::pairs_to_map;
use crate::kv::KvVec;
use crate::ser::opt_value_view;
use crate::ser::value_bytes;
use crate::ser::value_of;
use crate::ser::SerializationMethod;
use crate::value::DbKind;
use crate::value::DbValue;

verus! {

/// The payload this format writes for an integer value.
pub uninterp spec fn cbor_int_bytes(i: i64) -> Seq<u8>;

/// The integer this format reads out of a payload, if any.
pub uninterp spec fn cbor_int_of(b: Seq<u8>) -> Option<i64>;

/// The payload this format writes for a text value.
pub uninterp spec fn cbor_text_bytes(s: Seq<char>) -> Seq<u8>;

/// The text this format reads out of a payload, if any.
pub uninterp spec fn cbor_text_of(b: Seq<u8>) -> Option<Seq<char>>;

/// The two maps this format reads out of a whole-store payload, if any.
pub uninterp spec fn cbor_db_of(b: Seq<u8>) -> Option<
    (Map<Seq<char>, Seq<u8>>, Map<Seq<char>, Seq<Seq<u8>>>),
>;

/// Relies on `serde_cbor::to_vec` for an `i64`: a function of the value
/// alone (it never fails for one), which `serde_cbor::from_slice` reads
/// back as the same integer.
#[verifier::external_body]
fn cbor_encode_int(i: i64) -> (r: Vec<u8>)
    ensures
        r@ == cbor_int_bytes(i),
        cbor_int_of(r@) == Some(i),
{
    serde_cbor::to_vec(&i).unwrap()
}

/// Relies on `serde_cbor::from_slice` for an `i64`: a function of the
/// payload bytes alone.
#[verifier::external_body]
fn cbor_decode_int(b: &Vec<u8>) -> (r: Option<i64>)
    ensures
        r == cbor_int_of(b@),
{
    serde_cbor::from_slice(b).ok()
}

/// Relies on `serde_cbor::to_vec` for a `String`: a function of the text
/// alone (it never fails for one), which `serde_cbor::from_slice` reads
/// back as the same text.
#[verifier::external_body]
fn cbor_encode_text(s: &String) -> (r: Vec<u8>)
    ensures
        r@ == cbor_text_bytes(s@),
        cbor_text_of(r@) == Some(s@),
{
    serde_cbor::to_vec(s).unwrap()
}

/// Relies on `serde_cbor::from_slice` for a `String`: a function of the
/// payload bytes alone.
#[verifier::external_body]
fn cbor_decode_text(b: &Vec<u8>) -> (r: Option<String>)
    ensures
        match r {
            Some(s) => cbor_text_of(b@) == Some(s@),
            None => cbor_text_of(b@) is None,
        },
{
    serde_cbor::from_slice(b).ok()
}

/// Relies on `serde_cbor::to_vec` of the two maps: it cannot fail on
/// string-keyed maps of byte payloads written to memory, and what it
/// writes, `serde_cbor::from_slice` reads back as the same maps.
#[verifier::external_body]
fn cbor_encode_db(map: &Vec<(String, Vec<u8>)>, lists: &Vec<(String, Vec<Vec<u8>>)>) -> (r: Result<
    Vec<u8>,
    NoDbError,
>)
    ensures
        r is Ok,
        r matches Ok(b) ==> cbor_db_of(b@) == Some(
            (pairs_to_map(map@), pairs_to_map(lists@)),
        ),
{
    let m: std::collections::HashMap<&String, &Vec<u8>> =
        map.iter().map(|p| (&p.0, &p.1)).collect();
    let l: std::collections::HashMap<&String, &Vec<Vec<u8>>> =
        lists.iter().map(|p| (&p.0, &p.1)).collect();
    serde_cbor::to_vec(&(m, l)).map_err(|_| NoDbError::Encoding)
}

/// Relies on `serde_cbor::from_slice`: it reads the two maps back, or
/// fails; a map's keys come out pairwise distinct.
#[verifier::external_body]
fn cbor_decode_db(b: &Vec<u8>) -> (r: Option<
    (Vec<(String, Vec<u8>)>, Vec<(String, Vec<Vec<u8>>)>),
>)
    ensures
        match r {
            Some(p) => keys_distinct(p.0@) && keys_distinct(p.1@) && cbor_db_of(b@) == Some(
                (pairs_to_map(p.0@), pairs_to_map(p.1@)),
            ),
            None => cbor_db_of(b@) is None,
        },
{
    let (m, l): (
        std::collections::HashMap<String, Vec<u8>>,
        std::collections::HashMap<String, Vec<Vec<u8>>>,
    ) = match serde_cbor::from_slice(b) {
        Ok(v) => v,
        Err(_) => return None,
    };
    Some((m.into_iter().collect(), l.into_iter().collect()))
}

/// The self-describing binary codec, backed by serde_cbor.
#[derive(Clone, Copy)]
pub struct CborSer;

impl CborSer {
    pub fn new() -> (r: Self) {
        CborSer
    }

    pub fn serialize_data(&self, v: &DbValue) -> (r: Vec<u8>)
        ensures
            r@ == value_bytes(SerializationMethod::Cbor, v@),
            value_of(SerializationMethod::Cbor, v@.kind(), r@) == Some(v@),
    {
        match v {
            DbValue::Int(i) => cbor_encode_int(*i),
            DbValue::Text(s) => cbor_encode_text(s),
        }
    }

    pub fn deserialize_data(&self, b: &Vec<u8>, kind: DbKind) -> (r: Option<DbValue>)
        ensures
            opt_value_view(r) == value_of(SerializationMethod::Cbor, kind, b@),
    {
        match kind {
            DbKind::Int => match cbor_decode_int(b) {
                Some(i) => Some(DbValue::Int(i)),
                None => None,
            },
            DbKind::Text => match cbor_decode_text(b) {
                Some(s) => Some(DbValue::Text(s)),
                None => None,
            },
        }
    }

    pub fn serialize_db(&self, map: &KvVec<Vec<u8>>, lists: &KvVec<Vec<Vec<u8>>>) -> (r: Result<
        Vec<u8>,
        NoDbError,
    >)
        ensures
            r is Ok,
            r matches Ok(b) ==> crate::ser::db_of(SerializationMethod::Cbor, b@) == Some(
                (map@, lists@),
            ),
    {
        cbor_encode_db(map.entries(), lists.entries())
    }

    pub fn deserialized_db(&self, b: &Vec<u8>) -> (r: Result<
        (KvVec<Vec<u8>>, KvVec<Vec<Vec<u8>>>),
        NoDbError,
    >)
        ensures
            match r {
                Ok(p) => p.0.wf() && p.1.wf() && crate::ser::db_of(SerializationMethod::Cbor, b@)
                    == Some((p.0@, p.1@)),
                Err(e) => e == NoDbError::Decoding && crate::ser::db_of(
                    SerializationMethod::Cbor,
                    b@,
                ) is None,
            },
    {
        match cbor_decode_db(b) {
            Some((m, l)) => Ok((KvVec::from_entries(m), KvVec::from_entries(l))),
            None => Err(NoDbError::Decoding),
        }
    }
}

} // verus!
