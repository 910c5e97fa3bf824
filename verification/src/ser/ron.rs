//! The text-rows codec, backed by ron.
//!
//! An integer value's payload is its canonical decimal text; a text
//! value's payload is a quoted, escaped string. The whole-store payload
//! carries the two maps with byte payloads as sequences of numbers, so it
//! is binary-safe.

use vstd::prelude::*;

use crate::error::NoDbError;
use crate::kv::keys_distinct;
use crate::kv::pairs_to_map;
use crate::kv::KvVec;
use crate::ser::dec_int_bytes;
use crate::ser::opt_value_view;
use crate::ser::value_bytes;
use crate::ser::value_of;
use crate::ser::SerializationMethod;
use crate::value::DbKind;
use crate::value::DbValue;

verus! {

/// The integer ron reads out of a payload, if any.
pub uninterp spec fn ron_int_of(b: Seq<u8>) -> Option<i64>;

/// The quoted, escaped payload ron writes for a text value.
pub uninterp spec fn ron_text_bytes(s: Seq<char>) -> Seq<u8>;

/// The text ron reads out of a payload, if any.
pub uninterp spec fn ron_text_of(b: Seq<u8>) -> Option<Seq<char>>;

/// The two maps ron reads out of a whole-store payload, if any.
pub uninterp spec fn ron_db_of(b: Seq<u8>) -> Option<
    (Map<Seq<char>, Seq<u8>>, Map<Seq<char>, Seq<Seq<u8>>>),
>;

/// Relies on `ron::ser::to_string` for an `i64`: the canonical decimal
/// digits, which `ron::de::from_bytes` reads back as the same integer.
#[verifier::external_body]
fn ron_encode_int(i: i64) -> (r: Vec<u8>)
    ensures
        r@ == dec_int_bytes(i as int),
        ron_int_of(r@) == Some(i),
{
    ron::ser::to_string(&i).unwrap().into_bytes()
}

/// Relies on `ron::de::from_bytes` for an `i64`: a function of the
/// payload bytes alone.
#[verifier::external_body]
fn ron_decode_int(b: &Vec<u8>) -> (r: Option<i64>)
    ensures
        r == ron_int_of(b@),
{
    ron::de::from_bytes(b).ok()
}

/// Relies on `ron::ser::to_string` for a `String`: a function of the text
/// alone, which `ron::de::from_bytes` reads back as the same text.
#[verifier::external_body]
fn ron_encode_text(s: &String) -> (r: Vec<u8>)
    ensures
        r@ == ron_text_bytes(s@),
        ron_text_of(r@) == Some(s@),
{
    ron::ser::to_string(s).unwrap().into_bytes()
}

/// Relies on `ron::de::from_bytes` for a `String`: a function of the
/// payload bytes alone.
#[verifier::external_body]
fn ron_decode_text(b: &Vec<u8>) -> (r: Option<String>)
    ensures
        match r {
            Some(s) => ron_text_of(b@) == Some(s@),
            None => ron_text_of(b@) is None,
        },
{
    ron::de::from_bytes(b).ok()
}

/// Relies on `ron::ser::to_string` of the two maps: it cannot fail on
/// string-keyed maps of byte payloads written to memory, and what it
/// writes, `ron::de::from_bytes` reads back as the same maps.
#[verifier::external_body]
fn ron_encode_db(map: &Vec<(String, Vec<u8>)>, lists: &Vec<(String, Vec<Vec<u8>>)>) -> (r: Result<
    Vec<u8>,
    NoDbError,
>)
    ensures
        r is Ok,
        r matches Ok(b) ==> ron_db_of(b@) == Some(
            (pairs_to_map(map@), pairs_to_map(lists@)),
        ),
{
    let m: std::collections::HashMap<&String, &Vec<u8>> =
        map.iter().map(|p| (&p.0, &p.1)).collect();
    let l: std::collections::HashMap<&String, &Vec<Vec<u8>>> =
        lists.iter().map(|p| (&p.0, &p.1)).collect();
    ron::ser::to_string(&(m, l)).map(String::into_bytes).map_err(|_| NoDbError::Encoding)
}

/// Relies on `ron::de::from_bytes`: it reads the two maps back, or fails;
/// a map's keys come out pairwise distinct.
#[verifier::external_body]
fn ron_decode_db(b: &Vec<u8>) -> (r: Option<(Vec<(String, Vec<u8>)>, Vec<(String, Vec<Vec<u8>>)>)>)
    ensures
        match r {
            Some(p) => keys_distinct(p.0@) && keys_distinct(p.1@) && ron_db_of(b@) == Some(
                (pairs_to_map(p.0@), pairs_to_map(p.1@)),
            ),
            None => ron_db_of(b@) is None,
        },
{
    let (m, l): (
        std::collections::HashMap<String, Vec<u8>>,
        std::collections::HashMap<String, Vec<Vec<u8>>>,
    ) = match ron::de::from_bytes(b) {
        Ok(v) => v,
        Err(_) => return None,
    };
    Some((m.into_iter().collect(), l.into_iter().collect()))
}

/// The text-rows codec.
#[derive(Clone, Copy)]
pub struct RonSer;

impl RonSer {
    pub fn new() -> (r: Self) {
        RonSer
    }

    pub fn serialize_data(&self, v: &DbValue) -> (r: Vec<u8>)
        ensures
            r@ == value_bytes(SerializationMethod::Ron, v@),
            value_of(SerializationMethod::Ron, v@.kind(), r@) == Some(v@),
    {
        match v {
            DbValue::Int(i) => ron_encode_int(*i),
            DbValue::Text(s) => ron_encode_text(s),
        }
    }

    pub fn deserialize_data(&self, b: &Vec<u8>, kind: DbKind) -> (r: Option<DbValue>)
        ensures
            opt_value_view(r) == value_of(SerializationMethod::Ron, kind, b@),
    {
        match kind {
            DbKind::Int => match ron_decode_int(b) {
                Some(i) => Some(DbValue::Int(i)),
                None => None,
            },
            DbKind::Text => match ron_decode_text(b) {
                Some(s) => Some(DbValue::Text(s)),
                None => None,
            },
        }
    }

    pub fn serialize_db(&self, map: &KvVec<Vec<u8>>, lists: &KvVec<Vec<Vec<u8>>>) -> (r: Result<
        Vec<u8>,
        NoDbError,
    >)
        ensures
            r is Ok,
            r matches Ok(b) ==> crate::ser::db_of(SerializationMethod::Ron, b@) == Some(
                (map@, lists@),
            ),
    {
        ron_encode_db(map.entries(), lists.entries())
    }

    pub fn deserialized_db(&self, b: &Vec<u8>) -> (r: Result<
        (KvVec<Vec<u8>>, KvVec<Vec<Vec<u8>>>),
        NoDbError,
    >)
        ensures
            match r {
                Ok(p) => p.0.wf() && p.1.wf() && crate::ser::db_of(SerializationMethod::Ron, b@)
                    == Some((p.0@, p.1@)),
                Err(e) => e == NoDbError::Decoding && crate::ser::db_of(
                    SerializationMethod::Ron,
                    b@,
                ) is None,
            },
    {
        match ron_decode_db(b) {
            Some((m, l)) => Ok((KvVec::from_entries(m), KvVec::from_entries(l))),
            None => Err(NoDbError::Decoding),
        }
    }
}

} // verus!
