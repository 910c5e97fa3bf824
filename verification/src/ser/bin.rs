//! The binary-compact codec, backed by bincode.
//!
//! Value payloads use the fixed-width little-endian scalar layout proved
//! in `bin_scalar`; the whole-store payload is written and read by
//! bincode itself.

use vstd::prelude::*;

use crate::error::NoDbError;
use crate::kv::keys_distinct;
use crate::kv::pairs_to_map;
use crate::kv::KvVec;
use crate::ser::bin_scalar;
use crate::ser::opt_value_view;
use crate::ser::value_bytes;
use crate::ser::value_of;
use crate::ser::SerializationMethod;
use crate::value::DbKind;
use crate::value::DbValue;

verus! {

/// The two maps that bincode reads out of a whole-store payload, if any.
pub uninterp spec fn bin_db_of(b: Seq<u8>) -> Option<
    (Map<Seq<char>, Seq<u8>>, Map<Seq<char>, Seq<Seq<u8>>>),
>;

/// Relies on `bincode::serialize` of the two maps: it cannot fail on
/// string-keyed maps of byte payloads written to memory, and what it
/// writes, `bincode::deserialize` reads back as the same maps.
#[verifier::external_body]
fn bin_encode_db(map: &Vec<(String, Vec<u8>)>, lists: &Vec<(String, Vec<Vec<u8>>)>) -> (r: Result<
    Vec<u8>,
    NoDbError,
>)
    ensures
        r is Ok,
        r matches Ok(b) ==> bin_db_of(b@) == Some(
            (pairs_to_map(map@), pairs_to_map(lists@)),
        ),
{
    let m: std::collections::HashMap<&String, &Vec<u8>> =
        map.iter().map(|p| (&p.0, &p.1)).collect();
    let l: std::collections::HashMap<&String, &Vec<Vec<u8>>> =
        lists.iter().map(|p| (&p.0, &p.1)).collect();
    bincode::serialize(&(m, l)).map_err(|_| NoDbError::Encoding)
}

/// Relies on `bincode::deserialize`: it reads the two maps back, or fails;
/// a map's keys come out pairwise distinct.
#[verifier::external_body]
fn bin_decode_db(b: &Vec<u8>) -> (r: Option<(Vec<(String, Vec<u8>)>, Vec<(String, Vec<Vec<u8>>)>)>)
    ensures
        match r {
            Some(p) => keys_distinct(p.0@) && keys_distinct(p.1@) && bin_db_of(b@) == Some(
                (pairs_to_map(p.0@), pairs_to_map(p.1@)),
            ),
            None => bin_db_of(b@) is None,
        },
{
    let (m, l): (
        std::collections::HashMap<String, Vec<u8>>,
        std::collections::HashMap<String, Vec<Vec<u8>>>,
    ) = match bincode::deserialize(b) {
        Ok(v) => v,
        Err(_) => return None,
    };
    Some((m.into_iter().collect(), l.into_iter().collect()))
}

/// The binary-compact codec.
#[derive(Clone, Copy)]
pub struct BinSer;

impl BinSer {
    pub fn new() -> (r: Self) {
        BinSer
    }

    pub fn serialize_data(&self, v: &DbValue) -> (r: Vec<u8>)
        ensures
            r@ == value_bytes(SerializationMethod::Bin, v@),
            value_of(SerializationMethod::Bin, v@.kind(), r@) == Some(v@),
    {
        match v {
            DbValue::Int(i) => {
                proof {
                    bin_scalar::lemma_int_payload_round_trip(*i);
                }
                bin_scalar::encode_int(*i)
            },
            DbValue::Text(s) => {
                let r = bin_scalar::encode_text(s);
                let _n = r.len();
                proof {
                    bin_scalar::lemma_pow256_8();
                    bin_scalar::lemma_le_bytes_len(
                        vstd::utf8::encode_utf8(s@).len(),
                        8,
                    );
                    bin_scalar::lemma_text_payload_round_trip(s@);
                }
                r
            },
        }
    }

    pub fn deserialize_data(&self, b: &Vec<u8>, kind: DbKind) -> (r: Option<DbValue>)
        ensures
            opt_value_view(r) == value_of(SerializationMethod::Bin, kind, b@),
    {
        match kind {
            DbKind::Int => match bin_scalar::decode_int(b) {
                Some(i) => Some(DbValue::Int(i)),
                None => None,
            },
            DbKind::Text => match bin_scalar::decode_text(b) {
                Some(s) => Some(DbValue::Text(s)),
                None => None,
            },
        }
    }

    pub fn serialize_db(&self, map: &KvVec<Vec<u8>>, lists: &KvVec<Vec<Vec<u8>>>) -> (r: Result<
        Vec<u8>,
        NoDbError,
    >)
        ensures
            r is Ok,
            r matches Ok(b) ==> crate::ser::db_of(SerializationMethod::Bin, b@) == Some(
                (map@, lists@),
            ),
    {
        bin_encode_db(map.entries(), lists.entries())
    }

    pub fn deserialized_db(&self, b: &Vec<u8>) -> (r: Result<
        (KvVec<Vec<u8>>, KvVec<Vec<Vec<u8>>>),
        NoDbError,
    >)
        ensures
            match r {
                Ok(p) => p.0.wf() && p.1.wf() && crate::ser::db_of(SerializationMethod::Bin, b@)
                    == Some((p.0@, p.1@)),
                Err(e) => e == NoDbError::Decoding && crate::ser::db_of(
                    SerializationMethod::Bin,
                    b@,
                ) is None,
            },
    {
        match bin_decode_db(b) {
            Some((m, l)) => Ok((KvVec::from_entries(m), KvVec::from_entries(l))),
            None => Err(NoDbError::Decoding),
        }
    }
}

} // verus!
