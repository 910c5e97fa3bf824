//! The structured-text codec, backed by serde_json.
//!
//! An integer value's payload is its canonical decimal text; a text
//! value's payload is a quoted, escaped string. The whole-store payload
//! embeds each item payload as a string, so this codec restricts itself
//! to item payloads that are valid UTF-8 and reports an encoding error
//! otherwise.

use vstd::prelude::*;

use vstd::utf8::valid_utf8;

use crate::error::NoDbError;
use crate::kv::keys_distinct;
use crate::kv::lemma_pairs_to_map_contains;
use crate::kv::lemma_pairs_to_map_lookup;
use crate::kv::pairs_to_map;
use crate::kv::KvVec;
use crate::ser::dec_int_bytes;
use crate::ser::payloads_utf8;
use crate::ser::opt_value_view;
use crate::ser::value_bytes;
use crate::ser::value_of;
use crate::ser::SerializationMethod;
use crate::value::DbKind;
use crate::value::DbValue;

verus! {

/// The integer serde_json reads out of a payload, if any.
pub uninterp spec fn json_int_of(b: Seq<u8>) -> Option<i64>;

/// The quoted, escaped payload serde_json writes for a text value.
pub uninterp spec fn json_text_bytes(s: Seq<char>) -> Seq<u8>;

/// The text serde_json reads out of a payload, if any.
pub uninterp spec fn json_text_of(b: Seq<u8>) -> Option<Seq<char>>;

/// The two maps serde_json reads out of a whole-store payload, if any.
pub uninterp spec fn json_db_of(b: Seq<u8>) -> Option<
    (Map<Seq<char>, Seq<u8>>, Map<Seq<char>, Seq<Seq<u8>>>),
>;

/// Every scalar payload of the pair vector is valid UTF-8.
pub open spec fn scalar_pairs_utf8(s: Seq<(String, Vec<u8>)>) -> bool {
    forall|i: int| 0 <= i < s.len() ==> valid_utf8((#[trigger] s[i]).1@)
}

/// Every list item payload of the pair vector is valid UTF-8.
pub open spec fn list_pairs_utf8(s: Seq<(String, Vec<Vec<u8>>)>) -> bool {
    forall|i: int, j: int|
        #![trigger s[i].1@[j]]
        0 <= i < s.len() && 0 <= j < s[i].1@.len() ==> valid_utf8(s[i].1@[j]@)
}

/// Relies on `serde_json::to_vec` for an `i64`: the canonical decimal
/// digits (valid UTF-8), which `serde_json::from_slice` reads back as the
/// same integer.
#[verifier::external_body]
fn json_encode_int(i: i64) -> (r: Vec<u8>)
    ensures
        r@ == dec_int_bytes(i as int),
        valid_utf8(r@),
        json_int_of(r@) == Some(i),
{
    serde_json::to_vec(&i).unwrap()
}

/// Relies on `serde_json::from_slice` for an `i64`: a function of the
/// payload bytes alone.
#[verifier::external_body]
fn json_decode_int(b: &Vec<u8>) -> (r: Option<i64>)
    ensures
        r == json_int_of(b@),
{
    serde_json::from_slice(b).ok()
}

/// Relies on `serde_json::to_vec` for a `String`: a function of the text
/// alone, itself valid UTF-8, which `serde_json::from_slice` reads back
/// as the same text.
#[verifier::external_body]
fn json_encode_text(s: &String) -> (r: Vec<u8>)
    ensures
        r@ == json_text_bytes(s@),
        valid_utf8(r@),
        json_text_of(r@) == Some(s@),
{
    serde_json::to_vec(s).unwrap()
}

/// Relies on `serde_json::from_slice` for a `String`: a function of the
/// payload bytes alone.
#[verifier::external_body]
fn json_decode_text(b: &Vec<u8>) -> (r: Option<String>)
    ensures
        match r {
            Some(s) => json_text_of(b@) == Some(s@),
            None => json_text_of(b@) is None,
        },
{
    serde_json::from_slice(b).ok()
}

/// Relies on `serde_json::to_vec` of the two maps, items embedded as
/// UTF-8 strings: it succeeds exactly when every payload is valid UTF-8
/// (encoding string maps to memory cannot fail otherwise), and what it
/// writes, `serde_json::from_slice` reads back as the same maps.
#[verifier::external_body]
fn json_encode_db(map: &Vec<(String, Vec<u8>)>, lists: &Vec<(String, Vec<Vec<u8>>)>) -> (r: Result<
    Vec<u8>,
    NoDbError,
>)
    ensures
        (r is Ok) <==> (scalar_pairs_utf8(map@) && list_pairs_utf8(lists@)),
        r matches Ok(b) ==> json_db_of(b@) == Some(
            (pairs_to_map(map@), pairs_to_map(lists@)),
        ),
        r matches Err(e) ==> e == NoDbError::Encoding,
{
    let mut m = std::collections::HashMap::new();
    for p in map {
        m.insert(p.0.as_str(), std::str::from_utf8(&p.1).map_err(|_| NoDbError::Encoding)?);
    }
    let mut l = std::collections::HashMap::new();
    for p in lists {
        let mut v = Vec::new();
        for x in &p.1 {
            v.push(std::str::from_utf8(x).map_err(|_| NoDbError::Encoding)?);
        }
        l.insert(p.0.as_str(), v);
    }
    serde_json::to_vec(&(m, l)).map_err(|_| NoDbError::Encoding)
}

/// Relies on `serde_json::from_slice`: it reads the two maps back, or
/// fails; a map's keys come out pairwise distinct.
#[verifier::external_body]
fn json_decode_db(b: &Vec<u8>) -> (r: Option<
    (Vec<(String, Vec<u8>)>, Vec<(String, Vec<Vec<u8>>)>),
>)
    ensures
        match r {
            Some(p) => keys_distinct(p.0@) && keys_distinct(p.1@) && json_db_of(b@) == Some(
                (pairs_to_map(p.0@), pairs_to_map(p.1@)),
            ),
            None => json_db_of(b@) is None,
        },
{
    let (m, l): (
        std::collections::HashMap<String, String>,
        std::collections::HashMap<String, Vec<String>>,
    ) = match serde_json::from_slice(b) {
        Ok(v) => v,
        Err(_) => return None,
    };
    Some((
        m.into_iter().map(|(k, v)| (k, v.into_bytes())).collect(),
        l.into_iter().map(|(k, v)| (k, v.into_iter().map(String::into_bytes).collect())).collect(),
    ))
}

/// The structured-text codec.
#[derive(Clone, Copy)]
pub struct JsonSer;

impl JsonSer {
    pub fn new() -> (r: Self) {
        JsonSer
    }

    pub fn serialize_data(&self, v: &DbValue) -> (r: Vec<u8>)
        ensures
            r@ == value_bytes(SerializationMethod::Json, v@),
            value_of(SerializationMethod::Json, v@.kind(), r@) == Some(v@),
    {
        match v {
            DbValue::Int(i) => json_encode_int(*i),
            DbValue::Text(s) => json_encode_text(s),
        }
    }

    pub fn deserialize_data(&self, b: &Vec<u8>, kind: DbKind) -> (r: Option<DbValue>)
        ensures
            opt_value_view(r) == value_of(SerializationMethod::Json, kind, b@),
    {
        match kind {
            DbKind::Int => match json_decode_int(b) {
                Some(i) => Some(DbValue::Int(i)),
                None => None,
            },
            DbKind::Text => match json_decode_text(b) {
                Some(s) => Some(DbValue::Text(s)),
                None => None,
            },
        }
    }

    pub fn serialize_db(&self, map: &KvVec<Vec<u8>>, lists: &KvVec<Vec<Vec<u8>>>) -> (r: Result<
        Vec<u8>,
        NoDbError,
    >)
        requires
            map.wf(),
            lists.wf(),
        ensures
            (r is Ok) <==> payloads_utf8(map@, lists@),
            r matches Ok(b) ==> crate::ser::db_of(SerializationMethod::Json, b@) == Some(
                (map@, lists@),
            ),
            r matches Err(e) ==> e == NoDbError::Encoding,
    {
        proof {
            lemma_scalar_pairs_bridge(map.pairs_seq());
            lemma_list_pairs_bridge(lists.pairs_seq());
        }
        json_encode_db(map.entries(), lists.entries())
    }

    pub fn deserialized_db(&self, b: &Vec<u8>) -> (r: Result<
        (KvVec<Vec<u8>>, KvVec<Vec<Vec<u8>>>),
        NoDbError,
    >)
        ensures
            match r {
                Ok(p) => p.0.wf() && p.1.wf() && crate::ser::db_of(SerializationMethod::Json, b@)
                    == Some((p.0@, p.1@)),
                Err(e) => e == NoDbError::Decoding && crate::ser::db_of(
                    SerializationMethod::Json,
                    b@,
                ) is None,
            },
    {
        match json_decode_db(b) {
            Some((m, l)) => Ok((KvVec::from_entries(m), KvVec::from_entries(l))),
            None => Err(NoDbError::Decoding),
        }
    }
}

/// The pair-level UTF-8 condition on the scalar map is the map-view one.
proof fn lemma_scalar_pairs_bridge(s: Seq<(String, Vec<u8>)>)
    requires
        keys_distinct(s),
    ensures
        scalar_pairs_utf8(s) <==> (forall|k: Seq<char>| #[trigger]
            pairs_to_map(s).contains_key(k) ==> valid_utf8(pairs_to_map(s)[k])),
{
    let m = pairs_to_map(s);
    if scalar_pairs_utf8(s) {
        assert forall|k: Seq<char>| #[trigger] m.contains_key(k) implies valid_utf8(m[k]) by {
            lemma_pairs_to_map_contains(s, k);
            let i = choose|i: int| 0 <= i < s.len() && s[i].0@ == k;
            lemma_pairs_to_map_lookup(s, i);
            assert(s[i].1.deep_view() =~= s[i].1@);
        }
    }
    if forall|k: Seq<char>| #[trigger] m.contains_key(k) ==> valid_utf8(m[k]) {
        assert forall|i: int| 0 <= i < s.len() implies valid_utf8((#[trigger] s[i]).1@) by {
            lemma_pairs_to_map_lookup(s, i);
            assert(m.contains_key(s[i].0@));
            assert(s[i].1.deep_view() =~= s[i].1@);
        }
    }
}

/// The pair-level UTF-8 condition on the list map is the map-view one.
proof fn lemma_list_pairs_bridge(s: Seq<(String, Vec<Vec<u8>>)>)
    requires
        keys_distinct(s),
    ensures
        list_pairs_utf8(s) <==> (forall|k: Seq<char>, i: int|
            #![trigger pairs_to_map(s)[k][i]]
            pairs_to_map(s).contains_key(k) && 0 <= i < pairs_to_map(s)[k].len() ==> valid_utf8(
                pairs_to_map(s)[k][i],
            )),
{
    let m = pairs_to_map(s);
    if list_pairs_utf8(s) {
        assert forall|k: Seq<char>, i: int|
            #![trigger m[k][i]]
            m.contains_key(k) && 0 <= i < m[k].len() implies valid_utf8(m[k][i]) by {
            lemma_pairs_to_map_contains(s, k);
            let p = choose|p: int| 0 <= p < s.len() && s[p].0@ == k;
            lemma_pairs_to_map_lookup(s, p);
            assert(m[k][i] == s[p].1.deep_view()[i]);
            assert(s[p].1.deep_view()[i] == s[p].1@[i].deep_view());
            assert(s[p].1@[i].deep_view() =~= s[p].1@[i]@);
            assert(valid_utf8(s[p].1@[i]@));
        }
    }
    if forall|k: Seq<char>, i: int|
        #![trigger m[k][i]]
        m.contains_key(k) && 0 <= i < m[k].len() ==> valid_utf8(m[k][i]) {
        assert forall|p: int, j: int|
            #![trigger s[p].1@[j]]
            0 <= p < s.len() && 0 <= j < s[p].1@.len() implies valid_utf8(s[p].1@[j]@) by {
            lemma_pairs_to_map_lookup(s, p);
            let k = s[p].0@;
            assert(m[k] == s[p].1.deep_view());
            assert(m[k][j] == s[p].1@[j].deep_view());
            assert(s[p].1@[j].deep_view() =~= s[p].1@[j]@);
            assert(valid_utf8(m[k][j]));
        }
    }
}

} // verus!
