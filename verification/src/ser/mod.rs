//! The serialization layer: one format choice, six interchangeable codecs.
//!
//! Each codec turns a single value into an opaque byte payload and back,
//! and turns the whole store (scalar map plus list map) into one byte
//! payload and back. The store holds exactly one codec, chosen at
//! construction, and never mixes formats.
//!
//! The text-based formats embed each item payload as a UTF-8 string inside
//! their outer structure; they restrict themselves to payloads that are
//! valid UTF-8 and report an encoding error otherwise. The binary-safe
//! formats carry payloads as nested byte sequences directly.

use vstd::prelude::*;

use vstd::utf8::valid_utf8;

use crate::error::NoDbError;
use crate::kv::KvVec;
use crate::value::DbKind;
use crate::value::DbValue;
use crate::value::ValueSpec;

pub mod bin;
pub mod bin_scalar;
pub mod bit;
pub mod cbor;
pub mod json;
pub mod pot;
pub mod ron;

verus! {

/// The available on-disk formats.
#[derive(Clone, Copy, Debug, PartialEq, Eq, Structural, Default)]
pub enum SerializationMethod {
    /// Structured text.
    #[default]
    Json,
    /// Binary-compact, fixed-width fields.
    Bin,
    /// Self-describing binary.
    Cbor,
    /// Bit-packed binary.
    Bit,
    /// Text rows.
    Ron,
    /// Schemaless binary.
    Pot,
}

impl SerializationMethod {
    /// The format a small numeric code selects; a code with no format
    /// behind it selects the default structured-text format.
    pub fn from_code(code: usize) -> (r: Self)
        ensures
            code == 0 ==> r == SerializationMethod::Json,
            code == 1 ==> r == SerializationMethod::Bin,
            code == 2 ==> r == SerializationMethod::Cbor,
            code == 4 ==> r == SerializationMethod::Bit,
            code == 5 ==> r == SerializationMethod::Ron,
            code == 7 ==> r == SerializationMethod::Pot,
            code == 3 || code == 6 || code > 7 ==> r == SerializationMethod::Json,
    {
        match code {
            0 => SerializationMethod::Json,
            1 => SerializationMethod::Bin,
            2 => SerializationMethod::Cbor,
            4 => SerializationMethod::Bit,
            5 => SerializationMethod::Ron,
            7 => SerializationMethod::Pot,
            _ => SerializationMethod::Json,
        }
    }
}

/// The decimal digits of `n`, most significant first.
pub open spec fn dec_digits(n: nat) -> Seq<u8>
    decreases n,
{
    if n < 10 {
        seq![(48 + n) as u8]
    } else {
        dec_digits(n / 10).push((48 + n % 10) as u8)
    }
}

/// The canonical decimal text of an integer: an optional minus sign, then
/// the digits without leading zeros. Both text formats write an integer
/// value this way.
pub open spec fn dec_int_bytes(i: int) -> Seq<u8> {
    if i < 0 {
        seq![45u8] + dec_digits((-i) as nat)
    } else {
        dec_digits(i as nat)
    }
}

pub open spec fn lift_int(r: Option<i64>) -> Option<ValueSpec> {
    match r {
        Some(i) => Some(ValueSpec::Int(i)),
        None => None,
    }
}

pub open spec fn lift_text(r: Option<Seq<char>>) -> Option<ValueSpec> {
    match r {
        Some(s) => Some(ValueSpec::Text(s)),
        None => None,
    }
}

/// The view of an optional returned value.
pub open spec fn opt_value_view(r: Option<DbValue>) -> Option<ValueSpec> {
    match r {
        Some(v) => Some(v@),
        None => None,
    }
}

/// The payload that format `m` writes for value `v`.
pub open spec fn value_bytes(m: SerializationMethod, v: ValueSpec) -> Seq<u8> {
    match v {
        ValueSpec::Int(i) => match m {
            SerializationMethod::Json => dec_int_bytes(i as int),
            SerializationMethod::Bin => bin_scalar::int_payload(i),
            SerializationMethod::Cbor => cbor::cbor_int_bytes(i),
            SerializationMethod::Bit => bit::bit_int_bytes(i),
            SerializationMethod::Ron => dec_int_bytes(i as int),
            SerializationMethod::Pot => pot::pot_int_bytes(i),
        },
        ValueSpec::Text(s) => match m {
            SerializationMethod::Json => json::json_text_bytes(s),
            SerializationMethod::Bin => bin_scalar::text_payload(s),
            SerializationMethod::Cbor => cbor::cbor_text_bytes(s),
            SerializationMethod::Bit => bit::bit_text_bytes(s),
            SerializationMethod::Ron => ron::ron_text_bytes(s),
            SerializationMethod::Pot => pot::pot_text_bytes(s),
        },
    }
}

/// The value of kind `k` that format `m` reads out of payload `b`, if any.
pub open spec fn value_of(m: SerializationMethod, k: DbKind, b: Seq<u8>) -> Option<ValueSpec> {
    match k {
        DbKind::Int => match m {
            SerializationMethod::Json => lift_int(json::json_int_of(b)),
            SerializationMethod::Bin => lift_int(bin_scalar::int_payload_value(b)),
            SerializationMethod::Cbor => lift_int(cbor::cbor_int_of(b)),
            SerializationMethod::Bit => lift_int(bit::bit_int_of(b)),
            SerializationMethod::Ron => lift_int(ron::ron_int_of(b)),
            SerializationMethod::Pot => lift_int(pot::pot_int_of(b)),
        },
        DbKind::Text => match m {
            SerializationMethod::Json => lift_text(json::json_text_of(b)),
            SerializationMethod::Bin => lift_text(bin_scalar::text_payload_value(b)),
            SerializationMethod::Cbor => lift_text(cbor::cbor_text_of(b)),
            SerializationMethod::Bit => lift_text(bit::bit_text_of(b)),
            SerializationMethod::Ron => lift_text(ron::ron_text_of(b)),
            SerializationMethod::Pot => lift_text(pot::pot_text_of(b)),
        },
    }
}

/// Every payload of both maps is valid UTF-8, so the structured-text
/// format can embed each one as a string.
pub open spec fn payloads_utf8(
    map: Map<Seq<char>, Seq<u8>>,
    lists: Map<Seq<char>, Seq<Seq<u8>>>,
) -> bool {
    &&& forall|k: Seq<char>| #[trigger] map.contains_key(k) ==> valid_utf8(map[k])
    &&& forall|k: Seq<char>, i: int|
        #![trigger lists[k][i]]
        lists.contains_key(k) && 0 <= i < lists[k].len() ==> valid_utf8(lists[k][i])
}

/// Whether format `m` can encode a whole store with these maps: the
/// binary-safe formats encode anything, the structured-text format only
/// UTF-8 payloads.
pub open spec fn db_encodable(
    m: SerializationMethod,
    map: Map<Seq<char>, Seq<u8>>,
    lists: Map<Seq<char>, Seq<Seq<u8>>>,
) -> bool {
    match m {
        SerializationMethod::Json => payloads_utf8(map, lists),
        _ => true,
    }
}

/// The whole store that format `m` reads out of payload `b`, if any.
pub open spec fn db_of(m: SerializationMethod, b: Seq<u8>) -> Option<
    (Map<Seq<char>, Seq<u8>>, Map<Seq<char>, Seq<Seq<u8>>>),
> {
    match m {
        SerializationMethod::Json => json::json_db_of(b),
        SerializationMethod::Bin => bin::bin_db_of(b),
        SerializationMethod::Cbor => cbor::cbor_db_of(b),
        SerializationMethod::Bit => bit::bit_db_of(b),
        SerializationMethod::Ron => ron::ron_db_of(b),
        SerializationMethod::Pot => pot::pot_db_of(b),
    }
}

/// Law: the binary-compact scalar layout round-trips every value, as long
/// as a text value's UTF-8 bytes fit the eight-byte length header.
pub proof fn lemma_bin_value_round_trip(v: ValueSpec)
    requires
        v matches ValueSpec::Text(s) ==> vstd::utf8::encode_utf8(s).len() < bin_scalar::pow256(8),
    ensures
        value_of(SerializationMethod::Bin, v.kind(), value_bytes(SerializationMethod::Bin, v))
            == Some(v),
{
    match v {
        ValueSpec::Int(i) => bin_scalar::lemma_int_payload_round_trip(i),
        ValueSpec::Text(s) => bin_scalar::lemma_text_payload_round_trip(s),
    }
}

/// The codec a store owns: the format choice, dispatching to one of the
/// six concrete codecs.
#[derive(Clone, Copy)]
pub enum Serializer {
    Json(json::JsonSer),
    Bin(bin::BinSer),
    Cbor(cbor::CborSer),
    Bit(bit::BitSer),
    Ron(ron::RonSer),
    Pot(pot::PotSer),
}

impl Serializer {
    /// The format this codec implements.
    pub open spec fn method(self) -> SerializationMethod {
        match self {
            Serializer::Json(_) => SerializationMethod::Json,
            Serializer::Bin(_) => SerializationMethod::Bin,
            Serializer::Cbor(_) => SerializationMethod::Cbor,
            Serializer::Bit(_) => SerializationMethod::Bit,
            Serializer::Ron(_) => SerializationMethod::Ron,
            Serializer::Pot(_) => SerializationMethod::Pot,
        }
    }

    /// The codec for a format choice.
    pub fn from_method(m: SerializationMethod) -> (r: Self)
        ensures
            r.method() == m,
    {
        match m {
            SerializationMethod::Json => Serializer::Json(json::JsonSer::new()),
            SerializationMethod::Bin => Serializer::Bin(bin::BinSer::new()),
            SerializationMethod::Cbor => Serializer::Cbor(cbor::CborSer::new()),
            SerializationMethod::Bit => Serializer::Bit(bit::BitSer::new()),
            SerializationMethod::Ron => Serializer::Ron(ron::RonSer::new()),
            SerializationMethod::Pot => Serializer::Pot(pot::PotSer::new()),
        }
    }

    /// Encodes one value; the payload reads back as the value it encodes.
    pub fn serialize_data(&self, v: &DbValue) -> (r: Vec<u8>)
        ensures
            r@ == value_bytes(self.method(), v@),
            value_of(self.method(), v@.kind(), r@) == Some(v@),
    {
        match self {
            Serializer::Json(s) => s.serialize_data(v),
            Serializer::Bin(s) => s.serialize_data(v),
            Serializer::Cbor(s) => s.serialize_data(v),
            Serializer::Bit(s) => s.serialize_data(v),
            Serializer::Ron(s) => s.serialize_data(v),
            Serializer::Pot(s) => s.serialize_data(v),
        }
    }

    /// Decodes one value of the expected kind; a payload of another shape
    /// is a silent miss.
    pub fn deserialize_data(&self, b: &Vec<u8>, kind: DbKind) -> (r: Option<DbValue>)
        ensures
            opt_value_view(r) == value_of(self.method(), kind, b@),
    {
        match self {
            Serializer::Json(s) => s.deserialize_data(b, kind),
            Serializer::Bin(s) => s.deserialize_data(b, kind),
            Serializer::Cbor(s) => s.deserialize_data(b, kind),
            Serializer::Bit(s) => s.deserialize_data(b, kind),
            Serializer::Ron(s) => s.deserialize_data(b, kind),
            Serializer::Pot(s) => s.deserialize_data(b, kind),
        }
    }

    /// Encodes the whole store: it succeeds exactly when the format can
    /// encode these maps, and the payload reads back as exactly the two
    /// maps it encodes.
    pub fn serialize_db(&self, map: &KvVec<Vec<u8>>, lists: &KvVec<Vec<Vec<u8>>>) -> (r: Result<
        Vec<u8>,
        NoDbError,
    >)
        requires
            map.wf(),
            lists.wf(),
        ensures
            (r is Ok) <==> db_encodable(self.method(), map@, lists@),
            r matches Ok(b) ==> db_of(self.method(), b@) == Some((map@, lists@)),
            r matches Err(e) ==> e == NoDbError::Encoding,
    {
        match self {
            Serializer::Json(s) => s.serialize_db(map, lists),
            Serializer::Bin(s) => s.serialize_db(map, lists),
            Serializer::Cbor(s) => s.serialize_db(map, lists),
            Serializer::Bit(s) => s.serialize_db(map, lists),
            Serializer::Ron(s) => s.serialize_db(map, lists),
            Serializer::Pot(s) => s.serialize_db(map, lists),
        }
    }

    /// Decodes a whole store; fails exactly when the payload does not parse
    /// as one.
    pub fn deserialized_db(&self, b: &Vec<u8>) -> (r: Result<
        (KvVec<Vec<u8>>, KvVec<Vec<Vec<u8>>>),
        NoDbError,
    >)
        ensures
            match r {
                Ok(p) => p.0.wf() && p.1.wf() && db_of(self.method(), b@) == Some((p.0@, p.1@)),
                Err(e) => e == NoDbError::Decoding && db_of(self.method(), b@) is None,
            },
    {
        match self {
            Serializer::Json(s) => s.deserialized_db(b),
            Serializer::Bin(s) => s.deserialized_db(b),
            Serializer::Cbor(s) => s.deserialized_db(b),
            Serializer::Bit(s) => s.deserialized_db(b),
            Serializer::Ron(s) => s.deserialized_db(b),
            Serializer::Pot(s) => s.deserialized_db(b),
        }
    }
}

} // verus!
