use nodb::ser::Serializer;
use nodb::Backing;
use nodb::DbKind;
use nodb::DbValue;
use nodb::DumpPolicy;
use nodb::NoDb;
use nodb::SerializationMethod;
use nodb::B64;

fn populated(method: SerializationMethod) -> NoDb {
    let mut db = NoDb::new(String::from("c.db"), DumpPolicy::Never, method, 0);
    db.set("n", &DbValue::Int(-12345), 1).unwrap();
    db.set("t", &DbValue::Text(String::from("text value")), 2).unwrap();
    db.lcreate("L", 3).unwrap();
    db.lextend("L", &vec![DbValue::Int(7), DbValue::Text(String::from("item"))], 4).unwrap();
    db
}

fn assert_store_round_trip(method: SerializationMethod) {
    let db = populated(method);
    let ser = Serializer::from_method(method);
    let bytes = ser.serialize_db(&db.map, &db.list_map).unwrap();
    let db2 =
        NoDb::load(String::from("c.db"), DumpPolicy::Never, method, Backing::from_bytes(bytes), 5)
            .unwrap();
    assert_eq!(db2.get("n", DbKind::Int), Some(DbValue::Int(-12345)));
    assert_eq!(db2.get("t", DbKind::Text), Some(DbValue::Text(String::from("text value"))));
    assert_eq!(db2.llen("L"), 2);
    assert_eq!(db2.lget("L", 0, DbKind::Int), Some(DbValue::Int(7)));
    assert_eq!(db2.lget("L", 1, DbKind::Text), Some(DbValue::Text(String::from("item"))));
    assert_eq!(db2.total_keys(), 3);
}

#[test]
fn store_round_trip_json() {
    assert_store_round_trip(SerializationMethod::Json);
}

#[test]
fn store_round_trip_bin() {
    assert_store_round_trip(SerializationMethod::Bin);
}

#[test]
fn store_round_trip_cbor() {
    assert_store_round_trip(SerializationMethod::Cbor);
}

#[test]
fn store_round_trip_bit() {
    assert_store_round_trip(SerializationMethod::Bit);
}

#[test]
fn store_round_trip_ron() {
    assert_store_round_trip(SerializationMethod::Ron);
}

#[test]
fn store_round_trip_pot() {
    assert_store_round_trip(SerializationMethod::Pot);
}

#[test]
fn empty_store_round_trip_all_formats() {
    for method in [
        SerializationMethod::Json,
        SerializationMethod::Bin,
        SerializationMethod::Cbor,
        SerializationMethod::Bit,
        SerializationMethod::Ron,
        SerializationMethod::Pot,
    ] {
        let db = NoDb::new(String::from("e.db"), DumpPolicy::Never, method, 0);
        let ser = Serializer::from_method(method);
        let bytes = ser.serialize_db(&db.map, &db.list_map).unwrap();
        let db2 = NoDb::load(
            String::from("e.db"),
            DumpPolicy::Never,
            method,
            Backing::from_bytes(bytes),
            1,
        )
        .unwrap();
        assert_eq!(db2.total_keys(), 0);
        assert_eq!(db2.get_all().len(), 0);
    }
}

#[test]
fn value_payload_differs_from_input() {
    // A codec must actually encode: the payload of an integer cannot be
    // the decimal text for the binary formats, and decoding rejects junk.
    let ser = Serializer::from_method(SerializationMethod::Bin);
    let payload = ser.serialize_data(&DbValue::Int(1));
    assert_eq!(payload.len(), 8);
    assert_eq!(payload, vec![1, 0, 0, 0, 0, 0, 0, 0]);
    assert_eq!(ser.deserialize_data(&payload, DbKind::Int), Some(DbValue::Int(1)));
    assert_eq!(ser.deserialize_data(&vec![1, 2, 3], DbKind::Int), None);
}

#[test]
fn json_value_payloads_are_decimal_text() {
    let ser = Serializer::from_method(SerializationMethod::Json);
    assert_eq!(ser.serialize_data(&DbValue::Int(-42)), b"-42".to_vec());
    assert_eq!(ser.serialize_data(&DbValue::Int(0)), b"0".to_vec());
    assert_eq!(
        ser.serialize_data(&DbValue::Text(String::from("hi"))),
        b"\"hi\"".to_vec()
    );
    assert_eq!(ser.deserialize_data(&b"123".to_vec(), DbKind::Int), Some(DbValue::Int(123)));
    assert_eq!(ser.deserialize_data(&b"not a number".to_vec(), DbKind::Int), None);
}

#[test]
fn ron_value_payloads_are_decimal_text() {
    let ser = Serializer::from_method(SerializationMethod::Ron);
    assert_eq!(ser.serialize_data(&DbValue::Int(77)), b"77".to_vec());
    assert_eq!(ser.deserialize_data(&b"77".to_vec(), DbKind::Int), Some(DbValue::Int(77)));
}

#[test]
fn json_store_encode_rejects_binary_payloads() {
    // Payloads written by the binary-compact codec are not UTF-8 text, so
    // the structured-text codec must refuse to embed them.
    let mut db = NoDb::new(String::from("x.db"), DumpPolicy::Never, SerializationMethod::Bin, 0);
    db.set("k", &DbValue::Int(-1), 1).unwrap();
    let ser = Serializer::from_method(SerializationMethod::Json);
    assert!(ser.serialize_db(&db.map, &db.list_map).is_err());
}

#[test]
fn store_encode_succeeds_for_library_built_stores() {
    for method in [
        SerializationMethod::Json,
        SerializationMethod::Bin,
        SerializationMethod::Cbor,
        SerializationMethod::Bit,
        SerializationMethod::Ron,
        SerializationMethod::Pot,
    ] {
        let db = populated(method);
        let ser = Serializer::from_method(method);
        assert!(ser.serialize_db(&db.map, &db.list_map).is_ok(), "{method:?}");
    }
}

#[test]
fn base64_round_trip() {
    let b64 = B64::new();
    let data = vec![0u8, 1, 2, 250, 255];
    let text = b64.encrypt(&data);
    assert_eq!(text.len(), 4 * ((data.len() + 2) / 3));
    assert_eq!(b64.decrypt(text.as_str()).unwrap(), data);
    assert_eq!(b64.encrypt(&Vec::new()), String::new());
}

#[test]
fn base64_rejects_bad_text() {
    let b64 = B64::new();
    assert!(b64.decrypt("not base64!!").is_err());
}

#[test]
fn base64_known_value() {
    let b64 = B64::new();
    assert_eq!(b64.encrypt(&b"Man".to_vec()), String::from("TWFu"));
    assert_eq!(b64.decrypt("TWFu").unwrap(), b"Man".to_vec());
}
