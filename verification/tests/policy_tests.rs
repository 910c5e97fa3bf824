use nodb::Backing;
use nodb::DbKind;
use nodb::DbValue;
use nodb::DumpPolicy;
use nodb::NoDb;
use nodb::NoDbError;
use nodb::SerializationMethod;

const ALL_METHODS: [SerializationMethod; 6] = [
    SerializationMethod::Json,
    SerializationMethod::Bin,
    SerializationMethod::Cbor,
    SerializationMethod::Bit,
    SerializationMethod::Ron,
    SerializationMethod::Pot,
];

#[test]
fn explicit_dump_ignores_periodic_interval() {
    let mut db =
        NoDb::new(String::from("p.db"), DumpPolicy::Periodic(10), SerializationMethod::Bin, 0);
    db.set("a", &DbValue::Int(1), 3).unwrap();
    assert!(db.backing.content().is_none());
    db.dump(5).unwrap();
    let after_dump = db.backing.content().cloned();
    assert!(after_dump.is_some());
    // The explicit dump reset the clock: a mutation nine ticks later is
    // not yet due, one ten ticks later is.
    db.set("b", &DbValue::Int(2), 14).unwrap();
    assert_eq!(db.backing.content().cloned(), after_dump);
    db.set("c", &DbValue::Int(3), 15).unwrap();
    assert_ne!(db.backing.content().cloned(), after_dump);
}

#[test]
fn close_does_not_write_under_oncall() {
    let mut db =
        NoDb::new(String::from("p.db"), DumpPolicy::OnCall, SerializationMethod::Json, 0);
    db.set("a", &DbValue::Int(1), 1).unwrap();
    db.close(2);
    assert!(db.backing.content().is_none());
}

#[test]
fn explicit_dump_fails_with_injected_failure() {
    let mut db = NoDb::new(String::from("p.db"), DumpPolicy::OnCall, SerializationMethod::Bin, 0);
    db.set("a", &DbValue::Int(1), 1).unwrap();
    db.backing.set_fail_writes(true);
    assert_eq!(db.dump(2).unwrap_err(), NoDbError::Io);
    assert!(db.backing.content().is_none());
    // The store still answers from memory after the failed dump.
    assert_eq!(db.get("a", DbKind::Int), Some(DbValue::Int(1)));
}

#[test]
fn dump_under_never_stays_ok_and_silent() {
    let mut db = NoDb::new(String::from("p.db"), DumpPolicy::Never, SerializationMethod::Bin, 0);
    db.backing.set_fail_writes(true);
    db.set("a", &DbValue::Int(1), 1).unwrap();
    db.dump(2).unwrap();
    assert!(db.backing.content().is_none());
}

#[test]
fn rem_rolls_back_scalar_on_failed_flush() {
    let mut db = NoDb::new(String::from("p.db"), DumpPolicy::Auto, SerializationMethod::Bin, 0);
    db.set("a", &DbValue::Int(1), 1).unwrap();
    db.backing.set_fail_writes(true);
    assert_eq!(db.rem("a", 2).unwrap_err(), NoDbError::Io);
    assert!(db.key_exists("a"));
    assert_eq!(db.get("a", DbKind::Int), Some(DbValue::Int(1)));
}

#[test]
fn rem_rolls_back_list_on_failed_flush() {
    let mut db = NoDb::new(String::from("p.db"), DumpPolicy::Auto, SerializationMethod::Bin, 0);
    db.lcreate("L", 1).unwrap();
    db.ladd("L", &DbValue::Int(5), 2).unwrap();
    db.backing.set_fail_writes(true);
    assert_eq!(db.rem("L", 3).unwrap_err(), NoDbError::Io);
    assert!(db.lexists("L"));
    assert_eq!(db.llen("L"), 1);
}

#[test]
fn rem_without_flush_due_succeeds_despite_injected_failure() {
    // Under OnCall no removal triggers a flush, so injected write failure
    // is never observed.
    let mut db = NoDb::new(String::from("p.db"), DumpPolicy::OnCall, SerializationMethod::Bin, 0);
    db.set("a", &DbValue::Int(1), 1).unwrap();
    db.backing.set_fail_writes(true);
    assert_eq!(db.rem("a", 2).unwrap(), true);
    assert!(!db.key_exists("a"));
}

#[test]
fn junk_bytes_fail_store_decode_in_all_formats() {
    for method in ALL_METHODS {
        let r = NoDb::load(
            String::from("p.db"),
            DumpPolicy::OnCall,
            method,
            Backing::from_bytes(vec![0xff, 0x00, 0x13]),
            0,
        );
        assert!(matches!(r, Err(NoDbError::Decoding)), "{method:?}");
    }
}

#[test]
fn junk_bytes_fail_value_decode_in_all_formats() {
    for method in ALL_METHODS {
        let ser = nodb::ser::Serializer::from_method(method);
        assert_eq!(ser.deserialize_data(&vec![0xff], DbKind::Int), None, "{method:?}");
        assert_eq!(ser.deserialize_data(&Vec::new(), DbKind::Text), None, "{method:?}");
    }
}

#[test]
fn reopened_store_keeps_lists() {
    let mut db = NoDb::new(String::from("p.db"), DumpPolicy::Auto, SerializationMethod::Cbor, 0);
    db.lcreate("L", 1).unwrap();
    db.lextend("L", &vec![DbValue::Int(1), DbValue::Text(String::from("x"))], 2).unwrap();
    let file = db.backing.content().cloned().unwrap();
    let db2 = NoDb::load(
        String::from("p.db"),
        DumpPolicy::Auto,
        SerializationMethod::Cbor,
        Backing::from_bytes(file),
        3,
    )
    .unwrap();
    assert_eq!(db2.llen("L"), 2);
    assert_eq!(db2.lget("L", 0, DbKind::Int), Some(DbValue::Int(1)));
    assert_eq!(db2.lget("L", 1, DbKind::Text), Some(DbValue::Text(String::from("x"))));
}
