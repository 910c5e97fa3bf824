use nodb::Backing;
use nodb::DbKind;
use nodb::DbValue;
use nodb::DumpPolicy;
use nodb::NoDb;
use nodb::NoDbError;
use nodb::SerializationMethod;

fn fresh(policy: DumpPolicy, method: SerializationMethod) -> NoDb {
    NoDb::new(String::from("store.db"), policy, method, 0)
}

const ALL_METHODS: [SerializationMethod; 6] = [
    SerializationMethod::Json,
    SerializationMethod::Bin,
    SerializationMethod::Cbor,
    SerializationMethod::Bit,
    SerializationMethod::Ron,
    SerializationMethod::Pot,
];

#[test]
fn set_get_round_trip_int_all_formats() {
    for method in ALL_METHODS {
        let mut db = fresh(DumpPolicy::Auto, method);
        db.set("n", &DbValue::Int(42), 1).unwrap();
        assert_eq!(db.get("n", DbKind::Int), Some(DbValue::Int(42)));
        db.set("neg", &DbValue::Int(-7), 2).unwrap();
        assert_eq!(db.get("neg", DbKind::Int), Some(DbValue::Int(-7)));
        db.set("min", &DbValue::Int(i64::MIN), 3).unwrap();
        assert_eq!(db.get("min", DbKind::Int), Some(DbValue::Int(i64::MIN)));
        db.set("max", &DbValue::Int(i64::MAX), 4).unwrap();
        assert_eq!(db.get("max", DbKind::Int), Some(DbValue::Int(i64::MAX)));
    }
}

#[test]
fn set_get_round_trip_text_all_formats() {
    for method in ALL_METHODS {
        let mut db = fresh(DumpPolicy::OnCall, method);
        let v = DbValue::Text(String::from("hello \"quoted\" \\ wörld"));
        db.set("t", &v, 1).unwrap();
        assert_eq!(db.get("t", DbKind::Text), Some(v));
        let empty = DbValue::Text(String::new());
        db.set("e", &empty, 2).unwrap();
        assert_eq!(db.get("e", DbKind::Text), Some(empty));
    }
}

#[test]
fn get_wrong_kind_is_silent_miss() {
    for method in ALL_METHODS {
        let mut db = fresh(DumpPolicy::Never, method);
        db.set("n", &DbValue::Int(5), 1).unwrap();
        assert_eq!(db.get("n", DbKind::Text), None);
        db.set("t", &DbValue::Text(String::from("five")), 2).unwrap();
        assert_eq!(db.get("t", DbKind::Int), None);
    }
}

#[test]
fn get_unknown_key_is_none() {
    let db = fresh(DumpPolicy::Never, SerializationMethod::Json);
    assert_eq!(db.get("missing", DbKind::Int), None);
}

#[test]
fn set_overwrites_list_with_scalar() {
    let mut db = fresh(DumpPolicy::Auto, SerializationMethod::Bin);
    db.lcreate("k", 1).unwrap();
    db.ladd("k", &DbValue::Int(1), 2).unwrap();
    assert!(db.lexists("k"));
    db.set("k", &DbValue::Int(9), 3).unwrap();
    assert!(!db.lexists("k"));
    assert_eq!(db.get("k", DbKind::Int), Some(DbValue::Int(9)));
}

#[test]
fn lcreate_overwrites_scalar_with_list() {
    let mut db = fresh(DumpPolicy::Auto, SerializationMethod::Json);
    db.set("k", &DbValue::Int(9), 1).unwrap();
    db.lcreate("k", 2).unwrap();
    assert!(db.lexists("k"));
    assert_eq!(db.get("k", DbKind::Int), None);
    assert!(db.key_exists("k"));
}

#[test]
fn rem_reports_each_key_once() {
    let mut db = fresh(DumpPolicy::Auto, SerializationMethod::Cbor);
    db.set("a", &DbValue::Int(1), 1).unwrap();
    db.lcreate("l", 2).unwrap();
    assert_eq!(db.rem("a", 3).unwrap(), true);
    assert_eq!(db.rem("a", 4).unwrap(), false);
    assert!(!db.key_exists("a"));
    assert_eq!(db.rem("l", 5).unwrap(), true);
    assert_eq!(db.rem("l", 6).unwrap(), false);
    assert!(!db.key_exists("l"));
    assert_eq!(db.rem("never", 7).unwrap(), false);
}

#[test]
fn list_create_append_get() {
    let mut db = fresh(DumpPolicy::Auto, SerializationMethod::Bin);
    db.lcreate("L", 1).unwrap();
    let x = DbValue::Int(17);
    assert!(db.ladd("L", &x, 2).is_some());
    assert_eq!(db.llen("L"), 1);
    assert_eq!(db.lget("L", 0, DbKind::Int), Some(x));
    assert_eq!(db.lget("L", 1, DbKind::Int), None);
    assert_eq!(db.lget("missing", 0, DbKind::Int), None);
    assert_eq!(db.llen("missing"), 0);
}

#[test]
fn list_append_to_missing_list_is_none() {
    let mut db = fresh(DumpPolicy::Auto, SerializationMethod::Json);
    assert!(db.ladd("nope", &DbValue::Int(1), 1).is_none());
    assert!(db.lextend("nope", &vec![DbValue::Int(1)], 2).is_none());
}

#[test]
fn list_extend_and_chained_handle() {
    let mut db = fresh(DumpPolicy::OnCall, SerializationMethod::Ron);
    let ext = db.lcreate("L", 1).unwrap();
    let ext = ext.ladd(&mut db, &DbValue::Int(1), 2).unwrap();
    let ext = ext
        .lextend(&mut db, &vec![DbValue::Int(2), DbValue::Text(String::from("three"))], 3)
        .unwrap();
    assert_eq!(ext.list_name, String::from("L"));
    assert_eq!(db.llen("L"), 3);
    assert_eq!(db.lget("L", 0, DbKind::Int), Some(DbValue::Int(1)));
    assert_eq!(db.lget("L", 1, DbKind::Int), Some(DbValue::Int(2)));
    assert_eq!(db.lget("L", 2, DbKind::Text), Some(DbValue::Text(String::from("three"))));
    assert_eq!(db.lget("L", 2, DbKind::Int), None);
}

#[test]
fn lpop_removes_exactly_one_position() {
    let mut db = fresh(DumpPolicy::Auto, SerializationMethod::Bin);
    db.lcreate("L", 1).unwrap();
    db.lextend("L", &vec![DbValue::Int(10), DbValue::Int(20), DbValue::Int(30)], 2).unwrap();
    assert_eq!(db.lpop("L", 1, DbKind::Int, 3), Some(DbValue::Int(20)));
    assert_eq!(db.llen("L"), 2);
    assert_eq!(db.lget("L", 0, DbKind::Int), Some(DbValue::Int(10)));
    assert_eq!(db.lget("L", 1, DbKind::Int), Some(DbValue::Int(30)));
    assert_eq!(db.lpop("L", 5, DbKind::Int, 4), None);
    assert_eq!(db.llen("L"), 2);
    assert_eq!(db.lpop("missing", 0, DbKind::Int, 5), None);
}

#[test]
fn lrem_value_removes_first_match() {
    let mut db = fresh(DumpPolicy::Auto, SerializationMethod::Cbor);
    db.lcreate("L", 1).unwrap();
    db.lextend("L", &vec![DbValue::Int(1), DbValue::Int(2), DbValue::Int(1)], 2).unwrap();
    assert_eq!(db.lrem_value("L", &DbValue::Int(1), 3).unwrap(), true);
    assert_eq!(db.llen("L"), 2);
    assert_eq!(db.lget("L", 0, DbKind::Int), Some(DbValue::Int(2)));
    assert_eq!(db.lget("L", 1, DbKind::Int), Some(DbValue::Int(1)));
    assert_eq!(db.lrem_value("L", &DbValue::Int(7), 4).unwrap(), false);
    assert_eq!(db.lrem_value("missing", &DbValue::Int(7), 5).unwrap(), false);
}

#[test]
fn lrem_list_returns_prior_length() {
    let mut db = fresh(DumpPolicy::Auto, SerializationMethod::Json);
    db.lcreate("L", 1).unwrap();
    db.lextend("L", &vec![DbValue::Int(1), DbValue::Int(2)], 2).unwrap();
    assert_eq!(db.lrem_list("L", 3).unwrap(), 2);
    assert!(!db.lexists("L"));
    assert_eq!(db.lrem_list("L", 4).unwrap(), 0);
}

#[test]
fn get_all_and_total_keys() {
    let mut db = fresh(DumpPolicy::Never, SerializationMethod::Json);
    db.set("a", &DbValue::Int(1), 1).unwrap();
    db.set("b", &DbValue::Int(2), 2).unwrap();
    db.lcreate("L", 3).unwrap();
    assert_eq!(db.total_keys(), 3);
    let keys = db.get_all();
    assert_eq!(keys.len(), 3);
    assert!(keys.contains(&String::from("a")));
    assert!(keys.contains(&String::from("b")));
    assert!(keys.contains(&String::from("L")));
}

#[test]
fn periodic_policy_flushes_only_after_interval() {
    let mut db = fresh(DumpPolicy::Periodic(10), SerializationMethod::Bin);
    db.set("a", &DbValue::Int(1), 5).unwrap();
    assert!(db.backing.content().is_none());
    db.set("b", &DbValue::Int(2), 10).unwrap();
    let first_flush = db.backing.content().cloned();
    assert!(first_flush.is_some());
    db.set("c", &DbValue::Int(3), 15).unwrap();
    assert_eq!(db.backing.content().cloned(), first_flush);
    db.set("d", &DbValue::Int(4), 20).unwrap();
    assert_ne!(db.backing.content().cloned(), first_flush);
}

#[test]
fn never_policy_never_writes() {
    let mut db = fresh(DumpPolicy::Never, SerializationMethod::Bin);
    db.set("a", &DbValue::Int(1), 1).unwrap();
    db.lcreate("L", 2).unwrap();
    db.ladd("L", &DbValue::Int(2), 3).unwrap();
    db.dump(4).unwrap();
    db.close(5);
    assert!(db.backing.content().is_none());
}

#[test]
fn oncall_policy_writes_only_on_dump() {
    let mut db = fresh(DumpPolicy::OnCall, SerializationMethod::Json);
    db.set("a", &DbValue::Int(1), 1).unwrap();
    assert!(db.backing.content().is_none());
    db.dump(2).unwrap();
    assert!(db.backing.content().is_some());
}

#[test]
fn auto_policy_writes_on_every_mutation() {
    let mut db = fresh(DumpPolicy::Auto, SerializationMethod::Bin);
    db.set("a", &DbValue::Int(1), 1).unwrap();
    let after_set = db.backing.content().cloned();
    assert!(after_set.is_some());
    db.set("b", &DbValue::Int(2), 2).unwrap();
    assert_ne!(db.backing.content().cloned(), after_set);
}

#[test]
fn failed_flush_rolls_back_set() {
    let mut db = fresh(DumpPolicy::Auto, SerializationMethod::Bin);
    db.set("k", &DbValue::Int(1), 1).unwrap();
    let file_before = db.backing.content().cloned();
    db.backing.set_fail_writes(true);
    let err = db.set("k", &DbValue::Int(2), 2).unwrap_err();
    assert_eq!(err, NoDbError::Io);
    assert_eq!(db.get("k", DbKind::Int), Some(DbValue::Int(1)));
    assert_eq!(db.backing.content().cloned(), file_before);
    db.backing.set_fail_writes(false);
    db.set("k", &DbValue::Int(2), 3).unwrap();
    assert_eq!(db.get("k", DbKind::Int), Some(DbValue::Int(2)));
}

#[test]
fn failed_flush_rolls_back_new_key() {
    let mut db = fresh(DumpPolicy::Auto, SerializationMethod::Json);
    db.backing.set_fail_writes(true);
    assert_eq!(db.set("fresh", &DbValue::Int(1), 1).unwrap_err(), NoDbError::Io);
    assert!(!db.key_exists("fresh"));
}

#[test]
fn failed_flush_rolls_back_list_append() {
    let mut db = fresh(DumpPolicy::Auto, SerializationMethod::Bin);
    db.lcreate("L", 1).unwrap();
    db.ladd("L", &DbValue::Int(1), 2).unwrap();
    db.backing.set_fail_writes(true);
    assert!(db.ladd("L", &DbValue::Int(2), 3).is_none());
    assert_eq!(db.llen("L"), 1);
    assert_eq!(db.lget("L", 0, DbKind::Int), Some(DbValue::Int(1)));
}

#[test]
fn failed_flush_rolls_back_lpop() {
    let mut db = fresh(DumpPolicy::Auto, SerializationMethod::Bin);
    db.lcreate("L", 1).unwrap();
    db.lextend("L", &vec![DbValue::Int(1), DbValue::Int(2)], 2).unwrap();
    db.backing.set_fail_writes(true);
    assert_eq!(db.lpop("L", 0, DbKind::Int, 3), None);
    assert_eq!(db.llen("L"), 2);
    assert_eq!(db.lget("L", 0, DbKind::Int), Some(DbValue::Int(1)));
}

#[test]
fn failed_flush_rolls_back_lrem_value() {
    let mut db = fresh(DumpPolicy::Auto, SerializationMethod::Bin);
    db.lcreate("L", 1).unwrap();
    db.ladd("L", &DbValue::Int(1), 2).unwrap();
    db.backing.set_fail_writes(true);
    assert_eq!(db.lrem_value("L", &DbValue::Int(1), 3).unwrap_err(), NoDbError::Io);
    assert_eq!(db.llen("L"), 1);
}

#[test]
fn failed_flush_rolls_back_lrem_list() {
    let mut db = fresh(DumpPolicy::Auto, SerializationMethod::Bin);
    db.lcreate("L", 1).unwrap();
    db.ladd("L", &DbValue::Int(1), 2).unwrap();
    db.backing.set_fail_writes(true);
    assert_eq!(db.lrem_list("L", 3).unwrap_err(), NoDbError::Io);
    assert!(db.lexists("L"));
    assert_eq!(db.llen("L"), 1);
}

#[test]
fn end_to_end_reopen_with_binary_compact() {
    let mut db = NoDb::new(String::from("p.db"), DumpPolicy::Auto, SerializationMethod::Bin, 0);
    db.set("a", &DbValue::Int(1), 1).unwrap();
    let file = db.backing.content().cloned().unwrap();
    let db2 = NoDb::load(
        String::from("p.db"),
        DumpPolicy::Auto,
        SerializationMethod::Bin,
        Backing::from_bytes(file),
        2,
    )
    .unwrap();
    assert_eq!(db2.get("a", DbKind::Int), Some(DbValue::Int(1)));
    assert_eq!(db2.total_keys(), 1);
}

#[test]
fn load_missing_file_is_io_error() {
    let r = NoDb::load(
        String::from("p.db"),
        DumpPolicy::OnCall,
        SerializationMethod::Json,
        Backing::new_empty(),
        0,
    );
    assert!(matches!(r, Err(NoDbError::Io)));
}

#[test]
fn load_garbage_is_decoding_error() {
    let r = NoDb::load(
        String::from("p.db"),
        DumpPolicy::OnCall,
        SerializationMethod::Json,
        Backing::from_bytes(vec![0xff, 0x00, 0x13]),
        0,
    );
    assert!(matches!(r, Err(NoDbError::Decoding)));
}

#[test]
fn load_wrong_format_is_decoding_error() {
    let mut db = fresh(DumpPolicy::Auto, SerializationMethod::Bin);
    db.set("a", &DbValue::Text(String::from("x")), 1).unwrap();
    let file = db.backing.content().cloned().unwrap();
    let r = NoDb::load(
        String::from("p.db"),
        DumpPolicy::Auto,
        SerializationMethod::Json,
        Backing::from_bytes(file),
        2,
    );
    assert!(matches!(r, Err(NoDbError::Decoding)));
}

#[test]
fn close_flushes_under_auto() {
    let mut db = fresh(DumpPolicy::Auto, SerializationMethod::Bin);
    db.set("a", &DbValue::Int(1), 1).unwrap();
    db.close(2);
    assert!(db.backing.content().is_some());
}

#[test]
fn iter_yields_all_scalar_entries() {
    let mut db = fresh(DumpPolicy::Never, SerializationMethod::Json);
    db.set("a", &DbValue::Int(1), 1).unwrap();
    db.set("b", &DbValue::Text(String::from("two")), 2).unwrap();
    let mut it = db.iter();
    let mut seen: Vec<(String, Option<DbValue>)> = Vec::new();
    while let Some(item) = it.next() {
        let key = item.get_key().to_string();
        let kind = if key == "a" { DbKind::Int } else { DbKind::Text };
        seen.push((key, item.get_value(kind)));
    }
    assert_eq!(seen.len(), 2);
    assert!(seen.contains(&(String::from("a"), Some(DbValue::Int(1)))));
    assert!(seen.contains(&(String::from("b"), Some(DbValue::Text(String::from("two"))))));
}

#[test]
fn liter_yields_list_items_in_order() {
    let mut db = fresh(DumpPolicy::Never, SerializationMethod::Bin);
    db.lcreate("L", 1).unwrap();
    db.lextend("L", &vec![DbValue::Int(5), DbValue::Int(6)], 2).unwrap();
    let mut it = db.liter("L");
    assert_eq!(it.next().unwrap().get_item(DbKind::Int), Some(DbValue::Int(5)));
    assert_eq!(it.next().unwrap().get_item(DbKind::Int), Some(DbValue::Int(6)));
    assert!(it.next().is_none());
    let mut empty = db.liter("missing");
    assert!(empty.next().is_none());
}

#[test]
fn from_code_selects_formats() {
    assert_eq!(SerializationMethod::from_code(0), SerializationMethod::Json);
    assert_eq!(SerializationMethod::from_code(1), SerializationMethod::Bin);
    assert_eq!(SerializationMethod::from_code(2), SerializationMethod::Cbor);
    assert_eq!(SerializationMethod::from_code(4), SerializationMethod::Bit);
    assert_eq!(SerializationMethod::from_code(5), SerializationMethod::Ron);
    assert_eq!(SerializationMethod::from_code(7), SerializationMethod::Pot);
    assert_eq!(SerializationMethod::from_code(3), SerializationMethod::Json);
    assert_eq!(SerializationMethod::from_code(6), SerializationMethod::Json);
    assert_eq!(SerializationMethod::from_code(99), SerializationMethod::Json);
}

#[test]
fn failed_flush_rolls_back_whole_lextend() {
    let mut db = fresh(DumpPolicy::Auto, SerializationMethod::Json);
    db.lcreate("L", 1).unwrap();
    db.ladd("L", &DbValue::Int(1), 2).unwrap();
    db.backing.set_fail_writes(true);
    let items = vec![DbValue::Int(2), DbValue::Int(3), DbValue::Int(4)];
    assert!(db.lextend("L", &items, 3).is_none());
    assert_eq!(db.llen("L"), 1);
    assert_eq!(db.lget("L", 0, DbKind::Int), Some(DbValue::Int(1)));
}
