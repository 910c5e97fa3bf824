//! The store itself: two in-memory maps, a codec, a dump policy, and the
//! model of the backing file.
//!
//! Every mutating operation follows one discipline: mutate in memory, ask
//! the dump policy whether to flush, and if a required flush fails, roll
//! the mutation back and report the failure. No operation leaves the
//! in-memory state reflecting a change that did not durably persist when
//! the policy dictated it should.

use vstd::prelude::*;

use crate::disk::Backing;
use crate::error::NoDbError;
use crate::ext::NoDbExt;
use crate::iter::NoDbIter;
use crate::iter::NoDbListIter;
use crate::kv::KvVec;
use crate::ser::db_encodable;
use crate::ser::db_of;
use crate::ser::opt_value_view;
use crate::ser::value_bytes;
use crate::ser::value_of;
use crate::ser::SerializationMethod;
use crate::ser::Serializer;
use crate::value::DbKind;
use crate::value::DbValue;

verus! {

/// When changes are dumped to the backing file.
#[derive(Clone, Copy, Debug, PartialEq, Eq, Structural, Default)]
pub enum DumpPolicy {
    /// Changes never reach the file; even an explicit dump is suppressed.
    Never,
    /// Every change is dumped immediately.
    Auto,
    /// Changes are dumped only on an explicit dump call.
    #[default]
    OnCall,
    /// A change is dumped only when at least this many ticks have passed
    /// since the last successful dump.
    Periodic(u64),
}

/// Ticks passed since `last`, at time `now`.
pub open spec fn elapsed(last: u64, now: u64) -> int {
    if now >= last {
        now - last
    } else {
        0
    }
}

/// Whether a mutation at time `now` must flush under `policy`.
pub open spec fn dump_due(policy: DumpPolicy, last_dump: u64, now: u64) -> bool {
    match policy {
        DumpPolicy::Auto => true,
        DumpPolicy::Periodic(d) => elapsed(last_dump, now) >= d,
        _ => false,
    }
}

/// The store.
pub struct NoDb {
    /// The scalar entries: key to serialized payload.
    pub map: KvVec<Vec<u8>>,
    /// The named lists: key to ordered serialized payloads.
    pub list_map: KvVec<Vec<Vec<u8>>>,
    /// The codec chosen at construction.
    pub ser: Serializer,
    /// The path the surrounding program mirrors the backing bytes to.
    pub path: String,
    /// The dump policy, immutable for the store's lifetime.
    pub policy: DumpPolicy,
    /// The tick of the last successful periodic dump.
    pub last_dump: u64,
    /// The model of the backing file.
    pub backing: Backing,
}

/// The configuration fields an operation never touches.
pub open spec fn same_config(a: NoDb, b: NoDb) -> bool {
    b.policy == a.policy && b.path@ == a.path@ && b.ser == a.ser && b.backing.fails()
        == a.backing.fails()
}

/// Neither the backing file nor the dump clock moved.
pub open spec fn backing_unchanged(a: NoDb, b: NoDb) -> bool {
    b.backing.file_spec() == a.backing.file_spec() && b.last_dump == a.last_dump
}

/// The backing file holds a payload that decodes to exactly the store's
/// current maps.
pub open spec fn file_reflects(db: NoDb) -> bool {
    match db.backing.file_spec() {
        Some(b) => db_of(db.ser.method(), b) == Some((db.map@, db.list_map@)),
        None => false,
    }
}

/// A flush at time `now` succeeded: the file reflects the maps, and the
/// dump clock advanced exactly for a periodic policy.
pub open spec fn flush_committed(before: NoDb, after: NoDb, now: u64) -> bool {
    file_reflects(after) && match after.policy {
        DumpPolicy::Periodic(_) => after.last_dump == now,
        _ => after.last_dump == before.last_dump,
    }
}

/// The store's own format can encode its current maps.
pub open spec fn store_encodable(db: NoDb) -> bool {
    db_encodable(db.ser.method(), db.map@, db.list_map@)
}

/// What a failed flush reports: an I/O error only under injected write
/// failure, an encoding error only when the format cannot encode the
/// maps it was handed.
pub open spec fn flush_failed_as(e: NoDbError, fails: bool, encodable: bool) -> bool {
    match e {
        NoDbError::Io => fails,
        NoDbError::Encoding => !encodable,
        NoDbError::Decoding => false,
    }
}

impl NoDb {
    /// The store's well-formedness: both in-memory maps are well-formed.
    /// Constructors establish it and every operation preserves it.
    pub open spec fn wf(self) -> bool {
        self.map.wf() && self.list_map.wf()
    }

    /// A fresh store: empty maps, no backing file yet, the clock at `now`.
    pub fn new(path: String, policy: DumpPolicy, ser_method: SerializationMethod, now: u64) -> (db:
        NoDb)
        ensures
            db.wf(),
            db.map@ == Map::<Seq<char>, Seq<u8>>::empty(),
            db.list_map@ == Map::<Seq<char>, Seq<Seq<u8>>>::empty(),
            db.ser.method() == ser_method,
            db.path@ == path@,
            db.policy == policy,
            db.last_dump == now,
            db.backing.file_spec() is None,
            !db.backing.fails(),
    {
        NoDb {
            map: KvVec::new(),
            list_map: KvVec::new(),
            ser: Serializer::from_method(ser_method),
            path,
            policy,
            last_dump: now,
            backing: Backing::new_empty(),
        }
    }

    /// A store loaded from an existing backing: fails with an I/O error
    /// when there is no file, with a decoding error when its bytes do not
    /// parse as a whole store, and otherwise holds exactly the decoded
    /// maps.
    pub fn load(
        path: String,
        policy: DumpPolicy,
        ser_method: SerializationMethod,
        backing: Backing,
        now: u64,
    ) -> (r: Result<NoDb, NoDbError>)
        ensures
            match r {
                Ok(db) => {
                    &&& db.wf()
                    &&& backing.file_spec() matches Some(b) && db_of(ser_method, b) == Some(
                        (db.map@, db.list_map@),
                    )
                    &&& db.ser.method() == ser_method
                    &&& db.path@ == path@
                    &&& db.policy == policy
                    &&& db.last_dump == now
                    &&& db.backing == backing
                },
                Err(NoDbError::Io) => backing.file_spec() is None,
                Err(NoDbError::Decoding) => backing.file_spec() matches Some(b) && db_of(
                    ser_method,
                    b,
                ) is None,
                Err(_) => false,
            },
    {
        let ser = Serializer::from_method(ser_method);
        let (map, list_map) = match backing.content() {
            Some(bytes) => match ser.deserialized_db(bytes) {
                Ok(p) => p,
                Err(e) => {
                    return Err(e);
                },
            },
            None => {
                return Err(NoDbError::Io);
            },
        };
        Ok(NoDb { map, list_map, ser, path, policy, last_dump: now, backing })
    }

    /// Dumps the maps to the backing file: a no-op under `Never`,
    /// otherwise serialize and atomically replace the file, advancing the
    /// dump clock under a periodic policy.
    pub fn dump(&mut self, now: u64) -> (r: Result<(), NoDbError>)
        requires
            old(self).wf(),
        ensures
            final(self).wf(),
            same_config(*old(self), *final(self)),
            final(self).map == old(self).map,
            final(self).list_map == old(self).list_map,
            old(self).policy == DumpPolicy::Never ==> r is Ok && backing_unchanged(
                *old(self),
                *final(self),
            ),
            old(self).policy != DumpPolicy::Never ==> {
                &&& ((r is Ok) <==> (!old(self).backing.fails() && store_encodable(*old(self))))
                &&& match r {
                    Ok(()) => flush_committed(*old(self), *final(self), now),
                    Err(e) => backing_unchanged(*old(self), *final(self)) && flush_failed_as(
                        e,
                        old(self).backing.fails(),
                        store_encodable(*old(self)),
                    ),
                }
            },
    {
        if matches!(self.policy, DumpPolicy::Never) {
            return Ok(());
        }
        let data = match self.ser.serialize_db(&self.map, &self.list_map) {
            Ok(d) => d,
            Err(e) => {
                return Err(e);
            },
        };
        match self.backing.write(data) {
            Ok(()) => {
                if matches!(self.policy, DumpPolicy::Periodic(_)) {
                    self.last_dump = now;
                }
                Ok(())
            },
            Err(e) => Err(e),
        }
    }

    /// The policy check every mutation runs: flush now if the policy says
    /// so, otherwise do nothing.
    fn dumpdb(&mut self, now: u64) -> (r: Result<(), NoDbError>)
        requires
            old(self).wf(),
        ensures
            final(self).wf(),
            same_config(*old(self), *final(self)),
            final(self).map == old(self).map,
            final(self).list_map == old(self).list_map,
            !dump_due(old(self).policy, old(self).last_dump, now) ==> r is Ok
                && backing_unchanged(*old(self), *final(self)),
            dump_due(old(self).policy, old(self).last_dump, now) ==> {
                &&& ((r is Ok) <==> (!old(self).backing.fails() && store_encodable(*old(self))))
                &&& match r {
                    Ok(()) => flush_committed(*old(self), *final(self), now),
                    Err(e) => backing_unchanged(*old(self), *final(self)) && flush_failed_as(
                        e,
                        old(self).backing.fails(),
                        store_encodable(*old(self)),
                    ),
                }
            },
    {
        match self.policy {
            DumpPolicy::Auto => self.dump(now),
            DumpPolicy::Periodic(d) => {
                let since: u64 = if now >= self.last_dump {
                    now - self.last_dump
                } else {
                    0
                };
                if since >= d {
                    self.dump(now)
                } else {
                    Ok(())
                }
            },
            _ => Ok(()),
        }
    }

    /// Sets a key to a value: any list under the key is removed first, the
    /// value's payload is stored, and the policy check runs. If the flush
    /// fails, the scalar map is rolled back to its previous state and the
    /// error is returned (the list removal is not undone).
    pub fn set(&mut self, key: &str, value: &DbValue, now: u64) -> (r: Result<(), NoDbError>)
        requires
            old(self).wf(),
        ensures
            final(self).wf(),
            same_config(*old(self), *final(self)),
            final(self).list_map@ == old(self).list_map@.remove(key@),
            (r is Ok) <==> (!dump_due(old(self).policy, old(self).last_dump, now) || (!old(
                self,
            ).backing.fails() && db_encodable(
                old(self).ser.method(),
                old(self).map@.insert(key@, value_bytes(old(self).ser.method(), value@)),
                old(self).list_map@.remove(key@),
            ))),
            match r {
                Ok(()) => {
                    &&& final(self).map@ == old(self).map@.insert(
                        key@,
                        value_bytes(old(self).ser.method(), value@),
                    )
                    &&& value_of(
                        old(self).ser.method(),
                        value@.kind(),
                        value_bytes(old(self).ser.method(), value@),
                    ) == Some(value@)
                    &&& if dump_due(old(self).policy, old(self).last_dump, now) {
                        flush_committed(*old(self), *final(self), now)
                    } else {
                        backing_unchanged(*old(self), *final(self))
                    }
                },
                Err(e) => {
                    &&& final(self).map@ == old(self).map@
                    &&& dump_due(old(self).policy, old(self).last_dump, now)
                    &&& backing_unchanged(*old(self), *final(self))
                    &&& flush_failed_as(
                        e,
                        old(self).backing.fails(),
                        db_encodable(
                            old(self).ser.method(),
                            old(self).map@.insert(
                                key@,
                                value_bytes(old(self).ser.method(), value@),
                            ),
                            old(self).list_map@.remove(key@),
                        ),
                    )
                },
            },
    {
        self.list_map.remove(key);
        let data = self.ser.serialize_data(value);
        proof {
            assert(data.deep_view() =~= data@);
        }
        let prev = self.map.insert(key.to_owned(), data);
        match self.dumpdb(now) {
            Ok(()) => Ok(()),
            Err(e) => {
                match prev {
                    Some(v) => {
                        self.map.insert(key.to_owned(), v);
                        proof {
                            assert(self.map@ =~= old(self).map@);
                        }
                    },
                    None => {
                        self.map.remove(key);
                        proof {
                            assert(self.map@ =~= old(self).map@);
                        }
                    },
                }
                Err(e)
            },
        }
    }

    /// Reads the value under a key as the expected kind; an unknown key or
    /// a payload of another shape is a silent miss.
    pub fn get(&self, key: &str, kind: DbKind) -> (r: Option<DbValue>)
        requires
            self.wf(),
        ensures
            self.map@.contains_key(key@) ==> opt_value_view(r) == value_of(
                self.ser.method(),
                kind,
                self.map@[key@],
            ),
            !self.map@.contains_key(key@) ==> r is None,
    {
        match self.map.get(key) {
            Some(data) => {
                proof {
                    assert(data.deep_view() =~= data@);
                }
                self.ser.deserialize_data(data, kind)
            },
            None => None,
        }
    }

    /// True when the key holds a scalar entry or a list.
    pub fn key_exists(&self, key: &str) -> (b: bool)
        requires
            self.wf(),
        ensures
            b == (self.map@.contains_key(key@) || self.list_map@.contains_key(key@)),
    {
        self.map.contains(key) || self.list_map.contains(key)
    }

    /// A snapshot of all keys: the scalar keys, then the list keys.
    pub fn get_all(&self) -> (r: Vec<String>)
        requires
            self.wf(),
        ensures
            r@.map_values(|s: String| s@) == self.map.keys() + self.list_map.keys(),
    {
        let mut a = self.map.keys_vec();
        let mut b = self.list_map.keys_vec();
        let ghost asp = a@;
        let ghost bsp = b@;
        a.append(&mut b);
        proof {
            assert(a@.map_values(|s: String| s@) =~= asp.map_values(|s: String| s@)
                + bsp.map_values(|s: String| s@));
            assert(a@.map_values(|s: String| s@) =~= self.map.keys() + self.list_map.keys());
        }
        a
    }

    /// The total number of keys across both maps.
    pub fn total_keys(&self) -> (n: usize)
        requires
            self.wf(),
            self.map@.dom().len() + self.list_map@.dom().len() <= usize::MAX,
        ensures
            n == self.map@.dom().len() + self.list_map@.dom().len(),
    {
        self.map.len() + self.list_map.len()
    }

    /// Creates a new, empty list under `name`, removing any scalar entry
    /// under it; on a flush failure the error is returned and neither the
    /// scalar removal nor the new list is undone.
    pub fn lcreate(&mut self, name: &str, now: u64) -> (r: Result<NoDbExt, NoDbError>)
        requires
            old(self).wf(),
        ensures
            final(self).wf(),
            same_config(*old(self), *final(self)),
            final(self).map@ == old(self).map@.remove(name@),
            final(self).list_map@ == old(self).list_map@.insert(name@, Seq::<Seq<u8>>::empty()),
            (r is Ok) <==> (!dump_due(old(self).policy, old(self).last_dump, now) || (!old(
                self,
            ).backing.fails() && db_encodable(
                old(self).ser.method(),
                old(self).map@.remove(name@),
                old(self).list_map@.insert(name@, Seq::<Seq<u8>>::empty()),
            ))),
            match r {
                Ok(ext) => ext.list_name@ == name@ && (if dump_due(
                    old(self).policy,
                    old(self).last_dump,
                    now,
                ) {
                    flush_committed(*old(self), *final(self), now)
                } else {
                    backing_unchanged(*old(self), *final(self))
                }),
                Err(e) => {
                    &&& dump_due(old(self).policy, old(self).last_dump, now)
                    &&& backing_unchanged(*old(self), *final(self))
                    &&& flush_failed_as(
                        e,
                        old(self).backing.fails(),
                        db_encodable(
                            old(self).ser.method(),
                            old(self).map@.remove(name@),
                            old(self).list_map@.insert(name@, Seq::<Seq<u8>>::empty()),
                        ),
                    )
                },
            },
    {
        self.map.remove(name);
        let empty_list: Vec<Vec<u8>> = Vec::new();
        proof {
            assert(empty_list.deep_view() =~= Seq::<Seq<u8>>::empty());
        }
        self.list_map.insert(name.to_owned(), empty_list);
        match self.dumpdb(now) {
            Ok(()) => Ok(NoDbExt { list_name: name.to_owned() }),
            Err(e) => Err(e),
        }
    }

    /// True when a list exists under `name`.
    pub fn lexists(&self, name: &str) -> (b: bool)
        requires
            self.wf(),
        ensures
            b == self.list_map@.contains_key(name@),
    {
        self.list_map.contains(name)
    }

    /// Appends one item to an existing list; `None` when the list does not
    /// exist, or when a required flush failed and the append was rolled
    /// back.
    pub fn ladd(&mut self, name: &str, value: &DbValue, now: u64) -> (r: Option<NoDbExt>)
        requires
            old(self).wf(),
        ensures
            final(self).wf(),
            same_config(*old(self), *final(self)),
            final(self).map@ == old(self).map@,
            !old(self).list_map@.contains_key(name@) ==> r is None && final(self).list_map@ == old(
                self,
            ).list_map@ && backing_unchanged(*old(self), *final(self)),
            old(self).list_map@.contains_key(name@) ==> match r {
                Some(ext) => {
                    &&& ext.list_name@ == name@
                    &&& final(self).list_map@ == old(self).list_map@.insert(
                        name@,
                        old(self).list_map@[name@].push(
                            value_bytes(old(self).ser.method(), value@),
                        ),
                    )
                    &&& value_of(
                        old(self).ser.method(),
                        value@.kind(),
                        value_bytes(old(self).ser.method(), value@),
                    ) == Some(value@)
                    &&& if dump_due(old(self).policy, old(self).last_dump, now) {
                        flush_committed(*old(self), *final(self), now)
                    } else {
                        backing_unchanged(*old(self), *final(self))
                    }
                },
                None => {
                    &&& final(self).list_map@ == old(self).list_map@
                    &&& backing_unchanged(*old(self), *final(self))
                    &&& dump_due(old(self).policy, old(self).last_dump, now)
                    &&& (old(self).backing.fails() || !db_encodable(
                        old(self).ser.method(),
                        old(self).map@,
                        old(self).list_map@.insert(
                            name@,
                            old(self).list_map@[name@].push(
                                value_bytes(old(self).ser.method(), value@),
                            ),
                        ),
                    ))
                },
            },
            old(self).list_map@.contains_key(name@) && dump_due(
                old(self).policy,
                old(self).last_dump,
                now,
            ) && r is Some ==> !old(self).backing.fails(),
    {
        let mut items: Vec<DbValue> = Vec::new();
        items.push(value.clone());
        let ghost m = old(self).ser.method();
        let r = self.lextend(name, &items, now);
        proof {
            assert(items@.len() == 1);
            assert(items@[0]@ == value@);
            assert(items@.map_values(|v: DbValue| value_bytes(m, v@)) =~= seq![
                value_bytes(m, value@),
            ]);
            if old(self).list_map@.contains_key(name@) {
                if r is Some {
                    assert(value_of(m, (items@[0])@.kind(), value_bytes(m, items@[0]@)) == Some(
                        items@[0]@,
                    ));
                }
                assert(old(self).list_map@[name@] + items@.map_values(
                    |v: DbValue| value_bytes(m, v@),
                ) =~= old(self).list_map@[name@].push(value_bytes(m, value@)));
                assert(old(self).list_map@.insert(
                    name@,
                    old(self).list_map@[name@] + items@.map_values(
                        |v: DbValue| value_bytes(m, v@),
                    ),
                ) =~= old(self).list_map@.insert(
                    name@,
                    old(self).list_map@[name@].push(value_bytes(m, value@)),
                ));
            }
        }
        r
    }

    /// Appends many items to an existing list; `None` as for `ladd`, and
    /// on a flush failure all appended items are truncated back off.
    pub fn lextend(&mut self, name: &str, items: &Vec<DbValue>, now: u64) -> (r: Option<NoDbExt>)
        requires
            old(self).wf(),
        ensures
            final(self).wf(),
            same_config(*old(self), *final(self)),
            final(self).map@ == old(self).map@,
            !old(self).list_map@.contains_key(name@) ==> r is None && final(self).list_map@ == old(
                self,
            ).list_map@ && backing_unchanged(*old(self), *final(self)),
            old(self).list_map@.contains_key(name@) ==> match r {
                Some(ext) => {
                    &&& ext.list_name@ == name@
                    &&& final(self).list_map@ == old(self).list_map@.insert(
                        name@,
                        old(self).list_map@[name@] + items@.map_values(
                            |v: DbValue| value_bytes(old(self).ser.method(), v@),
                        ),
                    )
                    &&& forall|j: int|
                        0 <= j < items@.len() ==> value_of(
                            old(self).ser.method(),
                            (#[trigger] items@[j])@.kind(),
                            value_bytes(old(self).ser.method(), items@[j]@),
                        ) == Some(items@[j]@)
                    &&& if dump_due(old(self).policy, old(self).last_dump, now) {
                        flush_committed(*old(self), *final(self), now)
                    } else {
                        backing_unchanged(*old(self), *final(self))
                    }
                },
                None => {
                    &&& final(self).list_map@ == old(self).list_map@
                    &&& backing_unchanged(*old(self), *final(self))
                    &&& dump_due(old(self).policy, old(self).last_dump, now)
                    &&& (old(self).backing.fails() || !db_encodable(
                        old(self).ser.method(),
                        old(self).map@,
                        old(self).list_map@.insert(
                            name@,
                            old(self).list_map@[name@] + items@.map_values(
                                |v: DbValue| value_bytes(old(self).ser.method(), v@),
                            ),
                        ),
                    ))
                },
            },
            old(self).list_map@.contains_key(name@) && dump_due(
                old(self).policy,
                old(self).last_dump,
                now,
            ) && r is Some ==> !old(self).backing.fails(),
    {
        match self.list_map.remove(name) {
            None => {
                proof {
                    assert(self.list_map@ =~= old(self).list_map@);
                }
                None
            },
            Some(mut list) => {
                let ghost pre = *self;
                let ghost orig_deep = old(self).list_map@[name@];
                let ghost orig = list@;
                let ghost mth = old(self).ser.method();
                let orig_len = list.len();
                let mut i: usize = 0;
                while i < items.len()
                    invariant
                        *self == pre,
                        mth == self.ser.method(),
                        i <= items@.len(),
                        list@.len() == orig.len() + i,
                        forall|j: int| 0 <= j < orig.len() ==> list@[j] == orig[j],
                        forall|j: int|
                            0 <= j < i ==> (#[trigger] list@[orig.len() + j])@ == value_bytes(
                                mth,
                                items@[j]@,
                            ),
                        forall|j: int|
                            0 <= j < i ==> value_of(
                                mth,
                                (#[trigger] items@[j])@.kind(),
                                value_bytes(mth, items@[j]@),
                            ) == Some(items@[j]@),
                    decreases items@.len() - i,
                {
                    let data = self.ser.serialize_data(&items[i]);
                    list.push(data);
                    i = i + 1;
                }
                proof {
                    let ghost target = orig_deep + items@.map_values(
                        |v: DbValue| value_bytes(mth, v@),
                    );
                    assert(orig_deep.len() == orig.len());
                    assert forall|j: int| 0 <= j < list@.len() implies list.deep_view()[j]
                        == target[j] by {
                        if j < orig.len() {
                            assert(list@[j] == orig[j]);
                            assert(orig_deep[j] == orig[j].deep_view());
                        } else {
                            let k = j - orig.len();
                            assert(list@[orig.len() + k]@ == value_bytes(mth, items@[k]@));
                            assert(list@[j].deep_view() =~= list@[j]@);
                        }
                    }
                    assert(list.deep_view() =~= target);
                }
                self.list_map.insert(name.to_owned(), list);
                proof {
                    assert(self.list_map@ =~= old(self).list_map@.insert(
                        name@,
                        orig_deep + items@.map_values(|v: DbValue| value_bytes(mth, v@)),
                    ));
                }
                match self.dumpdb(now) {
                    Ok(()) => Some(NoDbExt { list_name: name.to_owned() }),
                    Err(_) => {
                        let ghost cur = self.list_map@[name@];
                        match self.list_map.remove(name) {
                            Some(mut l2) => {
                                let ghost l2v = l2@;
                                proof {
                                    assert(l2.deep_view() == cur);
                                    assert(orig_deep.len() == orig_len);
                                    assert(l2v.len() == cur.len());
                                }
                                l2.truncate(orig_len);
                                proof {
                                    assert forall|j: int| 0 <= j < orig_len implies l2.deep_view()[j]
                                        == orig_deep[j] by {
                                        assert(l2@[j] == l2v[j]);
                                        assert(l2v[j].deep_view() == cur[j]);
                                        assert(cur[j] == orig_deep[j]);
                                    }
                                    assert(l2.deep_view() =~= orig_deep);
                                }
                                self.list_map.insert(name.to_owned(), l2);
                                proof {
                                    assert(self.list_map@ =~= old(self).list_map@);
                                }
                                None
                            },
                            None => {
                                proof {
                                    assert(false);
                                }
                                None
                            },
                        }
                    },
                }
            },
        }
    }

    /// Reads the item at `pos` of a list as the expected kind; an unknown
    /// list, an index out of range, or a payload of another shape is a
    /// silent miss.
    pub fn lget(&self, name: &str, pos: usize, kind: DbKind) -> (r: Option<DbValue>)
        requires
            self.wf(),
        ensures
            self.list_map@.contains_key(name@) && pos < self.list_map@[name@].len()
                ==> opt_value_view(r) == value_of(
                self.ser.method(),
                kind,
                self.list_map@[name@][pos as int],
            ),
            !(self.list_map@.contains_key(name@) && pos < self.list_map@[name@].len()) ==> r
                is None,
    {
        match self.list_map.get(name) {
            Some(list) => {
                if pos < list.len() {
                    proof {
                        assert(list@[pos as int].deep_view() =~= list@[pos as int]@);
                        assert(list.deep_view()[pos as int] == list@[pos as int].deep_view());
                    }
                    self.ser.deserialize_data(&list[pos], kind)
                } else {
                    None
                }
            },
            None => None,
        }
    }

    /// The length of a list; zero when it does not exist.
    pub fn llen(&self, name: &str) -> (n: usize)
        requires
            self.wf(),
        ensures
            n == (if self.list_map@.contains_key(name@) {
                self.list_map@[name@].len()
            } else {
                0
            }),
    {
        match self.list_map.get(name) {
            Some(list) => list.len(),
            None => 0,
        }
    }

    /// Removes a whole list, returning how many items it held (zero when
    /// it did not exist); on a flush failure the list is restored and the
    /// error returned.
    pub fn lrem_list(&mut self, name: &str, now: u64) -> (r: Result<usize, NoDbError>)
        requires
            old(self).wf(),
        ensures
            final(self).wf(),
            same_config(*old(self), *final(self)),
            final(self).map@ == old(self).map@,
            (r is Ok) <==> (!old(self).list_map@.contains_key(name@) || !dump_due(
                old(self).policy,
                old(self).last_dump,
                now,
            ) || (!old(self).backing.fails() && db_encodable(
                old(self).ser.method(),
                old(self).map@,
                old(self).list_map@.remove(name@),
            ))),
            match r {
                Ok(n) => {
                    &&& n == (if old(self).list_map@.contains_key(name@) {
                        old(self).list_map@[name@].len() as int
                    } else {
                        0
                    })
                    &&& final(self).list_map@ == old(self).list_map@.remove(name@)
                    &&& (!old(self).list_map@.contains_key(name@) ==> backing_unchanged(
                        *old(self),
                        *final(self),
                    ))
                    &&& (old(self).list_map@.contains_key(name@) ==> (if dump_due(
                        old(self).policy,
                        old(self).last_dump,
                        now,
                    ) {
                        flush_committed(*old(self), *final(self), now)
                    } else {
                        backing_unchanged(*old(self), *final(self))
                    }))
                },
                Err(e) => {
                    &&& old(self).list_map@.contains_key(name@)
                    &&& final(self).list_map@ == old(self).list_map@
                    &&& dump_due(old(self).policy, old(self).last_dump, now)
                    &&& backing_unchanged(*old(self), *final(self))
                    &&& flush_failed_as(
                        e,
                        old(self).backing.fails(),
                        db_encodable(
                            old(self).ser.method(),
                            old(self).map@,
                            old(self).list_map@.remove(name@),
                        ),
                    )
                },
            },
    {
        let n = self.llen(name);
        match self.list_map.remove(name) {
            Some(val) => match self.dumpdb(now) {
                Ok(()) => Ok(n),
                Err(e) => {
                    self.list_map.insert(name.to_owned(), val);
                    proof {
                        assert(self.list_map@ =~= old(self).list_map@);
                    }
                    Err(e)
                },
            },
            None => {
                proof {
                    assert(self.list_map@ =~= old(self).list_map@);
                }
                Ok(n)
            },
        }
    }

    /// Removes a key from whichever maps hold it, reporting whether
    /// anything was removed. Each of the two removals runs its own policy
    /// check and rolls back only its own map on failure, so a failure
    /// after the scalar removal leaves the list entry in place.
    pub fn rem(&mut self, key: &str, now: u64) -> (r: Result<bool, NoDbError>)
        requires
            old(self).wf(),
        ensures
            final(self).wf(),
            same_config(*old(self), *final(self)),
            (!dump_due(old(self).policy, old(self).last_dump, now) || (!old(
                self,
            ).backing.fails() && db_encodable(
                old(self).ser.method(),
                old(self).map@.remove(key@),
                old(self).list_map@,
            ) && db_encodable(
                old(self).ser.method(),
                old(self).map@.remove(key@),
                old(self).list_map@.remove(key@),
            ))) ==> r is Ok,
            r is Err && old(self).backing.fails() && dump_due(
                old(self).policy,
                old(self).last_dump,
                now,
            ) && old(self).map@.contains_key(key@) ==> final(self).map@ == old(self).map@
                && final(self).list_map@ == old(self).list_map@ && backing_unchanged(
                *old(self),
                *final(self),
            ),
            match r {
                Ok(b) => {
                    &&& b == (old(self).map@.contains_key(key@) || old(
                        self,
                    ).list_map@.contains_key(key@))
                    &&& final(self).map@ == old(self).map@.remove(key@)
                    &&& final(self).list_map@ == old(self).list_map@.remove(key@)
                    &&& (!dump_due(old(self).policy, old(self).last_dump, now) ==> backing_unchanged(
                        *old(self),
                        *final(self),
                    ))
                    &&& (!b ==> backing_unchanged(*old(self), *final(self)))
                    &&& (b && dump_due(old(self).policy, old(self).last_dump, now) ==> !old(
                        self,
                    ).backing.fails())
                    &&& (old(self).policy == DumpPolicy::Auto && b ==> file_reflects(
                        *final(self),
                    ))
                },
                Err(e) => {
                    &&& old(self).map@.contains_key(key@) || old(self).list_map@.contains_key(
                        key@,
                    )
                    &&& dump_due(old(self).policy, old(self).last_dump, now)
                    &&& final(self).list_map@ == old(self).list_map@
                    &&& (final(self).map@ == old(self).map@ || final(self).map@ == old(
                        self,
                    ).map@.remove(key@))
                    &&& (backing_unchanged(*old(self), *final(self)) || file_reflects(
                        *final(self),
                    ))
                    &&& (e == NoDbError::Io ==> old(self).backing.fails())
                    &&& (e == NoDbError::Encoding ==> !db_encodable(
                        old(self).ser.method(),
                        old(self).map@.remove(key@),
                        old(self).list_map@,
                    ) || !db_encodable(
                        old(self).ser.method(),
                        old(self).map@.remove(key@),
                        old(self).list_map@.remove(key@),
                    ))
                },
            },
    {
        let rm_map = match self.map.remove(key) {
            None => {
                proof {
                    assert(self.map@ =~= old(self).map@);
                }
                false
            },
            Some(val) => match self.dumpdb(now) {
                Ok(()) => true,
                Err(e) => {
                    self.map.insert(key.to_owned(), val);
                    proof {
                        assert(self.map@ =~= old(self).map@);
                        assert(self.list_map@ =~= old(self).list_map@);
                    }
                    return Err(e);
                },
            },
        };
        let ghost mid = *self;
        let rm_list = match self.list_map.remove(key) {
            None => {
                proof {
                    assert(self.list_map@ =~= mid.list_map@);
                    assert(self.list_map@ =~= old(self).list_map@.remove(key@));
                }
                false
            },
            Some(val) => match self.dumpdb(now) {
                Ok(()) => true,
                Err(e) => {
                    self.list_map.insert(key.to_owned(), val);
                    proof {
                        assert(self.list_map@ =~= old(self).list_map@);
                    }
                    return Err(e);
                },
            },
        };
        proof {
            assert(self.map@ =~= old(self).map@.remove(key@));
        }
        Ok(rm_map || rm_list)
    }

    /// Removes and returns the item at `pos` of a list, decoded as the
    /// expected kind. An unknown list or an index out of range removes
    /// nothing. On a flush failure the item is re-inserted at its position
    /// and `None` returned; after a successful flush the item stays
    /// removed even if it does not decode as the expected kind.
    pub fn lpop(&mut self, name: &str, pos: usize, kind: DbKind, now: u64) -> (r: Option<DbValue>)
        requires
            old(self).wf(),
        ensures
            final(self).wf(),
            same_config(*old(self), *final(self)),
            final(self).map@ == old(self).map@,
            !(old(self).list_map@.contains_key(name@) && pos < old(self).list_map@[name@].len())
                ==> r is None && final(self).list_map@ == old(self).list_map@ && backing_unchanged(
                *old(self),
                *final(self),
            ),
            old(self).list_map@.contains_key(name@) && pos < old(self).list_map@[name@].len() ==> {
                ||| {
                    &&& final(self).list_map@ == old(self).list_map@.insert(
                        name@,
                        old(self).list_map@[name@].remove(pos as int),
                    )
                    &&& opt_value_view(r) == value_of(
                        old(self).ser.method(),
                        kind,
                        old(self).list_map@[name@][pos as int],
                    )
                    &&& if dump_due(old(self).policy, old(self).last_dump, now) {
                        flush_committed(*old(self), *final(self), now) && !old(
                            self,
                        ).backing.fails() && db_encodable(
                            old(self).ser.method(),
                            old(self).map@,
                            old(self).list_map@.insert(
                                name@,
                                old(self).list_map@[name@].remove(pos as int),
                            ),
                        )
                    } else {
                        backing_unchanged(*old(self), *final(self))
                    }
                }
                ||| {
                    &&& r is None
                    &&& final(self).list_map@ == old(self).list_map@
                    &&& backing_unchanged(*old(self), *final(self))
                    &&& dump_due(old(self).policy, old(self).last_dump, now)
                    &&& (old(self).backing.fails() || !db_encodable(
                        old(self).ser.method(),
                        old(self).map@,
                        old(self).list_map@.insert(
                            name@,
                            old(self).list_map@[name@].remove(pos as int),
                        ),
                    ))
                }
            },
    {
        match self.list_map.remove(name) {
            None => {
                proof {
                    assert(self.list_map@ =~= old(self).list_map@);
                }
                None
            },
            Some(mut list) => {
                let ghost orig_deep = old(self).list_map@[name@];
                let ghost orig = list@;
                if pos >= list.len() {
                    self.list_map.insert(name.to_owned(), list);
                    proof {
                        assert(self.list_map@ =~= old(self).list_map@);
                    }
                    return None;
                }
                let item = list.remove(pos);
                proof {
                    assert(item.deep_view() =~= item@);
                    assert(item@ =~= orig_deep[pos as int]);
                    assert forall|j: int| 0 <= j < list@.len() implies list.deep_view()[j]
                        == orig_deep.remove(pos as int)[j] by {
                        assert(list@[j] == orig.remove(pos as int)[j]);
                        if j < pos {
                            assert(list@[j] == orig[j]);
                        } else {
                            assert(list@[j] == orig[j + 1]);
                        }
                    }
                    assert(list.deep_view() =~= orig_deep.remove(pos as int));
                }
                self.list_map.insert(name.to_owned(), list);
                proof {
                    assert(self.list_map@ =~= old(self).list_map@.insert(
                        name@,
                        orig_deep.remove(pos as int),
                    ));
                }
                match self.dumpdb(now) {
                    Ok(()) => self.ser.deserialize_data(&item, kind),
                    Err(_) => {
                        let ghost cur = self.list_map@[name@];
                        match self.list_map.remove(name) {
                            Some(mut l2) => {
                                let ghost l2v = l2@;
                                proof {
                                    assert(l2.deep_view() == cur);
                                    assert(pos <= l2v.len());
                                }
                                l2.insert(pos, item);
                                proof {
                                    assert forall|j: int|
                                        0 <= j < l2@.len() implies l2.deep_view()[j]
                                        == orig_deep[j] by {
                                        if j < pos {
                                            assert(l2@[j] == l2v[j]);
                                            assert(l2v[j].deep_view() == cur[j]);
                                        } else if j == pos {
                                            assert(l2@[j] == item);
                                        } else {
                                            assert(l2@[j] == l2v[j - 1]);
                                            assert(l2v[j - 1].deep_view() == cur[j - 1]);
                                        }
                                    }
                                    assert(l2.deep_view() =~= orig_deep);
                                }
                                self.list_map.insert(name.to_owned(), l2);
                                proof {
                                    assert(self.list_map@ =~= old(self).list_map@);
                                }
                                None
                            },
                            None => {
                                proof {
                                    assert(false);
                                }
                                None
                            },
                        }
                    },
                }
            },
        }
    }

    /// Removes the first list item whose payload equals the value's
    /// payload, reporting whether one was removed; on a flush failure the
    /// item is re-inserted and the error returned.
    pub fn lrem_value(&mut self, name: &str, value: &DbValue, now: u64) -> (r: Result<
        bool,
        NoDbError,
    >)
        requires
            old(self).wf(),
        ensures
            final(self).wf(),
            same_config(*old(self), *final(self)),
            final(self).map@ == old(self).map@,
            !old(self).list_map@.contains_key(name@) ==> r == Ok::<bool, NoDbError>(false)
                && final(self).list_map@ == old(self).list_map@ && backing_unchanged(
                *old(self),
                *final(self),
            ),
            old(self).list_map@.contains_key(name@) ==> match first_match(
                old(self).list_map@[name@],
                value_bytes(old(self).ser.method(), value@),
            ) {
                None => r == Ok::<bool, NoDbError>(false) && final(self).list_map@ == old(
                    self,
                ).list_map@ && backing_unchanged(*old(self), *final(self)),
                Some(j) => {
                    &&& ((r is Ok) <==> (!dump_due(old(self).policy, old(self).last_dump, now)
                        || (!old(self).backing.fails() && db_encodable(
                        old(self).ser.method(),
                        old(self).map@,
                        old(self).list_map@.insert(name@, old(self).list_map@[name@].remove(j)),
                    ))))
                    &&& match r {
                        Ok(b) => {
                            &&& b == true
                            &&& final(self).list_map@ == old(self).list_map@.insert(
                                name@,
                                old(self).list_map@[name@].remove(j),
                            )
                            &&& if dump_due(old(self).policy, old(self).last_dump, now) {
                                flush_committed(*old(self), *final(self), now)
                            } else {
                                backing_unchanged(*old(self), *final(self))
                            }
                        },
                        Err(e) => {
                            &&& final(self).list_map@ == old(self).list_map@
                            &&& backing_unchanged(*old(self), *final(self))
                            &&& dump_due(old(self).policy, old(self).last_dump, now)
                            &&& flush_failed_as(
                                e,
                                old(self).backing.fails(),
                                db_encodable(
                                    old(self).ser.method(),
                                    old(self).map@,
                                    old(self).list_map@.insert(
                                        name@,
                                        old(self).list_map@[name@].remove(j),
                                    ),
                                ),
                            )
                        },
                    }
                },
            },
    {
        let serialized = self.ser.serialize_data(value);
        proof {
            assert(serialized.deep_view() =~= serialized@);
        }
        match self.list_map.remove(name) {
            None => {
                proof {
                    assert(self.list_map@ =~= old(self).list_map@);
                }
                Ok(false)
            },
            Some(mut list) => {
                let ghost orig_deep = old(self).list_map@[name@];
                let ghost orig = list@;
                proof {
                    lemma_first_match(orig_deep, serialized@);
                }
                match find_payload(&list, &serialized) {
                    None => {
                        proof {
                            assert forall|j: int|
                                0 <= j < orig_deep.len() implies orig_deep[j]
                                != serialized@ by {
                                assert(orig[j]@ != serialized@);
                                assert(orig[j].deep_view() =~= orig[j]@);
                                assert(orig_deep[j] == orig[j].deep_view());
                            }
                        }
                        self.list_map.insert(name.to_owned(), list);
                        proof {
                            assert(self.list_map@ =~= old(self).list_map@);
                        }
                        Ok(false)
                    },
                    Some(pos) => {
                        proof {
                            assert(orig[pos as int].deep_view() =~= orig[pos as int]@);
                            assert(orig_deep[pos as int] == orig[pos as int].deep_view());
                            assert(orig_deep[pos as int] == serialized@);
                            assert forall|j: int| 0 <= j < pos implies orig_deep[j]
                                != serialized@ by {
                                assert(orig[j]@ != serialized@);
                                assert(orig[j].deep_view() =~= orig[j]@);
                                assert(orig_deep[j] == orig[j].deep_view());
                            }
                            assert(first_match(orig_deep, serialized@) == Some(pos as int));
                        }
                        let item = list.remove(pos);
                        proof {
                            assert forall|j: int| 0 <= j < list@.len() implies list.deep_view()[j]
                                == orig_deep.remove(pos as int)[j] by {
                                if j < pos {
                                    assert(list@[j] == orig[j]);
                                } else {
                                    assert(list@[j] == orig[j + 1]);
                                }
                            }
                            assert(list.deep_view() =~= orig_deep.remove(pos as int));
                        }
                        self.list_map.insert(name.to_owned(), list);
                        proof {
                            assert(self.list_map@ =~= old(self).list_map@.insert(
                                name@,
                                orig_deep.remove(pos as int),
                            ));
                        }
                        match self.dumpdb(now) {
                            Ok(()) => Ok(true),
                            Err(e) => {
                                let ghost cur = self.list_map@[name@];
                                match self.list_map.remove(name) {
                                    Some(mut l2) => {
                                        let ghost l2v = l2@;
                                        proof {
                                            assert(l2.deep_view() == cur);
                                            assert(pos <= l2v.len());
                                        }
                                        l2.insert(pos, item);
                                        proof {
                                            assert(item.deep_view() =~= item@);
                                            assert forall|j: int|
                                                0 <= j < l2@.len() implies l2.deep_view()[j]
                                                == orig_deep[j] by {
                                                if j < pos {
                                                    assert(l2@[j] == l2v[j]);
                                                    assert(l2v[j].deep_view() == cur[j]);
                                                } else if j == pos {
                                                    assert(l2@[j] == item);
                                                    assert(item@ == orig[pos as int]@);
                                                } else {
                                                    assert(l2@[j] == l2v[j - 1]);
                                                    assert(l2v[j - 1].deep_view() == cur[j - 1]);
                                                }
                                            }
                                            assert(l2.deep_view() =~= orig_deep);
                                        }
                                        self.list_map.insert(name.to_owned(), l2);
                                        proof {
                                            assert(self.list_map@ =~= old(self).list_map@);
                                        }
                                        Err(e)
                                    },
                                    None => {
                                        proof {
                                            assert(false);
                                        }
                                        Err(e)
                                    },
                                }
                            },
                        }
                    },
                }
            },
        }
    }

    /// A snapshot iterator over the scalar entries.
    pub fn iter(&self) -> (r: NoDbIter)
        requires
            self.wf(),
        ensures
            r.pos_spec() == 0,
            r.method_spec() == self.ser.method(),
            r.items_seq().len() == self.map.keys().len(),
            forall|i: int|
                0 <= i < self.map.keys().len() ==> self.map@.contains_key(
                    #[trigger] self.map.keys()[i],
                ),
            forall|i: int|
                0 <= i < r.items_seq().len() ==> (#[trigger] r.items_seq()[i]).0@
                    == self.map.keys()[i] && r.items_seq()[i].1@ == self.map@[self.map.keys()[i]],
    {
        let es = self.map.entries();
        let mut items: Vec<(String, Vec<u8>)> = Vec::new();
        let mut i: usize = 0;
        while i < es.len()
            invariant
                self.map.wf(),
                es@ == self.map.pairs_seq(),
                i <= es@.len(),
                items@.len() == i,
                forall|j: int|
                    0 <= j < i ==> (#[trigger] items@[j]).0@ == self.map.keys()[j]
                        && self.map@.contains_key(self.map.keys()[j]) && items@[j].1@
                        == self.map@[self.map.keys()[j]],
            decreases es@.len() - i,
        {
            proof {
                self.map.lemma_pairs_lookup(i as int);
                assert(es@[i as int].1.deep_view() =~= es@[i as int].1@);
            }
            let key = es[i].0.clone();
            let val = crate::iter::clone_bytes(&es[i].1);
            items.push((key, val));
            i = i + 1;
        }
        let it = NoDbIter::make(items, self.ser);
        proof {
            assert forall|k: int|
                0 <= k < self.map.keys().len() implies self.map@.contains_key(
                #[trigger] self.map.keys()[k]) by {
                assert(items@[k].0@ == self.map.keys()[k]);
            }
            assert forall|k: int|
                0 <= k < it.items_seq().len() implies (#[trigger] it.items_seq()[k]).0@
                == self.map.keys()[k] && it.items_seq()[k].1@ == self.map@[self.map.keys()[k]] by {
                assert(it.items_seq()[k] == items@[k]);
            }
        }
        it
    }

    /// A snapshot iterator over the items of one list; empty when the
    /// list does not exist.
    pub fn liter(&self, name: &str) -> (r: NoDbListIter)
        requires
            self.wf(),
        ensures
            r.pos_spec() == 0,
            r.method_spec() == self.ser.method(),
            self.list_map@.contains_key(name@) ==> r.items_seq().len()
                == self.list_map@[name@].len() && forall|i: int|
                0 <= i < r.items_seq().len() ==> (#[trigger] r.items_seq()[i])@
                    == self.list_map@[name@][i],
            !self.list_map@.contains_key(name@) ==> r.items_seq().len() == 0,
    {
        let mut items: Vec<Vec<u8>> = Vec::new();
        match self.list_map.get(name) {
            Some(list) => {
                let mut i: usize = 0;
                while i < list.len()
                    invariant
                        i <= list@.len(),
                        items@.len() == i,
                        forall|j: int|
                            0 <= j < i ==> (#[trigger] items@[j])@ == list.deep_view()[j],
                    decreases list@.len() - i,
                {
                    proof {
                        assert(list@[i as int].deep_view() =~= list@[i as int]@);
                    }
                    let val = crate::iter::clone_bytes(&list[i]);
                    items.push(val);
                    i = i + 1;
                }
                NoDbListIter::make(items, self.ser)
            },
            None => NoDbListIter::make(items, self.ser),
        }
    }

    /// A best-effort teardown flush: attempts one dump unless the policy
    /// is `Never` or `OnCall`, and swallows any error.
    pub fn close(&mut self, now: u64)
        requires
            old(self).wf(),
        ensures
            final(self).wf(),
            same_config(*old(self), *final(self)),
            final(self).map == old(self).map,
            final(self).list_map == old(self).list_map,
            (old(self).policy == DumpPolicy::Never || old(self).policy == DumpPolicy::OnCall)
                ==> backing_unchanged(*old(self), *final(self)),
            !(old(self).policy == DumpPolicy::Never || old(self).policy == DumpPolicy::OnCall)
                ==> (flush_committed(*old(self), *final(self), now) || backing_unchanged(
                *old(self),
                *final(self),
            )),
            !(old(self).policy == DumpPolicy::Never || old(self).policy == DumpPolicy::OnCall)
                && !old(self).backing.fails() && store_encodable(*old(self)) ==> flush_committed(
                *old(self),
                *final(self),
                now,
            ),
    {
        if !(matches!(self.policy, DumpPolicy::Never) || matches!(self.policy, DumpPolicy::OnCall)) {
            let _ = self.dump(now);
        }
    }
}

/// Law: a removed key names neither a scalar entry nor a list afterward.
pub proof fn lemma_removed_key_gone(before: NoDb, after: NoDb, k: Seq<char>)
    requires
        after.map@ == before.map@.remove(k),
        after.list_map@ == before.list_map@.remove(k),
    ensures
        !after.map@.contains_key(k),
        !after.list_map@.contains_key(k),
{
}

/// Law: under `Never`, no mutation is ever due to flush, so no operation
/// ever touches the backing file.
pub proof fn lemma_never_not_due(last_dump: u64, now: u64)
    ensures
        !dump_due(DumpPolicy::Never, last_dump, now),
{
}

/// Law: under `OnCall`, no mutation is ever due to flush; only an
/// explicit dump call writes.
pub proof fn lemma_oncall_not_due(last_dump: u64, now: u64)
    ensures
        !dump_due(DumpPolicy::OnCall, last_dump, now),
{
}

/// Law: under `Auto`, every mutation is due to flush.
pub proof fn lemma_auto_due(last_dump: u64, now: u64)
    ensures
        dump_due(DumpPolicy::Auto, last_dump, now),
{
}

/// Law: under `Periodic(d)`, a mutation is due to flush exactly when at
/// least `d` ticks have passed since the last successful dump.
pub proof fn lemma_periodic_due(d: u64, last_dump: u64, now: u64)
    ensures
        dump_due(DumpPolicy::Periodic(d), last_dump, now) <==> elapsed(last_dump, now) >= d,
{
}

/// The index of the first payload in `s` equal to `x`, if any.
pub open spec fn first_match(s: Seq<Seq<u8>>, x: Seq<u8>) -> Option<int>
    decreases s.len(),
{
    if s.len() == 0 {
        None
    } else if s[0] == x {
        Some(0)
    } else {
        match first_match(s.drop_first(), x) {
            Some(i) => Some(i + 1),
            None => None,
        }
    }
}

/// `first_match` finds the least matching index, or shows there is none.
pub proof fn lemma_first_match(s: Seq<Seq<u8>>, x: Seq<u8>)
    ensures
        match first_match(s, x) {
            Some(i) => 0 <= i < s.len() && s[i] == x && forall|j: int| 0 <= j < i ==> s[j] != x,
            None => forall|j: int| 0 <= j < s.len() ==> s[j] != x,
        },
    decreases s.len(),
{
    if s.len() > 0 && s[0] != x {
        lemma_first_match(s.drop_first(), x);
        match first_match(s.drop_first(), x) {
            Some(i) => {
                assert(s.drop_first()[i] == s[i + 1]);
                assert forall|j: int| 0 <= j < i + 1 implies s[j] != x by {
                    if j > 0 {
                        assert(s.drop_first()[j - 1] == s[j]);
                    }
                }
            },
            None => {
                assert forall|j: int| 0 <= j < s.len() implies s[j] != x by {
                    if j > 0 {
                        assert(s.drop_first()[j - 1] == s[j]);
                    }
                }
            },
        }
    }
}

/// Compares two byte vectors for equality of their contents.
fn bytes_eq(a: &Vec<u8>, b: &Vec<u8>) -> (r: bool)
    ensures
        r == (a@ == b@),
{
    if a.len() != b.len() {
        return false;
    }
    let mut i: usize = 0;
    while i < a.len()
        invariant
            a@.len() == b@.len(),
            i <= a@.len(),
            forall|j: int| 0 <= j < i ==> a@[j] == b@[j],
        decreases a@.len() - i,
    {
        if a[i] != b[i] {
            return false;
        }
        i = i + 1;
    }
    proof {
        assert(a@ =~= b@);
    }
    true
}

/// The first index of `list` whose payload equals `x`, if any.
fn find_payload(list: &Vec<Vec<u8>>, x: &Vec<u8>) -> (r: Option<usize>)
    ensures
        match r {
            Some(i) => i < list@.len() && list@[i as int]@ == x@ && forall|j: int|
                0 <= j < i ==> list@[j]@ != x@,
            None => forall|j: int| 0 <= j < list@.len() ==> list@[j]@ != x@,
        },
{
    let mut i: usize = 0;
    while i < list.len()
        invariant
            i <= list@.len(),
            forall|j: int| 0 <= j < i ==> list@[j]@ != x@,
        decreases list@.len() - i,
    {
        if bytes_eq(&list[i], x) {
            return Some(i);
        }
        i = i + 1;
    }
    None
}

} // verus!
