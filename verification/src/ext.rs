//! The chained-builder handle for list appends.
//!
//! `lcreate` and the append operations hand one of these back so a caller
//! can keep appending to the same list. It carries only the list's name;
//! the store is passed to each call, since the handle holds no borrow of
//! it.

use vstd::prelude::*;

use crate::nodb::backing_unchanged;
use crate::nodb::dump_due;
use crate::nodb::flush_committed;
use crate::nodb::same_config;
use crate::nodb::NoDb;
use crate::ser::db_encodable;
use crate::ser::value_bytes;
use crate::ser::value_of;
use crate::value::DbValue;

verus! {

/// A handle naming the list that further appends go to.
pub struct NoDbExt {
    /// The list's name.
    pub list_name: String,
}

impl NoDbExt {
    /// Appends one item to the named list; `None` when the list does not
    /// exist or a required flush failed (and was rolled back).
    pub fn ladd(&self, db: &mut NoDb, value: &DbValue, now: u64) -> (r: Option<NoDbExt>)
        requires
            old(db).wf(),
        ensures
            final(db).wf(),
            same_config(*old(db), *final(db)),
            final(db).map@ == old(db).map@,
            !old(db).list_map@.contains_key(self.list_name@) ==> r is None && final(db).list_map@
                == old(db).list_map@ && backing_unchanged(*old(db), *final(db)),
            old(db).list_map@.contains_key(self.list_name@) ==> match r {
                Some(ext) => {
                    &&& ext.list_name@ == self.list_name@
                    &&& final(db).list_map@ == old(db).list_map@.insert(
                        self.list_name@,
                        old(db).list_map@[self.list_name@].push(
                            value_bytes(old(db).ser.method(), value@),
                        ),
                    )
                    &&& value_of(
                        old(db).ser.method(),
                        value@.kind(),
                        value_bytes(old(db).ser.method(), value@),
                    ) == Some(value@)
                    &&& if dump_due(old(db).policy, old(db).last_dump, now) {
                        flush_committed(*old(db), *final(db), now) && !old(db).backing.fails()
                    } else {
                        backing_unchanged(*old(db), *final(db))
                    }
                },
                None => {
                    &&& final(db).list_map@ == old(db).list_map@
                    &&& backing_unchanged(*old(db), *final(db))
                    &&& dump_due(old(db).policy, old(db).last_dump, now)
                    &&& (old(db).backing.fails() || !db_encodable(
                        old(db).ser.method(),
                        old(db).map@,
                        old(db).list_map@.insert(
                            self.list_name@,
                            old(db).list_map@[self.list_name@].push(
                                value_bytes(old(db).ser.method(), value@),
                            ),
                        ),
                    ))
                },
            },
    {
        db.ladd(self.list_name.as_str(), value, now)
    }

    /// Appends many items to the named list; `None` as for `ladd`.
    pub fn lextend(&self, db: &mut NoDb, items: &Vec<DbValue>, now: u64) -> (r: Option<NoDbExt>)
        requires
            old(db).wf(),
        ensures
            final(db).wf(),
            same_config(*old(db), *final(db)),
            final(db).map@ == old(db).map@,
            !old(db).list_map@.contains_key(self.list_name@) ==> r is None && final(db).list_map@
                == old(db).list_map@ && backing_unchanged(*old(db), *final(db)),
            old(db).list_map@.contains_key(self.list_name@) ==> match r {
                Some(ext) => {
                    &&& ext.list_name@ == self.list_name@
                    &&& final(db).list_map@ == old(db).list_map@.insert(
                        self.list_name@,
                        old(db).list_map@[self.list_name@] + items@.map_values(
                            |v: DbValue| value_bytes(old(db).ser.method(), v@),
                        ),
                    )
                    &&& forall|j: int|
                        0 <= j < items@.len() ==> value_of(
                            old(db).ser.method(),
                            (#[trigger] items@[j])@.kind(),
                            value_bytes(old(db).ser.method(), items@[j]@),
                        ) == Some(items@[j]@)
                    &&& if dump_due(old(db).policy, old(db).last_dump, now) {
                        flush_committed(*old(db), *final(db), now) && !old(db).backing.fails()
                    } else {
                        backing_unchanged(*old(db), *final(db))
                    }
                },
                None => {
                    &&& final(db).list_map@ == old(db).list_map@
                    &&& backing_unchanged(*old(db), *final(db))
                    &&& dump_due(old(db).policy, old(db).last_dump, now)
                    &&& (old(db).backing.fails() || !db_encodable(
                        old(db).ser.method(),
                        old(db).map@,
                        old(db).list_map@.insert(
                            self.list_name@,
                            old(db).list_map@[self.list_name@] + items@.map_values(
                                |v: DbValue| value_bytes(old(db).ser.method(), v@),
                            ),
                        ),
                    ))
                },
            },
    {
        db.lextend(self.list_name.as_str(), items, now)
    }
}

} // verus!
