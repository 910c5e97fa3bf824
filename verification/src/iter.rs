//! Read-only iteration over the store's entries and over one list.
//!
//! An iterator is a snapshot taken at the moment of the call, not a live
//! view: it copies the keys and payloads it will yield, together with the
//! store's codec choice for decoding items on demand.

use vstd::prelude::*;

use crate::ser::opt_value_view;
use crate::ser::value_of;
use crate::ser::SerializationMethod;
use crate::ser::Serializer;
use crate::value::DbKind;
use crate::value::DbValue;

verus! {

/// A copy of a byte payload.
pub(crate) fn clone_bytes(v: &Vec<u8>) -> (r: Vec<u8>)
    ensures
        r@ == v@,
{
    let mut r: Vec<u8> = Vec::new();
    let mut i: usize = 0;
    while i < v.len()
        invariant
            i <= v@.len(),
            r@ =~= v@.subrange(0, i as int),
        decreases v@.len() - i,
    {
        r.push(v[i]);
        i = i + 1;
    }
    proof {
        assert(r@ =~= v@);
    }
    r
}

/// A snapshot iterator over the scalar entries.
pub struct NoDbIter {
    items: Vec<(String, Vec<u8>)>,
    pos: usize,
    ser: Serializer,
}

/// One scalar entry a `NoDbIter` yielded.
pub struct NoDbIterItem {
    key: String,
    val: Vec<u8>,
    ser: Serializer,
}

impl NoDbIter {
    /// The snapshot's entries, in order.
    pub closed spec fn items_seq(self) -> Seq<(String, Vec<u8>)> {
        self.items@
    }

    /// How many entries have been yielded.
    pub closed spec fn pos_spec(self) -> int {
        self.pos as int
    }

    /// The codec choice the items decode with.
    pub closed spec fn method_spec(self) -> SerializationMethod {
        self.ser.method()
    }

    pub(crate) fn make(items: Vec<(String, Vec<u8>)>, ser: Serializer) -> (r: Self)
        ensures
            r.items_seq() == items@,
            r.pos_spec() == 0,
            r.method_spec() == ser.method(),
    {
        NoDbIter { items, pos: 0, ser }
    }

    /// The next entry of the snapshot, if one is left.
    pub fn next(&mut self) -> (r: Option<NoDbIterItem>)
        ensures
            final(self).items_seq() == old(self).items_seq(),
            final(self).method_spec() == old(self).method_spec(),
            old(self).pos_spec() < old(self).items_seq().len() ==> {
                &&& final(self).pos_spec() == old(self).pos_spec() + 1
                &&& r matches Some(item) && item.key_spec() == old(self).items_seq()[old(
                    self,
                ).pos_spec()].0@ && item.val_spec() == old(self).items_seq()[old(
                    self,
                ).pos_spec()].1@ && item.method_spec() == old(self).method_spec()
            },
            old(self).pos_spec() >= old(self).items_seq().len() ==> r is None
                && final(self).pos_spec() == old(self).pos_spec(),
    {
        if self.pos < self.items.len() {
            let key = self.items[self.pos].0.clone();
            let val = clone_bytes(&self.items[self.pos].1);
            self.pos = self.pos + 1;
            Some(NoDbIterItem { key, val, ser: self.ser })
        } else {
            None
        }
    }
}

impl NoDbIterItem {
    /// The entry's key text.
    pub closed spec fn key_spec(self) -> Seq<char> {
        self.key@
    }

    /// The entry's payload bytes.
    pub closed spec fn val_spec(self) -> Seq<u8> {
        self.val@
    }

    /// The codec choice the payload decodes with.
    pub closed spec fn method_spec(self) -> SerializationMethod {
        self.ser.method()
    }

    /// The key.
    pub fn get_key(&self) -> (r: &str)
        ensures
            r@ == self.key_spec(),
    {
        self.key.as_str()
    }

    /// The value, decoded as the expected kind; a payload of another
    /// shape is a silent miss.
    pub fn get_value(&self, kind: DbKind) -> (r: Option<DbValue>)
        ensures
            opt_value_view(r) == value_of(self.method_spec(), kind, self.val_spec()),
    {
        self.ser.deserialize_data(&self.val, kind)
    }
}

/// A snapshot iterator over one list's items.
pub struct NoDbListIter {
    items: Vec<Vec<u8>>,
    pos: usize,
    ser: Serializer,
}

/// One list item a `NoDbListIter` yielded.
pub struct NoDbListIterItem {
    val: Vec<u8>,
    ser: Serializer,
}

impl NoDbListIter {
    /// The snapshot's payloads, in order.
    pub closed spec fn items_seq(self) -> Seq<Vec<u8>> {
        self.items@
    }

    /// How many items have been yielded.
    pub closed spec fn pos_spec(self) -> int {
        self.pos as int
    }

    /// The codec choice the items decode with.
    pub closed spec fn method_spec(self) -> SerializationMethod {
        self.ser.method()
    }

    pub(crate) fn make(items: Vec<Vec<u8>>, ser: Serializer) -> (r: Self)
        ensures
            r.items_seq() == items@,
            r.pos_spec() == 0,
            r.method_spec() == ser.method(),
    {
        NoDbListIter { items, pos: 0, ser }
    }

    /// The next item of the snapshot, if one is left.
    pub fn next(&mut self) -> (r: Option<NoDbListIterItem>)
        ensures
            final(self).items_seq() == old(self).items_seq(),
            final(self).method_spec() == old(self).method_spec(),
            old(self).pos_spec() < old(self).items_seq().len() ==> {
                &&& final(self).pos_spec() == old(self).pos_spec() + 1
                &&& r matches Some(item) && item.val_spec() == old(self).items_seq()[old(
                    self,
                ).pos_spec()]@ && item.method_spec() == old(self).method_spec()
            },
            old(self).pos_spec() >= old(self).items_seq().len() ==> r is None
                && final(self).pos_spec() == old(self).pos_spec(),
    {
        if self.pos < self.items.len() {
            let val = clone_bytes(&self.items[self.pos]);
            self.pos = self.pos + 1;
            Some(NoDbListIterItem { val, ser: self.ser })
        } else {
            None
        }
    }
}

impl NoDbListIterItem {
    /// The item's payload bytes.
    pub closed spec fn val_spec(self) -> Seq<u8> {
        self.val@
    }

    /// The codec choice the payload decodes with.
    pub closed spec fn method_spec(self) -> SerializationMethod {
        self.ser.method()
    }

    /// The item, decoded as the expected kind; a payload of another shape
    /// is a silent miss.
    pub fn get_item(&self, kind: DbKind) -> (r: Option<DbValue>)
        ensures
            opt_value_view(r) == value_of(self.method_spec(), kind, self.val_spec()),
    {
        self.ser.deserialize_data(&self.val, kind)
    }
}

} // verus!
