//! The typed values the store holds.
//!
//! Every entry and every list item is one `DbValue`, serialized by the
//! store's codec into an opaque byte payload. A reader states the kind it
//! expects (`DbKind`); a payload that does not decode as that kind is a
//! silent miss, not an error.

use vstd::prelude::*;

verus! {

/// The kind of value a caller asks for when reading.
#[derive(Clone, Copy, Debug, PartialEq, Eq, Structural)]
pub enum DbKind {
    Int,
    Text,
}

/// A value as the contracts see it: a machine integer or a character
/// sequence.
pub enum ValueSpec {
    Int(i64),
    Text(Seq<char>),
}

impl ValueSpec {
    pub open spec fn kind(self) -> DbKind {
        match self {
            ValueSpec::Int(_) => DbKind::Int,
            ValueSpec::Text(_) => DbKind::Text,
        }
    }
}

/// A typed value to store under a key or inside a list.
#[derive(Debug)]
pub enum DbValue {
    Int(i64),
    Text(String),
}

impl View for DbValue {
    type V = ValueSpec;

    open spec fn view(&self) -> ValueSpec {
        match self {
            DbValue::Int(i) => ValueSpec::Int(*i),
            DbValue::Text(s) => ValueSpec::Text(s@),
        }
    }
}

impl DbValue {
    pub fn kind(&self) -> (k: DbKind)
        ensures
            k == self@.kind(),
    {
        match self {
            DbValue::Int(_) => DbKind::Int,
            DbValue::Text(_) => DbKind::Text,
        }
    }
}

impl Clone for DbValue {
    fn clone(&self) -> (r: Self)
        ensures
            r@ == self@,
    {
        match self {
            DbValue::Int(i) => DbValue::Int(*i),
            DbValue::Text(s) => DbValue::Text(s.clone()),
        }
    }
}

impl PartialEq for DbValue {
    fn eq(&self, other: &Self) -> (r: bool) {
        match (self, other) {
            (DbValue::Int(a), DbValue::Int(b)) => a == b,
            (DbValue::Text(a), DbValue::Text(b)) => a.eq(b),
            _ => false,
        }
    }
}

impl vstd::std_specs::cmp::PartialEqSpecImpl for DbValue {
    open spec fn obeys_eq_spec() -> bool {
        true
    }

    open spec fn eq_spec(&self, other: &DbValue) -> bool {
        self@ == other@
    }
}

} // verus!
