//! The persistent memory store: a map from (type, identity) to a cloneable
//! value, backing all widget state that must survive from frame to frame
//! (open/closed flags, scroll offsets, cached strings).
//!
//! Each slot is keyed by the combination of a [`StoredKind`] tag and an
//! [`Id`], so one logical key can hold one slot per value shape. Entries are
//! created lazily on first read-or-default and never evicted.

use vstd::prelude::*;
use std::collections::HashMap;
use crate::geometry::VecI2;
use crate::id::{hash, Id, StoredKind, TypeId};

verus! {

broadcast use vstd::std_specs::hash::group_hash_axioms;

/// A value kept in the store: a tagged union of the plain shapes that
/// widget state is made of.
#[derive(Debug, PartialEq)]
pub enum StoredValue {
    Bool(bool),
    I32(i32),
    U64(u64),
    USize(usize),
    Chars(Vec<char>),
    Vec2(VecI2),
}

/// Whether two stored values hold the same contents (text is compared by its
/// characters).
pub open spec fn stored_eq(a: StoredValue, b: StoredValue) -> bool {
    match (a, b) {
        (StoredValue::Bool(x), StoredValue::Bool(y)) => x == y,
        (StoredValue::I32(x), StoredValue::I32(y)) => x == y,
        (StoredValue::U64(x), StoredValue::U64(y)) => x == y,
        (StoredValue::USize(x), StoredValue::USize(y)) => x == y,
        (StoredValue::Chars(x), StoredValue::Chars(y)) => x@ == y@,
        (StoredValue::Vec2(x), StoredValue::Vec2(y)) => x == y,
        _ => false,
    }
}

impl StoredValue {
    /// The shape tag of this value.
    pub open spec fn spec_kind(self) -> StoredKind {
        match self {
            StoredValue::Bool(_) => StoredKind::Bool,
            StoredValue::I32(_) => StoredKind::I32,
            StoredValue::U64(_) => StoredKind::U64,
            StoredValue::USize(_) => StoredKind::USize,
            StoredValue::Chars(_) => StoredKind::Chars,
            StoredValue::Vec2(_) => StoredKind::Vec2,
        }
    }

    pub fn kind(&self) -> (k: StoredKind)
        ensures
            k == self.spec_kind(),
    {
        match self {
            StoredValue::Bool(_) => StoredKind::Bool,
            StoredValue::I32(_) => StoredKind::I32,
            StoredValue::U64(_) => StoredKind::U64,
            StoredValue::USize(_) => StoredKind::USize,
            StoredValue::Chars(_) => StoredKind::Chars,
            StoredValue::Vec2(_) => StoredKind::Vec2,
        }
    }
}

impl Clone for StoredValue {
    fn clone(&self) -> (r: Self)
        ensures
            stored_eq(r, *self),
    {
        match self {
            StoredValue::Bool(b) => StoredValue::Bool(*b),
            StoredValue::I32(v) => StoredValue::I32(*v),
            StoredValue::U64(v) => StoredValue::U64(*v),
            StoredValue::USize(v) => StoredValue::USize(*v),
            StoredValue::Chars(v) => {
                let c = v.clone();
                proof {
                    assert(c@ =~= v@);
                }
                StoredValue::Chars(c)
            },
            StoredValue::Vec2(v) => StoredValue::Vec2(*v),
        }
    }
}

/// The store itself: a map from combined (type, identity) keys to values.
pub struct Memory {
    map: HashMap<u64, StoredValue>,
}

impl Memory {
    /// The entries currently held, by combined key.
    pub closed spec fn entries(self) -> Map<u64, StoredValue> {
        self.map@
    }

    /// The combined key of an identity and a value shape.
    pub open spec fn spec_key(id: Id, kind: StoredKind) -> u64 {
        TypeId::spec_of(kind) ^ id.spec_value()
    }

    pub fn new() -> (r: Self)
        ensures
            r.entries() == Map::<u64, StoredValue>::empty(),
    {
        Memory { map: HashMap::new() }
    }

    /// Return the value stored for `id` under `default`'s shape; if that slot
    /// is empty, store `default` there and return it. If the slot is occupied
    /// by a value of another shape (two (type, identity) pairs collided on
    /// one combined key), the store is left unchanged and `default` comes
    /// back.
    pub fn get_or_create(&mut self, id: Id, default: StoredValue) -> (r: StoredValue)
        ensures
            ({
                let k = Self::spec_key(id, default.spec_kind());
                if old(self).entries().contains_key(k) {
                    &&& final(self).entries() == old(self).entries()
                    &&& if old(self).entries()[k].spec_kind() == default.spec_kind() {
                        stored_eq(r, old(self).entries()[k])
                    } else {
                        stored_eq(r, default)
                    }
                } else {
                    &&& final(self).entries() == old(self).entries().insert(k, default)
                    &&& stored_eq(r, default)
                }
            }),
    {
        let k = hash(TypeId::of(default.kind()), id);
        if self.map.contains_key(&k) {
            match self.map.get(&k) {
                Some(v) => {
                    if v.kind() == default.kind() {
                        v.clone()
                    } else {
                        default
                    }
                },
                None => default,
            }
        } else {
            let r = default.clone();
            self.map.insert(k, default);
            r
        }
    }

    /// [`Memory::get_or_create`] with the default already built; the store is
    /// eager, so the two coincide.
    pub fn get_or(&mut self, id: Id, default: StoredValue) -> (r: StoredValue)
        ensures
            ({
                let k = Self::spec_key(id, default.spec_kind());
                if old(self).entries().contains_key(k) {
                    &&& final(self).entries() == old(self).entries()
                    &&& if old(self).entries()[k].spec_kind() == default.spec_kind() {
                        stored_eq(r, old(self).entries()[k])
                    } else {
                        stored_eq(r, default)
                    }
                } else {
                    &&& final(self).entries() == old(self).entries().insert(k, default)
                    &&& stored_eq(r, default)
                }
            }),
    {
        self.get_or_create(id, default)
    }

    /// Look up the value stored for `id` under shape `kind`; `Some` exactly
    /// when that slot holds a value of that shape.
    pub fn get(&mut self, id: Id, kind: StoredKind) -> (r: Option<StoredValue>)
        ensures
            ({
                let k = Self::spec_key(id, kind);
                if old(self).entries().contains_key(k) && old(self).entries()[k].spec_kind()
                    == kind {
                    match r {
                        Some(v) => stored_eq(v, old(self).entries()[k]),
                        None => false,
                    }
                } else {
                    r is None
                }
            }),
            final(self).entries() == old(self).entries(),
    {
        let k = hash(TypeId::of(kind), id);
        match self.map.get(&k) {
            Some(v) => {
                if v.kind() == kind {
                    Some(v.clone())
                } else {
                    None
                }
            },
            None => None,
        }
    }

    /// Store `val` for `id` under `val`'s shape, overwriting whatever the
    /// slot held.
    pub fn insert(&mut self, id: Id, val: StoredValue)
        ensures
            final(self).entries() == old(self).entries().insert(
                Self::spec_key(id, val.spec_kind()),
                val,
            ),
    {
        let k = hash(TypeId::of(val.kind()), id);
        self.map.insert(k, val);
    }
}

} // verus!
