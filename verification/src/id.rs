//! Stable widget identity: a 64-bit hash derived from caller-supplied
//! content, optionally combined with a type tag so that state slots of
//! different shapes stored under the same logical key stay apart.
//!
//! Equal inputs always hash to an equal [`Id`]; an `Id` is used only for
//! lookup, never for ordering.

use vstd::prelude::*;
use std::collections::hash_map::DefaultHasher;
use std::hash::Hasher;
use vstd::std_specs::hash::DefaultHasherAdditionalSpecFns;
use vstd::string::StringSliceAdditionalSpecFns;

verus! {

/// The little-endian bytes of a 64-bit value, as fed to the hasher.
pub open spec fn u64_le_bytes(v: u64) -> Seq<u8> {
    seq![
        (v & 0xff) as u8,
        ((v >> 8) & 0xff) as u8,
        ((v >> 16) & 0xff) as u8,
        ((v >> 24) & 0xff) as u8,
        ((v >> 32) & 0xff) as u8,
        ((v >> 40) & 0xff) as u8,
        ((v >> 48) & 0xff) as u8,
        ((v >> 56) & 0xff) as u8,
    ]
}

/// The hash of one byte string, as `DefaultHasher` computes it.
pub open spec fn hash_of_bytes(bytes: Seq<u8>) -> u64 {
    DefaultHasher::spec_finish(seq![bytes])
}

/// The hash of a 64-bit value followed by a byte string.
pub open spec fn hash_of_u64_bytes(v: u64, bytes: Seq<u8>) -> u64 {
    DefaultHasher::spec_finish(seq![u64_le_bytes(v), bytes])
}

/// A stable identity for a widget or a state slot.
#[derive(Debug, Clone, Copy, PartialEq, Eq, Structural, Hash)]
pub struct Id(u64);

impl Id {
    pub closed spec fn spec_value(self) -> u64 {
        self.0
    }

    pub fn value(&self) -> (r: u64)
        ensures
            r == self.spec_value(),
    {
        self.0
    }

    /// Hash a string to an identity: equal strings give equal `Id`s.
    pub fn new(source: &str) -> (r: Self)
        ensures
            r.spec_value() == hash_of_bytes(source.spec_bytes()),
    {
        let mut hasher = DefaultHasher::new();
        hasher.write(source.as_bytes());
        Id(hasher.finish())
    }

    /// An identity taken directly from a 64-bit value (used for derived,
    /// sequential identities): equal values give equal `Id`s.
    pub fn from_u64(source: u64) -> (r: Self)
        ensures
            r.spec_value() == source,
    {
        Id(source)
    }

    /// Combine this identity with a string, yielding a new identity that
    /// depends on both: equal (identity, string) pairs give equal `Id`s.
    pub fn with(&self, source: &str) -> (r: Self)
        ensures
            r.spec_value() == hash_of_u64_bytes(self.spec_value(), source.spec_bytes()),
    {
        let mut hasher = DefaultHasher::new();
        let bytes = u64_bytes_vec(self.0);
        hasher.write(bytes.as_slice());
        hasher.write(source.as_bytes());
        proof {
            assert(hasher@ =~= seq![u64_le_bytes(self.0), source.spec_bytes()]);
        }
        Id(hasher.finish())
    }
}

/// The little-endian bytes of `v`, for feeding a hasher.
fn u64_bytes_vec(v: u64) -> (r: Vec<u8>)
    ensures
        r@ == u64_le_bytes(v),
{
    let mut bytes: Vec<u8> = Vec::new();
    bytes.push((v & 0xff) as u8);
    bytes.push(((v >> 8) & 0xff) as u8);
    bytes.push(((v >> 16) & 0xff) as u8);
    bytes.push(((v >> 24) & 0xff) as u8);
    bytes.push(((v >> 32) & 0xff) as u8);
    bytes.push(((v >> 40) & 0xff) as u8);
    bytes.push(((v >> 48) & 0xff) as u8);
    bytes.push(((v >> 56) & 0xff) as u8);
    proof {
        assert(bytes@ =~= u64_le_bytes(v));
    }
    bytes
}

/// Combine a type tag with an identity into a single memory-store key.
pub fn hash(type_id: TypeId, id: Id) -> (r: u64)
    ensures
        r == type_id.spec_value() ^ id.spec_value(),
{
    type_id.value() ^ id.value()
}

/// The shape of a value kept in the memory store; each shape has its own
/// [`TypeId`], so the same logical key can hold one slot per shape.
#[derive(Debug, Clone, Copy, PartialEq, Eq, Structural, Hash)]
pub enum StoredKind {
    Bool,
    I32,
    U64,
    USize,
    Chars,
    Vec2,
}

/// A tag standing for the type of a stored value.
#[derive(Clone, Copy, Debug, Eq, PartialEq, Structural, Hash)]
pub struct TypeId(u64);

impl TypeId {
    pub closed spec fn spec_value(self) -> u64 {
        self.0
    }

    /// Distinct kinds get distinct tags.
    pub open spec fn spec_of(kind: StoredKind) -> u64 {
        match kind {
            StoredKind::Bool => 0x9ae1_6a3b_2f90_404f,
            StoredKind::I32 => 0xbf58_476d_1ce4_e5b9,
            StoredKind::U64 => 0x94d0_49bb_1331_11eb,
            StoredKind::USize => 0x2545_f491_4f6c_dd1d,
            StoredKind::Chars => 0xd6e8_feb8_6659_fd93,
            StoredKind::Vec2 => 0xc2b2_ae3d_27d4_eb4f,
        }
    }

    /// The tag of a stored-value shape.
    pub fn of(kind: StoredKind) -> (r: Self)
        ensures
            r.spec_value() == TypeId::spec_of(kind),
    {
        match kind {
            StoredKind::Bool => TypeId(0x9ae1_6a3b_2f90_404f),
            StoredKind::I32 => TypeId(0xbf58_476d_1ce4_e5b9),
            StoredKind::U64 => TypeId(0x94d0_49bb_1331_11eb),
            StoredKind::USize => TypeId(0x2545_f491_4f6c_dd1d),
            StoredKind::Chars => TypeId(0xd6e8_feb8_6659_fd93),
            StoredKind::Vec2 => TypeId(0xc2b2_ae3d_27d4_eb4f),
        }
    }

    pub fn value(&self) -> (r: u64)
        ensures
            r == self.spec_value(),
    {
        self.0
    }
}

} // verus!
