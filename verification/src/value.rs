//! Handles, identifiers, and the canonical type-tag enumeration.

use vstd::prelude::*;

verus! {

/// Interned identifier for a name. Identifiers live in a namespace of their
/// own, distinct from value handles; the foreign runtime produces one per
/// unique name.
#[derive(Debug, Copy, Clone, PartialEq, Eq, Structural)]
pub struct Id(pub u64);

/// Opaque machine-word handle denoting a foreign runtime value, either
/// immediate (payload in the bits) or a pointer to a tagged heap object.
/// This layer only reads and reinterprets handles; it never allocates,
/// frees, or mutates what they denote.
#[derive(Debug, Copy, Clone, PartialEq, Eq, Structural)]
pub struct Value(pub u64);

/// The immediate constant standing for nil.
pub const QNIL: u64 = 0x08;
/// The immediate constant standing for true.
pub const QTRUE: u64 = 0x14;
/// The immediate constant standing for false.
pub const QFALSE: u64 = 0x00;
/// The immediate constant standing for the undefined placeholder.
pub const QUNDEF: u64 = 0x34;

/// Canonical runtime type tag of a handle, as the decoder reports it.
#[derive(Debug, Copy, Clone, PartialEq, Eq, Structural)]
pub enum T {
    Object,
    Class,
    Module,
    Float,
    String,
    Nil,
    True,
    False,
    Symbol,
    Fixnum,
    Undef,
}

} // verus!
