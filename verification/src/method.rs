//! Closed polymorphism over native callable shapes.
//!
//! The foreign ABI understands a fixed set of calling shapes: three fixed
//! arities taking the receiver and that many argument handles, and one
//! variadic shape taking `(argc, argv, receiver)`. Each shape carries the
//! entry address of its native callable and maps to one arity code, resolved
//! where the registration is written — never by runtime inspection.
//! Supporting a further fixed arity means one more member of the closed set.

use vstd::prelude::*;

verus! {

use crate::value::Id;

/// A native callable of one of the closed set of shapes: it yields the
/// entry address and arity code a registration hands the foreign runtime.
pub trait Method: Sized {
    /// Entry address of the native callable.
    spec fn spec_entry(&self) -> u64;

    /// Arity code of the shape; a property of the shape alone, the same for
    /// every callable and every registration of it.
    spec fn spec_arity() -> i32;

    /// The entry address, as the registration call needs it.
    fn as_ptr(&self) -> (r: u64)
        ensures
            r == self.spec_entry(),
    ;

    /// The arity code of this shape.
    fn arity() -> (r: i32)
        ensures
            r == Self::spec_arity(),
    ;
}

/// Shape `(receiver) -> value`: a method of no arguments, arity code 0.
#[derive(Debug, Copy, Clone, PartialEq, Eq, Structural)]
pub struct Fixed0 {
    pub entry: u64,
}

/// Shape `(receiver, arg) -> value`: one argument, arity code 1.
#[derive(Debug, Copy, Clone, PartialEq, Eq, Structural)]
pub struct Fixed1 {
    pub entry: u64,
}

/// Shape `(receiver, arg, arg) -> value`: two arguments, arity code 2.
#[derive(Debug, Copy, Clone, PartialEq, Eq, Structural)]
pub struct Fixed2 {
    pub entry: u64,
}

/// Shape `(argc, argv, receiver) -> value`: the variadic calling
/// convention, arity code -1.
#[derive(Debug, Copy, Clone, PartialEq, Eq, Structural)]
pub struct Variadic {
    pub entry: u64,
}

impl Method for Fixed0 {
    open spec fn spec_entry(&self) -> u64 {
        self.entry
    }

    open spec fn spec_arity() -> i32 {
        0
    }

    fn as_ptr(&self) -> u64 {
        self.entry
    }

    fn arity() -> i32 {
        0
    }
}

impl Method for Fixed1 {
    open spec fn spec_entry(&self) -> u64 {
        self.entry
    }

    open spec fn spec_arity() -> i32 {
        1
    }

    fn as_ptr(&self) -> u64 {
        self.entry
    }

    fn arity() -> i32 {
        1
    }
}

impl Method for Fixed2 {
    open spec fn spec_entry(&self) -> u64 {
        self.entry
    }

    open spec fn spec_arity() -> i32 {
        2
    }

    fn as_ptr(&self) -> u64 {
        self.entry
    }

    fn arity() -> i32 {
        2
    }
}

impl Method for Variadic {
    open spec fn spec_entry(&self) -> u64 {
        self.entry
    }

    open spec fn spec_arity() -> i32 {
        -1i32
    }

    fn as_ptr(&self) -> u64 {
        self.entry
    }

    fn arity() -> i32 {
        -1
    }
}

/// What one registration hands the foreign runtime: the interned name, the
/// callable's entry address, and its arity code. Descriptors are created at
/// registration time and never revoked.
#[derive(Debug, Copy, Clone, PartialEq, Eq, Structural)]
pub struct MethodDescriptor {
    pub name: Id,
    pub entry: u64,
    pub arity: i32,
}

/// The descriptor a registration of `method` under `name` produces.
pub open spec fn spec_descriptor<M: Method>(name: Id, method: &M) -> MethodDescriptor {
    MethodDescriptor { name, entry: method.spec_entry(), arity: M::spec_arity() }
}

/// Derive the uniform (address, arity) registration pair from a callable of
/// any shape in the closed set.
pub fn method_descriptor<M: Method>(name: Id, method: &M) -> (d: MethodDescriptor)
    ensures
        d == spec_descriptor(name, method),
{
    MethodDescriptor { name, entry: method.as_ptr(), arity: M::arity() }
}

/// Law: the closed arity mapping — the fixed shapes register under codes
/// 0, 1 and 2, the variadic shape under -1.
pub proof fn lemma_arity_mapping()
    ensures
        Fixed0::spec_arity() == 0,
        Fixed1::spec_arity() == 1,
        Fixed2::spec_arity() == 2,
        Variadic::spec_arity() == -1,
{
}

/// Law: the arity mapping is stable — any two registrations of callables of
/// one shape, under any names, carry equal arity codes.
pub proof fn lemma_arity_stable<M: Method>(n1: Id, m1: &M, n2: Id, m2: &M)
    ensures
        spec_descriptor(n1, m1).arity == spec_descriptor(n2, m2).arity,
{
}

} // verus!
