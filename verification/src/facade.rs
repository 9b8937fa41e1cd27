//! Registration façade logic: the binding-layer error taxonomy, name
//! encoding for the C boundary, and the variant assertions every
//! definition operation makes on the handle the foreign call returned.
//!
//! The foreign definition calls themselves cross a C ABI and stay outside
//! this crate. A caller makes the call, reads the returned handle's header
//! where [`crate::decode::heap_p`] asks for it, and hands both in here;
//! these functions decode the handle and hold it to the variant the
//! operation promises, never coercing a mismatch silently.

use vstd::prelude::*;

verus! {

use crate::decode::{spec_decode, value_from_raw, DecodeError, RBasic, RClass, Transient};
use crate::value::{Value, T};

/// Binding-layer failure taxonomy. All three kinds are logic errors of the
/// binding or its caller, surfaced as results so one bad registration does
/// not bring an embedding host down.
#[derive(Debug, Copy, Clone, PartialEq, Eq, Structural)]
pub enum Error {
    /// The handle's bits map to no declared tag, or to one whose decoding
    /// is deliberately unsupported.
    Decode(DecodeError),
    /// A foreign definition call returned a view of some variant other
    /// than the one the operation promises.
    TypeMismatch { expected: T, found: Transient },
    /// A supplied name holds an interior NUL and cannot cross the C
    /// boundary as a NUL-terminated byte string.
    NameEncoding,
}

/// The name bytes a definition call hands the foreign runtime: the input
/// NUL-terminated, owed exactly when the input is NUL-free.
pub open spec fn spec_prepare_name(name: Seq<u8>) -> Result<Seq<u8>, Error> {
    if exists|i: int| 0 <= i < name.len() && name[i] == 0 {
        Err(Error::NameEncoding)
    } else {
        Ok(name.push(0))
    }
}

/// NUL-terminate a name for the foreign ABI. Succeeds with the input bytes
/// plus a trailing NUL exactly when the input is NUL-free; an interior NUL
/// is a usage error, reported rather than truncated.
pub fn prepare_name(name: &[u8]) -> (r: Result<Vec<u8>, Error>)
    ensures
        (match r {
            Ok(b) => Ok(b@),
            Err(e) => Err(e),
        }) == spec_prepare_name(name@),
{
    let mut out: Vec<u8> = Vec::new();
    let mut i: usize = 0;
    while i < name.len()
        invariant
            0 <= i <= name@.len(),
            out@ == name@.subrange(0, i as int),
            forall|j: int| 0 <= j < i ==> name@[j] != 0,
        decreases name@.len() - i,
    {
        if name[i] == 0 {
            return Err(Error::NameEncoding);
        }
        out.push(name[i]);
        i = i + 1;
    }
    assert(out@ == name@);
    out.push(0);
    Ok(out)
}

/// The result a module-definition operation promises of the handle the
/// foreign call returned: the module view, or the exact failure.
pub open spec fn spec_expect_module(v: u64, header: RBasic) -> Result<RClass, Error> {
    match spec_decode(v, header) {
        Err(e) => Err(Error::Decode(e)),
        Ok(t) => match t {
            Transient::Module(c) => Ok(c),
            other => Err(Error::TypeMismatch { expected: T::Module, found: other }),
        },
    }
}

/// The result a class-definition operation promises of the handle the
/// foreign call returned: the class view, or the exact failure.
pub open spec fn spec_expect_class(v: u64, header: RBasic) -> Result<RClass, Error> {
    match spec_decode(v, header) {
        Err(e) => Err(Error::Decode(e)),
        Ok(t) => match t {
            Transient::Class(c) => Ok(c),
            other => Err(Error::TypeMismatch { expected: T::Class, found: other }),
        },
    }
}

/// Decode the handle a foreign module-definition call returned and hold it
/// to the Module variant. A mismatch is a binding contract violation,
/// reported, never coerced.
pub fn expect_module(value: Value, header: RBasic) -> (r: Result<RClass, Error>)
    ensures
        r == spec_expect_module(value.0, header),
{
    match value_from_raw(value, header) {
        Err(e) => Err(Error::Decode(e)),
        Ok(t) => match t {
            Transient::Module(c) => Ok(c),
            other => Err(Error::TypeMismatch { expected: T::Module, found: other }),
        },
    }
}

/// Decode the handle a foreign class-definition call returned and hold it
/// to the Class variant. A mismatch is a binding contract violation,
/// reported, never coerced.
pub fn expect_class(value: Value, header: RBasic) -> (r: Result<RClass, Error>)
    ensures
        r == spec_expect_class(value.0, header),
{
    match value_from_raw(value, header) {
        Err(e) => Err(Error::Decode(e)),
        Ok(t) => match t {
            Transient::Class(c) => Ok(c),
            other => Err(Error::TypeMismatch { expected: T::Class, found: other }),
        },
    }
}

/// Law: a handle accepted as Module re-decodes, by the view's own address,
/// to Module — never Class or Object — and the view's address is the input
/// handle.
pub proof fn lemma_module_decode_idempotent(v: u64, header: RBasic, c: RClass)
    requires
        spec_expect_module(v, header) == Ok::<RClass, Error>(c),
    ensures
        c.value.0 == v,
        spec_decode(c.value.0, header) == Ok::<Transient, DecodeError>(Transient::Module(c)),
{
}

/// Law: a handle accepted as Class re-decodes, by the view's own address,
/// to Class, and the view's address is the input handle.
pub proof fn lemma_class_decode_idempotent(v: u64, header: RBasic, c: RClass)
    requires
        spec_expect_class(v, header) == Ok::<RClass, Error>(c),
    ensures
        c.value.0 == v,
        spec_decode(c.value.0, header) == Ok::<Transient, DecodeError>(Transient::Class(c)),
{
}

} // verus!
