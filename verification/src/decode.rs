//! Bit-level classification of handles and the safe views decoded from them.
//!
//! A handle is classified in three stages, in a precedence that must be kept
//! bit-exact:
//! 1. handles in the immediate class (`handle & 0x7 != 0`): fixnum, then
//!    flonum, then the true constant, then static symbol, then the undefined
//!    placeholder; an immediate matching none of these is a decode failure,
//!    since it is provably not a pointer;
//! 2. the two falsy constants — nil and false — classify directly;
//! 3. everything else is a heap object and resolves by reading its header
//!    and masking the low five bits of the flags word.
//!
//! Only stage 3 involves foreign memory, and then exactly one read of the
//! flags word. That read happens outside this crate; the functions here
//! take the header image as an argument, consult it only in stage 3, and
//! are total over it.

use vstd::prelude::*;

verus! {

use crate::value::{Value, T, QNIL, QTRUE, QFALSE, QUNDEF};

/// Low five bits of a header's flags word: the canonical type tag.
pub const T_MASK: u64 = 0x1f;
/// Mask selecting the flonum discriminant bits of an immediate handle.
pub const FLONUM_MASK: u64 = 0x03;
/// Discriminant of an immediate flonum under `FLONUM_MASK`.
pub const FLONUM_FLAG: u64 = 0x02;
/// Mask selecting the low byte that discriminates static symbols.
pub const SPECIAL_MASK: u64 = 0xff;
/// Discriminant of a static symbol under `SPECIAL_MASK`.
pub const SYMBOL_FLAG: u64 = 0x0c;

/// Image of the fixed-layout prefix of every heap object: the flags word
/// (whose low five bits are the type tag) and the owning-class
/// back-reference. The foreign runtime owns the storage; callers read the
/// flags word and hand the image in. Decoding never consults the class
/// word.
#[derive(Debug, Copy, Clone, PartialEq, Eq, Structural)]
pub struct RBasic {
    pub flags: Value,
    pub class: Value,
}

/// Non-owning view of a heap object of unspecified shape; carries the
/// handle it was decoded from.
#[derive(Debug, Copy, Clone, PartialEq, Eq, Structural)]
pub struct RObject {
    pub value: Value,
}

/// Non-owning view of a class or module object; carries the handle it was
/// decoded from.
#[derive(Debug, Copy, Clone, PartialEq, Eq, Structural)]
pub struct RClass {
    pub value: Value,
}

/// Decoded, shape-tagged view of a handle. Heap-backed variants borrow
/// foreign memory by address only; the symbol and fixnum payload variants
/// are reserved and not yet produced by the decoder.
#[derive(Debug, Copy, Clone, PartialEq, Eq, Structural)]
pub enum Transient {
    Object(RObject),
    Class(RClass),
    Module(RClass),
    Nil,
    True,
    False,
    Symbol(i64),
    Fixnum(i64),
}

/// Why a handle failed to decode: its bits map to no declared pattern
/// (corruption), or they name a declared variant whose decoding is
/// deliberately unsupported.
#[derive(Debug, Copy, Clone, PartialEq, Eq, Structural)]
pub enum DecodeError {
    /// The masked flag bits of a heap header map to no declared tag.
    UnknownTag(u64),
    /// The handle is in the immediate class but matches no declared
    /// immediate pattern; it is provably not a pointer, so no header
    /// could resolve it. Carries the handle bits.
    UnknownImmediate(u64),
    /// The tag is declared but its payload decoding is not implemented.
    Unsupported(T),
}

/// What the header-free stages of classification settle.
#[derive(Debug, Copy, Clone, PartialEq, Eq, Structural)]
pub enum Classified {
    /// The handle bits alone decide the tag; no foreign memory takes part.
    Tag(T),
    /// The handle is in the immediate class but matches no declared
    /// pattern: a decode failure, never a dereference.
    Undeclared,
    /// The handle is heap-shaped; its tag is in its header.
    Heap,
}

/// The handle is in the immediate class: some payload bit in the low three.
pub open spec fn spec_immediate_p(v: u64) -> bool {
    v & 0x7 != 0
}

/// The handle is an immediate fixnum: lowest bit set.
pub open spec fn spec_fixnum_p(v: u64) -> bool {
    v & 0x1 == 0x1
}

/// The handle is an immediate flonum.
pub open spec fn spec_flonum_p(v: u64) -> bool {
    v & FLONUM_MASK == FLONUM_FLAG
}

/// The truthy test: a handle is truthy unless masking off the nil bit
/// leaves nothing. Exactly the nil and false constants fail it.
pub open spec fn spec_truthy_p(v: u64) -> bool {
    v & !QNIL != 0
}

/// The handle is an immediate static symbol.
pub open spec fn spec_static_sym_p(v: u64) -> bool {
    v & SPECIAL_MASK == SYMBOL_FLAG
}

/// The header-free stages: the immediate chain first, in its exact
/// precedence, then the two falsy constants. Everything else is
/// heap-shaped and resolves by header.
pub open spec fn spec_classify(v: u64) -> Classified {
    if spec_immediate_p(v) {
        if spec_fixnum_p(v) {
            Classified::Tag(T::Fixnum)
        } else if spec_flonum_p(v) {
            Classified::Tag(T::Float)
        } else if v == QTRUE {
            Classified::Tag(T::True)
        } else if spec_static_sym_p(v) {
            Classified::Tag(T::Symbol)
        } else if v == QUNDEF {
            Classified::Tag(T::Undef)
        } else {
            Classified::Undeclared
        }
    } else if !spec_truthy_p(v) {
        if v == QNIL {
            Classified::Tag(T::Nil)
        } else if v == QFALSE {
            Classified::Tag(T::False)
        } else {
            Classified::Heap
        }
    } else {
        Classified::Heap
    }
}

/// Tag drawn from a header's flags word, `None` for bits outside the
/// declared enumeration.
pub open spec fn spec_heap_tag(flags: u64) -> Option<T> {
    let tag = flags & T_MASK;
    if tag == 0x01 {
        Some(T::Object)
    } else if tag == 0x02 {
        Some(T::Class)
    } else if tag == 0x03 {
        Some(T::Module)
    } else if tag == 0x04 {
        Some(T::Float)
    } else if tag == 0x05 {
        Some(T::String)
    } else if tag == 0x11 {
        Some(T::Nil)
    } else if tag == 0x12 {
        Some(T::True)
    } else if tag == 0x13 {
        Some(T::False)
    } else if tag == 0x14 {
        Some(T::Symbol)
    } else if tag == 0x15 {
        Some(T::Fixnum)
    } else if tag == 0x16 {
        Some(T::Undef)
    } else {
        None
    }
}

/// Full classification of a handle, given the image of its header: the
/// header-free stages decide where they can, the header tag decides the
/// heap-shaped rest, and an undeclared immediate fails without any header
/// taking part.
pub open spec fn spec_ruby_type(v: u64, header: RBasic) -> Result<T, DecodeError> {
    match spec_classify(v) {
        Classified::Tag(t) => Ok(t),
        Classified::Undeclared => Err(DecodeError::UnknownImmediate(v)),
        Classified::Heap => match spec_heap_tag(header.flags.0) {
            Some(t) => Ok(t),
            None => Err(DecodeError::UnknownTag(header.flags.0 & T_MASK)),
        },
    }
}

/// View decoded from a handle: heap-backed tags keep the handle as the
/// view's address; the declared-but-unimplemented tags fail distinctly
/// from corruption.
pub open spec fn spec_decode(v: u64, header: RBasic) -> Result<Transient, DecodeError> {
    match spec_ruby_type(v, header) {
        Err(e) => Err(e),
        Ok(t) => match t {
            T::Object => Ok(Transient::Object(RObject { value: Value(v) })),
            T::Class => Ok(Transient::Class(RClass { value: Value(v) })),
            T::Module => Ok(Transient::Module(RClass { value: Value(v) })),
            T::Nil => Ok(Transient::Nil),
            T::True => Ok(Transient::True),
            T::False => Ok(Transient::False),
            T::Float => Err(DecodeError::Unsupported(T::Float)),
            T::String => Err(DecodeError::Unsupported(T::String)),
            T::Symbol => Err(DecodeError::Unsupported(T::Symbol)),
            T::Fixnum => Err(DecodeError::Unsupported(T::Fixnum)),
            T::Undef => Err(DecodeError::Unsupported(T::Undef)),
        },
    }
}

/// The handle carries some immediate payload bit.
pub fn immediate_p(value: u64) -> (r: bool)
    ensures
        r == spec_immediate_p(value),
{
    value & 0x7 != 0
}

/// The handle is an immediate fixnum.
pub fn fixnum_p(value: u64) -> (r: bool)
    ensures
        r == spec_fixnum_p(value),
{
    value & 0x1 == 0x1
}

/// The handle is an immediate flonum.
pub fn flonum_p(value: u64) -> (r: bool)
    ensures
        r == spec_flonum_p(value),
{
    value & FLONUM_MASK == FLONUM_FLAG
}

/// The truthy test: exactly the nil and false constants fail it.
pub fn truthy_p(value: u64) -> (r: bool)
    ensures
        r == spec_truthy_p(value),
{
    value & !QNIL != 0
}

/// The handle is an immediate static symbol.
pub fn static_sym_p(value: u64) -> (r: bool)
    ensures
        r == spec_static_sym_p(value),
{
    value & SPECIAL_MASK == SYMBOL_FLAG
}

/// Run the header-free stages of classification.
pub fn classify(value: u64) -> (c: Classified)
    ensures
        c == spec_classify(value),
{
    if immediate_p(value) {
        if fixnum_p(value) {
            Classified::Tag(T::Fixnum)
        } else if flonum_p(value) {
            Classified::Tag(T::Float)
        } else if value == QTRUE {
            Classified::Tag(T::True)
        } else if static_sym_p(value) {
            Classified::Tag(T::Symbol)
        } else if value == QUNDEF {
            Classified::Tag(T::Undef)
        } else {
            Classified::Undeclared
        }
    } else if !truthy_p(value) {
        if value == QNIL {
            Classified::Tag(T::Nil)
        } else if value == QFALSE {
            Classified::Tag(T::False)
        } else {
            Classified::Heap
        }
    } else {
        Classified::Heap
    }
}

/// Whether classifying this handle requires reading its heap header.
/// Callers consult this before touching foreign memory; it never holds of
/// an immediate handle or of the nil and false constants.
pub fn heap_p(value: u64) -> (r: bool)
    ensures
        r == (spec_classify(value) is Heap),
{
    match classify(value) {
        Classified::Heap => true,
        _ => false,
    }
}

/// Tag of a heap object, from the image of its header: the low five flag
/// bits, held to the declared enumeration.
pub fn builtin_type(header: RBasic) -> (r: Result<T, DecodeError>)
    ensures
        match spec_heap_tag(header.flags.0) {
            Some(t) => r == Ok::<T, DecodeError>(t),
            None => r == Err::<T, DecodeError>(DecodeError::UnknownTag(header.flags.0 & T_MASK)),
        },
{
    let tag = header.flags.0 & T_MASK;
    if tag == 0x01 {
        Ok(T::Object)
    } else if tag == 0x02 {
        Ok(T::Class)
    } else if tag == 0x03 {
        Ok(T::Module)
    } else if tag == 0x04 {
        Ok(T::Float)
    } else if tag == 0x05 {
        Ok(T::String)
    } else if tag == 0x11 {
        Ok(T::Nil)
    } else if tag == 0x12 {
        Ok(T::True)
    } else if tag == 0x13 {
        Ok(T::False)
    } else if tag == 0x14 {
        Ok(T::Symbol)
    } else if tag == 0x15 {
        Ok(T::Fixnum)
    } else if tag == 0x16 {
        Ok(T::Undef)
    } else {
        Err(DecodeError::UnknownTag(tag))
    }
}

/// Classify a handle into its canonical type tag. `header` is the image of
/// the handle's heap header and decides the result exactly when
/// [`heap_p`] holds of the handle; an undeclared immediate is a decode
/// failure, never a header read.
pub fn ruby_type(value: Value, header: RBasic) -> (r: Result<T, DecodeError>)
    ensures
        r == spec_ruby_type(value.0, header),
{
    match classify(value.0) {
        Classified::Tag(t) => Ok(t),
        Classified::Undeclared => Err(DecodeError::UnknownImmediate(value.0)),
        Classified::Heap => builtin_type(header),
    }
}

/// Decode a handle into its safe view. Heap-backed views carry the input
/// handle as their address; tags whose payload decoding is unsupported,
/// undeclared immediates, and undeclared tag bits fail with distinct
/// errors.
pub fn value_from_raw(value: Value, header: RBasic) -> (r: Result<Transient, DecodeError>)
    ensures
        r == spec_decode(value.0, header),
{
    match ruby_type(value, header) {
        Err(e) => Err(e),
        Ok(t) => match t {
            T::Object => Ok(Transient::Object(RObject { value })),
            T::Class => Ok(Transient::Class(RClass { value })),
            T::Module => Ok(Transient::Module(RClass { value })),
            T::Nil => Ok(Transient::Nil),
            T::True => Ok(Transient::True),
            T::False => Ok(Transient::False),
            T::Float => Err(DecodeError::Unsupported(T::Float)),
            T::String => Err(DecodeError::Unsupported(T::String)),
            T::Symbol => Err(DecodeError::Unsupported(T::Symbol)),
            T::Fixnum => Err(DecodeError::Unsupported(T::Fixnum)),
            T::Undef => Err(DecodeError::Unsupported(T::Undef)),
        },
    }
}

/// Law: a handle with the lowest bit set is an immediate fixnum, whatever
/// its header image reads — the fixnum test has first precedence.
pub proof fn lemma_fixnum_first(v: u64, header: RBasic)
    requires
        v & 0x1 == 0x1,
    ensures
        spec_ruby_type(v, header) == Ok::<T, DecodeError>(T::Fixnum),
{
    assert(v & 0x1 == 0x1 ==> v & 0x7 != 0) by (bit_vector);
}

/// Law: the nil and false constants decode to the nil and false views,
/// whatever the header image reads, and they are exactly the handles that
/// fail the truthy test; no other handle is falsy, and neither constant
/// involves a heap read.
pub proof fn lemma_falsy_constants(v: u64, header: RBasic)
    ensures
        spec_decode(QNIL, header) == Ok::<Transient, DecodeError>(Transient::Nil),
        spec_decode(QFALSE, header) == Ok::<Transient, DecodeError>(Transient::False),
        spec_classify(QNIL) == Classified::Tag(T::Nil),
        spec_classify(QFALSE) == Classified::Tag(T::False),
        !spec_truthy_p(v) <==> (v == QNIL || v == QFALSE),
{
    assert(QNIL & 0x7 == 0 && QNIL & !QNIL == 0) by (bit_vector);
    assert(QFALSE & 0x7 == 0 && QFALSE & !QNIL == 0) by (bit_vector);
    assert((v & !QNIL == 0) <==> (v == QNIL || v == QFALSE)) by (bit_vector);
}

/// Law: the true and undefined constants classify as True and Undef,
/// whatever the header image reads; the true constant further decodes to
/// the true view, while the undefined placeholder's payload decoding is
/// unsupported.
pub proof fn lemma_true_undef(header: RBasic)
    ensures
        spec_ruby_type(QTRUE, header) == Ok::<T, DecodeError>(T::True),
        spec_decode(QTRUE, header) == Ok::<Transient, DecodeError>(Transient::True),
        spec_ruby_type(QUNDEF, header) == Ok::<T, DecodeError>(T::Undef),
        spec_decode(QUNDEF, header) == Err::<Transient, DecodeError>(
            DecodeError::Unsupported(T::Undef),
        ),
{
    assert(QTRUE & 0x7 != 0 && QTRUE & 0x1 != 0x1 && QTRUE & FLONUM_MASK != FLONUM_FLAG)
        by (bit_vector);
    assert(QUNDEF & 0x7 != 0 && QUNDEF & 0x1 != 0x1 && QUNDEF & FLONUM_MASK != FLONUM_FLAG
        && QUNDEF & SPECIAL_MASK != SYMBOL_FLAG) by (bit_vector);
}

/// Law: an immediate handle matching no declared immediate pattern is a
/// decode failure carrying the handle bits — it is provably not a pointer,
/// and no header image changes the outcome.
pub proof fn lemma_undeclared_immediate(v: u64, header: RBasic)
    requires
        spec_immediate_p(v),
        !spec_fixnum_p(v),
        !spec_flonum_p(v),
        v != QTRUE,
        !spec_static_sym_p(v),
        v != QUNDEF,
    ensures
        spec_ruby_type(v, header) == Err::<T, DecodeError>(DecodeError::UnknownImmediate(v)),
        spec_decode(v, header) == Err::<Transient, DecodeError>(DecodeError::UnknownImmediate(v)),
{
}

/// Law: wherever the header-free stages settle a handle — a declared
/// immediate, the nil or false constant, or an undeclared immediate — its
/// decoding is a function of the handle bits alone: no header image
/// changes it.
pub proof fn lemma_header_free_classification(v: u64, h1: RBasic, h2: RBasic)
    requires
        !(spec_classify(v) is Heap),
    ensures
        spec_ruby_type(v, h1) == spec_ruby_type(v, h2),
        spec_decode(v, h1) == spec_decode(v, h2),
{
}

/// Law: a handle that resolves by header decodes, under flag bits 0x02 or
/// 0x03, to a class or module view whose underlying address is exactly the
/// input handle.
pub proof fn lemma_heap_class_module(v: u64, header: RBasic)
    requires
        spec_classify(v) is Heap,
    ensures
        header.flags.0 & T_MASK == 0x02 ==> spec_decode(v, header) == Ok::<
            Transient,
            DecodeError,
        >(Transient::Class(RClass { value: Value(v) })),
        header.flags.0 & T_MASK == 0x03 ==> spec_decode(v, header) == Ok::<
            Transient,
            DecodeError,
        >(Transient::Module(RClass { value: Value(v) })),
{
}

} // verus!
