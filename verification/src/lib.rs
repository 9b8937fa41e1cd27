//! Typed binding core for a foreign dynamic-language runtime.
//!
//! A native handle is one machine word that either embeds its payload
//! (immediate encoding) or points at a tagged heap object. This crate
//! classifies such handles bit-exactly, turns them into safe discriminated
//! views, and prepares method registrations (name bytes, entry address,
//! arity code) for the foreign ABI. The foreign calls themselves cross a C
//! boundary and live outside this crate; everything here is pure.

mod decode;
mod facade;
mod method;
mod value;

pub use decode::{
    builtin_type, classify, fixnum_p, flonum_p, heap_p, immediate_p, lemma_falsy_constants,
    lemma_fixnum_first, lemma_header_free_classification, lemma_heap_class_module,
    lemma_true_undef, lemma_undeclared_immediate, ruby_type, spec_classify, spec_decode,
    spec_fixnum_p, spec_flonum_p, spec_heap_tag, spec_immediate_p, spec_ruby_type,
    spec_static_sym_p, spec_truthy_p, static_sym_p, truthy_p, value_from_raw, Classified,
    DecodeError, RBasic, RClass, RObject, Transient, FLONUM_FLAG, FLONUM_MASK, SPECIAL_MASK,
    SYMBOL_FLAG, T_MASK,
};
pub use facade::{
    expect_class, expect_module, lemma_class_decode_idempotent, lemma_module_decode_idempotent,
    prepare_name, spec_expect_class, spec_expect_module, spec_prepare_name, Error,
};
pub use method::{
    lemma_arity_mapping, lemma_arity_stable, method_descriptor, spec_descriptor, Fixed0, Fixed1,
    Fixed2, Method, MethodDescriptor, Variadic,
};
pub use value::{Id, Value, T, QNIL, QTRUE, QFALSE, QUNDEF};
