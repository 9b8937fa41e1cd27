use rbcore::{
    builtin_type, fixnum_p, flonum_p, heap_p, immediate_p, ruby_type, static_sym_p, truthy_p,
    value_from_raw, DecodeError, RBasic, RClass, RObject, Transient, Value, QFALSE, QNIL, QTRUE,
    QUNDEF, T,
};

fn header(flags: u64) -> RBasic {
    RBasic {
        flags: Value(flags),
        class: Value(0),
    }
}

// An arbitrary header image; immediates must classify without consulting it.
fn noise() -> RBasic {
    RBasic {
        flags: Value(0xdead_beef),
        class: Value(0xffff_0000),
    }
}

#[test]
fn fixnum_has_first_precedence() {
    assert_eq!(ruby_type(Value(0x1), noise()), Ok(T::Fixnum));
    assert_eq!(ruby_type(Value(0x7), noise()), Ok(T::Fixnum));
    assert_eq!(ruby_type(Value(u64::MAX), noise()), Ok(T::Fixnum));
    // Fixnum payload decoding is reserved: the view fails distinctly.
    assert_eq!(
        value_from_raw(Value(0x1), noise()),
        Err(DecodeError::Unsupported(T::Fixnum))
    );
}

#[test]
fn flonum_classifies_second() {
    assert_eq!(ruby_type(Value(0x6), noise()), Ok(T::Float));
    assert_eq!(
        value_from_raw(Value(0x6), noise()),
        Err(DecodeError::Unsupported(T::Float))
    );
}

#[test]
fn true_constant_decodes() {
    assert_eq!(ruby_type(Value(QTRUE), noise()), Ok(T::True));
    assert_eq!(value_from_raw(Value(QTRUE), noise()), Ok(Transient::True));
}

#[test]
fn undef_constant_classifies() {
    assert_eq!(ruby_type(Value(QUNDEF), noise()), Ok(T::Undef));
    assert_eq!(
        value_from_raw(Value(QUNDEF), noise()),
        Err(DecodeError::Unsupported(T::Undef))
    );
}

#[test]
fn static_symbol_classifies() {
    assert_eq!(ruby_type(Value(0x0c), noise()), Ok(T::Symbol));
    assert_eq!(ruby_type(Value(0x10c), noise()), Ok(T::Symbol));
    assert_eq!(
        value_from_raw(Value(0x10c), noise()),
        Err(DecodeError::Unsupported(T::Symbol))
    );
}

#[test]
fn nil_constant_decodes() {
    assert_eq!(ruby_type(Value(QNIL), noise()), Ok(T::Nil));
    assert_eq!(value_from_raw(Value(QNIL), noise()), Ok(Transient::Nil));
}

#[test]
fn false_constant_decodes() {
    // The false constant classifies directly, like nil; the header image
    // plays no part.
    assert_eq!(ruby_type(Value(QFALSE), noise()), Ok(T::False));
    assert_eq!(value_from_raw(Value(QFALSE), noise()), Ok(Transient::False));
}

#[test]
fn truthy_pointer_shaped_handle_resolves_by_header() {
    // 0x18 is neither immediate nor a falsy constant, so it is heap-shaped
    // and resolves by its header tag.
    assert_eq!(
        value_from_raw(Value(0x18), header(0x03)),
        Ok(Transient::Module(RClass { value: Value(0x18) }))
    );
}

#[test]
fn unmatched_immediate_handle_fails_to_decode() {
    // 0x4 and 0x1c are in the immediate class but match none of the
    // declared immediate patterns; they are provably not pointers, so no
    // header is consulted and decoding fails with the handle bits.
    assert_eq!(
        value_from_raw(Value(0x4), header(0x01)),
        Err(DecodeError::UnknownImmediate(0x4))
    );
    assert_eq!(
        value_from_raw(Value(0x1c), header(0x01)),
        Err(DecodeError::UnknownImmediate(0x1c))
    );
}

#[test]
fn heap_class_and_module_keep_address() {
    assert_eq!(
        value_from_raw(Value(0x8000), header(0x02)),
        Ok(Transient::Class(RClass {
            value: Value(0x8000)
        }))
    );
    assert_eq!(
        value_from_raw(Value(0x8000), header(0x03)),
        Ok(Transient::Module(RClass {
            value: Value(0x8000)
        }))
    );
}

#[test]
fn heap_object_keeps_address() {
    assert_eq!(
        value_from_raw(Value(0x4000), header(0x01)),
        Ok(Transient::Object(RObject {
            value: Value(0x4000)
        }))
    );
}

#[test]
fn heap_tag_masks_high_flag_bits() {
    // Only the low five flag bits carry the tag.
    assert_eq!(
        value_from_raw(Value(0x4000), header(0xfe2)),
        Ok(Transient::Class(RClass {
            value: Value(0x4000)
        }))
    );
}

#[test]
fn heap_immediate_shaped_tags_decode_to_constants() {
    assert_eq!(value_from_raw(Value(0x4000), header(0x11)), Ok(Transient::Nil));
    assert_eq!(value_from_raw(Value(0x4000), header(0x12)), Ok(Transient::True));
    assert_eq!(value_from_raw(Value(0x4000), header(0x13)), Ok(Transient::False));
}

#[test]
fn heap_unsupported_tags_fail_distinctly() {
    assert_eq!(
        value_from_raw(Value(0x4000), header(0x04)),
        Err(DecodeError::Unsupported(T::Float))
    );
    assert_eq!(
        value_from_raw(Value(0x4000), header(0x05)),
        Err(DecodeError::Unsupported(T::String))
    );
    assert_eq!(
        value_from_raw(Value(0x4000), header(0x14)),
        Err(DecodeError::Unsupported(T::Symbol))
    );
    assert_eq!(
        value_from_raw(Value(0x4000), header(0x15)),
        Err(DecodeError::Unsupported(T::Fixnum))
    );
    assert_eq!(
        value_from_raw(Value(0x4000), header(0x16)),
        Err(DecodeError::Unsupported(T::Undef))
    );
}

#[test]
fn undeclared_heap_tags_are_corruption() {
    assert_eq!(
        builtin_type(header(0x00)),
        Err(DecodeError::UnknownTag(0x00))
    );
    assert_eq!(
        builtin_type(header(0x06)),
        Err(DecodeError::UnknownTag(0x06))
    );
    assert_eq!(
        builtin_type(header(0x1f)),
        Err(DecodeError::UnknownTag(0x1f))
    );
    assert_eq!(
        value_from_raw(Value(0x4000), header(0xe0)),
        Err(DecodeError::UnknownTag(0x00))
    );
}

#[test]
fn builtin_type_maps_every_declared_tag() {
    assert_eq!(builtin_type(header(0x01)), Ok(T::Object));
    assert_eq!(builtin_type(header(0x02)), Ok(T::Class));
    assert_eq!(builtin_type(header(0x03)), Ok(T::Module));
    assert_eq!(builtin_type(header(0x04)), Ok(T::Float));
    assert_eq!(builtin_type(header(0x05)), Ok(T::String));
    assert_eq!(builtin_type(header(0x11)), Ok(T::Nil));
    assert_eq!(builtin_type(header(0x12)), Ok(T::True));
    assert_eq!(builtin_type(header(0x13)), Ok(T::False));
    assert_eq!(builtin_type(header(0x14)), Ok(T::Symbol));
    assert_eq!(builtin_type(header(0x15)), Ok(T::Fixnum));
    assert_eq!(builtin_type(header(0x16)), Ok(T::Undef));
}

#[test]
fn predicates_follow_the_masks() {
    assert!(immediate_p(0x1));
    assert!(immediate_p(0x6));
    assert!(!immediate_p(0x8));
    assert!(!immediate_p(0x1000));

    assert!(fixnum_p(0x1));
    assert!(!fixnum_p(0x6));

    assert!(flonum_p(0x6));
    assert!(!flonum_p(0x1));

    assert!(truthy_p(0x1));
    assert!(truthy_p(0x1000));
    assert!(truthy_p(0x18));
    assert!(!truthy_p(QNIL));
    assert!(!truthy_p(QFALSE));

    assert!(static_sym_p(0x0c));
    assert!(static_sym_p(0x10c));
    assert!(!static_sym_p(0x1c));
}

#[test]
fn heap_p_says_when_the_header_matters() {
    assert!(heap_p(0x1000));
    assert!(heap_p(0x18));
    assert!(!heap_p(0x1));
    assert!(!heap_p(0x6));
    assert!(!heap_p(QNIL));
    assert!(!heap_p(QFALSE));
    assert!(!heap_p(QTRUE));
    assert!(!heap_p(QUNDEF));
    assert!(!heap_p(0x0c));
    // An immediate-class handle matching none of the immediate tests is a
    // decode failure, never a header read.
    assert!(!heap_p(0x4));
}
