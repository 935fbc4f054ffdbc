use lua_marshalling::{
    c_typename, from_raw_c_mut_function_argument, from_raw_function, from_raw_gc,
    immediate_type_to_array, into_raw_c_function_argument, into_raw_function, into_raw_to_array,
    into_raw_to_pointer, metatype, ptr_type_to_pointer, typedeclaration, typename,
    from_raw_conversion, into_raw_conversion, MarshalError, Primitive, Type,
};

#[test]
fn canonical_names() {
    assert_eq!(typename(&Type::Primitive(Primitive::I32)), "i32");
    assert_eq!(typename(&Type::Optional(Box::new(Type::Primitive(Primitive::I32)))), "Option_i32");
    assert_eq!(typename(&Type::OwnedSequence(Box::new(Type::Primitive(Primitive::U8)))), "Vec_u8");
    assert_eq!(
        typename(&Type::OwnedSequence(Box::new(Type::OwnedSequence(Box::new(Type::Primitive(
            Primitive::U8
        )))))),
        "Vec_Vec_u8"
    );
    assert_eq!(typename(&Type::BorrowedView(Primitive::U8)), "Slice_u8");
    assert_eq!(typename(&Type::TextBuffer), "__string_ptr");
    assert_eq!(typename(&Type::TextView), "_str_ptr__");
}

#[test]
fn c_names() {
    assert_eq!(c_typename(&Type::Primitive(Primitive::I32)), "int32_t");
    assert_eq!(c_typename(&Type::Primitive(Primitive::F64)), "double");
    assert_eq!(c_typename(&Type::TextBuffer), "char *");
    assert_eq!(c_typename(&Type::TextView), "char *");
    assert_eq!(c_typename(&Type::Optional(Box::new(Type::Primitive(Primitive::U8)))), "Option_u8");
}

#[test]
fn structural_names_collapse() {
    let first = Type::OwnedSequence(Box::new(Type::Primitive(Primitive::U8)));
    let second = Type::OwnedSequence(Box::new(Type::Primitive(Primitive::U8)));
    assert_eq!(typename(&first), typename(&second));
}

#[test]
fn optional_layout_declaration() {
    let t = Type::Optional(Box::new(Type::Primitive(Primitive::F32)));
    assert_eq!(
        typedeclaration(&t),
        "typedef struct {\n    const float *ptr;\n} Option_f32;"
    );
}

#[test]
fn owned_sequence_layout_declaration() {
    let t = Type::OwnedSequence(Box::new(Type::Primitive(Primitive::U8)));
    assert_eq!(
        typedeclaration(&t),
        "typedef struct {\n    const uint8_t *ptr;\n    uint64_t len;\n    uint64_t capacity;\n} Vec_u8;"
    );
}

#[test]
fn borrowed_view_layout_declaration() {
    let t = Type::BorrowedView(Primitive::I16);
    assert_eq!(
        typedeclaration(&t),
        "typedef struct {\n    const int16_t *ptr;\n    uint64_t len;\n} Slice_i16;"
    );
}

#[test]
fn registration_statements() {
    let t = Type::OwnedSequence(Box::new(Type::Primitive(Primitive::U8)));
    assert_eq!(metatype(&t), "local Vec_u8 = ffi.metatype(\"Vec_u8\", {})");
    assert_eq!(metatype(&Type::Primitive(Primitive::I32)), "");
    assert_eq!(metatype(&Type::TextBuffer), "");
}

#[test]
fn primitive_round_trip_is_identity() {
    let t = Type::Primitive(Primitive::I32);
    assert_eq!(typedeclaration(&t), "");
    assert_eq!(from_raw_function(&t).unwrap(), "function(value) return value end");
    assert_eq!(from_raw_gc(&t).unwrap(), false);
    assert_eq!(into_raw_function(&t).unwrap(), "function(value) return value end");
}

#[test]
fn owned_sequence_from_raw_conversion() {
    let t = Type::OwnedSequence(Box::new(Type::Primitive(Primitive::U8)));
    assert_eq!(
        from_raw_function(&t).unwrap(),
        "function(value)\n    local ret = {}\n    local len = tonumber(value.len)\n    for i = 1,len do\n        ret[i] = invoke(value.ptr[i - 1], function(value) return value end)\n    end\n    return ret\nend"
    );
    assert_eq!(from_raw_gc(&t).unwrap(), true);
}

#[test]
fn optional_of_primitive_from_raw_conversion() {
    let t = Type::Optional(Box::new(Type::Primitive(Primitive::F32)));
    assert_eq!(
        from_raw_function(&t).unwrap(),
        "function(value)\n    return value.ptr ~= nil and invoke(value.ptr[0], function(value) return value end) or nil\nend"
    );
    assert_eq!(from_raw_gc(&t).unwrap(), true);
}

#[test]
fn text_buffer_conversions() {
    assert_eq!(from_raw_function(&Type::TextBuffer).unwrap(), "ffi.string");
    assert_eq!(from_raw_gc(&Type::TextBuffer).unwrap(), true);
    assert_eq!(
        into_raw_function(&Type::TextBuffer).unwrap(),
        "function(value) return value end"
    );
}

#[test]
fn borrowed_types_lack_from_raw() {
    assert!(matches!(
        from_raw_function(&Type::BorrowedView(Primitive::U16)),
        Err(MarshalError::MissingCapability)
    ));
    assert!(matches!(from_raw_function(&Type::TextView), Err(MarshalError::MissingCapability)));
    assert!(matches!(from_raw_gc(&Type::TextView), Err(MarshalError::MissingCapability)));
    assert!(matches!(
        from_raw_c_mut_function_argument(&Type::BorrowedView(Primitive::U8)),
        Err(MarshalError::MissingCapability)
    ));
    assert!(matches!(
        from_raw_function(&Type::OwnedSequence(Box::new(Type::TextView))),
        Err(MarshalError::MissingCapability)
    ));
}

#[test]
fn disallowed_nesting_is_rejected() {
    let seq_of_optional = Type::OwnedSequence(Box::new(Type::Optional(Box::new(Type::Primitive(
        Primitive::U8,
    )))));
    assert!(matches!(
        into_raw_to_array(&seq_of_optional),
        Err(MarshalError::UnsupportedNesting)
    ));
    assert!(matches!(into_raw_function(&seq_of_optional), Err(MarshalError::UnsupportedNesting)));
    assert!(matches!(
        into_raw_to_array(&Type::Optional(Box::new(Type::Primitive(Primitive::U8)))),
        Err(MarshalError::UnsupportedNesting)
    ));
}

#[test]
fn mutable_argument_forms() {
    assert_eq!(
        from_raw_c_mut_function_argument(&Type::Optional(Box::new(Type::Primitive(Primitive::U8))))
            .unwrap(),
        "Option_u8*"
    );
    assert_eq!(from_raw_c_mut_function_argument(&Type::Primitive(Primitive::U8)).unwrap(), "uint8_t");
    assert_eq!(from_raw_c_mut_function_argument(&Type::TextBuffer).unwrap(), "char *");
}

#[test]
fn input_argument_forms() {
    assert_eq!(into_raw_c_function_argument(&Type::Primitive(Primitive::I64)), "int64_t");
    assert_eq!(into_raw_c_function_argument(&Type::TextBuffer), "const char *");
    assert_eq!(into_raw_c_function_argument(&Type::TextView), "const char *");
    assert_eq!(
        into_raw_c_function_argument(&Type::OwnedSequence(Box::new(Type::Primitive(
            Primitive::U8
        )))),
        "const Vec_u8*"
    );
    assert_eq!(into_raw_c_function_argument(&Type::BorrowedView(Primitive::I8)), "const Slice_i8*");
}

#[test]
fn primitive_pointer_and_array_builders() {
    assert_eq!(
        into_raw_to_pointer(&Type::Primitive(Primitive::I32)).unwrap(),
        "function(value)\n    return ffi.new(\"const int32_t[1]\", { value })\nend"
    );
    assert_eq!(
        into_raw_to_array(&Type::Primitive(Primitive::U16)).unwrap(),
        "function(value)\n    return ffi.new(\"const uint16_t[?]\", #value, value)\nend"
    );
}

#[test]
fn byte_view_accepts_lua_strings() {
    assert_eq!(
        into_raw_function(&Type::BorrowedView(Primitive::U8)).unwrap(),
        "function(value)\n    if type(value) == \"string\" then\n        return Slice_u8(value, #value)\n    else\n        local result = {}\n        for i, value in pairs(value) do\n            result[i] = value\n        end\n        return Slice_u8(ffi.new(\"uint8_t[?]\", #result, result), #result)\n    end\nend"
    );
}

#[test]
fn non_byte_view_copies_elementwise() {
    assert_eq!(
        into_raw_function(&Type::BorrowedView(Primitive::I16)).unwrap(),
        "function(value)\n    local result = {}\n    for i, value in pairs(value) do\n        result[i] = value\n    end\n    return Slice_i16(ffi.new(\"int16_t[?]\", #result, result), #result)\nend"
    );
}

#[test]
fn optional_into_raw_nests_element_pointer() {
    let t = Type::Optional(Box::new(Type::Primitive(Primitive::I32)));
    assert_eq!(
        into_raw_function(&t).unwrap(),
        "\nfunction(value)\n    return Option_i32(value ~= nil and invoke(value, function(value)\n    return ffi.new(\"const int32_t[1]\", { value })\nend) or nil)\nend\n"
    );
}

#[test]
fn owned_sequence_into_raw_nests_element_array() {
    let t = Type::OwnedSequence(Box::new(Type::Primitive(Primitive::U8)));
    assert_eq!(
        into_raw_function(&t).unwrap(),
        "\nfunction(value)\n    return Vec_u8(invoke(value, function(value)\n    return ffi.new(\"const uint8_t[?]\", #value, value)\nend), #value, 0)\nend\n"
    );
}

#[test]
fn pointer_helper_is_conversion_function() {
    let t = Type::Primitive(Primitive::I8);
    assert_eq!(ptr_type_to_pointer(&t).unwrap(), into_raw_function(&t).unwrap());
}

#[test]
fn immediate_array_helper_wraps_conversion() {
    let t = Type::Primitive(Primitive::U8);
    assert_eq!(
        immediate_type_to_array(&t).unwrap(),
        "function(value)\n    local result = {}\n    for i, value in pairs(value) do\n        local tmp = invoke(value, function(value) return value end)\n        result[i] = tmp\n    end\n    return ffi.new(\"const u8[?]\", #result, result)\nend"
    );
}

#[test]
fn text_generation_is_deterministic() {
    let t = Type::OwnedSequence(Box::new(Type::Optional(Box::new(Type::TextBuffer))));
    assert_eq!(typedeclaration(&t), typedeclaration(&t));
    assert_eq!(metatype(&t), metatype(&t));
    assert_eq!(from_raw_function(&t).unwrap(), from_raw_function(&t).unwrap());
    let o = Type::Optional(Box::new(Type::Primitive(Primitive::U64)));
    assert_eq!(into_raw_function(&o).unwrap(), into_raw_function(&o).unwrap());
}

#[test]
fn from_raw_descriptor_bundles_direction() {
    let t = Type::OwnedSequence(Box::new(Type::Primitive(Primitive::U8)));
    let c = from_raw_conversion(&t).unwrap();
    assert_eq!(c.function, from_raw_function(&t).unwrap());
    assert_eq!(c.c_mut_function_argument, "Vec_u8*");
    assert!(c.gc);
    assert!(matches!(
        from_raw_conversion(&Type::TextView),
        Err(MarshalError::MissingCapability)
    ));
}

#[test]
fn into_raw_descriptor_bundles_direction() {
    let t = Type::Primitive(Primitive::I32);
    let c = into_raw_conversion(&t).unwrap();
    assert_eq!(c.function, "function(value) return value end");
    assert_eq!(c.c_function_argument, "int32_t");
    assert_eq!(c.to_pointer, into_raw_to_pointer(&t).unwrap());
    assert_eq!(c.to_array, into_raw_to_array(&t).unwrap());
    let opt = Type::Optional(Box::new(Type::Primitive(Primitive::U8)));
    assert!(matches!(into_raw_conversion(&opt), Err(MarshalError::UnsupportedNesting)));
}

#[test]
fn distinct_shapes_distinct_names() {
    let optional = Type::Optional(Box::new(Type::Primitive(Primitive::U8)));
    let sequence = Type::OwnedSequence(Box::new(Type::Primitive(Primitive::U8)));
    assert_ne!(typename(&optional), typename(&sequence));
    assert_ne!(typename(&Type::TextBuffer), typename(&Type::TextView));
    assert_ne!(
        typename(&Type::Primitive(Primitive::U8)),
        typename(&Type::Primitive(Primitive::I8))
    );
}
