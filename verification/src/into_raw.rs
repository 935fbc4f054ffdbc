//! The script-to-raw conversion capability.
//!
//! For every type this direction yields the Lua source of the conversion
//! function and the C argument form used when the type is passed as an
//! input.  For use inside containers it additionally yields two helper
//! producers: one building a native pointer to a single instance, and one
//! building a contiguous native array of instances.
//!
//! A flat array of optional elements would lose the null/non-null
//! discriminant, so requesting the array producer for an optional element
//! type — directly or through an owned sequence of optionals — is rejected
//! as unsupported nesting rather than emitting an ambiguous layout.

use crate::error::MarshalError;
use crate::names::{c_typename, primitive_c_typename, spec_c_typename, spec_primitive_c_typename,
    spec_typename, typename};
use crate::types::{Primitive, Type};
use vstd::prelude::*;
use vstd::string::StringExecFns;

verus! {

/// Whether the script-to-raw conversion function can be generated for `t`.
pub open spec fn spec_into_raw_function_ok(t: Type) -> bool
    decreases t, 0int,
{
    match t {
        Type::Optional(e) => spec_into_raw_to_pointer_ok(*e),
        Type::OwnedSequence(e) => spec_into_raw_to_array_ok(*e),
        _ => true,
    }
}

/// Whether the single-instance pointer producer can be generated for `t`.
pub open spec fn spec_into_raw_to_pointer_ok(t: Type) -> bool
    decreases t, 1int,
{
    match t {
        Type::Optional(_) => spec_into_raw_function_ok(t),
        Type::OwnedSequence(_) => spec_into_raw_function_ok(t),
        Type::BorrowedView(_) => spec_into_raw_function_ok(t),
        _ => true,
    }
}

/// Whether the native array producer can be generated for `t`; never for an
/// optional element type, whose absent elements a flat array cannot encode.
pub open spec fn spec_into_raw_to_array_ok(t: Type) -> bool
    decreases t, 2int,
{
    match t {
        Type::Optional(_) => false,
        Type::OwnedSequence(_) => spec_into_raw_function_ok(t),
        Type::BorrowedView(_) => spec_into_raw_function_ok(t),
        _ => true,
    }
}

/// The Lua source of the script-to-raw conversion function; meaningful only
/// when `spec_into_raw_function_ok(t)` holds.
pub open spec fn spec_into_raw_function(t: Type) -> Seq<char>
    decreases t, 0int,
{
    match t {
        Type::Primitive(_) => "function(value) return value end"@,
        Type::TextBuffer => "function(value) return value end"@,
        Type::TextView => "function(value) return value end"@,
        Type::Optional(e) => "\nfunction(value)\n    return "@ + spec_typename(t)
            + "(value ~= nil and invoke(value, "@ + spec_into_raw_to_pointer(*e)
            + ") or nil)\nend\n"@,
        Type::OwnedSequence(e) => "\nfunction(value)\n    return "@ + spec_typename(t)
            + "(invoke(value, "@ + spec_into_raw_to_array(*e) + "), #value, 0)\nend\n"@,
        Type::BorrowedView(p) => match p {
            Primitive::U8 => "function(value)\n    if type(value) == \"string\" then\n        return "@
                + spec_typename(t) + "(value, #value)\n    else\n        local result = {}\n        for i, value in pairs(value) do\n            result[i] = value\n        end\n        return "@
                + spec_typename(t) + "(ffi.new(\""@ + spec_primitive_c_typename(p)
                + "[?]\", #result, result), #result)\n    end\nend"@,
            _ => "function(value)\n    local result = {}\n    for i, value in pairs(value) do\n        result[i] = value\n    end\n    return "@
                + spec_typename(t) + "(ffi.new(\""@ + spec_primitive_c_typename(p)
                + "[?]\", #result, result), #result)\nend"@,
        },
    }
}

/// The C argument form used when `t` is passed to a native call as an input.
pub open spec fn spec_into_raw_c_function_argument(t: Type) -> Seq<char> {
    match t {
        Type::Primitive(p) => spec_primitive_c_typename(p),
        Type::TextBuffer => "const char *"@,
        Type::TextView => "const char *"@,
        _ => "const "@ + spec_c_typename(t) + "*"@,
    }
}

/// Single-instance pointer producer for a type whose raw form is passed by
/// value: wrap the value in a one-element native array.
pub open spec fn spec_primitive_type_to_pointer(t: Type) -> Seq<char> {
    "function(value)\n    return ffi.new(\"const "@ + spec_c_typename(t) + "[1]\", { value })\nend"@
}

/// Native array producer for a type whose raw form is passed by value.
pub open spec fn spec_primitive_type_to_array(t: Type) -> Seq<char> {
    "function(value)\n    return ffi.new(\"const "@ + spec_c_typename(t) + "[?]\", #value, value)\nend"@
}

/// Native array producer for a type whose conversion function already yields
/// a pointer to its raw form: convert each element, dereference, and collect.
pub open spec fn spec_ptr_type_to_array(t: Type) -> Seq<char>
    decreases t, 1int,
{
    "function(value)\n    local result = {}\n    for i, value in pairs(value) do\n        local tmp = invoke(value, "@
        + spec_into_raw_function(t) + ")\n        result[i] = tmp[0]\n    end\n    return ffi.new(\"const "@
        + spec_typename(t) + "[?]\", #result, result)\nend"@
}

/// Native array producer for a type whose conversion function yields its raw
/// form directly: convert each element and collect.
pub open spec fn spec_immediate_type_to_array(t: Type) -> Seq<char>
    decreases t, 1int,
{
    "function(value)\n    local result = {}\n    for i, value in pairs(value) do\n        local tmp = invoke(value, "@
        + spec_into_raw_function(t) + ")\n        result[i] = tmp\n    end\n    return ffi.new(\"const "@
        + spec_typename(t) + "[?]\", #result, result)\nend"@
}

/// The single-instance pointer producer for `t`; meaningful only when
/// `spec_into_raw_to_pointer_ok(t)` holds.
pub open spec fn spec_into_raw_to_pointer(t: Type) -> Seq<char>
    decreases t, 1int,
{
    match t {
        Type::Optional(_) => spec_into_raw_function(t),
        Type::OwnedSequence(_) => spec_into_raw_function(t),
        Type::BorrowedView(_) => spec_into_raw_function(t),
        _ => spec_primitive_type_to_pointer(t),
    }
}

/// The native array producer for `t`; meaningful only when
/// `spec_into_raw_to_array_ok(t)` holds.
pub open spec fn spec_into_raw_to_array(t: Type) -> Seq<char>
    decreases t, 2int,
{
    match t {
        Type::Optional(_) => ""@,
        Type::OwnedSequence(_) => spec_immediate_type_to_array(t),
        Type::BorrowedView(_) => spec_ptr_type_to_array(t),
        _ => spec_primitive_type_to_array(t),
    }
}

/// The Lua source of the script-to-raw conversion function for `t`, or the
/// unsupported-nesting error exactly when an array of optionals would be
/// required to build it.
pub fn into_raw_function(t: &Type) -> (r: Result<String, MarshalError>)
    ensures
        r is Ok <==> spec_into_raw_function_ok(*t),
        r matches Ok(s) ==> s@ == spec_into_raw_function(*t),
        r matches Err(e) ==> e == MarshalError::UnsupportedNesting,
    decreases *t, 0int,
{
    match t {
        Type::Primitive(_) => Ok("function(value) return value end".to_owned()),
        Type::TextBuffer => Ok("function(value) return value end".to_owned()),
        Type::TextView => Ok("function(value) return value end".to_owned()),
        Type::Optional(e) => {
            match into_raw_to_pointer(&**e) {
                Ok(inner) => {
                    let mut s = "\nfunction(value)\n    return ".to_owned();
                    let name = typename(t);
                    s.append(name.as_str());
                    s.append("(value ~= nil and invoke(value, ");
                    s.append(inner.as_str());
                    s.append(") or nil)\nend\n");
                    Ok(s)
                },
                Err(err) => Err(err),
            }
        },
        Type::OwnedSequence(e) => {
            match into_raw_to_array(&**e) {
                Ok(inner) => {
                    let mut s = "\nfunction(value)\n    return ".to_owned();
                    let name = typename(t);
                    s.append(name.as_str());
                    s.append("(invoke(value, ");
                    s.append(inner.as_str());
                    s.append("), #value, 0)\nend\n");
                    Ok(s)
                },
                Err(err) => Err(err),
            }
        },
        Type::BorrowedView(p) => {
            let name = typename(t);
            match p {
                Primitive::U8 => {
                    let mut s = "function(value)\n    if type(value) == \"string\" then\n        return ".to_owned();
                    s.append(name.as_str());
                    s.append("(value, #value)\n    else\n        local result = {}\n        for i, value in pairs(value) do\n            result[i] = value\n        end\n        return ");
                    s.append(name.as_str());
                    s.append("(ffi.new(\"");
                    s.append(primitive_c_typename(*p));
                    s.append("[?]\", #result, result), #result)\n    end\nend");
                    Ok(s)
                },
                _ => {
                    let mut s = "function(value)\n    local result = {}\n    for i, value in pairs(value) do\n        result[i] = value\n    end\n    return ".to_owned();
                    s.append(name.as_str());
                    s.append("(ffi.new(\"");
                    s.append(primitive_c_typename(*p));
                    s.append("[?]\", #result, result), #result)\nend");
                    Ok(s)
                },
            }
        },
    }
}

/// The C argument form used when `t` is passed to a native call as an input.
pub fn into_raw_c_function_argument(t: &Type) -> (r: String)
    ensures
        r@ == spec_into_raw_c_function_argument(*t),
{
    match t {
        Type::Primitive(p) => primitive_c_typename(*p).to_owned(),
        Type::TextBuffer => "const char *".to_owned(),
        Type::TextView => "const char *".to_owned(),
        _ => {
            let mut s = "const ".to_owned();
            let name = c_typename(t);
            s.append(name.as_str());
            s.append("*");
            s
        },
    }
}

/// The single-instance pointer producer for a type converted to a pointer
/// already: it is the type's own conversion function.
pub fn ptr_type_to_pointer(t: &Type) -> (r: Result<String, MarshalError>)
    ensures
        r is Ok <==> spec_into_raw_function_ok(*t),
        r matches Ok(s) ==> s@ == spec_into_raw_function(*t),
        r matches Err(e) ==> e == MarshalError::UnsupportedNesting,
    decreases *t, 1int,
{
    into_raw_function(t)
}

/// The native array producer for a type converted to a pointer: convert each
/// element, dereference, and collect into a native array.
pub fn ptr_type_to_array(t: &Type) -> (r: Result<String, MarshalError>)
    ensures
        r is Ok <==> spec_into_raw_function_ok(*t),
        r matches Ok(s) ==> s@ == spec_ptr_type_to_array(*t),
        r matches Err(e) ==> e == MarshalError::UnsupportedNesting,
    decreases *t, 1int,
{
    match into_raw_function(t) {
        Ok(inner) => {
            let mut s = "function(value)\n    local result = {}\n    for i, value in pairs(value) do\n        local tmp = invoke(value, ".to_owned();
            s.append(inner.as_str());
            s.append(")\n        result[i] = tmp[0]\n    end\n    return ffi.new(\"const ");
            let name = typename(t);
            s.append(name.as_str());
            s.append("[?]\", #result, result)\nend");
            Ok(s)
        },
        Err(err) => Err(err),
    }
}

/// The native array producer for a type converted to its raw form directly:
/// convert each element and collect into a native array.
pub fn immediate_type_to_array(t: &Type) -> (r: Result<String, MarshalError>)
    ensures
        r is Ok <==> spec_into_raw_function_ok(*t),
        r matches Ok(s) ==> s@ == spec_immediate_type_to_array(*t),
        r matches Err(e) ==> e == MarshalError::UnsupportedNesting,
    decreases *t, 1int,
{
    match into_raw_function(t) {
        Ok(inner) => {
            let mut s = "function(value)\n    local result = {}\n    for i, value in pairs(value) do\n        local tmp = invoke(value, ".to_owned();
            s.append(inner.as_str());
            s.append(")\n        result[i] = tmp\n    end\n    return ffi.new(\"const ");
            let name = typename(t);
            s.append(name.as_str());
            s.append("[?]\", #result, result)\nend");
            Ok(s)
        },
        Err(err) => Err(err),
    }
}

fn primitive_type_to_pointer(t: &Type) -> (r: String)
    ensures
        r@ == spec_primitive_type_to_pointer(*t),
{
    let mut s = "function(value)\n    return ffi.new(\"const ".to_owned();
    let name = c_typename(t);
    s.append(name.as_str());
    s.append("[1]\", { value })\nend");
    s
}

fn primitive_type_to_array(t: &Type) -> (r: String)
    ensures
        r@ == spec_primitive_type_to_array(*t),
{
    let mut s = "function(value)\n    return ffi.new(\"const ".to_owned();
    let name = c_typename(t);
    s.append(name.as_str());
    s.append("[?]\", #value, value)\nend");
    s
}

/// The complete script-to-raw conversion descriptor of a type: the Lua
/// conversion function source, the C argument form used when the type is
/// passed as an input, and the single-pointer and array helper producers
/// used when the type is nested inside a container.
pub struct IntoRawConversion {
    pub function: String,
    pub c_function_argument: String,
    pub to_pointer: String,
    pub to_array: String,
}

/// The script-to-raw conversion descriptor of `t`, or the
/// unsupported-nesting error exactly when some producer of it would need a
/// flat array of optional elements.
pub fn into_raw_conversion(t: &Type) -> (r: Result<IntoRawConversion, MarshalError>)
    ensures
        r is Ok <==> (spec_into_raw_function_ok(*t) && spec_into_raw_to_pointer_ok(*t)
            && spec_into_raw_to_array_ok(*t)),
        r matches Ok(c) ==> c.function@ == spec_into_raw_function(*t) && c.c_function_argument@
            == spec_into_raw_c_function_argument(*t) && c.to_pointer@ == spec_into_raw_to_pointer(
            *t,
        ) && c.to_array@ == spec_into_raw_to_array(*t),
        r matches Err(e) ==> e == MarshalError::UnsupportedNesting,
{
    match into_raw_function(t) {
        Ok(function) => {
            match into_raw_to_pointer(t) {
                Ok(pointer) => {
                    match into_raw_to_array(t) {
                        Ok(array) => Ok(
                            IntoRawConversion {
                                function,
                                c_function_argument: into_raw_c_function_argument(t),
                                to_pointer: pointer,
                                to_array: array,
                            },
                        ),
                        Err(err) => Err(err),
                    }
                },
                Err(err) => Err(err),
            }
        },
        Err(err) => Err(err),
    }
}

/// The single-instance pointer producer for `t`, used when `t` is nested
/// inside a container.
pub fn into_raw_to_pointer(t: &Type) -> (r: Result<String, MarshalError>)
    ensures
        r is Ok <==> spec_into_raw_to_pointer_ok(*t),
        r matches Ok(s) ==> s@ == spec_into_raw_to_pointer(*t),
        r matches Err(e) ==> e == MarshalError::UnsupportedNesting,
    decreases *t, 2int,
{
    match t {
        Type::Optional(_) => ptr_type_to_pointer(t),
        Type::OwnedSequence(_) => ptr_type_to_pointer(t),
        Type::BorrowedView(_) => ptr_type_to_pointer(t),
        _ => Ok(primitive_type_to_pointer(t)),
    }
}

/// The native array producer for `t`, used when `t` is the element type of
/// an owned sequence or a borrowed view; rejected for optional element
/// types, whose flattened layout would be ambiguous.
pub fn into_raw_to_array(t: &Type) -> (r: Result<String, MarshalError>)
    ensures
        r is Ok <==> spec_into_raw_to_array_ok(*t),
        r matches Ok(s) ==> s@ == spec_into_raw_to_array(*t),
        r matches Err(e) ==> e == MarshalError::UnsupportedNesting,
    decreases *t, 2int,
{
    match t {
        Type::Optional(_) => Err(MarshalError::UnsupportedNesting),
        Type::OwnedSequence(_) => immediate_type_to_array(t),
        Type::BorrowedView(_) => ptr_type_to_array(t),
        _ => Ok(primitive_type_to_array(t)),
    }
}

} // verus!
