//! Canonical script-facing names and C-ABI-facing names.
//!
//! The canonical name of a composite is derived by prefixing the variant's
//! tag to the element's canonical name, so structurally identical types get
//! the same name and collapse to a single dependency-map entry.

use crate::types::{Primitive, Type};
use vstd::prelude::*;
use vstd::string::StringExecFns;

verus! {

/// Canonical name of a primitive.
pub open spec fn spec_primitive_typename(p: Primitive) -> Seq<char> {
    match p {
        Primitive::I8 => "i8"@,
        Primitive::I16 => "i16"@,
        Primitive::I32 => "i32"@,
        Primitive::I64 => "i64"@,
        Primitive::U8 => "u8"@,
        Primitive::U16 => "u16"@,
        Primitive::U32 => "u32"@,
        Primitive::U64 => "u64"@,
        Primitive::F32 => "f32"@,
        Primitive::F64 => "f64"@,
    }
}

/// C type of a primitive.
pub open spec fn spec_primitive_c_typename(p: Primitive) -> Seq<char> {
    match p {
        Primitive::I8 => "int8_t"@,
        Primitive::I16 => "int16_t"@,
        Primitive::I32 => "int32_t"@,
        Primitive::I64 => "int64_t"@,
        Primitive::U8 => "uint8_t"@,
        Primitive::U16 => "uint16_t"@,
        Primitive::U32 => "uint32_t"@,
        Primitive::U64 => "uint64_t"@,
        Primitive::F32 => "float"@,
        Primitive::F64 => "double"@,
    }
}

/// The canonical script-facing name of a type.
pub open spec fn spec_typename(t: Type) -> Seq<char>
    decreases t,
{
    match t {
        Type::Primitive(p) => spec_primitive_typename(p),
        Type::Optional(e) => "Option_"@ + spec_typename(*e),
        Type::OwnedSequence(e) => "Vec_"@ + spec_typename(*e),
        Type::BorrowedView(p) => "Slice_"@ + spec_primitive_typename(p),
        Type::TextBuffer => "__string_ptr"@,
        Type::TextView => "_str_ptr__"@,
    }
}

/// The C-ABI-facing name of a type; composites fall back to the canonical
/// name of the struct the layout declaration introduces for them.
pub open spec fn spec_c_typename(t: Type) -> Seq<char> {
    match t {
        Type::Primitive(p) => spec_primitive_c_typename(p),
        Type::TextBuffer => "char *"@,
        Type::TextView => "char *"@,
        _ => spec_typename(t),
    }
}

pub fn primitive_typename(p: Primitive) -> (r: &'static str)
    ensures
        r@ == spec_primitive_typename(p),
{
    match p {
        Primitive::I8 => "i8",
        Primitive::I16 => "i16",
        Primitive::I32 => "i32",
        Primitive::I64 => "i64",
        Primitive::U8 => "u8",
        Primitive::U16 => "u16",
        Primitive::U32 => "u32",
        Primitive::U64 => "u64",
        Primitive::F32 => "f32",
        Primitive::F64 => "f64",
    }
}

pub fn primitive_c_typename(p: Primitive) -> (r: &'static str)
    ensures
        r@ == spec_primitive_c_typename(p),
{
    match p {
        Primitive::I8 => "int8_t",
        Primitive::I16 => "int16_t",
        Primitive::I32 => "int32_t",
        Primitive::I64 => "int64_t",
        Primitive::U8 => "uint8_t",
        Primitive::U16 => "uint16_t",
        Primitive::U32 => "uint32_t",
        Primitive::U64 => "uint64_t",
        Primitive::F32 => "float",
        Primitive::F64 => "double",
    }
}

/// The canonical script-facing name of a type.
pub fn typename(t: &Type) -> (r: String)
    ensures
        r@ == spec_typename(*t),
    decreases *t,
{
    match t {
        Type::Primitive(p) => primitive_typename(*p).to_owned(),
        Type::Optional(e) => {
            let mut s = "Option_".to_owned();
            let inner = typename(&**e);
            s.append(inner.as_str());
            s
        },
        Type::OwnedSequence(e) => {
            let mut s = "Vec_".to_owned();
            let inner = typename(&**e);
            s.append(inner.as_str());
            s
        },
        Type::BorrowedView(p) => {
            let mut s = "Slice_".to_owned();
            s.append(primitive_typename(*p));
            s
        },
        Type::TextBuffer => "__string_ptr".to_owned(),
        Type::TextView => "_str_ptr__".to_owned(),
    }
}

/// The C-ABI-facing name of a type.
pub fn c_typename(t: &Type) -> (r: String)
    ensures
        r@ == spec_c_typename(*t),
{
    match t {
        Type::Primitive(p) => primitive_c_typename(*p).to_owned(),
        Type::TextBuffer => "char *".to_owned(),
        Type::TextView => "char *".to_owned(),
        _ => typename(t),
    }
}

} // verus!
