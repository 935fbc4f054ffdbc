//! The raw-to-script conversion capability.
//!
//! For a type that provides it, this direction yields the Lua source of the
//! conversion function, the C argument form used when the type crosses the
//! boundary as a mutable/output parameter, and whether the converted value
//! must register a native finalizer before becoming unreachable.
//!
//! Borrowed views and borrowed text are write-only toward the native side:
//! they do not provide this direction, and requesting it is rejected as a
//! missing capability.

use crate::error::MarshalError;
use crate::names::{c_typename, spec_c_typename};
use crate::types::Type;
use vstd::prelude::*;
use vstd::string::StringExecFns;

verus! {

/// Whether the raw-to-script direction exists for `t`: it must exist for
/// every element type reached through optionals and owned sequences.
pub open spec fn spec_from_raw_supported(t: Type) -> bool
    decreases t,
{
    match t {
        Type::Primitive(_) => true,
        Type::TextBuffer => true,
        Type::Optional(e) => spec_from_raw_supported(*e),
        Type::OwnedSequence(e) => spec_from_raw_supported(*e),
        Type::BorrowedView(_) => false,
        Type::TextView => false,
    }
}

/// The Lua source of the raw-to-script conversion function; meaningful only
/// when the capability exists (see `spec_from_raw_supported`).
pub open spec fn spec_from_raw_function(t: Type) -> Seq<char>
    decreases t,
{
    match t {
        Type::Primitive(_) => "function(value) return value end"@,
        Type::TextBuffer => "ffi.string"@,
        Type::Optional(e) => "function(value)\n    return value.ptr ~= nil and invoke(value.ptr[0], "@
            + spec_from_raw_function(*e) + ") or nil\nend"@,
        Type::OwnedSequence(e) => "function(value)\n    local ret = {}\n    local len = tonumber(value.len)\n    for i = 1,len do\n        ret[i] = invoke(value.ptr[i - 1], "@
            + spec_from_raw_function(*e) + ")\n    end\n    return ret\nend"@,
        Type::BorrowedView(_) => ""@,
        Type::TextView => ""@,
    }
}

/// The C argument form used when `t` crosses the boundary as an output or
/// mutable parameter; meaningful only when the capability exists.
pub open spec fn spec_from_raw_c_mut_function_argument(t: Type) -> Seq<char> {
    match t {
        Type::Optional(_) => spec_c_typename(t) + "*"@,
        Type::OwnedSequence(_) => spec_c_typename(t) + "*"@,
        _ => spec_c_typename(t),
    }
}

/// Whether a script-side value converted from `t`'s raw form owns native
/// memory and must register a finalizer; meaningful only when the capability
/// exists.
pub open spec fn spec_from_raw_gc(t: Type) -> bool {
    match t {
        Type::Primitive(_) => false,
        _ => true,
    }
}

/// Whether the raw-to-script direction exists for `t`.
pub fn from_raw_supported(t: &Type) -> (r: bool)
    ensures
        r == spec_from_raw_supported(*t),
    decreases *t,
{
    match t {
        Type::Primitive(_) => true,
        Type::TextBuffer => true,
        Type::Optional(e) => from_raw_supported(&**e),
        Type::OwnedSequence(e) => from_raw_supported(&**e),
        Type::BorrowedView(_) => false,
        Type::TextView => false,
    }
}

/// The Lua source of the raw-to-script conversion function for `t`, or the
/// missing-capability error exactly when `t` does not provide the direction.
pub fn from_raw_function(t: &Type) -> (r: Result<String, MarshalError>)
    ensures
        r is Ok <==> spec_from_raw_supported(*t),
        r matches Ok(s) ==> s@ == spec_from_raw_function(*t),
        r matches Err(e) ==> e == MarshalError::MissingCapability,
    decreases *t,
{
    match t {
        Type::Primitive(_) => Ok("function(value) return value end".to_owned()),
        Type::TextBuffer => Ok("ffi.string".to_owned()),
        Type::Optional(e) => {
            match from_raw_function(&**e) {
                Ok(inner) => {
                    let mut s = "function(value)\n    return value.ptr ~= nil and invoke(value.ptr[0], ".to_owned();
                    s.append(inner.as_str());
                    s.append(") or nil\nend");
                    Ok(s)
                },
                Err(e) => Err(e),
            }
        },
        Type::OwnedSequence(e) => {
            match from_raw_function(&**e) {
                Ok(inner) => {
                    let mut s = "function(value)\n    local ret = {}\n    local len = tonumber(value.len)\n    for i = 1,len do\n        ret[i] = invoke(value.ptr[i - 1], ".to_owned();
                    s.append(inner.as_str());
                    s.append(")\n    end\n    return ret\nend");
                    Ok(s)
                },
                Err(e) => Err(e),
            }
        },
        Type::BorrowedView(_) => Err(MarshalError::MissingCapability),
        Type::TextView => Err(MarshalError::MissingCapability),
    }
}

/// The C argument form for `t` as an output or mutable parameter, or the
/// missing-capability error exactly when `t` does not provide the
/// raw-to-script direction.
pub fn from_raw_c_mut_function_argument(t: &Type) -> (r: Result<String, MarshalError>)
    ensures
        r is Ok <==> spec_from_raw_supported(*t),
        r matches Ok(s) ==> s@ == spec_from_raw_c_mut_function_argument(*t),
        r matches Err(e) ==> e == MarshalError::MissingCapability,
{
    if !from_raw_supported(t) {
        return Err(MarshalError::MissingCapability);
    }
    match t {
        Type::Optional(_) => {
            let mut s = c_typename(t);
            s.append("*");
            Ok(s)
        },
        Type::OwnedSequence(_) => {
            let mut s = c_typename(t);
            s.append("*");
            Ok(s)
        },
        _ => Ok(c_typename(t)),
    }
}

/// The complete raw-to-script conversion descriptor of a type: the Lua
/// conversion function source, the C argument form used when the type is an
/// output or mutable parameter, and whether the converted value must
/// register a native finalizer.
pub struct FromRawConversion {
    pub function: String,
    pub c_mut_function_argument: String,
    pub gc: bool,
}

/// The raw-to-script conversion descriptor of `t`, or the
/// missing-capability error exactly when `t` does not provide the
/// direction.
pub fn from_raw_conversion(t: &Type) -> (r: Result<FromRawConversion, MarshalError>)
    ensures
        r is Ok <==> spec_from_raw_supported(*t),
        r matches Ok(c) ==> c.function@ == spec_from_raw_function(*t)
            && c.c_mut_function_argument@ == spec_from_raw_c_mut_function_argument(*t) && c.gc
            == spec_from_raw_gc(*t),
        r matches Err(e) ==> e == MarshalError::MissingCapability,
{
    match from_raw_function(t) {
        Ok(function) => {
            match from_raw_c_mut_function_argument(t) {
                Ok(argument) => {
                    match from_raw_gc(t) {
                        Ok(gc) => Ok(
                            FromRawConversion { function, c_mut_function_argument: argument, gc },
                        ),
                        Err(err) => Err(err),
                    }
                },
                Err(err) => Err(err),
            }
        },
        Err(err) => Err(err),
    }
}

/// Whether `t`'s converted value needs a native finalizer, or the
/// missing-capability error exactly when `t` does not provide the
/// raw-to-script direction.
pub fn from_raw_gc(t: &Type) -> (r: Result<bool, MarshalError>)
    ensures
        r is Ok <==> spec_from_raw_supported(*t),
        r matches Ok(b) ==> b == spec_from_raw_gc(*t),
        r matches Err(e) ==> e == MarshalError::MissingCapability,
{
    if !from_raw_supported(t) {
        return Err(MarshalError::MissingCapability);
    }
    match t {
        Type::Primitive(_) => Ok(false),
        _ => Ok(true),
    }
}

} // verus!
