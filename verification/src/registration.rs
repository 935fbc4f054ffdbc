//! Native layout declarations and script-side registration statements.
//!
//! Composite types declare a C struct with a fixed field order — a binary
//! compatibility contract with the generated accessor code — and bind the
//! declared layout to a script-visible handle through `ffi.metatype`.
//! Primitives and text pointers need neither.

use crate::names::{c_typename, primitive_c_typename, spec_c_typename, spec_primitive_c_typename,
    spec_typename, typename};
use crate::types::{Primitive, Type};
use vstd::prelude::*;
use vstd::string::StringExecFns;

verus! {

/// The C struct declaration for a type's raw form; empty for types that
/// need none (primitives and bare text pointers).
pub open spec fn spec_typedeclaration(t: Type) -> Seq<char> {
    match t {
        Type::Optional(e) => "typedef struct {\n    const "@ + spec_c_typename(*e)
            + " *ptr;\n} "@ + spec_typename(t) + ";"@,
        Type::OwnedSequence(e) => "typedef struct {\n    const "@ + spec_c_typename(*e)
            + " *ptr;\n    uint64_t len;\n    uint64_t capacity;\n} "@ + spec_typename(t) + ";"@,
        Type::BorrowedView(p) => "typedef struct {\n    const "@ + spec_primitive_c_typename(p)
            + " *ptr;\n    uint64_t len;\n} "@ + spec_typename(t) + ";"@,
        _ => ""@,
    }
}

/// The script-side statement binding the declared layout to a handle of the
/// same canonical name; empty for types without a layout declaration.
pub open spec fn spec_metatype(t: Type) -> Seq<char> {
    match t {
        Type::Optional(_) => spec_metatype_statement(t),
        Type::OwnedSequence(_) => spec_metatype_statement(t),
        Type::BorrowedView(_) => spec_metatype_statement(t),
        _ => ""@,
    }
}

pub open spec fn spec_metatype_statement(t: Type) -> Seq<char> {
    "local "@ + spec_typename(t) + " = ffi.metatype(\""@ + spec_typename(t) + "\", {})"@
}

/// The C struct declaration for a type's raw form.
pub fn typedeclaration(t: &Type) -> (r: String)
    ensures
        r@ == spec_typedeclaration(*t),
{
    match t {
        Type::Optional(e) => {
            let mut s = "typedef struct {\n    const ".to_owned();
            let elem = c_typename(&**e);
            s.append(elem.as_str());
            s.append(" *ptr;\n} ");
            let name = typename(t);
            s.append(name.as_str());
            s.append(";");
            s
        },
        Type::OwnedSequence(e) => {
            let mut s = "typedef struct {\n    const ".to_owned();
            let elem = c_typename(&**e);
            s.append(elem.as_str());
            s.append(" *ptr;\n    uint64_t len;\n    uint64_t capacity;\n} ");
            let name = typename(t);
            s.append(name.as_str());
            s.append(";");
            s
        },
        Type::BorrowedView(p) => {
            let mut s = "typedef struct {\n    const ".to_owned();
            s.append(primitive_c_typename(*p));
            s.append(" *ptr;\n    uint64_t len;\n} ");
            let name = typename(t);
            s.append(name.as_str());
            s.append(";");
            s
        },
        _ => "".to_owned(),
    }
}

/// The script-side registration statement for a type.
pub fn metatype(t: &Type) -> (r: String)
    ensures
        r@ == spec_metatype(*t),
{
    match t {
        Type::Optional(_) => metatype_statement(t),
        Type::OwnedSequence(_) => metatype_statement(t),
        Type::BorrowedView(_) => metatype_statement(t),
        _ => "".to_owned(),
    }
}

fn metatype_statement(t: &Type) -> (r: String)
    ensures
        r@ == spec_metatype_statement(*t),
{
    let name = typename(t);
    let mut s = "local ".to_owned();
    s.append(name.as_str());
    s.append(" = ffi.metatype(\"");
    s.append(name.as_str());
    s.append("\", {})");
    s
}

} // verus!
