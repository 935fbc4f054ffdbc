//! The closed set of marshallable type shapes and their structural measure.

use vstd::prelude::*;

verus! {

/// The fixed-width primitive numeric kinds that cross the boundary by value.
#[derive(Clone, Copy, PartialEq, Eq, Structural, Debug)]
pub enum Primitive {
    I8,
    I16,
    I32,
    I64,
    U8,
    U16,
    U32,
    U64,
    F32,
    F64,
}

/// A marshallable type: the closed variant set over which every capability
/// (canonical name, layout declaration, registration, conversion in either
/// direction) dispatches.
///
/// A value of this enum is also the type's identity: two types are the same
/// concrete boundary type exactly when their `Type` values are equal.
#[derive(Debug)]
pub enum Type {
    /// A fixed-width numeric passed by value.
    Primitive(Primitive),
    /// A nullable single-element pointer to the element's raw form.
    Optional(Box<Type>),
    /// A growable buffer (pointer, length, capacity) whose ownership crosses
    /// the boundary.
    OwnedSequence(Box<Type>),
    /// A borrowed (pointer, length) view of primitive elements, valid only
    /// for the duration of a call.
    BorrowedView(Primitive),
    /// An owned, growable text buffer.
    TextBuffer,
    /// A borrowed pointer to externally owned text.
    TextView,
}

/// Structural nesting depth of a type: every type a descriptor depends on
/// is strictly shallower than the type itself, which is what makes the
/// dependency relation acyclic.
pub open spec fn depth(t: Type) -> nat
    decreases t,
{
    match t {
        Type::Optional(e) => depth(*e) + 1,
        Type::OwnedSequence(e) => depth(*e) + 1,
        _ => 0,
    }
}

impl Clone for Type {
    fn clone(&self) -> (res: Self)
        ensures
            res == *self,
        decreases *self,
    {
        match self {
            Type::Primitive(p) => Type::Primitive(*p),
            Type::Optional(e) => Type::Optional(Box::new((&**e).clone())),
            Type::OwnedSequence(e) => Type::OwnedSequence(Box::new((&**e).clone())),
            Type::BorrowedView(p) => Type::BorrowedView(*p),
            Type::TextBuffer => Type::TextBuffer,
            Type::TextView => Type::TextView,
        }
    }
}

/// Structural equality test; `Type` values are the identities keyed on by the
/// dependency mapping, so the graph builder and the sorter compare them with
/// this function.
pub fn type_eq(a: &Type, b: &Type) -> (r: bool)
    ensures
        r == (*a == *b),
    decreases *a,
{
    match (a, b) {
        (Type::Primitive(p), Type::Primitive(q)) => *p == *q,
        (Type::Optional(x), Type::Optional(y)) => type_eq(&**x, &**y),
        (Type::OwnedSequence(x), Type::OwnedSequence(y)) => type_eq(&**x, &**y),
        (Type::BorrowedView(p), Type::BorrowedView(q)) => *p == *q,
        (Type::TextBuffer, Type::TextBuffer) => true,
        (Type::TextView, Type::TextView) => true,
        _ => false,
    }
}

} // verus!
