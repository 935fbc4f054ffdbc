//! Generation-time failures.
//!
//! Every failure is a defect in the requested type declarations, local to a
//! single generation request; nothing is retried and no partial text is
//! emitted alongside an error.

use crate::types::Type;
use vstd::prelude::*;

verus! {

#[derive(Debug)]
pub enum MarshalError {
    /// The dependency relation admits no emission order; carries the
    /// identities still unresolved when the sorter could make no progress.
    CyclicDependency(Vec<Type>),
    /// A flat-array layout was requested for elements that encode absence by
    /// nullability; such a layout would be ambiguous and is refused.
    UnsupportedNesting,
    /// A conversion direction was requested that the type does not provide.
    MissingCapability,
}

} // verus!
