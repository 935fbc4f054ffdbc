//! Generation of matched binary-layout declarations and Lua accessor glue for
//! values crossing a C-ABI boundary between natively compiled code and an
//! embedded Lua runtime.
//!
//! For every marshallable type the library derives a canonical name, an
//! optional C struct declaration, a Lua registration statement, and the
//! conversion function sources for both directions across the boundary.
//! A dependency graph builder collects the descriptors of everything a root
//! type references, and a sorter emits them so that no declaration precedes
//! one it depends on.

pub mod error;
pub mod from_raw;
pub mod graph;
pub mod into_raw;
pub mod laws;
pub mod names;
pub mod registration;
pub mod sorter;
pub mod types;

pub use error::MarshalError;
pub use from_raw::{
    from_raw_c_mut_function_argument, from_raw_conversion, from_raw_function, from_raw_gc,
    FromRawConversion,
};
pub use graph::{dependencies, make_dependencies, Dependencies, TypeDescription};
pub use into_raw::{
    immediate_type_to_array, into_raw_c_function_argument, into_raw_conversion, into_raw_function,
    into_raw_to_array, into_raw_to_pointer, ptr_type_to_array, ptr_type_to_pointer,
    IntoRawConversion,
};
pub use names::{c_typename, typename};
pub use registration::{metatype, typedeclaration};
pub use sorter::dependency_sorted_type_descriptions;
pub use types::{Primitive, Type};
