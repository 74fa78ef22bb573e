//! Struct-transformation toolkit: derives read-only accessors, a validating
//! builder and an all-fields-optional variant from a structure declaration.
//!
//! A declaration is parsed and normalised into a [`model::StructDescriptor`]
//! by [`syntax`]; each of the three transformations ([`auto_getters`],
//! [`builder`], [`optional`]) is a function from a descriptor to the text of
//! the items it emits. [`assembly`] gives the emitted builder and accessors a
//! value-level reading, of which the laws of the builder are proved.

pub mod assembly;
pub mod auto_getters;
pub mod builder;
pub mod model;
pub mod naming;
pub mod optional;
pub mod render;
pub mod syntax;
pub mod text;
