//! Constrained random generation of well-formed IDL documents.
//!
//! A document holds an ordered list of type declarations and a list of
//! modules of functions.  Raw declarations are drawn from a source of
//! random words, then a normalization pass rewrites every type reference
//! so that the finished document satisfies the structural invariants of
//! the target language: no forward or cyclic references, handle
//! supertypes name only earlier handles, enum and flags member counts fit
//! their representation, and every function returns the root type first.

pub mod gen;
pub mod laws;
pub mod limits;
pub mod norm;
pub mod render;
pub mod sexpr;
pub mod types;
pub mod valid;

pub use crate::limits::Limits;
pub use crate::types::{
    GenDoc, GenEnum, GenFlags, GenHandle, GenStruct, GenType, GenTypeRef, GenUnion,
};
