//! The boolean-expression (filter-predicate) resolution stage.
//!
//! An object-flavored boolean-expression type is resolved against the
//! finalized output of the earlier stages: its underlying object type is
//! looked up, each declared comparable field is checked against the
//! object type's fields and against the raw declaration index
//! (existence only, so mutually or self-referential predicate types are
//! permitted), connector coverage is cross-checked, and the optional
//! GraphQL exposure is synthesized.
//!
//! [`model`] holds the mathematical description of the stage; the
//! executable functions in [`object`] are proved to return exactly what
//! the model says, and [`laws`] states the stage's laws over the model.

pub mod laws;
pub mod model;
pub mod object;
pub mod output;
