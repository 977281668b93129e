//! Derivation of a constructor trait for a sum type.
//!
//! Given the shape of a sum type (its name, generic parameters, where-clause
//! and variants), the library derives a companion trait named
//! `<TypeName>Constructor` together with an implementation of that trait for
//! the type: one associated constant per field-less variant, and one
//! constructor function per variant that carries fields.
//!
//! The derivation is a pure transformation from the input shape to two
//! structured declarations; reading host syntax into the shape and emitting
//! the declarations back out as tokens are left to the surrounding program.

pub mod ast;
pub mod deriver;
pub mod ident;
pub mod laws;
pub mod output;
