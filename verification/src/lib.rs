//! Compile-time translation of a type's method declarations into a parallel
//! set of C-ABI-compatible function declarations.
//!
//! The library is the translation engine: it classifies each parameter and
//! return type of a method, derives the pointer discipline from the receiver
//! form, validates the structural rules of a declaration block, and
//! synthesizes one generated declaration per method — or the full list of
//! diagnostics and no declarations at all.
//!
//! The modules: [`model`] holds the input data model, [`abi`] the ABI-safe
//! output types and the per-type classification, [`names`] the naming
//! scheme, [`diag`] the validation rules and their diagnostics, [`synth`]
//! the declaration synthesizer, [`generate`] the all-or-nothing whole-block
//! pass, and [`laws`] the properties proved of the translation.

pub mod abi;
pub mod diag;
pub mod generate;
pub mod laws;
pub mod model;
pub mod names;
pub mod synth;
