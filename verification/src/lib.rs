//! Derivation of delegating I/O trait implementations.
//!
//! Given a token-level description of a struct, tuple struct or enum whose
//! fields carry capability attributes (`read`, `write`, `descriptor`), this
//! library locates the annotated field of each variant, resolves the access
//! strategy the attribute asks for (direct use, reference conversion,
//! transparent unwrap, duck-typed inherent calls, or per-operation override
//! functions), synthesizes one delegating method per primitive operation of
//! the requested trait family, and emits a full implementation block with the
//! declaration's generic parameters and synthesized bounds.
//!
//! The pipeline is ordinary function composition over plain data:
//! declaration tokens are parsed into an abstract syntax tree, the annotation
//! scanner picks the delegation target of every variant, the resolver
//! validates the attribute arguments, and the synthesizer and emitter build
//! the implementation blocks. Every stage reports failures as a [`diag::Diag`]
//! value instead of succeeding partially.

pub mod ast;
pub mod derive;
pub mod diag;
pub mod emit;
pub mod laws;
pub mod parse;
pub mod resolve;
pub mod scan;
pub mod synth;
pub mod tokens;
