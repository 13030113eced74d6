//! A source-to-source compiler from an Ethereum-style imperative contract
//! language into a Lisp-like, capability-restricted contract language.
//!
//! The pipeline is strictly linear: source text is parsed into `Contract`
//! syntax trees, each tree is lowered into a `ClarityContract` intermediate
//! representation, and the representation is rendered as target-language
//! source text.

pub mod errors;
pub mod text;
pub mod views;
pub mod lexer;
pub mod parser;
pub mod transpiler;
pub mod generator;
pub mod laws;
