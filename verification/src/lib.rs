//! Compile-time delegation synthesis over a structural model of Rust source
//! tokens: a trait annotator that prepares a trait for later expansion, a
//! synthesizer that fills an implementation block's missing items by
//! forwarding to a delegate field, a rewriter that keeps self-referential
//! paths meaningful across expansion contexts, and a parser for the
//! invocation syntax that ties them together.

pub mod annotate;
pub mod laws;
pub mod model;
pub mod parse;
pub mod rewrite;
pub mod synth;
pub mod token;
