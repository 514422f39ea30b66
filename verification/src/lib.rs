//! Semantic analysis for a small statically typed language.
//!
//! The analysis reads a parse tree ([`nodes`]) and gives a typed tree
//! ([`tree`]) together with a list of diagnostics ([`diagnostic`]). It
//! resolves names in a scope ([`scope`]), infers the types of values
//! ([`infer`]), lowers values ([`values`]) and statements ([`parser`]), and
//! checks assignments, calls, comparisons and accesses on the way.
//!
//! Every function comes with a contract over the mathematical view of its
//! arguments: what it returns, how it changes the scope, and which
//! diagnostics it adds, in order. [`laws`] holds what follows for the
//! analysis as a whole.
//!
//! Nothing here reads a file or prints: a caller parses the source, hands
//! the tree over, and shows the diagnostics that come back.

pub mod tree;
pub mod scope;
pub mod text;
pub mod diagnostic;
pub mod nodes;
pub mod infer;
pub mod values;
pub mod parser;
pub mod laws;
