//! Lexical analysis for a small programming language: a forward-only scanner
//! that turns a source text into typed tokens, one token per request.
//!
//! The executable scanner in [`lexer`] is verified against the mathematical
//! model in [`lexer::model`]; the facts that hold of every scan are stated and
//! proved in [`lexer::laws`].

pub mod lexer;
pub mod token;
