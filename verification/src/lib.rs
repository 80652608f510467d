//! Lexical front end of the NASL scripting language: source text in, typed
//! tokens out, one per call.
//!
//! [`lexer::Lexer`] is the scanner. What a call of it returns is defined by
//! [`grammar::scan`], a function of the source text and the position of the
//! cursor; [`theorems`] holds what follows from that definition for every
//! source text. [`token`] is the token vocabulary, [`error`] the failures,
//! and [`ast`] the tree that a parser builds from the tokens.

pub mod ast;
pub mod chars;
pub mod error;
pub mod grammar;
pub mod lexer;
pub mod number;
pub mod text;
pub mod theorems;
pub mod token;
