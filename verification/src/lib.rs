//! A recursive-descent parser for a Lua-family scripting language.
//!
//! The parser turns a finite token sequence into an abstract syntax tree,
//! resolving operator precedence and associativity by precedence climbing
//! and classifying ambiguous productions with bounded lookahead. The whole
//! grammar is also stated as a mathematical function over token sequences
//! (`grammar`), and every parsing routine is proved to return exactly what
//! that function says: parsing succeeds, with this tree, if and only if the
//! grammar accepts the input.

pub mod ast;
pub mod grammar;
pub mod parser;
pub mod text;
pub mod token;
