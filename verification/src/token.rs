//! The lexical input of the parser: tokens with a type tag, an optional
//! literal payload, and a source position.
//!
//! Tokenization itself is outside this crate: a caller hands the parser a
//! finite, ordered token sequence that ends with an end-of-stream marker
//! (`TokenType::Eos`). Float literals are carried opaquely, as the bit
//! pattern the lexer produced; the parser never computes with them.

use vstd::prelude::*;

verus! {

/// The type tag of a token: every keyword, punctuation mark and literal
/// class of the grammar, plus the end-of-stream marker `Eos`.
#[derive(Copy, Clone, PartialEq, Eq, Debug, Structural)]
pub enum TokenType {
    // arithmetic operators
    Add,
    Minus,
    Mul,
    Mod,
    Pow,
    Div,
    IDiv,
    // bitwise operators (`BXor` is also unary bitwise-not)
    BAnd,
    BOr,
    BXor,
    Shl,
    Shr,
    // concatenation
    Concat,
    // comparison operators
    Ne,
    Eq,
    Lt,
    Le,
    Gt,
    Ge,
    // logical operators
    And,
    Or,
    Not,
    // length operator `#`
    TLen,
    // punctuation
    Semi,
    Comma,
    Colon,
    DbColon,
    Attr,
    Dots,
    Assign,
    Lp,
    Rp,
    Lb,
    Rb,
    Ls,
    Rs,
    // keywords
    If,
    Then,
    ElseIf,
    Else,
    End,
    While,
    Do,
    For,
    In,
    Repeat,
    Until,
    Function,
    Local,
    Return,
    Break,
    Goto,
    Nil,
    True,
    False,
    // literal classes
    Name,
    Flt,
    Int,
    String,
    // end of stream
    Eos,
}

/// The literal payload of a token. `Str` carries names and string literals,
/// `Int` integer literals, `Float` the bit pattern of a float literal.
#[derive(Clone, PartialEq, Debug)]
pub enum TokenValue {
    NoValue,
    Str(String),
    Int(i64),
    Float(u64),
}

/// A 1-based source position, used verbatim in diagnostics.
#[derive(Copy, Clone, PartialEq, Eq, Debug, Structural)]
pub struct Source {
    pub line: usize,
    pub col: usize,
}

/// One lexical unit: a type tag, an optional literal payload, and the
/// position where it starts.
#[derive(Clone, PartialEq, Debug)]
pub struct Token {
    pub t: TokenType,
    pub value: TokenValue,
    pub source: Source,
}

impl Token {
    /// The payload of a token matches its type tag: names and string
    /// literals carry a string, integer literals an integer, float
    /// literals a float bit pattern.
    pub open spec fn value_wf(self) -> bool {
        match self.t {
            TokenType::Name => self.value is Str,
            TokenType::String => self.value is Str,
            TokenType::Int => self.value is Int,
            TokenType::Flt => self.value is Float,
            _ => true,
        }
    }

    /// The string payload; meaningful only when `value is Str`.
    pub open spec fn str_value(self) -> Seq<char> {
        match self.value {
            TokenValue::Str(s) => s@,
            _ => Seq::empty(),
        }
    }

    /// The integer payload; meaningful only when `value is Int`.
    pub open spec fn int_value(self) -> i64 {
        match self.value {
            TokenValue::Int(i) => i,
            _ => 0,
        }
    }

    /// The float-bits payload; meaningful only when `value is Float`.
    pub open spec fn float_value(self) -> u64 {
        match self.value {
            TokenValue::Float(b) => b,
            _ => 0,
        }
    }

    /// Reads an integer literal's payload.
    pub fn get_int(&self) -> (r: i64)
        requires
            self.value is Int,
        ensures
            r == self.int_value(),
    {
        match self.value {
            TokenValue::Int(i) => i,
            _ => 0,
        }
    }

    /// Reads a float literal's payload (the bit pattern the lexer carried).
    pub fn get_float(&self) -> (r: u64)
        requires
            self.value is Float,
        ensures
            r == self.float_value(),
    {
        match self.value {
            TokenValue::Float(b) => b,
            _ => 0,
        }
    }

    /// Reads a name's or string literal's payload.
    pub fn get_string(&self) -> (r: String)
        requires
            self.value is Str,
        ensures
            r@ == self.str_value(),
    {
        match &self.value {
            TokenValue::Str(s) => s.clone(),
            _ => String::new(),
        }
    }
}

/// A well-formed token stream: finite, non-empty, terminated by `Eos`,
/// every token's payload matching its type tag. This is the input contract
/// the lexer is assumed to meet.
pub open spec fn tokens_wf(toks: Seq<Token>) -> bool {
    &&& toks.len() > 0
    &&& toks[toks.len() - 1].t == TokenType::Eos
    &&& forall|i: int| 0 <= i < toks.len() ==> (#[trigger] toks[i]).value_wf()
}

} // verus!
