//! Rendering of diagnostic text: decimal numbers, token names, and the
//! two required message shapes.
//!
//! Every error the parser reports has the form
//! `[syntax error] {message} at line [{line}:{col}] near [{token}]`,
//! where the `near` clause renders the token's literal payload if it has
//! one and its type tag otherwise. The expectation messages come in two
//! shapes: a local `<X> expected`, and a cross-line
//! `<X> expected (to close <Y> at line <N>)`. The spec functions here
//! define those strings exactly; the executable builders are proved to
//! produce them.

use vstd::prelude::*;
use vstd::string::StringExecFns;

use crate::token::Token;
use crate::token::TokenType;
use crate::token::TokenValue;

verus! {

/// The decimal digit character of `d`, for `0 <= d <= 9`.
pub open spec fn dec_digit(d: int) -> char {
    if d == 0 {
        '0'
    } else if d == 1 {
        '1'
    } else if d == 2 {
        '2'
    } else if d == 3 {
        '3'
    } else if d == 4 {
        '4'
    } else if d == 5 {
        '5'
    } else if d == 6 {
        '6'
    } else if d == 7 {
        '7'
    } else if d == 8 {
        '8'
    } else {
        '9'
    }
}

/// The decimal rendering of a non-negative integer, without leading
/// zeros (a single `0` for zero).
pub open spec fn dec_nat(n: int) -> Seq<char>
    decreases n,
{
    if n < 10 {
        seq![dec_digit(n)]
    } else {
        dec_nat(n / 10).push(dec_digit(n % 10))
    }
}

/// The decimal rendering of an integer: a minus sign and the magnitude
/// for negative values.
pub open spec fn dec_int(n: int) -> Seq<char> {
    if n >= 0 {
        dec_nat(n)
    } else {
        seq!['-'] + dec_nat(-n)
    }
}

/// The name of a token type, as it appears in diagnostics.
pub open spec fn tt_text(t: TokenType) -> Seq<char> {
    match t {
        TokenType::Add => "Add"@,
        TokenType::Minus => "Minus"@,
        TokenType::Mul => "Mul"@,
        TokenType::Mod => "Mod"@,
        TokenType::Pow => "Pow"@,
        TokenType::Div => "Div"@,
        TokenType::IDiv => "IDiv"@,
        TokenType::BAnd => "BAnd"@,
        TokenType::BOr => "BOr"@,
        TokenType::BXor => "BXor"@,
        TokenType::Shl => "Shl"@,
        TokenType::Shr => "Shr"@,
        TokenType::Concat => "Concat"@,
        TokenType::Ne => "Ne"@,
        TokenType::Eq => "Eq"@,
        TokenType::Lt => "Lt"@,
        TokenType::Le => "Le"@,
        TokenType::Gt => "Gt"@,
        TokenType::Ge => "Ge"@,
        TokenType::And => "And"@,
        TokenType::Or => "Or"@,
        TokenType::Not => "Not"@,
        TokenType::TLen => "TLen"@,
        TokenType::Semi => "Semi"@,
        TokenType::Comma => "Comma"@,
        TokenType::Colon => "Colon"@,
        TokenType::DbColon => "DbColon"@,
        TokenType::Attr => "Attr"@,
        TokenType::Dots => "Dots"@,
        TokenType::Assign => "Assign"@,
        TokenType::Lp => "Lp"@,
        TokenType::Rp => "Rp"@,
        TokenType::Lb => "Lb"@,
        TokenType::Rb => "Rb"@,
        TokenType::Ls => "Ls"@,
        TokenType::Rs => "Rs"@,
        TokenType::If => "If"@,
        TokenType::Then => "Then"@,
        TokenType::ElseIf => "ElseIf"@,
        TokenType::Else => "Else"@,
        TokenType::End => "End"@,
        TokenType::While => "While"@,
        TokenType::Do => "Do"@,
        TokenType::For => "For"@,
        TokenType::In => "In"@,
        TokenType::Repeat => "Repeat"@,
        TokenType::Until => "Until"@,
        TokenType::Function => "Function"@,
        TokenType::Local => "Local"@,
        TokenType::Return => "Return"@,
        TokenType::Break => "Break"@,
        TokenType::Goto => "Goto"@,
        TokenType::Nil => "Nil"@,
        TokenType::True => "True"@,
        TokenType::False => "False"@,
        TokenType::Name => "Name"@,
        TokenType::Flt => "Flt"@,
        TokenType::Int => "Int"@,
        TokenType::String => "String"@,
        TokenType::Eos => "Eos"@,
    }
}

/// The `near` clause of a diagnostic: the token's literal payload if it
/// has one, its type tag otherwise.
pub open spec fn near_text(tok: Token) -> Seq<char> {
    match tok.value {
        TokenValue::NoValue => tt_text(tok.t),
        TokenValue::Str(s) => "Str(\""@ + s@ + "\")"@,
        TokenValue::Int(i) => "Int("@ + dec_int(i as int) + ")"@,
        TokenValue::Float(b) => "Float("@ + dec_nat(b as int) + ")"@,
    }
}

/// The full rendering of a syntax error: message, position, and the
/// `near` clause for the token at which the parse stopped.
pub open spec fn error_text(msg: Seq<char>, tok: Token) -> Seq<char> {
    "[syntax error] "@ + msg + " at line ["@ + dec_nat(tok.source.line as int) + ":"@ + dec_nat(
        tok.source.col as int,
    ) + "] near ["@ + near_text(tok) + "]"@
}

/// The local expectation message: `<X> expected`.
pub open spec fn expected_text(t: TokenType) -> Seq<char> {
    tt_text(t) + " expected"@
}

/// The cross-line expectation message:
/// `<X> expected (to close <Y> at line <N>)`.
pub open spec fn close_text(end: TokenType, start: TokenType, line: int) -> Seq<char> {
    tt_text(end) + " expected (to close "@ + tt_text(start) + " at line "@ + dec_nat(line) + ")"@
}

/// The message for a token that can start no primary expression:
/// `unexpected symbol '<X>'`.
pub open spec fn unexpected_text(t: TokenType) -> Seq<char> {
    "unexpected symbol '"@ + tt_text(t) + "'"@
}

/// The full error a missed closer produces at the token `tok`: the local
/// `<X> expected` when `tok` lies on the opener's line, the cross-line
/// message naming the opener and its line otherwise.
pub open spec fn closer_text(end: TokenType, start: TokenType, line: int, tok: Token) -> Seq<
    char,
> {
    if line == tok.source.line {
        error_text(expected_text(end), tok)
    } else {
        error_text(close_text(end, start, line), tok)
    }
}

/// The single decimal digit of `d`, as a string slice.
fn digit_str(d: u64) -> (r: &'static str)
    requires
        d <= 9,
    ensures
        r@ == seq![dec_digit(d as int)],
{
    let r = match d {
        0u64 => "0",
        1u64 => "1",
        2u64 => "2",
        3u64 => "3",
        4u64 => "4",
        5u64 => "5",
        6u64 => "6",
        7u64 => "7",
        8u64 => "8",
        _ => "9",
    };
    proof {
        reveal_strlit("0");
        reveal_strlit("1");
        reveal_strlit("2");
        reveal_strlit("3");
        reveal_strlit("4");
        reveal_strlit("5");
        reveal_strlit("6");
        reveal_strlit("7");
        reveal_strlit("8");
        reveal_strlit("9");
        assert(r@ =~= seq![dec_digit(d as int)]);
    }
    r
}

/// Renders a non-negative number in decimal.
pub fn dec_u64(n: u64) -> (r: String)
    ensures
        r@ == dec_nat(n as int),
    decreases n,
{
    if n < 10 {
        String::from_str(digit_str(n))
    } else {
        let mut s = dec_u64(n / 10);
        s.append(digit_str(n % 10));
        proof {
            assert(s@ =~= dec_nat(n as int));
        }
        s
    }
}

/// Renders an integer in decimal, with a minus sign for negative values.
pub fn dec_i64(n: i64) -> (r: String)
    ensures
        r@ == dec_int(n as int),
{
    if n >= 0 {
        dec_u64(n as u64)
    } else {
        let m: u64 = (-(n as i128)) as u64;
        let mut s = String::from_str("-");
        s.append(dec_u64(m).as_str());
        proof {
            reveal_strlit("-");
            assert(s@ =~= dec_int(n as int));
        }
        s
    }
}

/// The name of a token type, for diagnostics.
pub fn tt_str(t: TokenType) -> (r: &'static str)
    ensures
        r@ == tt_text(t),
{
    match t {
        TokenType::Add => "Add",
        TokenType::Minus => "Minus",
        TokenType::Mul => "Mul",
        TokenType::Mod => "Mod",
        TokenType::Pow => "Pow",
        TokenType::Div => "Div",
        TokenType::IDiv => "IDiv",
        TokenType::BAnd => "BAnd",
        TokenType::BOr => "BOr",
        TokenType::BXor => "BXor",
        TokenType::Shl => "Shl",
        TokenType::Shr => "Shr",
        TokenType::Concat => "Concat",
        TokenType::Ne => "Ne",
        TokenType::Eq => "Eq",
        TokenType::Lt => "Lt",
        TokenType::Le => "Le",
        TokenType::Gt => "Gt",
        TokenType::Ge => "Ge",
        TokenType::And => "And",
        TokenType::Or => "Or",
        TokenType::Not => "Not",
        TokenType::TLen => "TLen",
        TokenType::Semi => "Semi",
        TokenType::Comma => "Comma",
        TokenType::Colon => "Colon",
        TokenType::DbColon => "DbColon",
        TokenType::Attr => "Attr",
        TokenType::Dots => "Dots",
        TokenType::Assign => "Assign",
        TokenType::Lp => "Lp",
        TokenType::Rp => "Rp",
        TokenType::Lb => "Lb",
        TokenType::Rb => "Rb",
        TokenType::Ls => "Ls",
        TokenType::Rs => "Rs",
        TokenType::If => "If",
        TokenType::Then => "Then",
        TokenType::ElseIf => "ElseIf",
        TokenType::Else => "Else",
        TokenType::End => "End",
        TokenType::While => "While",
        TokenType::Do => "Do",
        TokenType::For => "For",
        TokenType::In => "In",
        TokenType::Repeat => "Repeat",
        TokenType::Until => "Until",
        TokenType::Function => "Function",
        TokenType::Local => "Local",
        TokenType::Return => "Return",
        TokenType::Break => "Break",
        TokenType::Goto => "Goto",
        TokenType::Nil => "Nil",
        TokenType::True => "True",
        TokenType::False => "False",
        TokenType::Name => "Name",
        TokenType::Flt => "Flt",
        TokenType::Int => "Int",
        TokenType::String => "String",
        TokenType::Eos => "Eos",
    }
}

/// Renders the `near` clause for a token.
pub fn near_str(tok: &Token) -> (r: String)
    ensures
        r@ == near_text(*tok),
{
    match &tok.value {
        TokenValue::NoValue => String::from_str(tt_str(tok.t)),
        TokenValue::Str(s) => {
            let mut r = String::from_str("Str(\"");
            r.append(s.as_str());
            r.append("\")");
            proof {
                assert(r@ =~= near_text(*tok));
            }
            r
        },
        TokenValue::Int(i) => {
            let mut r = String::from_str("Int(");
            r.append(dec_i64(*i).as_str());
            r.append(")");
            proof {
                assert(r@ =~= near_text(*tok));
            }
            r
        },
        TokenValue::Float(b) => {
            let mut r = String::from_str("Float(");
            r.append(dec_u64(*b).as_str());
            r.append(")");
            proof {
                assert(r@ =~= near_text(*tok));
            }
            r
        },
    }
}

/// Renders the full error text for a message and the token at which the
/// parse stopped.
pub fn error_str(msg: &str, tok: &Token) -> (r: String)
    ensures
        r@ == error_text(msg@, *tok),
{
    let mut r = String::from_str("[syntax error] ");
    r.append(msg);
    r.append(" at line [");
    r.append(dec_u64(tok.source.line as u64).as_str());
    r.append(":");
    r.append(dec_u64(tok.source.col as u64).as_str());
    r.append("] near [");
    r.append(near_str(tok).as_str());
    r.append("]");
    proof {
        assert(r@ =~= error_text(msg@, *tok));
    }
    r
}

/// Builds the local expectation message `<X> expected`.
pub fn expected_str(t: TokenType) -> (r: String)
    ensures
        r@ == expected_text(t),
{
    let mut r = String::from_str(tt_str(t));
    r.append(" expected");
    proof {
        assert(r@ =~= expected_text(t));
    }
    r
}

/// Builds the cross-line expectation message
/// `<X> expected (to close <Y> at line <N>)`.
pub fn close_str(end: TokenType, start: TokenType, line: usize) -> (r: String)
    ensures
        r@ == close_text(end, start, line as int),
{
    let mut r = String::from_str(tt_str(end));
    r.append(" expected (to close ");
    r.append(tt_str(start));
    r.append(" at line ");
    r.append(dec_u64(line as u64).as_str());
    r.append(")");
    proof {
        assert(r@ =~= close_text(end, start, line as int));
    }
    r
}

} // verus!
