// Scenario tests for the diagnostics: the two message shapes, the
// position and `near` clauses, and the inputs each error comes from.

use lua_parser::parser::Parser;
use lua_parser::token::Source;
use lua_parser::token::Token;
use lua_parser::token::TokenType;
use lua_parser::token::TokenValue;

fn at(t: TokenType, line: usize, col: usize) -> Token {
    Token { t, value: TokenValue::NoValue, source: Source { line, col } }
}

fn tok(t: TokenType) -> Token {
    at(t, 1, 1)
}

fn name_at(s: &str, line: usize, col: usize) -> Token {
    Token {
        t: TokenType::Name,
        value: TokenValue::Str(s.to_string()),
        source: Source { line, col },
    }
}

fn parse_err(tokens: Vec<Token>) -> String {
    let mut p = Parser::new();
    let e = p.run(tokens).expect_err("expected a syntax error");
    e.message().to_string()
}

#[test]
fn unterminated_do_reports_the_opening_line() {
    // `do` opened on line 1, unrelated tokens on line 2, no `end`:
    // the diagnostic names the closer, the opener, and the opener's line.
    let msg = parse_err(vec![
        at(TokenType::Do, 1, 1),
        name_at("x", 2, 1),
        at(TokenType::Eos, 2, 2),
    ]);
    assert_eq!(
        msg,
        "[syntax error] End expected (to close Do at line 1) at line [2:2] near [Eos]"
    );
}

#[test]
fn missing_closer_on_the_same_line_stays_local() {
    // `do x` with everything on line 1: the plain local message is used.
    let msg = parse_err(vec![
        at(TokenType::Do, 1, 1),
        name_at("x", 1, 4),
        at(TokenType::Eos, 1, 5),
    ]);
    assert_eq!(msg, "[syntax error] End expected at line [1:5] near [Eos]");
}

#[test]
fn near_clause_renders_a_literal_payload() {
    // `do 7` (line 2): the stray literal itself appears in the near clause.
    let msg = parse_err(vec![
        at(TokenType::Do, 1, 1),
        Token {
            t: TokenType::Int,
            value: TokenValue::Int(7),
            source: Source { line: 2, col: 3 },
        },
        at(TokenType::Eos, 2, 4),
    ]);
    assert_eq!(
        msg,
        "[syntax error] unexpected symbol 'Int' at line [2:3] near [Int(7)]"
    );
}

#[test]
fn missing_then_is_reported() {
    let msg = parse_err(vec![
        tok(TokenType::If),
        name_at("x", 1, 4),
        at(TokenType::End, 1, 6),
        at(TokenType::Eos, 1, 9),
    ]);
    assert_eq!(msg, "[syntax error] Then expected at line [1:6] near [End]");
}

#[test]
fn for_without_assign_or_in_is_reported() {
    let msg = parse_err(vec![
        tok(TokenType::For),
        name_at("i", 1, 5),
        at(TokenType::Do, 1, 7),
        at(TokenType::Eos, 1, 10),
    ]);
    assert_eq!(msg, "[syntax error] '=' or 'in' expected at line [1:7] near [Do]");
}

#[test]
fn bad_parameter_list_is_reported() {
    // function f(1) ...
    let msg = parse_err(vec![
        tok(TokenType::Function),
        name_at("f", 1, 10),
        at(TokenType::Lp, 1, 11),
        Token {
            t: TokenType::Int,
            value: TokenValue::Int(1),
            source: Source { line: 1, col: 12 },
        },
        at(TokenType::Rp, 1, 13),
        at(TokenType::End, 1, 15),
        at(TokenType::Eos, 1, 18),
    ]);
    assert_eq!(
        msg,
        "[syntax error] <name> or '...' expected at line [1:12] near [Int(1)]"
    );
}

#[test]
fn truncated_call_reports_the_missing_expression() {
    // `f(` then end of stream: the argument expression is missing.
    let msg = parse_err(vec![
        name_at("f", 1, 1),
        at(TokenType::Lp, 1, 2),
        at(TokenType::Eos, 1, 3),
    ]);
    assert_eq!(
        msg,
        "[syntax error] unexpected symbol 'Eos' at line [1:3] near [Eos]"
    );
}

#[test]
fn unexpected_symbol_starts_a_statement() {
    let msg = parse_err(vec![at(TokenType::Assign, 3, 2), at(TokenType::Eos, 3, 4)]);
    assert_eq!(
        msg,
        "[syntax error] unexpected symbol 'Assign' at line [3:2] near [Assign]"
    );
}

#[test]
fn unclosed_parenthesis_reports_across_lines() {
    // x = (1   ... next line has no closer
    let msg = parse_err(vec![
        name_at("x", 1, 1),
        at(TokenType::Assign, 1, 3),
        at(TokenType::Lp, 1, 5),
        Token {
            t: TokenType::Int,
            value: TokenValue::Int(1),
            source: Source { line: 1, col: 6 },
        },
        at(TokenType::Eos, 2, 1),
    ]);
    assert_eq!(
        msg,
        "[syntax error] Rp expected (to close Lp at line 1) at line [2:1] near [Eos]"
    );
}

#[test]
fn name_expected_after_goto() {
    let msg = parse_err(vec![
        tok(TokenType::Goto),
        Token {
            t: TokenType::Int,
            value: TokenValue::Int(3),
            source: Source { line: 1, col: 6 },
        },
        at(TokenType::Eos, 1, 7),
    ]);
    assert_eq!(msg, "[syntax error] Name expected at line [1:6] near [Int(3)]");
}

#[test]
fn malformed_input_errors_instead_of_panicking() {
    // a sweep of truncated inputs: every one must produce an error value
    let cases: Vec<Vec<Token>> = vec![
        vec![tok(TokenType::If), tok(TokenType::Eos)],
        vec![tok(TokenType::While), tok(TokenType::Eos)],
        vec![tok(TokenType::For), tok(TokenType::Eos)],
        vec![tok(TokenType::Repeat), tok(TokenType::Eos)],
        vec![tok(TokenType::Function), tok(TokenType::Eos)],
        vec![tok(TokenType::Local), tok(TokenType::Eos)],
        vec![tok(TokenType::DbColon), tok(TokenType::Eos)],
        vec![tok(TokenType::Goto), tok(TokenType::Eos)],
        vec![tok(TokenType::Lb), tok(TokenType::Eos)],
        vec![tok(TokenType::Comma), tok(TokenType::Eos)],
    ];
    for tokens in cases {
        let mut p = Parser::new();
        let r = p.run(tokens);
        assert!(r.is_err());
        let msg = r.unwrap_err().message().to_string();
        assert!(msg.starts_with("[syntax error] "), "odd message: {}", msg);
    }
}
