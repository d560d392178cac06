// Scenario tests for the statement and expression grammar: precedence,
// associativity, statement classification, suffix chaining, and table
// field disambiguation.

use lua_parser::ast::AssignStat;
use lua_parser::ast::BinExpr;
use lua_parser::ast::BinOp;
use lua_parser::ast::Block;
use lua_parser::ast::Expr;
use lua_parser::ast::Field;
use lua_parser::ast::FieldKey;
use lua_parser::ast::FuncArgs;
use lua_parser::ast::PrimaryExpr;
use lua_parser::ast::Stat;
use lua_parser::ast::Suffix;
use lua_parser::ast::SuffixedExpr;
use lua_parser::ast::UnExpr;
use lua_parser::ast::UnOp;
use lua_parser::parser::Parser;
use lua_parser::token::Source;
use lua_parser::token::Token;
use lua_parser::token::TokenType;
use lua_parser::token::TokenValue;

fn tok(t: TokenType) -> Token {
    Token { t, value: TokenValue::NoValue, source: Source { line: 1, col: 1 } }
}

fn name(s: &str) -> Token {
    Token {
        t: TokenType::Name,
        value: TokenValue::Str(s.to_string()),
        source: Source { line: 1, col: 1 },
    }
}

fn inum(i: i64) -> Token {
    Token { t: TokenType::Int, value: TokenValue::Int(i), source: Source { line: 1, col: 1 } }
}

fn stri(s: &str) -> Token {
    Token {
        t: TokenType::String,
        value: TokenValue::Str(s.to_string()),
        source: Source { line: 1, col: 1 },
    }
}

fn eos() -> Token {
    tok(TokenType::Eos)
}

fn parse(tokens: Vec<Token>) -> Block {
    let mut p = Parser::new();
    p.run(tokens).expect("expected a successful parse")
}

fn parse_expr(mut tokens: Vec<Token>) -> Expr {
    // wrap as `x = <expr>` and take the right-hand side back out
    let mut all = vec![name("x"), tok(TokenType::Assign)];
    all.append(&mut tokens);
    all.push(eos());
    let block = parse(all);
    assert_eq!(block.stats.len(), 1);
    match block.stats.into_iter().next().unwrap() {
        Stat::AssignStat(AssignStat { left: _, mut right }) => {
            assert_eq!(right.len(), 1);
            right.remove(0)
        }
        other => panic!("expected an assignment, got {:?}", other),
    }
}

fn bin(op: BinOp, left: Expr, right: Expr) -> Expr {
    Expr::BinExpr(BinExpr { op, left: Box::new(left), right: Box::new(right) })
}

#[test]
fn empty_input_is_an_empty_block() {
    let block = parse(vec![eos()]);
    assert!(block.stats.is_empty());
}

#[test]
fn add_binds_looser_than_mul() {
    // 1 + 2 * 3 parses as Add(1, Mul(2, 3))
    let e = parse_expr(vec![inum(1), tok(TokenType::Add), inum(2), tok(TokenType::Mul), inum(3)]);
    let expected = bin(BinOp::Add, Expr::Int(1), bin(BinOp::Mul, Expr::Int(2), Expr::Int(3)));
    assert_eq!(e, expected);
}

#[test]
fn pow_is_right_associative() {
    // 2 ^ 3 ^ 2 parses as Pow(2, Pow(3, 2))
    let e = parse_expr(vec![inum(2), tok(TokenType::Pow), inum(3), tok(TokenType::Pow), inum(2)]);
    let expected = bin(BinOp::Pow, Expr::Int(2), bin(BinOp::Pow, Expr::Int(3), Expr::Int(2)));
    assert_eq!(e, expected);
}

#[test]
fn pow_binds_tighter_than_unary_minus() {
    // -2 ^ 2 parses as Minus(Pow(2, 2))
    let e = parse_expr(vec![tok(TokenType::Minus), inum(2), tok(TokenType::Pow), inum(2)]);
    let expected = Expr::UnExpr(UnExpr {
        op: UnOp::Minus,
        expr: Box::new(bin(BinOp::Pow, Expr::Int(2), Expr::Int(2))),
    });
    assert_eq!(e, expected);
}

#[test]
fn concat_is_right_associative() {
    // "a" .. "b" .. "c" parses as Concat("a", Concat("b", "c"))
    let e = parse_expr(vec![
        stri("a"),
        tok(TokenType::Concat),
        stri("b"),
        tok(TokenType::Concat),
        stri("c"),
    ]);
    let expected = bin(
        BinOp::Concat,
        Expr::String("a".to_string()),
        bin(BinOp::Concat, Expr::String("b".to_string()), Expr::String("c".to_string())),
    );
    assert_eq!(e, expected);
}

#[test]
fn comparison_binds_looser_than_add() {
    // 1 + 2 < 3 parses as Lt(Add(1, 2), 3)
    let e = parse_expr(vec![inum(1), tok(TokenType::Add), inum(2), tok(TokenType::Lt), inum(3)]);
    let expected = bin(BinOp::Lt, bin(BinOp::Add, Expr::Int(1), Expr::Int(2)), Expr::Int(3));
    assert_eq!(e, expected);
}

#[test]
fn single_assignment_classifies_as_assign_stat() {
    // x = 1
    let block = parse(vec![name("x"), tok(TokenType::Assign), inum(1), eos()]);
    assert_eq!(block.stats.len(), 1);
    match &block.stats[0] {
        Stat::AssignStat(a) => {
            assert_eq!(a.left.len(), 1);
            assert_eq!(a.right.len(), 1);
            assert_eq!(a.right[0], Expr::Int(1));
        }
        other => panic!("expected an assignment, got {:?}", other),
    }
}

#[test]
fn bare_call_classifies_as_call_stat() {
    // f()
    let block = parse(vec![name("f"), tok(TokenType::Lp), tok(TokenType::Rp), eos()]);
    assert_eq!(block.stats.len(), 1);
    match &block.stats[0] {
        Stat::CallStat(c) => {
            assert_eq!(c.call.primary, PrimaryExpr::Name("f".to_string()));
            assert_eq!(c.call.suffixes, vec![Suffix::FuncArgs(FuncArgs::Exprs(Vec::new()))]);
        }
        other => panic!("expected a call statement, got {:?}", other),
    }
}

#[test]
fn multi_target_assignment_keeps_all_targets_and_values() {
    // x, y = 1, 2
    let block = parse(vec![
        name("x"),
        tok(TokenType::Comma),
        name("y"),
        tok(TokenType::Assign),
        inum(1),
        tok(TokenType::Comma),
        inum(2),
        eos(),
    ]);
    assert_eq!(block.stats.len(), 1);
    match &block.stats[0] {
        Stat::AssignStat(a) => {
            assert_eq!(a.left.len(), 2);
            assert_eq!(a.left[0].primary, PrimaryExpr::Name("x".to_string()));
            assert_eq!(a.left[1].primary, PrimaryExpr::Name("y".to_string()));
            assert_eq!(a.right, vec![Expr::Int(1), Expr::Int(2)]);
        }
        other => panic!("expected an assignment, got {:?}", other),
    }
}

#[test]
fn suffix_chain_is_flat_and_ordered() {
    // a.b[c]:d(1,2) gives suffixes [Attr(b), Index(c), Method(d), FuncArgs([1, 2])]
    let block = parse(vec![
        name("a"),
        tok(TokenType::Attr),
        name("b"),
        tok(TokenType::Ls),
        name("c"),
        tok(TokenType::Rs),
        tok(TokenType::Colon),
        name("d"),
        tok(TokenType::Lp),
        inum(1),
        tok(TokenType::Comma),
        inum(2),
        tok(TokenType::Rp),
        eos(),
    ]);
    assert_eq!(block.stats.len(), 1);
    match &block.stats[0] {
        Stat::CallStat(c) => {
            assert_eq!(c.call.primary, PrimaryExpr::Name("a".to_string()));
            let index_expr = Expr::SuffixedExpr(SuffixedExpr {
                primary: PrimaryExpr::Name("c".to_string()),
                suffixes: Vec::new(),
            });
            assert_eq!(
                c.call.suffixes,
                vec![
                    Suffix::Attr("b".to_string()),
                    Suffix::Index(index_expr),
                    Suffix::Method("d".to_string()),
                    Suffix::FuncArgs(FuncArgs::Exprs(vec![Expr::Int(1), Expr::Int(2)])),
                ]
            );
        }
        other => panic!("expected a call statement, got {:?}", other),
    }
}

#[test]
fn table_fields_are_classified_in_order() {
    // {1, x = 2, [k] = 3} gives [ListField(1), RecField(x, 2), RecField(Expr(k), 3)]
    let e = parse_expr(vec![
        tok(TokenType::Lb),
        inum(1),
        tok(TokenType::Comma),
        name("x"),
        tok(TokenType::Assign),
        inum(2),
        tok(TokenType::Comma),
        tok(TokenType::Ls),
        name("k"),
        tok(TokenType::Rs),
        tok(TokenType::Assign),
        inum(3),
        tok(TokenType::Rb),
    ]);
    match e {
        Expr::Table(t) => {
            assert_eq!(t.fields.len(), 3);
            assert_eq!(t.fields[0], Field::ListField(Expr::Int(1)));
            match &t.fields[1] {
                Field::RecFileld(rf) => {
                    assert_eq!(rf.key, FieldKey::Name("x".to_string()));
                    assert_eq!(rf.value, Expr::Int(2));
                }
                other => panic!("expected a keyed field, got {:?}", other),
            }
            match &t.fields[2] {
                Field::RecFileld(rf) => {
                    let k = Expr::SuffixedExpr(SuffixedExpr {
                        primary: PrimaryExpr::Name("k".to_string()),
                        suffixes: Vec::new(),
                    });
                    assert_eq!(rf.key, FieldKey::Expr(k));
                    assert_eq!(rf.value, Expr::Int(3));
                }
                other => panic!("expected a keyed field, got {:?}", other),
            }
        }
        other => panic!("expected a table constructor, got {:?}", other),
    }
}

#[test]
fn empty_table_and_trailing_separator() {
    let e = parse_expr(vec![tok(TokenType::Lb), tok(TokenType::Rb)]);
    match e {
        Expr::Table(t) => assert!(t.fields.is_empty()),
        other => panic!("expected a table constructor, got {:?}", other),
    }
    // {1;} with a trailing separator still has one field
    let e = parse_expr(vec![tok(TokenType::Lb), inum(1), tok(TokenType::Semi), tok(TokenType::Rb)]);
    match e {
        Expr::Table(t) => assert_eq!(t.fields, vec![Field::ListField(Expr::Int(1))]),
        other => panic!("expected a table constructor, got {:?}", other),
    }
}

#[test]
fn call_sugar_with_string_and_table_arguments() {
    // f "hi" and f {1} both call with a single argument
    let block = parse(vec![name("f"), stri("hi"), eos()]);
    match &block.stats[0] {
        Stat::CallStat(c) => {
            assert_eq!(c.call.suffixes, vec![Suffix::FuncArgs(FuncArgs::String("hi".to_string()))]);
        }
        other => panic!("expected a call statement, got {:?}", other),
    }
    let block = parse(vec![name("f"), tok(TokenType::Lb), inum(1), tok(TokenType::Rb), eos()]);
    match &block.stats[0] {
        Stat::CallStat(c) => match &c.call.suffixes[0] {
            Suffix::FuncArgs(FuncArgs::Table(t)) => {
                assert_eq!(t.fields, vec![Field::ListField(Expr::Int(1))]);
            }
            other => panic!("expected table call arguments, got {:?}", other),
        },
        other => panic!("expected a call statement, got {:?}", other),
    }
}

#[test]
fn float_literals_carry_their_bits() {
    let bits = 2.5f64.to_bits();
    let ftok = Token {
        t: TokenType::Flt,
        value: TokenValue::Float(bits),
        source: Source { line: 1, col: 1 },
    };
    let e = parse_expr(vec![ftok]);
    assert_eq!(e, Expr::Float(bits));
    match e {
        Expr::Float(b) => assert_eq!(f64::from_bits(b), 2.5),
        other => panic!("expected a float literal, got {:?}", other),
    }
}

#[test]
fn parenthesized_expression_becomes_a_primary() {
    // (1 + 2) * 3
    let e = parse_expr(vec![
        tok(TokenType::Lp),
        inum(1),
        tok(TokenType::Add),
        inum(2),
        tok(TokenType::Rp),
        tok(TokenType::Mul),
        inum(3),
    ]);
    let inner = bin(BinOp::Add, Expr::Int(1), Expr::Int(2));
    let paren = Expr::SuffixedExpr(SuffixedExpr {
        primary: PrimaryExpr::ParenExpr(Box::new(inner)),
        suffixes: Vec::new(),
    });
    assert_eq!(e, bin(BinOp::Mul, paren, Expr::Int(3)));
}

#[test]
fn parser_instance_is_reusable_sequentially() {
    let mut p = Parser::new();
    let b1 = p.run(vec![name("f"), tok(TokenType::Lp), tok(TokenType::Rp), eos()]).unwrap();
    assert_eq!(b1.stats.len(), 1);
    let b2 = p.run(vec![eos()]).unwrap();
    assert!(b2.stats.is_empty());
    let e = p.run(vec![tok(TokenType::Assign), eos()]);
    assert!(e.is_err());
}
