// Scenario tests for statement parsing: block termination, the
// statement productions, and the operator tables.

use lua_parser::ast::BinOp;
use lua_parser::ast::Block;
use lua_parser::ast::Expr;
use lua_parser::ast::ForStat;
use lua_parser::ast::FuncType;
use lua_parser::ast::Param;
use lua_parser::ast::Stat;
use lua_parser::ast::UnOp;
use lua_parser::parser::Parser;
use lua_parser::token::Source;
use lua_parser::token::Token;
use lua_parser::token::TokenType;
use lua_parser::token::TokenValue;

fn tok(t: TokenType) -> Token {
    Token { t, value: TokenValue::NoValue, source: Source { line: 1, col: 1 } }
}

fn name(s: &str) -> Token {
    Token {
        t: TokenType::Name,
        value: TokenValue::Str(s.to_string()),
        source: Source { line: 1, col: 1 },
    }
}

fn inum(i: i64) -> Token {
    Token { t: TokenType::Int, value: TokenValue::Int(i), source: Source { line: 1, col: 1 } }
}

fn eos() -> Token {
    tok(TokenType::Eos)
}

fn parse(tokens: Vec<Token>) -> Block {
    let mut p = Parser::new();
    p.run(tokens).expect("expected a successful parse")
}

#[test]
fn if_block_ends_at_the_return() {
    // if x then return 1 end: the if's block holds exactly the return
    let block = parse(vec![
        tok(TokenType::If),
        name("x"),
        tok(TokenType::Then),
        tok(TokenType::Return),
        inum(1),
        tok(TokenType::End),
        eos(),
    ]);
    assert_eq!(block.stats.len(), 1);
    match &block.stats[0] {
        Stat::IfStat(ifs) => {
            assert_eq!(ifs.cond_blocks.len(), 1);
            let inner = &ifs.cond_blocks[0].block;
            assert_eq!(inner.stats.len(), 1);
            match &inner.stats[0] {
                Stat::RetStat(r) => assert_eq!(r.exprs, vec![Expr::Int(1)]),
                other => panic!("expected a return statement, got {:?}", other),
            }
            assert!(ifs.else_block.stats.is_empty());
        }
        other => panic!("expected an if statement, got {:?}", other),
    }
}

#[test]
fn elseif_and_else_blocks_are_collected() {
    // if a then elseif b then else return end
    let block = parse(vec![
        tok(TokenType::If),
        name("a"),
        tok(TokenType::Then),
        tok(TokenType::ElseIf),
        name("b"),
        tok(TokenType::Then),
        tok(TokenType::Else),
        tok(TokenType::Return),
        tok(TokenType::End),
        eos(),
    ]);
    match &block.stats[0] {
        Stat::IfStat(ifs) => {
            assert_eq!(ifs.cond_blocks.len(), 2);
            assert_eq!(ifs.else_block.stats.len(), 1);
            assert!(matches!(ifs.else_block.stats[0], Stat::RetStat(_)));
        }
        other => panic!("expected an if statement, got {:?}", other),
    }
}

#[test]
fn statements_after_a_return_stay_in_the_outer_block() {
    // do return end x = 1: the return ends only the inner block
    let block = parse(vec![
        tok(TokenType::Do),
        tok(TokenType::Return),
        tok(TokenType::End),
        name("x"),
        tok(TokenType::Assign),
        inum(1),
        eos(),
    ]);
    assert_eq!(block.stats.len(), 2);
    assert!(matches!(block.stats[0], Stat::DoBlock(_)));
    assert!(matches!(block.stats[1], Stat::AssignStat(_)));
}

#[test]
fn while_and_repeat_loops_parse() {
    // while x do end  repeat until x
    let block = parse(vec![
        tok(TokenType::While),
        name("x"),
        tok(TokenType::Do),
        tok(TokenType::End),
        tok(TokenType::Repeat),
        tok(TokenType::Until),
        name("x"),
        eos(),
    ]);
    assert_eq!(block.stats.len(), 2);
    assert!(matches!(block.stats[0], Stat::WhileStat(_)));
    assert!(matches!(block.stats[1], Stat::RepeatStat(_)));
}

#[test]
fn numeric_for_with_and_without_step() {
    // for i = 1, 2 do end
    let block = parse(vec![
        tok(TokenType::For),
        name("i"),
        tok(TokenType::Assign),
        inum(1),
        tok(TokenType::Comma),
        inum(2),
        tok(TokenType::Do),
        tok(TokenType::End),
        eos(),
    ]);
    match &block.stats[0] {
        Stat::ForStat(ForStat::ForNum(f)) => {
            assert_eq!(f.var, "i");
            assert_eq!(f.init, Expr::Int(1));
            assert_eq!(f.limit, Expr::Int(2));
            assert!(f.step.is_none());
        }
        other => panic!("expected a numeric for, got {:?}", other),
    }
    // for i = 1, 2, 3 do end
    let block = parse(vec![
        tok(TokenType::For),
        name("i"),
        tok(TokenType::Assign),
        inum(1),
        tok(TokenType::Comma),
        inum(2),
        tok(TokenType::Comma),
        inum(3),
        tok(TokenType::Do),
        tok(TokenType::End),
        eos(),
    ]);
    match &block.stats[0] {
        Stat::ForStat(ForStat::ForNum(f)) => assert_eq!(f.step, Some(Expr::Int(3))),
        other => panic!("expected a numeric for, got {:?}", other),
    }
}

#[test]
fn generic_for_collects_variables_and_expressions() {
    // for k, v in t do end
    let block = parse(vec![
        tok(TokenType::For),
        name("k"),
        tok(TokenType::Comma),
        name("v"),
        tok(TokenType::In),
        name("t"),
        tok(TokenType::Do),
        tok(TokenType::End),
        eos(),
    ]);
    match &block.stats[0] {
        Stat::ForStat(ForStat::ForList(f)) => {
            assert_eq!(f.vars, vec!["k".to_string(), "v".to_string()]);
            assert_eq!(f.exprs.len(), 1);
        }
        other => panic!("expected a generic for, got {:?}", other),
    }
}

#[test]
fn function_declaration_with_dotted_name_and_method() {
    // function a.b:c(p, ...) end
    let block = parse(vec![
        tok(TokenType::Function),
        name("a"),
        tok(TokenType::Attr),
        name("b"),
        tok(TokenType::Colon),
        name("c"),
        tok(TokenType::Lp),
        name("p"),
        tok(TokenType::Comma),
        tok(TokenType::Dots),
        tok(TokenType::Rp),
        tok(TokenType::End),
        eos(),
    ]);
    match &block.stats[0] {
        Stat::FuncStat(f) => {
            assert_eq!(f.func_type, FuncType::Global);
            assert_eq!(f.func_name.fields, vec!["a".to_string(), "b".to_string()]);
            assert_eq!(f.func_name.method, Some("c".to_string()));
            assert_eq!(f.body.params, vec![Param::Name("p".to_string()), Param::VarArg]);
            assert!(f.body.block.stats.is_empty());
        }
        other => panic!("expected a function declaration, got {:?}", other),
    }
}

#[test]
fn local_function_is_marked_local() {
    // local function f() end
    let block = parse(vec![
        tok(TokenType::Local),
        tok(TokenType::Function),
        name("f"),
        tok(TokenType::Lp),
        tok(TokenType::Rp),
        tok(TokenType::End),
        eos(),
    ]);
    match &block.stats[0] {
        Stat::FuncStat(f) => {
            assert_eq!(f.func_type, FuncType::Local);
            assert_eq!(f.func_name.fields, vec!["f".to_string()]);
        }
        other => panic!("expected a function declaration, got {:?}", other),
    }
}

#[test]
fn local_declaration_with_and_without_values() {
    // local a, b = 1, 2   local c
    let block = parse(vec![
        tok(TokenType::Local),
        name("a"),
        tok(TokenType::Comma),
        name("b"),
        tok(TokenType::Assign),
        inum(1),
        tok(TokenType::Comma),
        inum(2),
        tok(TokenType::Local),
        name("c"),
        eos(),
    ]);
    assert_eq!(block.stats.len(), 2);
    match &block.stats[0] {
        Stat::LocalStat(l) => {
            assert_eq!(l.names, vec!["a".to_string(), "b".to_string()]);
            assert_eq!(l.exprs, vec![Expr::Int(1), Expr::Int(2)]);
        }
        other => panic!("expected a local declaration, got {:?}", other),
    }
    match &block.stats[1] {
        Stat::LocalStat(l) => {
            assert_eq!(l.names, vec!["c".to_string()]);
            assert!(l.exprs.is_empty());
        }
        other => panic!("expected a local declaration, got {:?}", other),
    }
}

#[test]
fn label_goto_break_and_empty_statement() {
    // ::top:: goto top break ;
    let block = parse(vec![
        tok(TokenType::DbColon),
        name("top"),
        tok(TokenType::DbColon),
        tok(TokenType::Goto),
        name("top"),
        tok(TokenType::Break),
        tok(TokenType::Semi),
        eos(),
    ]);
    assert_eq!(block.stats.len(), 4);
    match &block.stats[0] {
        Stat::LabelStat(l) => assert_eq!(l.label, "top"),
        other => panic!("expected a label, got {:?}", other),
    }
    match &block.stats[1] {
        Stat::GotoStat(g) => assert_eq!(g.label, "top"),
        other => panic!("expected a goto, got {:?}", other),
    }
    assert!(matches!(block.stats[2], Stat::BreakStat(_)));
    assert!(matches!(block.stats[3], Stat::Empty));
}

#[test]
fn bare_return_with_optional_semicolon() {
    // return ;
    let block = parse(vec![tok(TokenType::Return), tok(TokenType::Semi), eos()]);
    assert_eq!(block.stats.len(), 1);
    match &block.stats[0] {
        Stat::RetStat(r) => assert!(r.exprs.is_empty()),
        other => panic!("expected a return, got {:?}", other),
    }
    // return 1, 2
    let block = parse(vec![
        tok(TokenType::Return),
        inum(1),
        tok(TokenType::Comma),
        inum(2),
        eos(),
    ]);
    match &block.stats[0] {
        Stat::RetStat(r) => assert_eq!(r.exprs, vec![Expr::Int(1), Expr::Int(2)]),
        other => panic!("expected a return, got {:?}", other),
    }
}

#[test]
fn unop_table_matches_the_grammar() {
    assert_eq!(UnOp::from_token(TokenType::Minus), UnOp::Minus);
    assert_eq!(UnOp::from_token(TokenType::BXor), UnOp::BNot);
    assert_eq!(UnOp::from_token(TokenType::Not), UnOp::Not);
    assert_eq!(UnOp::from_token(TokenType::TLen), UnOp::TLen);
    assert_eq!(UnOp::from_token(TokenType::Add), UnOp::NoOp);
    assert_eq!(UnOp::Minus.priority(), 12);
}

#[test]
fn binop_table_matches_the_grammar() {
    assert_eq!(BinOp::from_token(TokenType::Add), BinOp::Add);
    assert_eq!(BinOp::from_token(TokenType::Concat), BinOp::Concat);
    assert_eq!(BinOp::from_token(TokenType::Semi), BinOp::NoOp);
    let or = BinOp::Or.priority();
    assert_eq!((or.left, or.right), (1, 1));
    let cmp = BinOp::Le.priority();
    assert_eq!((cmp.left, cmp.right), (3, 3));
    let concat = BinOp::Concat.priority();
    assert_eq!((concat.left, concat.right), (9, 8));
    let add = BinOp::Add.priority();
    assert_eq!((add.left, add.right), (10, 10));
    let mul = BinOp::Div.priority();
    assert_eq!((mul.left, mul.right), (11, 11));
    let pow = BinOp::Pow.priority();
    assert_eq!((pow.left, pow.right), (14, 13));
}

#[test]
fn empty_block_constructor_is_empty() {
    let b = lua_parser::ast::Block::empty();
    assert!(b.stats.is_empty());
}
