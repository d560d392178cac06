//! The parser engine: a cursor over the token stream driving
//! recursive-descent statement parsing and precedence-climbing expression
//! parsing.
//!
//! Every parsing routine is specified against the grammar functions of
//! `crate::grammar`: on a well-formed token stream it returns `Ok` with
//! the tree the grammar defines, and moves the cursor to exactly the
//! position the grammar gives, if and only if the grammar accepts the
//! input at the cursor; otherwise it returns the syntax error whose text
//! the grammar's error companion (`spec_err_*`) defines. Both outcomes
//! are thereby pure functions of the token sequence alone.

use vstd::prelude::*;

use crate::ast::AssignStat;
use crate::ast::BinExpr;
use crate::ast::BinOp;
use crate::ast::Block;
use crate::ast::BreakStat;
use crate::ast::CallStat;
use crate::ast::CallStatV;
use crate::ast::CondBlock;
use crate::ast::CondBlockV;
use crate::ast::DoBlock;
use crate::ast::Expr;
use crate::ast::ExprV;
use crate::ast::Field;
use crate::ast::FieldKey;
use crate::ast::ForList;
use crate::ast::ForNum;
use crate::ast::ForStat;
use crate::ast::FuncArgs;
use crate::ast::FuncBody;
use crate::ast::FuncName;
use crate::ast::FuncStat;
use crate::ast::FuncType;
use crate::ast::GotoStat;
use crate::ast::IfStat;
use crate::ast::LabelStat;
use crate::ast::LabelStatV;
use crate::ast::LocalStat;
use crate::ast::Param;
use crate::ast::SuffixedExprV;
use crate::ast::SuffixV;
use crate::ast::FieldV;
use crate::ast::BinExprV;
use crate::ast::ParamV;
use crate::ast::GotoStatV;
use crate::ast::PrimaryExpr;
use crate::ast::RecField;
use crate::ast::RepeatStat;
use crate::ast::RetStat;
use crate::ast::Stat;
use crate::ast::StatV;
use crate::ast::Suffix;
use crate::ast::SuffixedExpr;
use crate::ast::Table;
use crate::ast::UnExpr;
use crate::ast::UnOp;
use crate::ast::WhileStat;
use crate::ast::cond_blocks_deep;
use crate::ast::exprs_deep;
use crate::ast::fields_deep;
use crate::ast::names_deep;
use crate::ast::params_deep;
use crate::ast::stats_deep;
use crate::ast::suffixed_exprs_deep;
use crate::ast::suffixes_deep;
use crate::ast::unop_of;
use crate::ast::binop_of;
use crate::ast::bin_prio;
use crate::grammar::is_block_end_t;
use crate::grammar::moved;
use crate::grammar::spec_assign_lhs;
use crate::grammar::spec_assignment;
use crate::grammar::spec_bin_rest;
use crate::grammar::spec_block;
use crate::grammar::spec_cond_blocks;
use crate::grammar::spec_dotted;
use crate::grammar::spec_expr;
use crate::grammar::spec_exprlist;
use crate::grammar::spec_exprlist_more;
use crate::grammar::spec_field;
use crate::grammar::spec_fields;
use crate::grammar::spec_forenum;
use crate::grammar::spec_forlist;
use crate::grammar::spec_forstat;
use crate::grammar::spec_funcargs;
use crate::grammar::spec_funcbody;
use crate::grammar::spec_funcname;
use crate::grammar::spec_funcstat;
use crate::grammar::spec_ifstat;
use crate::grammar::spec_localfunc;
use crate::grammar::spec_localstat;
use crate::grammar::spec_exprstat;
use crate::grammar::spec_listfield;
use crate::grammar::spec_more_names;
use crate::grammar::spec_params;
use crate::grammar::spec_parse;
use crate::grammar::spec_err_assign_lhs;
use crate::grammar::spec_err_assignment;
use crate::grammar::spec_err_bin_rest;
use crate::grammar::spec_err_block;
use crate::grammar::spec_err_cond_blocks;
use crate::grammar::spec_err_dotted;
use crate::grammar::spec_err_expr;
use crate::grammar::spec_err_exprlist;
use crate::grammar::spec_err_exprlist_more;
use crate::grammar::spec_err_exprstat;
use crate::grammar::spec_err_field;
use crate::grammar::spec_err_fields;
use crate::grammar::spec_err_forenum;
use crate::grammar::spec_err_forlist;
use crate::grammar::spec_err_forstat;
use crate::grammar::spec_err_funcargs;
use crate::grammar::spec_err_funcbody;
use crate::grammar::spec_err_funcname;
use crate::grammar::spec_err_funcstat;
use crate::grammar::spec_err_ifstat;
use crate::grammar::spec_err_listfield;
use crate::grammar::spec_err_localfunc;
use crate::grammar::spec_err_localstat;
use crate::grammar::spec_err_more_names;
use crate::grammar::spec_err_params;
use crate::grammar::spec_err_parse;
use crate::grammar::spec_err_primaryexpr;
use crate::grammar::spec_err_recfield;
use crate::grammar::spec_err_repeatstat;
use crate::grammar::spec_err_retstat;
use crate::grammar::spec_err_simpleexpr;
use crate::grammar::spec_err_stat;
use crate::grammar::spec_err_stats;
use crate::grammar::spec_err_subexpr;
use crate::grammar::spec_err_suffixedexpr;
use crate::grammar::spec_err_suffixes;
use crate::grammar::spec_err_table;
use crate::grammar::spec_err_test_then_block;
use crate::grammar::spec_err_whilestat;
use crate::grammar::spec_primaryexpr;
use crate::grammar::spec_recfield;
use crate::grammar::spec_repeatstat;
use crate::grammar::spec_retstat;
use crate::grammar::spec_simpleexpr;
use crate::grammar::spec_stat;
use crate::grammar::spec_stats;
use crate::grammar::spec_subexpr;
use crate::grammar::spec_suffixedexpr;
use crate::grammar::spec_suffixes;
use crate::grammar::spec_table;
use crate::grammar::spec_test_then_block;
use crate::grammar::spec_whilestat;
use crate::grammar::ret_is_last;
use crate::text::close_str;
use crate::text::close_text;
use crate::text::error_str;
use crate::text::error_text;
use crate::text::expected_str;
use crate::text::expected_text;
use crate::text::tt_str;
use crate::token::Token;
use crate::token::TokenType;
use crate::token::TokenValue;
use crate::token::tokens_wf;
use vstd::string::StringExecFns;

verus! {

/// The parser: the token sequence under scrutiny and a cursor into it.
/// Reusable sequentially: `run` resets the cursor and replaces the
/// tokens.
pub struct Parser {
    tokens: Vec<Token>,
    current: usize,
}

/// A syntax error, carrying the fully rendered message.
#[derive(Debug)]
pub struct SyntaxError(String);

impl View for SyntaxError {
    type V = Seq<char>;

    closed spec fn view(&self) -> Seq<char> {
        self.0@
    }
}

impl SyntaxError {
    /// The rendered message.
    pub fn message(&self) -> (r: &str)
        ensures
            r@ == self@,
    {
        self.0.as_str()
    }
}

type ParseResult<T> = Result<T, SyntaxError>;

impl Parser {
    /// The token sequence under scrutiny.
    pub closed spec fn toks(&self) -> Seq<Token> {
        self.tokens@
    }

    /// The cursor position.
    pub closed spec fn pos(&self) -> int {
        self.current as int
    }

    /// The parser's invariant while parsing: a well-formed token stream,
    /// the cursor at one of its tokens.
    pub open spec fn wf(&self) -> bool {
        &&& tokens_wf(self.toks())
        &&& 0 <= self.pos() < self.toks().len()
    }

    /// A fresh parser with no tokens.
    pub fn new() -> (r: Parser)
        ensures
            r.toks().len() == 0,
            r.pos() == 0,
    {
        Parser { tokens: Vec::new(), current: 0 }
    }

    /// Rewinds the cursor to the beginning.
    fn reset(&mut self)
        ensures
            final(self).toks() == old(self).toks(),
            final(self).pos() == 0,
    {
        self.current = 0;
    }

    /// The token at the cursor.
    fn current_token(&self) -> (r: &Token)
        requires
            self.wf(),
        ensures
            *r == self.toks()[self.pos()],
    {
        &self.tokens[self.current]
    }

    /// The token after the cursor; the cursor must not be at the
    /// end-of-stream marker.
    fn next_token(&self) -> (r: &Token)
        requires
            self.wf(),
            self.toks()[self.pos()].t != TokenType::Eos,
        ensures
            *r == self.toks()[self.pos() + 1],
    {
        proof {
            assert(self.toks()[self.toks().len() - 1].t == TokenType::Eos);
            assert(self.pos() != self.toks().len() - 1);
        }
        // the length is an exec usize, so the advanced index stays in bounds
        let _n = self.tokens.len();
        &self.tokens[self.current + 1]
    }

    /// The type of the token at the cursor.
    fn current_token_type(&self) -> (r: TokenType)
        requires
            self.wf(),
        ensures
            r == self.toks()[self.pos()].t,
    {
        let token = self.current_token();
        token.t
    }

    /// The line of the token at the cursor.
    fn current_line(&self) -> (r: usize)
        requires
            self.wf(),
        ensures
            r == self.toks()[self.pos()].source.line,
    {
        let token = self.current_token();
        token.source.line
    }

    /// The type of the token after the cursor.
    fn next_token_type(&self) -> (r: TokenType)
        requires
            self.wf(),
            self.toks()[self.pos()].t != TokenType::Eos,
        ensures
            r == self.toks()[self.pos() + 1].t,
    {
        let token = self.next_token();
        token.t
    }

    /// Advances the cursor one token; never past the end-of-stream
    /// marker.
    fn next(&mut self)
        requires
            old(self).wf(),
            old(self).toks()[old(self).pos()].t != TokenType::Eos,
        ensures
            final(self).wf(),
            final(self).toks() == old(self).toks(),
            final(self).pos() == old(self).pos() + 1,
    {
        proof {
            assert(self.toks()[self.toks().len() - 1].t == TokenType::Eos);
            assert(self.pos() != self.toks().len() - 1);
        }
        // the length is an exec usize, so the advanced cursor stays in bounds
        let _n = self.tokens.len();
        self.current = self.current + 1;
    }

    /// Whether the cursor is at a block-terminating token.
    fn is_block_end(&self) -> (r: bool)
        requires
            self.wf(),
        ensures
            r == is_block_end_t(self.toks()[self.pos()].t),
    {
        let token = self.current_token();
        match token.t {
            TokenType::Else
            | TokenType::ElseIf
            | TokenType::End
            | TokenType::Until
            | TokenType::Eos => true,
            _ => false,
        }
    }

    /// Builds a syntax error for the token at the cursor, with the given
    /// message.
    fn syntax_error(&self, msg: &str) -> (r: SyntaxError)
        requires
            self.wf(),
        ensures
            r@ == error_text(msg@, self.toks()[self.pos()]),
    {
        SyntaxError(error_str(msg, self.current_token()))
    }

    /// Builds the `<X> expected` syntax error for the token at the
    /// cursor.
    fn error_expected(&self, expected: TokenType) -> (r: SyntaxError)
        requires
            self.wf(),
        ensures
            r@ == error_text(expected_text(expected), self.toks()[self.pos()]),
    {
        let msg = expected_str(expected);
        self.syntax_error(msg.as_str())
    }

    /// Whether the token at the cursor has the expected type.
    fn test(&self, expected: TokenType) -> (r: bool)
        requires
            self.wf(),
        ensures
            r == (self.toks()[self.pos()].t == expected),
    {
        self.current_token_type() == expected
    }

    /// Consumes the token at the cursor when it has the expected type.
    fn test_next(&mut self, expected: TokenType) -> (r: bool)
        requires
            old(self).wf(),
            expected != TokenType::Eos,
        ensures
            final(self).wf(),
            final(self).toks() == old(self).toks(),
            r == (old(self).toks()[old(self).pos()].t == expected),
            r ==> final(self).pos() == old(self).pos() + 1,
            !r ==> final(self).pos() == old(self).pos(),
    {
        if self.test(expected) {
            self.next();
            true
        } else {
            false
        }
    }

    /// Demands the expected token type at the cursor, without consuming
    /// it; errs with `<X> expected` otherwise.
    fn check(&self, expected: TokenType) -> (r: ParseResult<()>)
        requires
            self.wf(),
        ensures
            match r {
                Ok(_) => self.toks()[self.pos()].t == expected,
                Err(e) => self.toks()[self.pos()].t != expected && e@ == error_text(
                    expected_text(expected),
                    self.toks()[self.pos()],
                ),
            },
    {
        if self.current_token_type() != expected {
            Err(self.error_expected(expected))
        } else {
            Ok(())
        }
    }

    /// Demands and consumes the expected token type at the cursor.
    fn check_next(&mut self, expected: TokenType) -> (r: ParseResult<()>)
        requires
            old(self).wf(),
            expected != TokenType::Eos,
        ensures
            final(self).wf(),
            final(self).toks() == old(self).toks(),
            match r {
                Ok(_) => old(self).toks()[old(self).pos()].t == expected && final(self).pos() == old(
                    self,
                ).pos() + 1,
                Err(e) => old(self).toks()[old(self).pos()].t != expected && final(self).pos() == old(
                    self,
                ).pos() && e@ == error_text(
                    expected_text(expected),
                    final(self).toks()[final(self).pos()],
                ),
            },
    {
        let c = self.check(expected);
        match c {
            Ok(_) => {
                self.next();
                Ok(())
            },
            Err(e) => Err(e),
        }
    }

    /// Demands and consumes the closer of a delimited construct. When it
    /// is missing, the diagnostic depends on the line: on the opener's
    /// own line a plain `<X> expected`, on a later line the cross-line
    /// message naming the opener and its line.
    fn check_match(&mut self, end: TokenType, start: TokenType, line: usize) -> (r: ParseResult<()>)
        requires
            old(self).wf(),
            end != TokenType::Eos,
        ensures
            final(self).wf(),
            final(self).toks() == old(self).toks(),
            match r {
                Ok(_) => old(self).toks()[old(self).pos()].t == end && final(self).pos() == old(
                    self,
                ).pos() + 1,
                Err(e) => old(self).toks()[old(self).pos()].t != end && final(self).pos() == old(
                    self,
                ).pos() && e@ == error_text(
                    if line == old(self).toks()[old(self).pos()].source.line {
                        expected_text(end)
                    } else {
                        close_text(end, start, line as int)
                    },
                    final(self).toks()[final(self).pos()],
                ),
            },
    {
        if self.current_token_type() != end {
            if line == self.current_line() {
                return Err(self.error_expected(end));
            } else {
                let msg = close_str(end, start, line);
                return Err(self.syntax_error(msg.as_str()));
            }
        }
        self.next();
        Ok(())
    }

    /// Demands a name token at the cursor, consumes it, and hands its
    /// string payload out.
    fn check_name(&mut self) -> (r: ParseResult<String>)
        requires
            old(self).wf(),
        ensures
            final(self).wf(),
            final(self).toks() == old(self).toks(),
            match r {
                Ok(s) => old(self).toks()[old(self).pos()].t == TokenType::Name && s@ == old(
                    self,
                ).toks()[old(self).pos()].str_value() && final(self).pos() == old(self).pos() + 1,
                Err(e) => old(self).toks()[old(self).pos()].t != TokenType::Name && final(self).pos()
                    == old(self).pos() && e@ == error_text(
                    expected_text(TokenType::Name),
                    final(self).toks()[final(self).pos()],
                ),
            },
    {
        let c = self.check(TokenType::Name);
        match c {
            Ok(_) => {
                let token = self.current_token();
                let name = match &token.value {
                    TokenValue::Str(s) => s.clone(),
                    _ => String::new(),
                };
                self.next();
                Ok(name)
            },
            Err(e) => Err(e),
        }
    }

    /// The unary operator denoted by the token at the cursor.
    fn get_unop(&self) -> (r: UnOp)
        requires
            self.wf(),
        ensures
            r == unop_of(self.toks()[self.pos()].t),
    {
        UnOp::from_token(self.current_token_type())
    }

    /// The binary operator denoted by the token at the cursor.
    fn get_binop(&self) -> (r: BinOp)
        requires
            self.wf(),
        ensures
            r == binop_of(self.toks()[self.pos()].t),
    {
        BinOp::from_token(self.current_token_type())
    }

    /// Parses one top-level block out of the given token stream, after
    /// resetting the cursor: the root of the tree when the grammar
    /// accepts the input, the first syntax error otherwise.
    pub fn run(&mut self, tokens: Vec<Token>) -> (r: ParseResult<Block>)
        requires
            tokens_wf(tokens@),
        ensures
            match r {
                Ok(b) => spec_parse(tokens@) == Some(b.deep()) && ret_is_last(b.deep()),
                Err(e) => spec_parse(tokens@) is None && e@ == spec_err_parse(tokens@),
            },
    {
        self.reset();
        self.tokens = tokens;
        self.block()
    }

    /// `block -> { stat }`: statements until a block-terminating token,
    /// a parsed return statement being the last one collected.
    fn block(&mut self) -> (r: ParseResult<Block>)
        requires
            old(self).wf(),
        ensures
            final(self).wf(),
            final(self).toks() == old(self).toks(),
            match r {
                Ok(b) => spec_block(old(self).toks(), old(self).pos()) == Some(
                    (b.deep(), final(self).pos()),
                ) && old(self).pos() <= final(self).pos() && ret_is_last(b.deep()),
                Err(e) => spec_block(old(self).toks(), old(self).pos()) is None && e@
                    == spec_err_block(old(self).toks(), old(self).pos()),
            },
        decreases self.toks().len() - self.pos(), 50int,
    {
        let ghost toks = self.toks();
        let ghost pos0 = self.pos();
        let mut stats: Vec<Stat> = Vec::new();
        proof {
            assert(stats_deep(stats@) =~= Seq::<StatV>::empty());
            match spec_stats(toks, pos0) {
                Some((ss, p)) => {
                    assert(stats_deep(stats@) + ss =~= ss);
                },
                None => {},
            }
        }
        loop
            invariant_except_break
                spec_err_stats(toks, pos0) == spec_err_stats(toks, self.pos()),
                spec_stats(toks, pos0) == (match spec_stats(toks, self.pos()) {
                    Some((ss, p)) => Some((stats_deep(stats@) + ss, p)),
                    None => None::<(Seq<StatV>, int)>,
                }),
                forall|i: int|
                    0 <= i < stats@.len() ==> !((#[trigger] stats@[i]).deep() is RetStat),
            invariant
                self.wf(),
                self.toks() == toks,
                toks == old(self).toks(),
                pos0 == old(self).pos(),
                pos0 <= self.pos(),
            ensures
                self.wf(),
                self.toks() == toks,
                pos0 <= self.pos(),
                spec_stats(toks, pos0) == Some((stats_deep(stats@), self.pos())),
                forall|i: int|
                    0 <= i < stats@.len() - 1 ==> !((#[trigger] stats@[i]).deep() is RetStat),
            decreases self.toks().len() - self.pos(),
        {
            if self.is_block_end() {
                proof {
                    assert(spec_stats(toks, self.pos()) == Some(
                        (Seq::<StatV>::empty(), self.pos()),
                    ));
                    assert(stats_deep(stats@) + Seq::<StatV>::empty() =~= stats_deep(stats@));
                }
                break;
            }
            let ghost cur = self.pos();
            let is_ret = self.current_token_type() == TokenType::Return;
            let s = match self.stat() {
                Ok(s) => s,
                Err(e) => {
                    proof {
                        assert(spec_stats(toks, cur) is None);
                        assert(spec_err_stats(toks, cur) == spec_err_stat(toks, cur));
                    }
                    return Err(e);
                },
            };
            let ghost prev = stats@;
            let ghost sd = s.deep();
            let ghost p1 = self.pos();
            stats.push(s);
            proof {
                assert(stats@ == prev.push(s));
                assert(stats_deep(stats@) =~= stats_deep(prev).push(sd));
            }
            if is_ret {
                proof {
                    assert(spec_stats(toks, cur) == Some((seq![sd], p1)));
                    assert(stats_deep(prev) + seq![sd] =~= stats_deep(stats@));
                }
                break;
            }
            proof {
                assert(spec_stats(toks, cur) == (match spec_stats(toks, p1) {
                    Some((ss, p)) => Some((seq![sd] + ss, p)),
                    None => None::<(Seq<StatV>, int)>,
                }));
                assert(spec_err_stats(toks, cur) == spec_err_stats(toks, p1));
                match spec_stats(toks, p1) {
                    Some((ss, p)) => {
                        assert(stats_deep(prev) + (seq![sd] + ss) =~= stats_deep(stats@) + ss);
                    },
                    None => {},
                }
            }
        }
        let b = Block { stats };
        Ok(b)
    }

    /// `stat`: dispatch on the current token's type to one of the
    /// statement productions.
    fn stat(&mut self) -> (r: ParseResult<Stat>)
        requires
            old(self).wf(),
        ensures
            final(self).wf(),
            final(self).toks() == old(self).toks(),
            match r {
                Ok(s) => spec_stat(old(self).toks(), old(self).pos()) == Some(
                    (s.deep(), final(self).pos()),
                ) && old(self).pos() < final(self).pos() && ((s.deep() is RetStat) <==> old(
                    self,
                ).toks()[old(self).pos()].t == TokenType::Return),
                Err(e) => spec_stat(old(self).toks(), old(self).pos()) is None && e@
                    == spec_err_stat(old(self).toks(), old(self).pos()),
            },
        decreases self.toks().len() - self.pos(), 48int,
    {
        let line = self.current_line();
        match self.current_token_type() {
            TokenType::Semi => {
                self.next();
                Ok(Stat::Empty)
            },
            TokenType::If => match self.ifstat() {
                Ok(s) => Ok(Stat::IfStat(s)),
                Err(e) => Err(e),
            },
            TokenType::While => match self.whilestat() {
                Ok(s) => Ok(Stat::WhileStat(s)),
                Err(e) => Err(e),
            },
            TokenType::Do => {
                self.next();
                let block = self.block()?;
                self.check_match(TokenType::End, TokenType::Do, line)?;
                Ok(Stat::DoBlock(DoBlock { block }))
            },
            TokenType::For => match self.forstat() {
                Ok(s) => Ok(Stat::ForStat(s)),
                Err(e) => Err(e),
            },
            TokenType::Repeat => match self.repeatstat() {
                Ok(s) => Ok(Stat::RepeatStat(s)),
                Err(e) => Err(e),
            },
            TokenType::Function => match self.funcstat() {
                Ok(s) => Ok(Stat::FuncStat(s)),
                Err(e) => Err(e),
            },
            TokenType::Local => {
                self.next();
                if self.test(TokenType::Function) {
                    match self.localfunc() {
                        Ok(s) => Ok(Stat::FuncStat(s)),
                        Err(e) => Err(e),
                    }
                } else {
                    match self.localstat() {
                        Ok(s) => Ok(Stat::LocalStat(s)),
                        Err(e) => Err(e),
                    }
                }
            },
            TokenType::DbColon => {
                self.next();
                match self.labelstat() {
                    Ok(s) => Ok(Stat::LabelStat(s)),
                    Err(e) => Err(e),
                }
            },
            TokenType::Return => {
                self.next();
                match self.retstat() {
                    Ok(s) => Ok(Stat::RetStat(s)),
                    Err(e) => Err(e),
                }
            },
            TokenType::Break => match self.breakstat() {
                Ok(s) => Ok(Stat::BreakStat(s)),
                Err(e) => Err(e),
            },
            TokenType::Goto => match self.gotostat() {
                Ok(s) => Ok(Stat::GotoStat(s)),
                Err(e) => Err(e),
            },
            _ => self.exprstat(),
        }
    }

    /// `ifstat -> IF cond THEN block {ELSEIF cond THEN block}
    /// [ELSE block] END`.
    #[verifier::rlimit(100)]
    #[verifier::spinoff_prover]
    fn ifstat(&mut self) -> (r: ParseResult<IfStat>)
        requires
            old(self).wf(),
            old(self).toks()[old(self).pos()].t == TokenType::If,
        ensures
            final(self).wf(),
            final(self).toks() == old(self).toks(),
            match r {
                Ok(s) => spec_ifstat(old(self).toks(), old(self).pos()) == Some(
                    (s.deep(), final(self).pos()),
                ) && old(self).pos() < final(self).pos(),
                Err(e) => spec_ifstat(old(self).toks(), old(self).pos()) is None && e@
                    == spec_err_ifstat(old(self).toks(), old(self).pos()),
            },
        decreases self.toks().len() - self.pos(), 47int,
    {
        let ghost toks = self.toks();
        let ghost pos0 = self.pos();
        let line = self.current_line();
        let mut cond_blocks: Vec<CondBlock> = Vec::new();
        let cb0 = match self.test_then_block() {
            Ok(cb) => cb,
            Err(e) => {
                return Err(e);
            },
        };
        let ghost cb0d = cb0.deep();
        let ghost p1 = self.pos();
        cond_blocks.push(cb0);
        proof {
            assert(cond_blocks_deep(cond_blocks@).drop_first() =~= Seq::<CondBlockV>::empty());
            match spec_cond_blocks(toks, p1) {
                Some((cbs, p)) => {
                    assert(cond_blocks_deep(cond_blocks@).drop_first() + cbs =~= cbs);
                },
                None => {},
            }
        }
        loop
            invariant
                self.wf(),
                self.toks() == toks,
                toks == old(self).toks(),
                pos0 == old(self).pos(),
                pos0 < p1,
                p1 <= self.pos(),
                toks[pos0].t == TokenType::If,
                spec_test_then_block(toks, pos0) == Some((cb0d, p1)),
                cond_blocks@.len() >= 1,
                cond_blocks@[0].deep() == cb0d,
                spec_err_cond_blocks(toks, p1) == spec_err_cond_blocks(toks, self.pos()),
                spec_cond_blocks(toks, p1) == (match spec_cond_blocks(toks, self.pos()) {
                    Some((cbs, p)) => Some(
                        (cond_blocks_deep(cond_blocks@).drop_first() + cbs, p),
                    ),
                    None => None::<(Seq<CondBlockV>, int)>,
                }),
            ensures
                self.wf(),
                self.toks() == toks,
                pos0 < p1,
                p1 <= self.pos(),
                cond_blocks@.len() >= 1,
                cond_blocks@[0].deep() == cb0d,
                spec_cond_blocks(toks, p1) == Some(
                    (cond_blocks_deep(cond_blocks@).drop_first(), self.pos()),
                ),
            decreases self.toks().len() - self.pos(),
        {
            if !(self.current_token_type() == TokenType::ElseIf) {
                proof {
                    assert(spec_cond_blocks(toks, self.pos()) == Some(
                        (Seq::<CondBlockV>::empty(), self.pos()),
                    ));
                    assert(cond_blocks_deep(cond_blocks@).drop_first()
                        + Seq::<CondBlockV>::empty() =~= cond_blocks_deep(
                        cond_blocks@,
                    ).drop_first());
                }
                break;
            }
            let ghost cur = self.pos();
            let cb = match self.test_then_block() {
                Ok(cb) => cb,
                Err(e) => {
                    proof {
                        assert(spec_cond_blocks(toks, cur) is None);
                        assert(spec_err_cond_blocks(toks, cur) == spec_err_test_then_block(
                            toks,
                            cur,
                        ));
                    }
                    return Err(e);
                },
            };
            let ghost prev = cond_blocks@;
            let ghost cbd = cb.deep();
            let ghost pn = self.pos();
            cond_blocks.push(cb);
            proof {
                assert(cond_blocks@ == prev.push(cb));
                assert(cond_blocks_deep(cond_blocks@) =~= cond_blocks_deep(prev).push(cbd));
                assert(spec_cond_blocks(toks, cur) == (match spec_cond_blocks(toks, pn) {
                    Some((cbs, p)) => Some((seq![cbd] + cbs, p)),
                    None => None::<(Seq<CondBlockV>, int)>,
                }));
                assert(spec_err_cond_blocks(toks, cur) == spec_err_cond_blocks(toks, pn));
                match spec_cond_blocks(toks, pn) {
                    Some((cbs, p)) => {
                        assert(cond_blocks_deep(prev).drop_first() + (seq![cbd] + cbs)
                            =~= cond_blocks_deep(cond_blocks@).drop_first() + cbs);
                    },
                    None => {},
                }
            }
        }
        let mut else_block = Block::empty();
        let ghost p2 = self.pos();
        if self.test_next(TokenType::Else) {
            else_block = match self.block() {
                Ok(b) => b,
                Err(e) => {
                    return Err(e);
                },
            };
        }
        match self.check_match(TokenType::End, TokenType::If, line) {
            Ok(_) => (),
            Err(e) => {
                return Err(e);
            },
        }
        let r = IfStat { cond_blocks, else_block };
        proof {
            assert(seq![cb0d] + cond_blocks_deep(r.cond_blocks@).drop_first()
                =~= cond_blocks_deep(r.cond_blocks@));
        }
        Ok(r)
    }

    /// `(IF | ELSEIF) cond THEN block`.
    fn test_then_block(&mut self) -> (r: ParseResult<CondBlock>)
        requires
            old(self).wf(),
            old(self).toks()[old(self).pos()].t != TokenType::Eos,
        ensures
            final(self).wf(),
            final(self).toks() == old(self).toks(),
            match r {
                Ok(cb) => spec_test_then_block(old(self).toks(), old(self).pos()) == Some(
                    (cb.deep(), final(self).pos()),
                ) && old(self).pos() < final(self).pos(),
                Err(e) => spec_test_then_block(old(self).toks(), old(self).pos()) is None && e@
                    == spec_err_test_then_block(old(self).toks(), old(self).pos()),
            },
        decreases self.toks().len() - self.pos(), 45int,
    {
        self.next();
        let cond = self.cond()?;
        self.check_next(TokenType::Then)?;
        let block = self.block()?;
        Ok(CondBlock { cond, block })
    }

    /// `whilestat -> WHILE cond DO block END`.
    fn whilestat(&mut self) -> (r: ParseResult<WhileStat>)
        requires
            old(self).wf(),
            old(self).toks()[old(self).pos()].t == TokenType::While,
        ensures
            final(self).wf(),
            final(self).toks() == old(self).toks(),
            match r {
                Ok(s) => spec_whilestat(old(self).toks(), old(self).pos()) == Some(
                    (s.deep(), final(self).pos()),
                ) && old(self).pos() < final(self).pos(),
                Err(e) => spec_whilestat(old(self).toks(), old(self).pos()) is None && e@
                    == spec_err_whilestat(old(self).toks(), old(self).pos()),
            },
        decreases self.toks().len() - self.pos(), 47int,
    {
        let line = self.current_line();
        self.next();
        let cond = self.cond()?;
        self.check_next(TokenType::Do)?;
        let block = self.block()?;
        self.check_match(TokenType::End, TokenType::While, line)?;
        Ok(WhileStat { cond, block })
    }

    /// `cond -> expr`.
    fn cond(&mut self) -> (r: ParseResult<Expr>)
        requires
            old(self).wf(),
        ensures
            final(self).wf(),
            final(self).toks() == old(self).toks(),
            match r {
                Ok(e) => spec_expr(old(self).toks(), old(self).pos()) == Some(
                    (e.deep(), final(self).pos()),
                ) && old(self).pos() < final(self).pos(),
                Err(e) => spec_expr(old(self).toks(), old(self).pos()) is None && e@
                    == spec_err_expr(old(self).toks(), old(self).pos()),
            },
        decreases self.toks().len() - self.pos(), 36int,
    {
        self.expr()
    }

    /// `forstat -> FOR (fornum | forlist) END`.
    fn forstat(&mut self) -> (r: ParseResult<ForStat>)
        requires
            old(self).wf(),
            old(self).toks()[old(self).pos()].t == TokenType::For,
        ensures
            final(self).wf(),
            final(self).toks() == old(self).toks(),
            match r {
                Ok(s) => spec_forstat(old(self).toks(), old(self).pos()) == Some(
                    (s.deep(), final(self).pos()),
                ) && old(self).pos() < final(self).pos(),
                Err(e) => spec_forstat(old(self).toks(), old(self).pos()) is None && e@
                    == spec_err_forstat(old(self).toks(), old(self).pos()),
            },
        decreases self.toks().len() - self.pos(), 47int,
    {
        let line = self.current_line();
        self.next();
        let var_name = self.check_name()?;
        let t = self.current_token_type();
        let forstat = if t == TokenType::Assign {
            self.forenum(var_name.as_str())
        } else if t == TokenType::Comma || t == TokenType::In {
            self.forlist(var_name.as_str())
        } else {
            Err(self.syntax_error("'=' or 'in' expected"))
        };
        match forstat {
            Ok(stat) => {
                self.check_match(TokenType::End, TokenType::For, line)?;
                Ok(stat)
            },
            Err(err) => Err(err),
        }
    }

    /// `fornum -> NAME '=' exp ',' exp [',' exp] DO block`, entered at
    /// the `=`, the loop variable already read.
    fn forenum(&mut self, var_name: &str) -> (r: ParseResult<ForStat>)
        requires
            old(self).wf(),
            old(self).toks()[old(self).pos()].t == TokenType::Assign,
        ensures
            final(self).wf(),
            final(self).toks() == old(self).toks(),
            match r {
                Ok(s) => spec_forenum(old(self).toks(), old(self).pos(), var_name@) == Some(
                    (s.deep(), final(self).pos()),
                ) && old(self).pos() < final(self).pos(),
                Err(e) => spec_forenum(old(self).toks(), old(self).pos(), var_name@) is None
                    && e@ == spec_err_forenum(old(self).toks(), old(self).pos()),
            },
        decreases self.toks().len() - self.pos(), 46int,
    {
        self.next();
        let init = self.expr()?;
        self.check_next(TokenType::Comma)?;
        let limit = self.expr()?;
        let mut step: Option<Expr> = None;
        if self.test_next(TokenType::Comma) {
            step = Some(self.expr()?);
        }
        self.check_next(TokenType::Do)?;
        let body = self.block()?;
        Ok(ForStat::ForNum(ForNum { var: var_name.to_owned(), init, limit, step, body }))
    }

    /// `forlist -> NAME {',' NAME} IN explist DO block`, entered at the
    /// `,` or `in`, the first loop variable already read.
    #[verifier::rlimit(100)]
    #[verifier::spinoff_prover]
    fn forlist(&mut self, var_name: &str) -> (r: ParseResult<ForStat>)
        requires
            old(self).wf(),
            old(self).toks()[old(self).pos()].t == TokenType::Comma || old(self).toks()[old(
                self,
            ).pos()].t == TokenType::In,
        ensures
            final(self).wf(),
            final(self).toks() == old(self).toks(),
            match r {
                Ok(s) => spec_forlist(old(self).toks(), old(self).pos(), var_name@) == Some(
                    (s.deep(), final(self).pos()),
                ) && old(self).pos() < final(self).pos(),
                Err(e) => spec_forlist(old(self).toks(), old(self).pos(), var_name@) is None
                    && e@ == spec_err_forlist(old(self).toks(), old(self).pos()),
            },
        decreases self.toks().len() - self.pos(), 46int,
    {
        let ghost toks = self.toks();
        let ghost pos0 = self.pos();
        let ghost var0 = var_name@;
        let mut vars: Vec<String> = Vec::new();
        vars.push(var_name.to_owned());
        proof {
            assert(names_deep(vars@).drop_first() =~= Seq::<Seq<char>>::empty());
            match spec_more_names(toks, pos0) {
                Some((ns, p)) => {
                    assert(names_deep(vars@).drop_first() + ns =~= ns);
                },
                None => {},
            }
        }
        loop
            invariant
                self.wf(),
                self.toks() == toks,
                toks == old(self).toks(),
                pos0 == old(self).pos(),
                pos0 <= self.pos(),
                vars@.len() >= 1,
                vars@[0]@ == var0,
                spec_err_more_names(toks, pos0) == spec_err_more_names(toks, self.pos()),
                spec_more_names(toks, pos0) == (match spec_more_names(toks, self.pos()) {
                    Some((ns, p)) => Some((names_deep(vars@).drop_first() + ns, p)),
                    None => None::<(Seq<Seq<char>>, int)>,
                }),
            ensures
                self.wf(),
                self.toks() == toks,
                pos0 <= self.pos(),
                vars@.len() >= 1,
                vars@[0]@ == var0,
                spec_more_names(toks, pos0) == Some(
                    (names_deep(vars@).drop_first(), self.pos()),
                ),
            decreases self.toks().len() - self.pos(),
        {
            let ghost cur = self.pos();
            if !self.test_next(TokenType::Comma) {
                proof {
                    assert(spec_more_names(toks, cur) == Some(
                        (Seq::<Seq<char>>::empty(), cur),
                    ));
                    assert(names_deep(vars@).drop_first() + Seq::<Seq<char>>::empty()
                        =~= names_deep(vars@).drop_first());
                }
                break;
            }
            let n = match self.check_name() {
                Ok(n) => n,
                Err(e) => {
                    proof {
                        assert(spec_more_names(toks, cur) is None);
                        assert(spec_err_more_names(toks, cur) == error_text(
                            expected_text(TokenType::Name),
                            toks[cur + 1],
                        ));
                    }
                    return Err(e);
                },
            };
            let ghost prev = vars@;
            let ghost nv = n@;
            vars.push(n);
            proof {
                assert(vars@ == prev.push(n));
                assert(names_deep(vars@) =~= names_deep(prev).push(nv));
                assert(spec_more_names(toks, cur) == (match spec_more_names(toks, cur + 2) {
                    Some((ns, p)) => Some((seq![nv] + ns, p)),
                    None => None::<(Seq<Seq<char>>, int)>,
                }));
                assert(spec_err_more_names(toks, cur) == spec_err_more_names(toks, cur + 2));
                match spec_more_names(toks, cur + 2) {
                    Some((ns, p)) => {
                        assert(names_deep(prev).drop_first() + (seq![nv] + ns) =~= names_deep(
                            vars@,
                        ).drop_first() + ns);
                    },
                    None => {},
                }
            }
        }
        self.check_next(TokenType::In)?;
        let exprs = self.exprlist()?;
        self.check_next(TokenType::Do)?;
        let body = self.block()?;
        proof {
            assert(seq![var0] + names_deep(vars@).drop_first() =~= names_deep(vars@));
        }
        Ok(ForStat::ForList(ForList { vars, exprs, body }))
    }

    /// `repeatstat -> REPEAT block UNTIL cond`.
    fn repeatstat(&mut self) -> (r: ParseResult<RepeatStat>)
        requires
            old(self).wf(),
            old(self).toks()[old(self).pos()].t == TokenType::Repeat,
        ensures
            final(self).wf(),
            final(self).toks() == old(self).toks(),
            match r {
                Ok(s) => spec_repeatstat(old(self).toks(), old(self).pos()) == Some(
                    (s.deep(), final(self).pos()),
                ) && old(self).pos() < final(self).pos(),
                Err(e) => spec_repeatstat(old(self).toks(), old(self).pos()) is None && e@
                    == spec_err_repeatstat(old(self).toks(), old(self).pos()),
            },
        decreases self.toks().len() - self.pos(), 47int,
    {
        let line = self.current_line();
        self.next();
        let block = self.block()?;
        self.check_match(TokenType::Until, TokenType::Repeat, line)?;
        let cond = self.cond()?;
        Ok(RepeatStat { block, cond })
    }

    /// `funcstat -> FUNCTION funcname body`.
    fn funcstat(&mut self) -> (r: ParseResult<FuncStat>)
        requires
            old(self).wf(),
            old(self).toks()[old(self).pos()].t == TokenType::Function,
        ensures
            final(self).wf(),
            final(self).toks() == old(self).toks(),
            match r {
                Ok(s) => spec_funcstat(old(self).toks(), old(self).pos()) == Some(
                    (s.deep(), final(self).pos()),
                ) && old(self).pos() < final(self).pos(),
                Err(e) => spec_funcstat(old(self).toks(), old(self).pos()) is None && e@
                    == spec_err_funcstat(old(self).toks(), old(self).pos()),
            },
        decreases self.toks().len() - self.pos(), 47int,
    {
        self.next();
        let func_name = self.funcname()?;
        let body = self.funcbody()?;
        Ok(FuncStat { func_type: FuncType::Global, func_name, body })
    }

    /// `funcname -> NAME {'.' NAME} [':' NAME]`.
    fn funcname(&mut self) -> (r: ParseResult<FuncName>)
        requires
            old(self).wf(),
        ensures
            final(self).wf(),
            final(self).toks() == old(self).toks(),
            match r {
                Ok(f) => spec_funcname(old(self).toks(), old(self).pos()) == Some(
                    (f.deep(), final(self).pos()),
                ) && old(self).pos() < final(self).pos(),
                Err(e) => spec_funcname(old(self).toks(), old(self).pos()) is None && e@
                    == spec_err_funcname(old(self).toks(), old(self).pos()),
            },
    {
        let ghost toks = self.toks();
        let ghost pos0 = self.pos();
        let n0 = self.check_name()?;
        let ghost n0v = n0@;
        let ghost p1 = self.pos();
        let mut fields: Vec<String> = Vec::new();
        fields.push(n0);
        proof {
            assert(names_deep(fields@).drop_first() =~= Seq::<Seq<char>>::empty());
            match spec_dotted(toks, p1) {
                Some((ns, p)) => {
                    assert(names_deep(fields@).drop_first() + ns =~= ns);
                },
                None => {},
            }
        }
        loop
            invariant
                self.wf(),
                self.toks() == toks,
                toks == old(self).toks(),
                pos0 == old(self).pos(),
                pos0 < p1,
                p1 == pos0 + 1,
                p1 <= self.pos(),
                toks[pos0].t == TokenType::Name,
                n0v == toks[pos0].str_value(),
                fields@.len() >= 1,
                fields@[0]@ == n0v,
                spec_err_dotted(toks, p1) == spec_err_dotted(toks, self.pos()),
                spec_dotted(toks, p1) == (match spec_dotted(toks, self.pos()) {
                    Some((ns, p)) => Some((names_deep(fields@).drop_first() + ns, p)),
                    None => None::<(Seq<Seq<char>>, int)>,
                }),
            ensures
                self.wf(),
                self.toks() == toks,
                pos0 < p1,
                p1 <= self.pos(),
                fields@.len() >= 1,
                fields@[0]@ == n0v,
                spec_dotted(toks, p1) == Some(
                    (names_deep(fields@).drop_first(), self.pos()),
                ),
            decreases self.toks().len() - self.pos(),
        {
            let ghost cur = self.pos();
            if !self.test_next(TokenType::Attr) {
                proof {
                    assert(spec_dotted(toks, cur) == Some((Seq::<Seq<char>>::empty(), cur)));
                    assert(names_deep(fields@).drop_first() + Seq::<Seq<char>>::empty()
                        =~= names_deep(fields@).drop_first());
                }
                break;
            }
            let n = match self.check_name() {
                Ok(n) => n,
                Err(e) => {
                    proof {
                        assert(spec_dotted(toks, cur) is None);
                        assert(spec_err_dotted(toks, cur) == error_text(
                            expected_text(TokenType::Name),
                            toks[cur + 1],
                        ));
                    }
                    return Err(e);
                },
            };
            let ghost prev = fields@;
            let ghost nv = n@;
            fields.push(n);
            proof {
                assert(fields@ == prev.push(n));
                assert(names_deep(fields@) =~= names_deep(prev).push(nv));
                assert(spec_dotted(toks, cur) == (match spec_dotted(toks, cur + 2) {
                    Some((ns, p)) => Some((seq![nv] + ns, p)),
                    None => None::<(Seq<Seq<char>>, int)>,
                }));
                assert(spec_err_dotted(toks, cur) == spec_err_dotted(toks, cur + 2));
                match spec_dotted(toks, cur + 2) {
                    Some((ns, p)) => {
                        assert(names_deep(prev).drop_first() + (seq![nv] + ns) =~= names_deep(
                            fields@,
                        ).drop_first() + ns);
                    },
                    None => {},
                }
            }
        }
        let mut method: Option<String> = None;
        if self.test_next(TokenType::Colon) {
            method = Some(self.check_name()?);
        }
        let r = FuncName { fields, method };
        proof {
            assert(seq![n0v] + names_deep(r.fields@).drop_first() =~= names_deep(r.fields@));
        }
        Ok(r)
    }

    /// `body -> '(' parlist ')' block END`, entered at the `(`.
    fn funcbody(&mut self) -> (r: ParseResult<FuncBody>)
        requires
            old(self).wf(),
        ensures
            final(self).wf(),
            final(self).toks() == old(self).toks(),
            match r {
                Ok(f) => spec_funcbody(old(self).toks(), old(self).pos()) == Some(
                    (f.deep(), final(self).pos()),
                ) && old(self).pos() < final(self).pos(),
                Err(e) => spec_funcbody(old(self).toks(), old(self).pos()) is None && e@
                    == spec_err_funcbody(old(self).toks(), old(self).pos()),
            },
        decreases self.toks().len() - self.pos(), 41int,
    {
        let ghost toks = self.toks();
        let ghost pos0 = self.pos();
        let line = self.current_line();
        self.check_next(TokenType::Lp)?;
        let ghost pstart = self.pos();
        let mut params: Vec<Param> = Vec::new();
        proof {
            assert(params_deep(params@) =~= Seq::<ParamV>::empty());
            match spec_params(toks, pstart) {
                Some((ps, p)) => {
                    assert(params_deep(params@) + ps =~= ps);
                },
                None => {},
            }
        }
        loop
            invariant_except_break
                spec_err_params(toks, pstart) == spec_err_params(toks, self.pos()),
                spec_params(toks, pstart) == (match spec_params(toks, self.pos()) {
                    Some((ps, p)) => Some((params_deep(params@) + ps, p)),
                    None => None::<(Seq<ParamV>, int)>,
                }),
            invariant
                self.wf(),
                self.toks() == toks,
                toks == old(self).toks(),
                pos0 == old(self).pos(),
                pstart == pos0 + 1,
                pstart <= self.pos(),
                toks[pos0].t == TokenType::Lp,
            ensures
                self.wf(),
                self.toks() == toks,
                pstart == pos0 + 1,
                pstart <= self.pos(),
                spec_params(toks, pstart) == Some((params_deep(params@), self.pos())),
            decreases self.toks().len() - self.pos(),
        {
            if self.test(TokenType::Rp) {
                proof {
                    assert(spec_params(toks, self.pos()) == Some(
                        (Seq::<ParamV>::empty(), self.pos()),
                    ));
                    assert(params_deep(params@) + Seq::<ParamV>::empty() =~= params_deep(
                        params@,
                    ));
                }
                break;
            }
            let ghost cur = self.pos();
            let ghost prev = params@;
            let ghost prm: ParamV;
            match self.current_token_type() {
                TokenType::Dots => {
                    params.push(Param::VarArg);
                    self.next();
                    proof {
                        prm = ParamV::VarArg;
                    }
                },
                TokenType::Name => {
                    let n = match self.check_name() {
                        Ok(n) => n,
                        Err(e) => {
                            return Err(e);
                        },
                    };
                    proof {
                        prm = ParamV::Name(n@);
                    }
                    params.push(Param::Name(n));
                },
                _ => {
                    proof {
                        assert(spec_params(toks, cur) is None);
                        assert(spec_err_params(toks, cur) == error_text(
                            "<name> or '...' expected"@,
                            toks[cur],
                        ));
                    }
                    return Err(self.syntax_error("<name> or '...' expected"));
                },
            }
            proof {
                assert(params@ == prev.push(params@[prev.len() as int]));
                assert(params_deep(params@) =~= params_deep(prev).push(prm));
                assert(self.pos() == cur + 1);
            }
            let more = self.test_next(TokenType::Comma);
            if !more {
                proof {
                    assert(spec_params(toks, cur) == Some((seq![prm], cur + 1)));
                    assert(params_deep(prev) + seq![prm] =~= params_deep(params@));
                }
                break;
            }
            proof {
                assert(spec_params(toks, cur) == (match spec_params(toks, cur + 2) {
                    Some((ps, p)) => Some((seq![prm] + ps, p)),
                    None => None::<(Seq<ParamV>, int)>,
                }));
                assert(spec_err_params(toks, cur) == spec_err_params(toks, cur + 2));
                match spec_params(toks, cur + 2) {
                    Some((ps, p)) => {
                        assert(params_deep(prev) + (seq![prm] + ps) =~= params_deep(params@)
                            + ps);
                    },
                    None => {},
                }
            }
        }
        self.check_next(TokenType::Rp)?;
        let block = self.block()?;
        self.check_match(TokenType::End, TokenType::Function, line)?;
        Ok(FuncBody { params, block })
    }

    /// `LOCAL FUNCTION funcname body`, entered at the `function`.
    fn localfunc(&mut self) -> (r: ParseResult<FuncStat>)
        requires
            old(self).wf(),
            old(self).toks()[old(self).pos()].t == TokenType::Function,
        ensures
            final(self).wf(),
            final(self).toks() == old(self).toks(),
            match r {
                Ok(s) => spec_localfunc(old(self).toks(), old(self).pos()) == Some(
                    (s.deep(), final(self).pos()),
                ) && old(self).pos() < final(self).pos(),
                Err(e) => spec_localfunc(old(self).toks(), old(self).pos()) is None && e@
                    == spec_err_localfunc(old(self).toks(), old(self).pos()),
            },
        decreases self.toks().len() - self.pos(), 42int,
    {
        self.next();
        let func_name = self.funcname()?;
        let body = self.funcbody()?;
        Ok(FuncStat { func_type: FuncType::Local, func_name, body })
    }

    /// `localstat -> LOCAL NAME {',' NAME} ['=' explist]`, entered just
    /// past the `local`.
    fn localstat(&mut self) -> (r: ParseResult<LocalStat>)
        requires
            old(self).wf(),
        ensures
            final(self).wf(),
            final(self).toks() == old(self).toks(),
            match r {
                Ok(s) => spec_localstat(old(self).toks(), old(self).pos()) == Some(
                    (s.deep(), final(self).pos()),
                ) && old(self).pos() < final(self).pos(),
                Err(e) => spec_localstat(old(self).toks(), old(self).pos()) is None && e@
                    == spec_err_localstat(old(self).toks(), old(self).pos()),
            },
        decreases self.toks().len() - self.pos(), 42int,
    {
        let ghost toks = self.toks();
        let ghost pos0 = self.pos();
        let n0 = self.check_name()?;
        let ghost n0v = n0@;
        let ghost p1 = self.pos();
        let mut names: Vec<String> = Vec::new();
        names.push(n0);
        proof {
            assert(names_deep(names@).drop_first() =~= Seq::<Seq<char>>::empty());
            match spec_more_names(toks, p1) {
                Some((ns, p)) => {
                    assert(names_deep(names@).drop_first() + ns =~= ns);
                },
                None => {},
            }
        }
        loop
            invariant
                self.wf(),
                self.toks() == toks,
                toks == old(self).toks(),
                pos0 == old(self).pos(),
                pos0 < p1,
                p1 == pos0 + 1,
                p1 <= self.pos(),
                toks[pos0].t == TokenType::Name,
                n0v == toks[pos0].str_value(),
                names@.len() >= 1,
                names@[0]@ == n0v,
                spec_err_more_names(toks, p1) == spec_err_more_names(toks, self.pos()),
                spec_more_names(toks, p1) == (match spec_more_names(toks, self.pos()) {
                    Some((ns, p)) => Some((names_deep(names@).drop_first() + ns, p)),
                    None => None::<(Seq<Seq<char>>, int)>,
                }),
            ensures
                self.wf(),
                self.toks() == toks,
                pos0 < p1,
                p1 <= self.pos(),
                names@.len() >= 1,
                names@[0]@ == n0v,
                spec_more_names(toks, p1) == Some(
                    (names_deep(names@).drop_first(), self.pos()),
                ),
            decreases self.toks().len() - self.pos(),
        {
            let ghost cur = self.pos();
            if !self.test_next(TokenType::Comma) {
                proof {
                    assert(spec_more_names(toks, cur) == Some(
                        (Seq::<Seq<char>>::empty(), cur),
                    ));
                    assert(names_deep(names@).drop_first() + Seq::<Seq<char>>::empty()
                        =~= names_deep(names@).drop_first());
                }
                break;
            }
            let n = match self.check_name() {
                Ok(n) => n,
                Err(e) => {
                    proof {
                        assert(spec_more_names(toks, cur) is None);
                        assert(spec_err_more_names(toks, cur) == error_text(
                            expected_text(TokenType::Name),
                            toks[cur + 1],
                        ));
                    }
                    return Err(e);
                },
            };
            let ghost prev = names@;
            let ghost nv = n@;
            names.push(n);
            proof {
                assert(names@ == prev.push(n));
                assert(names_deep(names@) =~= names_deep(prev).push(nv));
                assert(spec_more_names(toks, cur) == (match spec_more_names(toks, cur + 2) {
                    Some((ns, p)) => Some((seq![nv] + ns, p)),
                    None => None::<(Seq<Seq<char>>, int)>,
                }));
                assert(spec_err_more_names(toks, cur) == spec_err_more_names(toks, cur + 2));
                match spec_more_names(toks, cur + 2) {
                    Some((ns, p)) => {
                        assert(names_deep(prev).drop_first() + (seq![nv] + ns) =~= names_deep(
                            names@,
                        ).drop_first() + ns);
                    },
                    None => {},
                }
            }
        }
        proof {
            assert(seq![n0v] + names_deep(names@).drop_first() =~= names_deep(names@));
        }
        let mut exprs: Vec<Expr> = Vec::new();
        proof {
            assert(exprs_deep(exprs@) =~= Seq::<ExprV>::empty());
        }
        if self.test_next(TokenType::Assign) {
            exprs = self.exprlist()?;
        }
        Ok(LocalStat { names, exprs })
    }

    /// `label -> '::' NAME '::'`, entered just past the first `::`.
    fn labelstat(&mut self) -> (r: ParseResult<LabelStat>)
        requires
            old(self).wf(),
        ensures
            final(self).wf(),
            final(self).toks() == old(self).toks(),
            match r {
                Ok(l) => old(self).toks()[old(self).pos()].t == TokenType::Name && old(
                    self,
                ).toks()[old(self).pos() + 1].t == TokenType::DbColon && l.deep() == (LabelStatV {
                    label: old(self).toks()[old(self).pos()].str_value(),
                }) && final(self).pos() == old(self).pos() + 2,
                Err(e) => !(old(self).toks()[old(self).pos()].t == TokenType::Name && old(
                    self,
                ).toks()[old(self).pos() + 1].t == TokenType::DbColon) && e@ == (
                if old(self).toks()[old(self).pos()].t == TokenType::Name {
                    error_text(
                        expected_text(TokenType::DbColon),
                        old(self).toks()[old(self).pos() + 1],
                    )
                } else {
                    error_text(expected_text(TokenType::Name), old(self).toks()[old(self).pos()])
                }),
            },
    {
        let label = self.check_name()?;
        self.check_next(TokenType::DbColon)?;
        Ok(LabelStat { label })
    }

    /// `retstat -> RETURN [explist] [';']`, entered just past the
    /// `return`.
    fn retstat(&mut self) -> (r: ParseResult<RetStat>)
        requires
            old(self).wf(),
        ensures
            final(self).wf(),
            final(self).toks() == old(self).toks(),
            match r {
                Ok(s) => spec_retstat(old(self).toks(), old(self).pos()) == Some(
                    (s.deep(), final(self).pos()),
                ) && old(self).pos() <= final(self).pos(),
                Err(e) => spec_retstat(old(self).toks(), old(self).pos()) is None && e@
                    == spec_err_retstat(old(self).toks(), old(self).pos()),
            },
        decreases self.toks().len() - self.pos(), 42int,
    {
        let mut exprs: Vec<Expr> = Vec::new();
        proof {
            assert(exprs_deep(exprs@) =~= Seq::<ExprV>::empty());
        }
        let at_end = self.is_block_end();
        let at_semi = self.test(TokenType::Semi);
        if !at_end && !at_semi {
            exprs = self.exprlist()?;
        }
        self.test_next(TokenType::Semi);
        Ok(RetStat { exprs })
    }

    /// `breakstat -> BREAK`.
    fn breakstat(&mut self) -> (r: ParseResult<BreakStat>)
        requires
            old(self).wf(),
            old(self).toks()[old(self).pos()].t == TokenType::Break,
        ensures
            final(self).wf(),
            final(self).toks() == old(self).toks(),
            r is Ok,
            final(self).pos() == old(self).pos() + 1,
    {
        self.next();
        Ok(BreakStat {  })
    }

    /// `gotostat -> GOTO NAME`.
    fn gotostat(&mut self) -> (r: ParseResult<GotoStat>)
        requires
            old(self).wf(),
            old(self).toks()[old(self).pos()].t == TokenType::Goto,
        ensures
            final(self).wf(),
            final(self).toks() == old(self).toks(),
            match r {
                Ok(g) => old(self).toks()[old(self).pos() + 1].t == TokenType::Name && g.deep()
                    == (GotoStatV { label: old(self).toks()[old(self).pos() + 1].str_value() })
                    && final(self).pos() == old(self).pos() + 2,
                Err(e) => old(self).toks()[old(self).pos() + 1].t != TokenType::Name && e@
                    == error_text(
                    expected_text(TokenType::Name),
                    old(self).toks()[old(self).pos() + 1],
                ),
            },
    {
        self.next();
        let label = self.check_name()?;
        Ok(GotoStat { label })
    }

    /// `exprstat -> call | assignment`: a statement led by a suffixed
    /// expression, classified by the token that follows it.
    #[verifier::rlimit(100)]
    #[verifier::spinoff_prover]
    fn exprstat(&mut self) -> (r: ParseResult<Stat>)
        requires
            old(self).wf(),
        ensures
            final(self).wf(),
            final(self).toks() == old(self).toks(),
            match r {
                Ok(s) => spec_exprstat(old(self).toks(), old(self).pos()) == Some(
                    (s.deep(), final(self).pos()),
                ) && old(self).pos() < final(self).pos() && !(s.deep() is RetStat),
                Err(e) => spec_exprstat(old(self).toks(), old(self).pos()) is None && e@
                    == spec_err_exprstat(old(self).toks(), old(self).pos()),
            },
        decreases self.toks().len() - self.pos(), 47int,
    {
        let ghost toks = self.toks();
        let ghost pos0 = self.pos();
        let expr = match self.suffixedexpr() {
            Ok(se) => se,
            Err(e) => {
                proof {
                    assert(spec_exprstat(toks, pos0) is None);
                }
                return Err(e);
            },
        };
        let ghost sev = expr.deep();
        let ghost p1 = self.pos();
        proof {
            assert(spec_suffixedexpr(toks, pos0) == Some((sev, p1)));
            assert(moved(toks, pos0, p1));
        }
        if self.test(TokenType::Assign) || self.test(TokenType::Comma) {
            match self.assignment(expr) {
                Ok(a) => {
                    let ghost av = a.deep();
                    let s = Stat::AssignStat(a);
                    proof {
                        assert(s.deep() == StatV::AssignStat(av));
                        assert(spec_exprstat(toks, pos0) == Some((s.deep(), self.pos())));
                    }
                    Ok(s)
                },
                Err(e) => {
                    proof {
                        assert(spec_assignment(toks, p1, sev) is None);
                        assert(spec_exprstat(toks, pos0) is None);
                    }
                    Err(e)
                },
            }
        } else {
            let s = Stat::CallStat(CallStat { call: expr });
            proof {
                assert(s.deep() == StatV::CallStat(CallStatV { call: sev }));
                assert(spec_exprstat(toks, pos0) == Some((s.deep(), p1)));
            }
            Ok(s)
        }
    }

    /// `assignment -> {',' suffixedexp} '=' explist`, entered at the
    /// first `,` or `=`, the first target already read.
    #[verifier::rlimit(100)]
    #[verifier::spinoff_prover]
    fn assignment(&mut self, expr: SuffixedExpr) -> (r: ParseResult<AssignStat>)
        requires
            old(self).wf(),
        ensures
            final(self).wf(),
            final(self).toks() == old(self).toks(),
            match r {
                Ok(a) => spec_assignment(old(self).toks(), old(self).pos(), expr.deep()) == Some(
                    (a.deep(), final(self).pos()),
                ) && old(self).pos() < final(self).pos(),
                Err(e) => spec_assignment(old(self).toks(), old(self).pos(), expr.deep())
                    is None && e@ == spec_err_assignment(old(self).toks(), old(self).pos()),
            },
        decreases self.toks().len() - self.pos(), 44int,
    {
        let ghost toks = self.toks();
        let ghost pos0 = self.pos();
        let ghost firstv = expr.deep();
        let mut left: Vec<SuffixedExpr> = Vec::new();
        left.push(expr);
        proof {
            assert(suffixed_exprs_deep(left@).drop_first() =~= Seq::<SuffixedExprV>::empty());
            match spec_assign_lhs(toks, pos0) {
                Some((more, p)) => {
                    assert(suffixed_exprs_deep(left@).drop_first() + more =~= more);
                },
                None => {},
            }
        }
        loop
            invariant
                self.wf(),
                self.toks() == toks,
                toks == old(self).toks(),
                pos0 == old(self).pos(),
                pos0 <= self.pos(),
                left@.len() >= 1,
                left@[0].deep() == firstv,
                spec_err_assign_lhs(toks, pos0) == spec_err_assign_lhs(toks, self.pos()),
                spec_assign_lhs(toks, pos0) == (match spec_assign_lhs(toks, self.pos()) {
                    Some((more, p)) => Some(
                        (suffixed_exprs_deep(left@).drop_first() + more, p),
                    ),
                    None => None::<(Seq<SuffixedExprV>, int)>,
                }),
            ensures
                self.wf(),
                self.toks() == toks,
                pos0 <= self.pos(),
                left@.len() >= 1,
                left@[0].deep() == firstv,
                spec_assign_lhs(toks, pos0) == Some(
                    (suffixed_exprs_deep(left@).drop_first(), self.pos()),
                ),
            decreases self.toks().len() - self.pos(),
        {
            let ghost cur = self.pos();
            if !self.test_next(TokenType::Comma) {
                proof {
                    assert(spec_assign_lhs(toks, cur) == Some(
                        (Seq::<SuffixedExprV>::empty(), cur),
                    ));
                    assert(suffixed_exprs_deep(left@).drop_first()
                        + Seq::<SuffixedExprV>::empty() =~= suffixed_exprs_deep(
                        left@,
                    ).drop_first());
                }
                break;
            }
            let se = match self.suffixedexpr() {
                Ok(se) => se,
                Err(e) => {
                    proof {
                        assert(spec_assign_lhs(toks, cur) is None);
                        assert(spec_err_assign_lhs(toks, cur) == spec_err_suffixedexpr(
                            toks,
                            cur + 1,
                        ));
                    }
                    return Err(e);
                },
            };
            let ghost prev = left@;
            let ghost sev = se.deep();
            let ghost pn = self.pos();
            left.push(se);
            proof {
                assert(left@ == prev.push(se));
                assert(suffixed_exprs_deep(left@) =~= suffixed_exprs_deep(prev).push(sev));
                assert(spec_assign_lhs(toks, cur) == (match spec_assign_lhs(toks, pn) {
                    Some((more, p)) => Some((seq![sev] + more, p)),
                    None => None::<(Seq<SuffixedExprV>, int)>,
                }));
                assert(spec_err_assign_lhs(toks, cur) == spec_err_assign_lhs(toks, pn));
                match spec_assign_lhs(toks, pn) {
                    Some((more, p)) => {
                        assert(suffixed_exprs_deep(prev).drop_first() + (seq![sev] + more)
                            =~= suffixed_exprs_deep(left@).drop_first() + more);
                    },
                    None => {},
                }
            }
        }
        self.check_next(TokenType::Assign)?;
        let right = self.exprlist()?;
        let r = AssignStat { left, right };
        proof {
            assert(seq![firstv] + suffixed_exprs_deep(r.left@).drop_first()
                =~= suffixed_exprs_deep(r.left@));
        }
        Ok(r)
    }

    /// `explist -> expr {',' expr}`.
    #[verifier::rlimit(100)]
    #[verifier::spinoff_prover]
    fn exprlist(&mut self) -> (r: ParseResult<Vec<Expr>>)
        requires
            old(self).wf(),
        ensures
            final(self).wf(),
            final(self).toks() == old(self).toks(),
            match r {
                Ok(es) => spec_exprlist(old(self).toks(), old(self).pos()) == Some(
                    (exprs_deep(es@), final(self).pos()),
                ) && old(self).pos() < final(self).pos(),
                Err(e) => spec_exprlist(old(self).toks(), old(self).pos()) is None && e@
                    == spec_err_exprlist(old(self).toks(), old(self).pos()),
            },
        decreases self.toks().len() - self.pos(), 40int,
    {
        let ghost toks = self.toks();
        let ghost pos0 = self.pos();
        let mut exprs: Vec<Expr> = Vec::new();
        let e0 = self.expr()?;
        let ghost e0v = e0.deep();
        let ghost p1 = self.pos();
        exprs.push(e0);
        proof {
            assert(exprs_deep(exprs@).drop_first() =~= Seq::<ExprV>::empty());
            match spec_exprlist_more(toks, p1) {
                Some((es, p)) => {
                    assert(exprs_deep(exprs@).drop_first() + es =~= es);
                },
                None => {},
            }
        }
        loop
            invariant
                self.wf(),
                self.toks() == toks,
                toks == old(self).toks(),
                pos0 == old(self).pos(),
                pos0 < p1,
                p1 <= self.pos(),
                spec_expr(toks, pos0) == Some((e0v, p1)),
                exprs@.len() >= 1,
                exprs@[0].deep() == e0v,
                spec_err_exprlist_more(toks, p1) == spec_err_exprlist_more(toks, self.pos()),
                spec_exprlist_more(toks, p1) == (match spec_exprlist_more(toks, self.pos()) {
                    Some((es, p)) => Some((exprs_deep(exprs@).drop_first() + es, p)),
                    None => None::<(Seq<ExprV>, int)>,
                }),
            ensures
                self.wf(),
                self.toks() == toks,
                pos0 < p1,
                p1 <= self.pos(),
                exprs@.len() >= 1,
                exprs@[0].deep() == e0v,
                spec_exprlist_more(toks, p1) == Some(
                    (exprs_deep(exprs@).drop_first(), self.pos()),
                ),
            decreases self.toks().len() - self.pos(),
        {
            let ghost cur = self.pos();
            if !self.test_next(TokenType::Comma) {
                proof {
                    assert(spec_exprlist_more(toks, cur) == Some((Seq::<ExprV>::empty(), cur)));
                    assert(exprs_deep(exprs@).drop_first() + Seq::<ExprV>::empty()
                        =~= exprs_deep(exprs@).drop_first());
                }
                break;
            }
            let e = match self.expr() {
                Ok(e) => e,
                Err(er) => {
                    proof {
                        assert(spec_exprlist_more(toks, cur) is None);
                        assert(spec_err_exprlist_more(toks, cur) == spec_err_expr(
                            toks,
                            cur + 1,
                        ));
                    }
                    return Err(er);
                },
            };
            let ghost prev = exprs@;
            let ghost ev = e.deep();
            let ghost pn = self.pos();
            exprs.push(e);
            proof {
                assert(exprs@ == prev.push(exprs@[prev.len() as int]));
                assert(exprs_deep(exprs@) =~= exprs_deep(prev).push(ev));
                assert(spec_exprlist_more(toks, cur) == (match spec_exprlist_more(toks, pn) {
                    Some((es, p)) => Some((seq![ev] + es, p)),
                    None => None::<(Seq<ExprV>, int)>,
                }));
                assert(spec_err_exprlist_more(toks, cur) == spec_err_exprlist_more(toks, pn));
                match spec_exprlist_more(toks, pn) {
                    Some((es, p)) => {
                        assert(exprs_deep(prev).drop_first() + (seq![ev] + es) =~= exprs_deep(
                            exprs@,
                        ).drop_first() + es);
                    },
                    None => {},
                }
            }
        }
        proof {
            assert(seq![e0v] + exprs_deep(exprs@).drop_first() =~= exprs_deep(exprs@));
        }
        Ok(exprs)
    }

    /// `expr`: a subexpression with no lower bound on operator priority.
    fn expr(&mut self) -> (r: ParseResult<Expr>)
        requires
            old(self).wf(),
        ensures
            final(self).wf(),
            final(self).toks() == old(self).toks(),
            match r {
                Ok(e) => spec_expr(old(self).toks(), old(self).pos()) == Some(
                    (e.deep(), final(self).pos()),
                ) && old(self).pos() < final(self).pos(),
                Err(e) => spec_expr(old(self).toks(), old(self).pos()) is None && e@
                    == spec_err_expr(old(self).toks(), old(self).pos()),
            },
        decreases self.toks().len() - self.pos(), 35int,
    {
        self.subexpr(0)
    }

    /// `subexpr -> (simpleexpr | unop subexpr) { binop subexpr }`,
    /// keeping only binary operators whose left binding power exceeds
    /// `limit`.
    fn subexpr(&mut self, limit: u8) -> (r: ParseResult<Expr>)
        requires
            old(self).wf(),
        ensures
            final(self).wf(),
            final(self).toks() == old(self).toks(),
            match r {
                Ok(e) => spec_subexpr(old(self).toks(), old(self).pos(), limit) == Some(
                    (e.deep(), final(self).pos()),
                ) && old(self).pos() < final(self).pos(),
                Err(e) => spec_subexpr(old(self).toks(), old(self).pos(), limit) is None
                    && e@ == spec_err_subexpr(old(self).toks(), old(self).pos(), limit),
            },
        decreases self.toks().len() - self.pos(), 34int,
    {
        let ghost toks = self.toks();
        let ghost pos0 = self.pos();
        let mut left: Expr;
        let unop = self.get_unop();
        if unop != UnOp::NoOp {
            self.next();
            let operand = match self.subexpr(unop.priority()) {
                Ok(e) => e,
                Err(e) => {
                    return Err(e);
                },
            };
            left = Expr::UnExpr(UnExpr { op: unop, expr: Box::new(operand) });
        } else {
            left = match self.simpleexpr() {
                Ok(e) => e,
                Err(e) => {
                    return Err(e);
                },
            };
        }
        let ghost pmid = self.pos();
        let ghost left0 = left.deep();
        proof {
            assert(spec_subexpr(toks, pos0, limit) == spec_bin_rest(toks, pmid, limit, left0));
            assert(spec_err_subexpr(toks, pos0, limit) == spec_err_bin_rest(toks, pmid, limit));
        }
        let mut binop = self.get_binop();
        loop
            invariant
                self.wf(),
                self.toks() == toks,
                toks == old(self).toks(),
                pos0 == old(self).pos(),
                pos0 < self.pos(),
                pmid <= self.pos(),
                spec_subexpr(toks, pos0, limit) == spec_bin_rest(toks, pmid, limit, left0),
                spec_err_subexpr(toks, pos0, limit) == spec_err_bin_rest(toks, pmid, limit),
                spec_err_bin_rest(toks, pmid, limit) == spec_err_bin_rest(
                    toks,
                    self.pos(),
                    limit,
                ),
                binop == binop_of(toks[self.pos()].t),
                spec_bin_rest(toks, pmid, limit, left0) == spec_bin_rest(
                    toks,
                    self.pos(),
                    limit,
                    left.deep(),
                ),
            ensures
                self.wf(),
                self.toks() == toks,
                pos0 < self.pos(),
                spec_bin_rest(toks, pmid, limit, left0) == Some((left.deep(), self.pos())),
            decreases self.toks().len() - self.pos(),
        {
            let climb = if binop != BinOp::NoOp {
                let pr = binop.priority();
                pr.left > limit
            } else {
                false
            };
            if !climb {
                proof {
                    assert(spec_bin_rest(toks, self.pos(), limit, left.deep()) == Some(
                        (left.deep(), self.pos()),
                    ));
                }
                break;
            }
            let ghost cur = self.pos();
            self.next();
            let right = match self.subexpr(binop.priority().right) {
                Ok(e) => e,
                Err(e) => {
                    proof {
                        assert(spec_bin_rest(toks, cur, limit, left.deep()) is None);
                        assert(spec_err_bin_rest(toks, cur, limit) == spec_err_subexpr(
                            toks,
                            cur + 1,
                            bin_prio(binop).right,
                        ));
                    }
                    return Err(e);
                },
            };
            let ghost prev_left = left.deep();
            let ghost rightv = right.deep();
            left = Expr::BinExpr(BinExpr { left: Box::new(left), right: Box::new(right), op: binop });
            proof {
                assert(left.deep() == ExprV::BinExpr(
                    BinExprV {
                        op: binop,
                        left: Box::new(prev_left),
                        right: Box::new(rightv),
                    },
                ));
                assert(spec_bin_rest(toks, cur, limit, prev_left) == spec_bin_rest(
                    toks,
                    self.pos(),
                    limit,
                    left.deep(),
                ));
                assert(spec_err_bin_rest(toks, cur, limit) == spec_err_bin_rest(
                    toks,
                    self.pos(),
                    limit,
                ));
            }
            binop = self.get_binop();
        }
        Ok(left)
    }

    /// `simpleexpr -> FLT | INT | STRING | NIL | TRUE | FALSE | '...' |
    /// constructor | FUNCTION body | suffixedexp`.
    fn simpleexpr(&mut self) -> (r: ParseResult<Expr>)
        requires
            old(self).wf(),
        ensures
            final(self).wf(),
            final(self).toks() == old(self).toks(),
            match r {
                Ok(e) => spec_simpleexpr(old(self).toks(), old(self).pos()) == Some(
                    (e.deep(), final(self).pos()),
                ) && old(self).pos() < final(self).pos(),
                Err(e) => spec_simpleexpr(old(self).toks(), old(self).pos()) is None && e@
                    == spec_err_simpleexpr(old(self).toks(), old(self).pos()),
            },
        decreases self.toks().len() - self.pos(), 32int,
    {
        proof {
            assert(self.toks()[self.pos()].value_wf());
        }
        let expr = match self.current_token_type() {
            TokenType::Flt => Expr::Float(self.current_token().get_float()),
            TokenType::Int => Expr::Int(self.current_token().get_int()),
            TokenType::String => Expr::String(self.current_token().get_string()),
            TokenType::Nil => Expr::Nil,
            TokenType::True => Expr::True,
            TokenType::False => Expr::False,
            TokenType::Dots => Expr::VarArg,
            TokenType::Lb => {
                return match self.table() {
                    Ok(t) => Ok(Expr::Table(t)),
                    Err(e) => Err(e),
                };
            },
            TokenType::Function => {
                self.next();
                return match self.funcbody() {
                    Ok(fb) => Ok(Expr::FuncBody(fb)),
                    Err(e) => Err(e),
                };
            },
            _ => {
                return match self.suffixedexpr() {
                    Ok(se) => Ok(Expr::SuffixedExpr(se)),
                    Err(e) => Err(e),
                };
            },
        };
        self.next();
        Ok(expr)
    }

    /// `suffixedexpr -> primaryexpr { '.' NAME | '[' exp ']' |
    /// ':' NAME | funcargs }`.
    fn suffixedexpr(&mut self) -> (r: ParseResult<SuffixedExpr>)
        requires
            old(self).wf(),
        ensures
            final(self).wf(),
            final(self).toks() == old(self).toks(),
            match r {
                Ok(se) => spec_suffixedexpr(old(self).toks(), old(self).pos()) == Some(
                    (se.deep(), final(self).pos()),
                ) && old(self).pos() < final(self).pos(),
                Err(e) => spec_suffixedexpr(old(self).toks(), old(self).pos()) is None && e@
                    == spec_err_suffixedexpr(old(self).toks(), old(self).pos()),
            },
        decreases self.toks().len() - self.pos(), 30int,
    {
        let ghost toks = self.toks();
        let ghost pos0 = self.pos();
        let primary = self.primaryexpr()?;
        let ghost pv = primary.deep();
        let ghost p1 = self.pos();
        let mut suffixes: Vec<Suffix> = Vec::new();
        proof {
            assert(suffixes_deep(suffixes@) =~= Seq::<SuffixV>::empty());
            match spec_suffixes(toks, p1) {
                Some((ss, p)) => {
                    assert(suffixes_deep(suffixes@) + ss =~= ss);
                },
                None => {},
            }
        }
        loop
            invariant
                self.wf(),
                self.toks() == toks,
                toks == old(self).toks(),
                pos0 == old(self).pos(),
                pos0 < self.pos(),
                pos0 < p1,
                p1 <= self.pos(),
                spec_primaryexpr(toks, pos0) == Some((pv, p1)),
                spec_err_suffixes(toks, p1) == spec_err_suffixes(toks, self.pos()),
                spec_suffixes(toks, p1) == (match spec_suffixes(toks, self.pos()) {
                    Some((ss, p)) => Some((suffixes_deep(suffixes@) + ss, p)),
                    None => None::<(Seq<SuffixV>, int)>,
                }),
            ensures
                self.wf(),
                self.toks() == toks,
                pos0 < self.pos(),
                pos0 < p1,
                p1 <= self.pos(),
                spec_suffixes(toks, p1) == Some((suffixes_deep(suffixes@), self.pos())),
            decreases self.toks().len() - self.pos(),
        {
            let ghost cur = self.pos();
            let ghost prev = suffixes@;
            match self.current_token_type() {
                TokenType::Attr => {
                    self.next();
                    let name = match self.check_name() {
                        Ok(n) => n,
                        Err(e) => {
                            proof {
                                assert(spec_suffixes(toks, cur) is None);
                            }
                            return Err(e);
                        },
                    };
                    let ghost sv = SuffixV::Attr(name@);
                    suffixes.push(Suffix::Attr(name));
                    proof {
                        assert(suffixes_deep(suffixes@) =~= suffixes_deep(prev).push(sv));
                        assert(spec_suffixes(toks, cur) == (match spec_suffixes(
                            toks,
                            cur + 2,
                        ) {
                            Some((ss, p)) => Some((seq![sv] + ss, p)),
                            None => None::<(Seq<SuffixV>, int)>,
                        }));
                        match spec_suffixes(toks, cur + 2) {
                            Some((ss, p)) => {
                                assert(suffixes_deep(prev) + (seq![sv] + ss) =~= suffixes_deep(
                                    suffixes@,
                                ) + ss);
                            },
                            None => {},
                        }
                    }
                },
                TokenType::Ls => {
                    let line = self.current_line();
                    self.next();
                    let e = match self.expr() {
                        Ok(e) => e,
                        Err(er) => {
                            proof {
                                assert(spec_suffixes(toks, cur) is None);
                            }
                            return Err(er);
                        },
                    };
                    let ghost pe = self.pos();
                    let ghost sv = SuffixV::Index(Box::new(e.deep()));
                    suffixes.push(Suffix::Index(e));
                    match self.check_match(TokenType::Rs, TokenType::Ls, line) {
                        Ok(_) => (),
                        Err(er) => {
                            proof {
                                assert(spec_suffixes(toks, cur) is None);
                            }
                            return Err(er);
                        },
                    }
                    proof {
                        assert(suffixes_deep(suffixes@) =~= suffixes_deep(prev).push(sv));
                        assert(spec_suffixes(toks, cur) == (match spec_suffixes(
                            toks,
                            pe + 1,
                        ) {
                            Some((ss, p)) => Some((seq![sv] + ss, p)),
                            None => None::<(Seq<SuffixV>, int)>,
                        }));
                        match spec_suffixes(toks, pe + 1) {
                            Some((ss, p)) => {
                                assert(suffixes_deep(prev) + (seq![sv] + ss) =~= suffixes_deep(
                                    suffixes@,
                                ) + ss);
                            },
                            None => {},
                        }
                    }
                },
                TokenType::Colon => {
                    self.next();
                    let name = match self.check_name() {
                        Ok(n) => n,
                        Err(e) => {
                            proof {
                                assert(spec_suffixes(toks, cur) is None);
                            }
                            return Err(e);
                        },
                    };
                    let ghost sv = SuffixV::Method(name@);
                    suffixes.push(Suffix::Method(name));
                    proof {
                        assert(suffixes_deep(suffixes@) =~= suffixes_deep(prev).push(sv));
                        assert(spec_suffixes(toks, cur) == (match spec_suffixes(
                            toks,
                            cur + 2,
                        ) {
                            Some((ss, p)) => Some((seq![sv] + ss, p)),
                            None => None::<(Seq<SuffixV>, int)>,
                        }));
                        match spec_suffixes(toks, cur + 2) {
                            Some((ss, p)) => {
                                assert(suffixes_deep(prev) + (seq![sv] + ss) =~= suffixes_deep(
                                    suffixes@,
                                ) + ss);
                            },
                            None => {},
                        }
                    }
                },
                TokenType::Lp | TokenType::Lb | TokenType::String => {
                    let fa = match self.funcargs() {
                        Ok(f) => f,
                        Err(e) => {
                            proof {
                                assert(spec_suffixes(toks, cur) is None);
                            }
                            return Err(e);
                        },
                    };
                    let ghost pf = self.pos();
                    let ghost sv = SuffixV::FuncArgs(fa.deep());
                    suffixes.push(Suffix::FuncArgs(fa));
                    proof {
                        assert(suffixes_deep(suffixes@) =~= suffixes_deep(prev).push(sv));
                        assert(spec_suffixes(toks, cur) == (match spec_suffixes(toks, pf) {
                            Some((ss, p)) => Some((seq![sv] + ss, p)),
                            None => None::<(Seq<SuffixV>, int)>,
                        }));
                        match spec_suffixes(toks, pf) {
                            Some((ss, p)) => {
                                assert(suffixes_deep(prev) + (seq![sv] + ss) =~= suffixes_deep(
                                    suffixes@,
                                ) + ss);
                            },
                            None => {},
                        }
                    }
                },
                _ => {
                    proof {
                        assert(spec_suffixes(toks, cur) == Some(
                            (Seq::<SuffixV>::empty(), cur),
                        ));
                        assert(suffixes_deep(suffixes@) + Seq::<SuffixV>::empty()
                            =~= suffixes_deep(suffixes@));
                    }
                    break;
                },
            }
        }
        Ok(SuffixedExpr { primary, suffixes })
    }

    /// `primaryexp -> NAME | '(' expr ')'`.
    fn primaryexpr(&mut self) -> (r: ParseResult<PrimaryExpr>)
        requires
            old(self).wf(),
        ensures
            final(self).wf(),
            final(self).toks() == old(self).toks(),
            match r {
                Ok(p) => spec_primaryexpr(old(self).toks(), old(self).pos()) == Some(
                    (p.deep(), final(self).pos()),
                ) && old(self).pos() < final(self).pos(),
                Err(e) => spec_primaryexpr(old(self).toks(), old(self).pos()) is None
                    && e@ == spec_err_primaryexpr(old(self).toks(), old(self).pos())
                    && (old(self).toks()[old(self).pos()].t != TokenType::Name && old(
                    self,
                ).toks()[old(self).pos()].t != TokenType::Lp ==> final(self).pos() == old(
                    self,
                ).pos()),
            },
        decreases self.toks().len() - self.pos(), 10int,
    {
        proof {
            assert(self.toks()[self.pos()].value_wf());
        }
        match self.current_token_type() {
            TokenType::Name => {
                let n = self.check_name()?;
                Ok(PrimaryExpr::Name(n))
            },
            TokenType::Lp => {
                let line = self.current_line();
                self.next();
                let e = self.expr()?;
                self.check_match(TokenType::Rp, TokenType::Lp, line)?;
                Ok(PrimaryExpr::ParenExpr(Box::new(e)))
            },
            _ => {
                let t = self.current_token_type();
                let mut m = String::from_str("unexpected symbol '");
                m.append(tt_str(t));
                m.append("'");
                Err(self.syntax_error(m.as_str()))
            },
        }
    }

    /// `constructor -> '{' [field {sep field} [sep]] '}'` with
    /// `sep -> ',' | ';'`.
    #[verifier::rlimit(100)]
    #[verifier::spinoff_prover]
    fn table(&mut self) -> (r: ParseResult<Table>)
        requires
            old(self).wf(),
        ensures
            final(self).wf(),
            final(self).toks() == old(self).toks(),
            match r {
                Ok(t) => spec_table(old(self).toks(), old(self).pos()) == Some(
                    (t.deep(), final(self).pos()),
                ) && old(self).pos() < final(self).pos(),
                Err(e) => spec_table(old(self).toks(), old(self).pos()) is None && e@
                    == spec_err_table(old(self).toks(), old(self).pos()),
            },
        decreases self.toks().len() - self.pos(), 20int,
    {
        let ghost toks = self.toks();
        let ghost pos0 = self.pos();
        let line = self.current_line();
        self.check_next(TokenType::Lb)?;
        let ghost pstart = self.pos();
        let mut fields: Vec<Field> = Vec::new();
        proof {
            assert(fields_deep(fields@) =~= Seq::<FieldV>::empty());
            match spec_fields(toks, pstart) {
                Some((fs, p)) => {
                    assert(fields_deep(fields@) + fs =~= fs);
                },
                None => {},
            }
        }
        loop
            invariant_except_break
                spec_err_fields(toks, pstart) == spec_err_fields(toks, self.pos()),
                spec_fields(toks, pstart) == (match spec_fields(toks, self.pos()) {
                    Some((fs, p)) => Some((fields_deep(fields@) + fs, p)),
                    None => None::<(Seq<FieldV>, int)>,
                }),
            invariant
                self.wf(),
                self.toks() == toks,
                toks == old(self).toks(),
                pos0 == old(self).pos(),
                pstart == pos0 + 1,
                pstart <= self.pos(),
                toks[pos0].t == TokenType::Lb,
            ensures
                self.wf(),
                self.toks() == toks,
                pstart == pos0 + 1,
                pstart <= self.pos(),
                spec_fields(toks, pstart) == Some((fields_deep(fields@), self.pos())),
            decreases self.toks().len() - self.pos(),
        {
            if self.test(TokenType::Rb) {
                proof {
                    assert(spec_fields(toks, self.pos()) == Some(
                        (Seq::<FieldV>::empty(), self.pos()),
                    ));
                    assert(fields_deep(fields@) + Seq::<FieldV>::empty() =~= fields_deep(
                        fields@,
                    ));
                }
                break;
            }
            let ghost cur = self.pos();
            let f = match self.field() {
                Ok(f) => f,
                Err(e) => {
                    proof {
                        assert(spec_fields(toks, cur) is None);
                        assert(spec_err_fields(toks, cur) == spec_err_field(toks, cur));
                    }
                    return Err(e);
                },
            };
            let ghost prev = fields@;
            let ghost fv = f.deep();
            let ghost pf = self.pos();
            fields.push(f);
            proof {
                assert(fields_deep(fields@) =~= fields_deep(prev).push(fv));
            }
            let sep = if self.test_next(TokenType::Comma) {
                true
            } else {
                self.test_next(TokenType::Semi)
            };
            if !sep {
                proof {
                    assert(spec_fields(toks, cur) == Some((seq![fv], pf)));
                    assert(fields_deep(prev) + seq![fv] =~= fields_deep(fields@));
                }
                break;
            }
            proof {
                assert(spec_fields(toks, cur) == (match spec_fields(toks, pf + 1) {
                    Some((fs, p)) => Some((seq![fv] + fs, p)),
                    None => None::<(Seq<FieldV>, int)>,
                }));
                assert(spec_err_fields(toks, cur) == spec_err_fields(toks, pf + 1));
                match spec_fields(toks, pf + 1) {
                    Some((fs, p)) => {
                        assert(fields_deep(prev) + (seq![fv] + fs) =~= fields_deep(fields@)
                            + fs);
                    },
                    None => {},
                }
            }
        }
        self.check_match(TokenType::Rb, TokenType::Lb, line)?;
        Ok(Table { fields })
    }

    /// `field -> listfield | recfield`, decided by one token of
    /// lookahead after a name, or the opening bracket of a keyed field.
    fn field(&mut self) -> (r: ParseResult<Field>)
        requires
            old(self).wf(),
        ensures
            final(self).wf(),
            final(self).toks() == old(self).toks(),
            match r {
                Ok(f) => spec_field(old(self).toks(), old(self).pos()) == Some(
                    (f.deep(), final(self).pos()),
                ) && old(self).pos() < final(self).pos(),
                Err(e) => spec_field(old(self).toks(), old(self).pos()) is None && e@
                    == spec_err_field(old(self).toks(), old(self).pos()),
            },
        decreases self.toks().len() - self.pos(), 37int,
    {
        match self.current_token_type() {
            TokenType::Name => {
                if self.next_token_type() == TokenType::Assign {
                    self.recfield()
                } else {
                    self.listfield()
                }
            },
            TokenType::Ls => self.recfield(),
            _ => self.listfield(),
        }
    }

    /// `recfield -> (NAME | '[' exp ']') '=' exp`. The grammar routes
    /// only those two lead tokens here.
    #[verifier::rlimit(100)]
    #[verifier::spinoff_prover]
    fn recfield(&mut self) -> (r: ParseResult<Field>)
        requires
            old(self).wf(),
            old(self).toks()[old(self).pos()].t == TokenType::Name || old(self).toks()[old(
                self,
            ).pos()].t == TokenType::Ls,
        ensures
            final(self).wf(),
            final(self).toks() == old(self).toks(),
            match r {
                Ok(f) => spec_recfield(old(self).toks(), old(self).pos()) == Some(
                    (f.deep(), final(self).pos()),
                ) && old(self).pos() < final(self).pos(),
                Err(e) => spec_recfield(old(self).toks(), old(self).pos()) is None && e@
                    == spec_err_recfield(old(self).toks(), old(self).pos()),
            },
        decreases self.toks().len() - self.pos(), 36int,
    {
        proof {
            assert(self.toks()[self.pos()].value_wf());
        }
        let ghost toks = self.toks();
        let ghost pos0 = self.pos();
        if self.test(TokenType::Name) {
            let n = self.check_name()?;
            self.check_next(TokenType::Assign)?;
            let value = self.expr()?;
            let f = Field::RecFileld(RecField { key: FieldKey::Name(n), value });
            proof {
                assert(spec_recfield(toks, pos0) == Some((f.deep(), self.pos())));
            }
            Ok(f)
        } else {
            let line = self.current_line();
            self.next();
            let k = self.expr()?;
            self.check_match(TokenType::Rs, TokenType::Ls, line)?;
            self.check_next(TokenType::Assign)?;
            let value = self.expr()?;
            let f = Field::RecFileld(RecField { key: FieldKey::Expr(k), value });
            proof {
                assert(spec_recfield(toks, pos0) == Some((f.deep(), self.pos())));
            }
            Ok(f)
        }
    }

    /// `listfield -> exp`.
    fn listfield(&mut self) -> (r: ParseResult<Field>)
        requires
            old(self).wf(),
        ensures
            final(self).wf(),
            final(self).toks() == old(self).toks(),
            match r {
                Ok(f) => spec_listfield(old(self).toks(), old(self).pos()) == Some(
                    (f.deep(), final(self).pos()),
                ) && old(self).pos() < final(self).pos(),
                Err(e) => spec_listfield(old(self).toks(), old(self).pos()) is None && e@
                    == spec_err_listfield(old(self).toks(), old(self).pos()),
            },
        decreases self.toks().len() - self.pos(), 36int,
    {
        let e = self.expr()?;
        Ok(Field::ListField(e))
    }

    /// `funcargs -> '(' [explist] ')' | constructor | STRING`.
    fn funcargs(&mut self) -> (r: ParseResult<FuncArgs>)
        requires
            old(self).wf(),
        ensures
            final(self).wf(),
            final(self).toks() == old(self).toks(),
            match r {
                Ok(fa) => spec_funcargs(old(self).toks(), old(self).pos()) == Some(
                    (fa.deep(), final(self).pos()),
                ) && old(self).pos() < final(self).pos(),
                Err(e) => spec_funcargs(old(self).toks(), old(self).pos()) is None && e@
                    == spec_err_funcargs(old(self).toks(), old(self).pos()),
            },
        decreases self.toks().len() - self.pos(), 28int,
    {
        proof {
            assert(self.toks()[self.pos()].value_wf());
        }
        let func_args = match self.current_token_type() {
            TokenType::Lp => {
                let line = self.current_line();
                self.next();
                if self.test_next(TokenType::Rp) {
                    let empty_args: Vec<Expr> = Vec::new();
                    proof {
                        assert(exprs_deep(empty_args@) =~= Seq::<ExprV>::empty());
                    }
                    return Ok(FuncArgs::Exprs(empty_args));
                }
                let exprs = self.exprlist()?;
                self.check_match(TokenType::Rp, TokenType::Lp, line)?;
                FuncArgs::Exprs(exprs)
            },
            TokenType::Lb => {
                return match self.table() {
                    Ok(t) => Ok(FuncArgs::Table(t)),
                    Err(e) => Err(e),
                };
            },
            TokenType::String => {
                let arg = FuncArgs::String(self.current_token().get_string());
                self.next();
                arg
            },
            _ => {
                return Err(self.syntax_error("function arguments expected"));
            },
        };
        Ok(func_args)
    }
}

} // verus!
