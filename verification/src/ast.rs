//! The abstract syntax tree the parser produces, together with its
//! mathematical model.
//!
//! Every executable node type has a model type (suffix `V`) in which every
//! `Vec` is a `Seq`, every `String` a `Seq<char>`, and the view functions
//! map one to the other. Contracts throughout the crate speak of the model
//! types only.
//!
//! `UnOp` and `BinOp` carry the operator tables: which token is which
//! operator, and each binary operator's left/right binding powers. The
//! `NoOp` variants are classification sentinels ("this token is not an
//! operator") and never appear inside a completed tree.

use vstd::prelude::*;

use crate::token::TokenType;

verus! {

/// A unary operator tag. `NoOp` marks a token that is no unary operator.
#[derive(Copy, Clone, PartialEq, Eq, Debug, Structural)]
pub enum UnOp {
    Minus,
    BNot,
    Not,
    TLen,
    NoOp,
}

/// The unary operator denoted by a token type, `UnOp::NoOp` if the token
/// denotes none.
pub open spec fn unop_of(t: TokenType) -> UnOp {
    match t {
        TokenType::Minus => UnOp::Minus,
        TokenType::BXor => UnOp::BNot,
        TokenType::Not => UnOp::Not,
        TokenType::TLen => UnOp::TLen,
        _ => UnOp::NoOp,
    }
}

/// The priority shared by all unary operators: the limit passed into the
/// recursive parse of a unary operand.
pub open spec fn un_prio(op: UnOp) -> u8 {
    12
}

impl UnOp {
    /// Classifies a token type as a unary operator.
    pub fn from_token(token: TokenType) -> (r: UnOp)
        ensures
            r == unop_of(token),
    {
        match token {
            TokenType::Minus => UnOp::Minus,
            TokenType::BXor => UnOp::BNot,
            TokenType::Not => UnOp::Not,
            TokenType::TLen => UnOp::TLen,
            _ => UnOp::NoOp,
        }
    }

    /// The priority of a unary operator.
    pub fn priority(self) -> (r: u8)
        ensures
            r == un_prio(self),
    {
        match self {
            _ => 12,
        }
    }
}

/// A binary operator tag. `NoOp` marks a token that is no binary operator.
#[derive(Copy, Clone, PartialEq, Eq, Debug, Structural)]
pub enum BinOp {
    Add,
    Minus,
    Mul,
    Mod,
    Pow,
    Div,
    IDiv,
    BAnd,
    BOr,
    BXor,
    Shl,
    Shr,
    Concat,
    Ne,
    Eq,
    Lt,
    Le,
    Gt,
    Ge,
    And,
    Or,
    NoOp,
}

/// A binary operator's binding powers. Equal values denote left
/// associativity; a strictly lower `right` denotes right associativity.
pub struct BinOpPriority {
    pub left: u8,
    pub right: u8,
}

/// The binary operator denoted by a token type, `BinOp::NoOp` if the token
/// denotes none.
pub open spec fn binop_of(t: TokenType) -> BinOp {
    match t {
        TokenType::Add => BinOp::Add,
        TokenType::Minus => BinOp::Minus,
        TokenType::Mul => BinOp::Mul,
        TokenType::Mod => BinOp::Mod,
        TokenType::Pow => BinOp::Pow,
        TokenType::Div => BinOp::Div,
        TokenType::IDiv => BinOp::IDiv,
        TokenType::BAnd => BinOp::BAnd,
        TokenType::BOr => BinOp::BOr,
        TokenType::BXor => BinOp::BXor,
        TokenType::Shl => BinOp::Shl,
        TokenType::Shr => BinOp::Shr,
        TokenType::Concat => BinOp::Concat,
        TokenType::Ne => BinOp::Ne,
        TokenType::Eq => BinOp::Eq,
        TokenType::Lt => BinOp::Lt,
        TokenType::Le => BinOp::Le,
        TokenType::Gt => BinOp::Gt,
        TokenType::Ge => BinOp::Ge,
        TokenType::And => BinOp::And,
        TokenType::Or => BinOp::Or,
        _ => BinOp::NoOp,
    }
}

/// The binding powers of a binary operator. The value on `BinOp::NoOp` is
/// irrelevant: `priority` is never called on it.
pub open spec fn bin_prio(op: BinOp) -> BinOpPriority {
    match op {
        BinOp::Or => BinOpPriority { left: 1, right: 1 },
        BinOp::And => BinOpPriority { left: 2, right: 2 },
        BinOp::Eq => BinOpPriority { left: 3, right: 3 },
        BinOp::Ne => BinOpPriority { left: 3, right: 3 },
        BinOp::Lt => BinOpPriority { left: 3, right: 3 },
        BinOp::Le => BinOpPriority { left: 3, right: 3 },
        BinOp::Gt => BinOpPriority { left: 3, right: 3 },
        BinOp::Ge => BinOpPriority { left: 3, right: 3 },
        BinOp::BOr => BinOpPriority { left: 4, right: 4 },
        BinOp::BXor => BinOpPriority { left: 5, right: 5 },
        BinOp::BAnd => BinOpPriority { left: 6, right: 6 },
        BinOp::Shl => BinOpPriority { left: 7, right: 7 },
        BinOp::Shr => BinOpPriority { left: 7, right: 7 },
        BinOp::Concat => BinOpPriority { left: 9, right: 8 },
        BinOp::Add => BinOpPriority { left: 10, right: 10 },
        BinOp::Minus => BinOpPriority { left: 10, right: 10 },
        BinOp::Mul => BinOpPriority { left: 11, right: 11 },
        BinOp::Mod => BinOpPriority { left: 11, right: 11 },
        BinOp::Div => BinOpPriority { left: 11, right: 11 },
        BinOp::IDiv => BinOpPriority { left: 11, right: 11 },
        BinOp::Pow => BinOpPriority { left: 14, right: 13 },
        BinOp::NoOp => BinOpPriority { left: 0, right: 0 },
    }
}

impl BinOp {
    /// Classifies a token type as a binary operator.
    pub fn from_token(token: TokenType) -> (r: BinOp)
        ensures
            r == binop_of(token),
    {
        match token {
            TokenType::Add => BinOp::Add,
            TokenType::Minus => BinOp::Minus,
            TokenType::Mul => BinOp::Mul,
            TokenType::Mod => BinOp::Mod,
            TokenType::Pow => BinOp::Pow,
            TokenType::Div => BinOp::Div,
            TokenType::IDiv => BinOp::IDiv,
            TokenType::BAnd => BinOp::BAnd,
            TokenType::BOr => BinOp::BOr,
            TokenType::BXor => BinOp::BXor,
            TokenType::Shl => BinOp::Shl,
            TokenType::Shr => BinOp::Shr,
            TokenType::Concat => BinOp::Concat,
            TokenType::Ne => BinOp::Ne,
            TokenType::Eq => BinOp::Eq,
            TokenType::Lt => BinOp::Lt,
            TokenType::Le => BinOp::Le,
            TokenType::Gt => BinOp::Gt,
            TokenType::Ge => BinOp::Ge,
            TokenType::And => BinOp::And,
            TokenType::Or => BinOp::Or,
            _ => BinOp::NoOp,
        }
    }

    /// The binding powers of a binary operator. The `NoOp` sentinel exists
    /// only for classification and has no binding power.
    pub fn priority(self) -> (r: BinOpPriority)
        requires
            self != BinOp::NoOp,
        ensures
            r == bin_prio(self),
    {
        match self {
            BinOp::Or => BinOpPriority { left: 1, right: 1 },
            BinOp::And => BinOpPriority { left: 2, right: 2 },
            BinOp::Eq | BinOp::Ne | BinOp::Lt | BinOp::Le | BinOp::Gt | BinOp::Ge => BinOpPriority {
                left: 3,
                right: 3,
            },
            BinOp::BOr => BinOpPriority { left: 4, right: 4 },
            BinOp::BXor => BinOpPriority { left: 5, right: 5 },
            BinOp::BAnd => BinOpPriority { left: 6, right: 6 },
            BinOp::Shl | BinOp::Shr => BinOpPriority { left: 7, right: 7 },
            BinOp::Concat => BinOpPriority { left: 9, right: 8 },
            BinOp::Add | BinOp::Minus => BinOpPriority { left: 10, right: 10 },
            BinOp::Mul | BinOp::Mod | BinOp::Div | BinOp::IDiv => BinOpPriority {
                left: 11,
                right: 11,
            },
            BinOp::Pow => BinOpPriority { left: 14, right: 13 },
            BinOp::NoOp => BinOpPriority { left: 0, right: 0 },
        }
    }
}

/// The required relative ordering of the binding powers: logical-or below
/// logical-and below comparisons below bitwise-or below bitwise-xor below
/// bitwise-and below shifts below concatenation below additive below
/// multiplicative below exponentiation; concatenation and exponentiation
/// are right-associative (right binding power strictly below left);
/// exponentiation binds tighter than the unary priority, which in turn is
/// above the multiplicative level.
pub proof fn lemma_priority_order()
    ensures
        bin_prio(BinOp::Or).left < bin_prio(BinOp::And).left,
        bin_prio(BinOp::And).left < bin_prio(BinOp::Eq).left,
        bin_prio(BinOp::Eq).left == bin_prio(BinOp::Ne).left,
        bin_prio(BinOp::Eq).left == bin_prio(BinOp::Lt).left,
        bin_prio(BinOp::Eq).left == bin_prio(BinOp::Le).left,
        bin_prio(BinOp::Eq).left == bin_prio(BinOp::Gt).left,
        bin_prio(BinOp::Eq).left == bin_prio(BinOp::Ge).left,
        bin_prio(BinOp::Eq).left < bin_prio(BinOp::BOr).left,
        bin_prio(BinOp::BOr).left < bin_prio(BinOp::BXor).left,
        bin_prio(BinOp::BXor).left < bin_prio(BinOp::BAnd).left,
        bin_prio(BinOp::BAnd).left < bin_prio(BinOp::Shl).left,
        bin_prio(BinOp::Shl).left == bin_prio(BinOp::Shr).left,
        bin_prio(BinOp::Shl).left < bin_prio(BinOp::Concat).left,
        bin_prio(BinOp::Concat).right < bin_prio(BinOp::Concat).left,
        bin_prio(BinOp::Concat).left < bin_prio(BinOp::Add).left,
        bin_prio(BinOp::Add).left == bin_prio(BinOp::Minus).left,
        bin_prio(BinOp::Add).left < bin_prio(BinOp::Mul).left,
        bin_prio(BinOp::Mul).left == bin_prio(BinOp::Mod).left,
        bin_prio(BinOp::Mul).left == bin_prio(BinOp::Div).left,
        bin_prio(BinOp::Mul).left == bin_prio(BinOp::IDiv).left,
        bin_prio(BinOp::Mul).left < bin_prio(BinOp::Pow).left,
        bin_prio(BinOp::Pow).right < bin_prio(BinOp::Pow).left,
        forall|u: UnOp| bin_prio(BinOp::Mul).left <= #[trigger] un_prio(u) < bin_prio(BinOp::Pow).right,
{
}

// ---------------------------------------------------------------------------
// Executable tree
// ---------------------------------------------------------------------------

/// An expression.
#[derive(PartialEq, Debug)]
pub enum Expr {
    Nil,
    True,
    False,
    /// A float literal, carried as the bit pattern the lexer produced.
    Float(u64),
    Int(i64),
    String(String),
    FuncBody(FuncBody),
    Table(Table),
    BinExpr(BinExpr),
    UnExpr(UnExpr),
    VarArg,
    SuffixedExpr(SuffixedExpr),
}

/// A primary expression followed by an ordered list of postfix suffixes,
/// modelling left-associative chaining (`a.b[c]:d(e)`) as a flat sequence.
#[derive(PartialEq, Debug)]
pub struct SuffixedExpr {
    pub primary: PrimaryExpr,
    pub suffixes: Vec<Suffix>,
}

/// A name, or a parenthesized expression.
#[derive(PartialEq, Debug)]
pub enum PrimaryExpr {
    Name(String),
    ParenExpr(Box<Expr>),
}

/// One postfix suffix: attribute access, index, method name, or call
/// arguments.
#[derive(PartialEq, Debug)]
pub enum Suffix {
    Attr(String),
    Index(Expr),
    Method(String),
    FuncArgs(FuncArgs),
}

/// The arguments of a call: a parenthesized expression list, a table
/// constructor, or a bare string literal.
#[derive(PartialEq, Debug)]
pub enum FuncArgs {
    Exprs(Vec<Expr>),
    Table(Table),
    String(String),
}

/// A table constructor: an ordered sequence of fields.
#[derive(PartialEq, Debug)]
pub struct Table {
    pub fields: Vec<Field>,
}

/// A table field: positional, or keyed.
#[derive(PartialEq, Debug)]
pub enum Field {
    ListField(Expr),
    RecFileld(RecField),
}

/// A keyed table field.
#[derive(PartialEq, Debug)]
pub struct RecField {
    pub key: FieldKey,
    pub value: Expr,
}

/// The key of a keyed table field: a name, or a bracketed expression.
#[derive(PartialEq, Debug)]
pub enum FieldKey {
    Name(String),
    Expr(Expr),
}

/// A unary expression.
#[derive(PartialEq, Debug)]
pub struct UnExpr {
    pub op: UnOp,
    pub expr: Box<Expr>,
}

/// A binary expression.
#[derive(PartialEq, Debug)]
pub struct BinExpr {
    pub op: BinOp,
    pub left: Box<Expr>,
    pub right: Box<Expr>,
}

/// An if/elseif/else chain.
#[derive(PartialEq, Debug)]
pub struct IfStat {
    pub cond_blocks: Vec<CondBlock>,
    pub else_block: Block,
}

/// One `(condition, block)` pair of an if/elseif chain.
#[derive(PartialEq, Debug)]
pub struct CondBlock {
    pub cond: Expr,
    pub block: Block,
}

/// A while loop.
#[derive(PartialEq, Debug)]
pub struct WhileStat {
    pub cond: Expr,
    pub block: Block,
}

/// A do-block.
#[derive(PartialEq, Debug)]
pub struct DoBlock {
    pub block: Block,
}

/// A for statement: numeric, or generic.
#[derive(PartialEq, Debug)]
pub enum ForStat {
    ForNum(ForNum),
    ForList(ForList),
}

/// A numeric for loop.
#[derive(PartialEq, Debug)]
pub struct ForNum {
    pub var: String,
    pub init: Expr,
    pub limit: Expr,
    pub step: Option<Expr>,
    pub body: Block,
}

/// A generic for loop.
#[derive(PartialEq, Debug)]
pub struct ForList {
    pub vars: Vec<String>,
    pub exprs: Vec<Expr>,
    pub body: Block,
}

/// A repeat-until loop.
#[derive(PartialEq, Debug)]
pub struct RepeatStat {
    pub cond: Expr,
    pub block: Block,
}

/// Whether a function declaration is global or local.
#[derive(PartialEq, Debug)]
pub enum FuncType {
    Global,
    Local,
}

/// A function declaration statement.
#[derive(PartialEq, Debug)]
pub struct FuncStat {
    pub func_type: FuncType,
    pub func_name: FuncName,
    pub body: FuncBody,
}

/// A function's name: dotted fields, and an optional method name.
#[derive(PartialEq, Debug)]
pub struct FuncName {
    pub fields: Vec<String>,
    pub method: Option<String>,
}

/// A function's parameter list and body block.
#[derive(PartialEq, Debug)]
pub struct FuncBody {
    pub params: Vec<Param>,
    pub block: Block,
}

/// One parameter: a name, or the trailing vararg marker.
#[derive(PartialEq, Debug)]
pub enum Param {
    VarArg,
    Name(String),
}

/// A local-variable declaration.
#[derive(PartialEq, Debug)]
pub struct LocalStat {
    pub names: Vec<String>,
    pub exprs: Vec<Expr>,
}

/// A label.
#[derive(PartialEq, Debug)]
pub struct LabelStat {
    pub label: String,
}

/// A return statement.
#[derive(PartialEq, Debug)]
pub struct RetStat {
    pub exprs: Vec<Expr>,
}

/// A break statement.
#[derive(PartialEq, Debug)]
pub struct BreakStat {}

/// A goto statement.
#[derive(PartialEq, Debug)]
pub struct GotoStat {
    pub label: String,
}

/// A multi-target assignment.
#[derive(PartialEq, Debug)]
pub struct AssignStat {
    pub left: Vec<SuffixedExpr>,
    pub right: Vec<Expr>,
}

/// A bare call statement.
#[derive(PartialEq, Debug)]
pub struct CallStat {
    pub call: SuffixedExpr,
}

/// A statement.
#[derive(PartialEq, Debug)]
pub enum Stat {
    Empty,
    IfStat(IfStat),
    WhileStat(WhileStat),
    DoBlock(DoBlock),
    ForStat(ForStat),
    RepeatStat(RepeatStat),
    FuncStat(FuncStat),
    LocalStat(LocalStat),
    LabelStat(LabelStat),
    RetStat(RetStat),
    BreakStat(BreakStat),
    GotoStat(GotoStat),
    AssignStat(AssignStat),
    CallStat(CallStat),
}

/// An ordered sequence of statements forming one lexical scope body.
#[derive(PartialEq, Debug)]
pub struct Block {
    pub stats: Vec<Stat>,
}

impl Block {
    /// The empty block.
    pub fn empty() -> (r: Block)
        ensures
            r.deep() == (BlockV { stats: Seq::<StatV>::empty() }),
    {
        let r = Block { stats: Vec::new() };
        proof {
            assert(r.deep().stats =~= Seq::<StatV>::empty());
        }
        r
    }
}

// ---------------------------------------------------------------------------
// Model tree
// ---------------------------------------------------------------------------

/// Model of `Expr`.
pub enum ExprV {
    Nil,
    True,
    False,
    Float(u64),
    Int(i64),
    String(Seq<char>),
    FuncBody(FuncBodyV),
    Table(TableV),
    BinExpr(BinExprV),
    UnExpr(UnExprV),
    VarArg,
    SuffixedExpr(SuffixedExprV),
}

/// Model of `SuffixedExpr`.
pub struct SuffixedExprV {
    pub primary: PrimaryExprV,
    pub suffixes: Seq<SuffixV>,
}

/// Model of `PrimaryExpr`.
pub enum PrimaryExprV {
    Name(Seq<char>),
    ParenExpr(Box<ExprV>),
}

/// Model of `Suffix`.
pub enum SuffixV {
    Attr(Seq<char>),
    Index(Box<ExprV>),
    Method(Seq<char>),
    FuncArgs(FuncArgsV),
}

/// Model of `FuncArgs`.
pub enum FuncArgsV {
    Exprs(Seq<ExprV>),
    Table(TableV),
    String(Seq<char>),
}

/// Model of `Table`.
pub struct TableV {
    pub fields: Seq<FieldV>,
}

/// Model of `Field`.
pub enum FieldV {
    ListField(Box<ExprV>),
    RecFileld(RecFieldV),
}

/// Model of `RecField`.
pub struct RecFieldV {
    pub key: FieldKeyV,
    pub value: Box<ExprV>,
}

/// Model of `FieldKey`.
pub enum FieldKeyV {
    Name(Seq<char>),
    Expr(Box<ExprV>),
}

/// Model of `UnExpr`.
pub struct UnExprV {
    pub op: UnOp,
    pub expr: Box<ExprV>,
}

/// Model of `BinExpr`.
pub struct BinExprV {
    pub op: BinOp,
    pub left: Box<ExprV>,
    pub right: Box<ExprV>,
}

/// Model of `IfStat`.
pub struct IfStatV {
    pub cond_blocks: Seq<CondBlockV>,
    pub else_block: BlockV,
}

/// Model of `CondBlock`.
pub struct CondBlockV {
    pub cond: ExprV,
    pub block: BlockV,
}

/// Model of `WhileStat`.
pub struct WhileStatV {
    pub cond: ExprV,
    pub block: BlockV,
}

/// Model of `DoBlock`.
pub struct DoBlockV {
    pub block: BlockV,
}

/// Model of `ForStat`.
pub enum ForStatV {
    ForNum(ForNumV),
    ForList(ForListV),
}

/// Model of `ForNum`.
pub struct ForNumV {
    pub var: Seq<char>,
    pub init: ExprV,
    pub limit: ExprV,
    pub step: Option<ExprV>,
    pub body: BlockV,
}

/// Model of `ForList`.
pub struct ForListV {
    pub vars: Seq<Seq<char>>,
    pub exprs: Seq<ExprV>,
    pub body: BlockV,
}

/// Model of `RepeatStat`.
pub struct RepeatStatV {
    pub cond: ExprV,
    pub block: BlockV,
}

/// Model of `FuncStat`.
pub struct FuncStatV {
    pub func_type: FuncType,
    pub func_name: FuncNameV,
    pub body: FuncBodyV,
}

/// Model of `FuncName`.
pub struct FuncNameV {
    pub fields: Seq<Seq<char>>,
    pub method: Option<Seq<char>>,
}

/// Model of `FuncBody`.
pub struct FuncBodyV {
    pub params: Seq<ParamV>,
    pub block: BlockV,
}

/// Model of `Param`.
pub enum ParamV {
    VarArg,
    Name(Seq<char>),
}

/// Model of `LocalStat`.
pub struct LocalStatV {
    pub names: Seq<Seq<char>>,
    pub exprs: Seq<ExprV>,
}

/// Model of `LabelStat`.
pub struct LabelStatV {
    pub label: Seq<char>,
}

/// Model of `RetStat`.
pub struct RetStatV {
    pub exprs: Seq<ExprV>,
}

/// Model of `BreakStat`.
pub struct BreakStatV {}

/// Model of `GotoStat`.
pub struct GotoStatV {
    pub label: Seq<char>,
}

/// Model of `AssignStat`.
pub struct AssignStatV {
    pub left: Seq<SuffixedExprV>,
    pub right: Seq<ExprV>,
}

/// Model of `CallStat`.
pub struct CallStatV {
    pub call: SuffixedExprV,
}

/// Model of `Stat`.
pub enum StatV {
    Empty,
    IfStat(IfStatV),
    WhileStat(WhileStatV),
    DoBlock(DoBlockV),
    ForStat(ForStatV),
    RepeatStat(RepeatStatV),
    FuncStat(FuncStatV),
    LocalStat(LocalStatV),
    LabelStat(LabelStatV),
    RetStat(RetStatV),
    BreakStat(BreakStatV),
    GotoStat(GotoStatV),
    AssignStat(AssignStatV),
    CallStat(CallStatV),
}

/// Model of `Block`.
pub struct BlockV {
    pub stats: Seq<StatV>,
}

// ---------------------------------------------------------------------------
// Views: from the executable tree to its model
// ---------------------------------------------------------------------------

/// Model of a sequence of statements.
pub open spec fn stats_deep(v: Seq<Stat>) -> Seq<StatV>
    decreases v,
{
    Seq::new(
        v.len(),
        |i: int|
            if 0 <= i < v.len() {
                v[i].deep()
            } else {
                StatV::Empty
            },
    )
}

/// Model of a sequence of expressions.
pub open spec fn exprs_deep(v: Seq<Expr>) -> Seq<ExprV>
    decreases v,
{
    Seq::new(
        v.len(),
        |i: int|
            if 0 <= i < v.len() {
                v[i].deep()
            } else {
                ExprV::Nil
            },
    )
}

/// Model of a sequence of suffixes.
pub open spec fn suffixes_deep(v: Seq<Suffix>) -> Seq<SuffixV>
    decreases v,
{
    Seq::new(
        v.len(),
        |i: int|
            if 0 <= i < v.len() {
                v[i].deep()
            } else {
                SuffixV::Attr(Seq::empty())
            },
    )
}

/// Model of a sequence of table fields.
pub open spec fn fields_deep(v: Seq<Field>) -> Seq<FieldV>
    decreases v,
{
    Seq::new(
        v.len(),
        |i: int|
            if 0 <= i < v.len() {
                v[i].deep()
            } else {
                FieldV::ListField(Box::new(ExprV::Nil))
            },
    )
}

/// Model of a sequence of parameters.
pub open spec fn params_deep(v: Seq<Param>) -> Seq<ParamV>
    decreases v,
{
    Seq::new(
        v.len(),
        |i: int|
            if 0 <= i < v.len() {
                v[i].deep()
            } else {
                ParamV::VarArg
            },
    )
}

/// Model of a sequence of condition blocks.
pub open spec fn cond_blocks_deep(v: Seq<CondBlock>) -> Seq<CondBlockV>
    decreases v,
{
    Seq::new(
        v.len(),
        |i: int|
            if 0 <= i < v.len() {
                v[i].deep()
            } else {
                CondBlockV { cond: ExprV::Nil, block: BlockV { stats: Seq::empty() } }
            },
    )
}

/// Model of a sequence of suffixed expressions.
pub open spec fn suffixed_exprs_deep(v: Seq<SuffixedExpr>) -> Seq<SuffixedExprV>
    decreases v,
{
    Seq::new(
        v.len(),
        |i: int|
            if 0 <= i < v.len() {
                v[i].deep()
            } else {
                SuffixedExprV { primary: PrimaryExprV::Name(Seq::empty()), suffixes: Seq::empty() }
            },
    )
}

/// Model of a sequence of names.
pub open spec fn names_deep(v: Seq<String>) -> Seq<Seq<char>> {
    Seq::new(v.len(), |i: int| if 0 <= i < v.len() { v[i]@ } else { Seq::empty() })
}

impl Expr {
    /// The model of this expression.
    pub open spec fn deep(self) -> ExprV
        decreases self,
    {
        match self {
            Expr::Nil => ExprV::Nil,
            Expr::True => ExprV::True,
            Expr::False => ExprV::False,
            Expr::Float(b) => ExprV::Float(b),
            Expr::Int(i) => ExprV::Int(i),
            Expr::String(s) => ExprV::String(s@),
            Expr::FuncBody(fb) => ExprV::FuncBody(fb.deep()),
            Expr::Table(t) => ExprV::Table(t.deep()),
            Expr::BinExpr(b) => ExprV::BinExpr(b.deep()),
            Expr::UnExpr(u) => ExprV::UnExpr(u.deep()),
            Expr::VarArg => ExprV::VarArg,
            Expr::SuffixedExpr(se) => ExprV::SuffixedExpr(se.deep()),
        }
    }
}

impl SuffixedExpr {
    /// The model of this suffixed expression.
    pub open spec fn deep(self) -> SuffixedExprV
        decreases self,
    {
        SuffixedExprV { primary: self.primary.deep(), suffixes: suffixes_deep(self.suffixes@) }
    }
}

impl PrimaryExpr {
    /// The model of this primary expression.
    pub open spec fn deep(self) -> PrimaryExprV
        decreases self,
    {
        match self {
            PrimaryExpr::Name(s) => PrimaryExprV::Name(s@),
            PrimaryExpr::ParenExpr(e) => PrimaryExprV::ParenExpr(Box::new(e.deep())),
        }
    }
}

impl Suffix {
    /// The model of this suffix.
    pub open spec fn deep(self) -> SuffixV
        decreases self,
    {
        match self {
            Suffix::Attr(s) => SuffixV::Attr(s@),
            Suffix::Index(e) => SuffixV::Index(Box::new(e.deep())),
            Suffix::Method(s) => SuffixV::Method(s@),
            Suffix::FuncArgs(fa) => SuffixV::FuncArgs(fa.deep()),
        }
    }
}

impl FuncArgs {
    /// The model of these call arguments.
    pub open spec fn deep(self) -> FuncArgsV
        decreases self,
    {
        match self {
            FuncArgs::Exprs(es) => FuncArgsV::Exprs(exprs_deep(es@)),
            FuncArgs::Table(t) => FuncArgsV::Table(t.deep()),
            FuncArgs::String(s) => FuncArgsV::String(s@),
        }
    }
}

impl Table {
    /// The model of this table constructor.
    pub open spec fn deep(self) -> TableV
        decreases self,
    {
        TableV { fields: fields_deep(self.fields@) }
    }
}

impl Field {
    /// The model of this table field.
    pub open spec fn deep(self) -> FieldV
        decreases self,
    {
        match self {
            Field::ListField(e) => FieldV::ListField(Box::new(e.deep())),
            Field::RecFileld(r) => FieldV::RecFileld(r.deep()),
        }
    }
}

impl RecField {
    /// The model of this keyed field.
    pub open spec fn deep(self) -> RecFieldV
        decreases self,
    {
        RecFieldV { key: self.key.deep(), value: Box::new(self.value.deep()) }
    }
}

impl FieldKey {
    /// The model of this field key.
    pub open spec fn deep(self) -> FieldKeyV
        decreases self,
    {
        match self {
            FieldKey::Name(s) => FieldKeyV::Name(s@),
            FieldKey::Expr(e) => FieldKeyV::Expr(Box::new(e.deep())),
        }
    }
}

impl UnExpr {
    /// The model of this unary expression.
    pub open spec fn deep(self) -> UnExprV
        decreases self,
    {
        UnExprV { op: self.op, expr: Box::new(self.expr.deep()) }
    }
}

impl BinExpr {
    /// The model of this binary expression.
    pub open spec fn deep(self) -> BinExprV
        decreases self,
    {
        BinExprV { op: self.op, left: Box::new(self.left.deep()), right: Box::new(self.right.deep()) }
    }
}

impl IfStat {
    /// The model of this if chain.
    pub open spec fn deep(self) -> IfStatV
        decreases self,
    {
        IfStatV { cond_blocks: cond_blocks_deep(self.cond_blocks@), else_block: self.else_block.deep() }
    }
}

impl CondBlock {
    /// The model of this condition block.
    pub open spec fn deep(self) -> CondBlockV
        decreases self,
    {
        CondBlockV { cond: self.cond.deep(), block: self.block.deep() }
    }
}

impl WhileStat {
    /// The model of this while loop.
    pub open spec fn deep(self) -> WhileStatV
        decreases self,
    {
        WhileStatV { cond: self.cond.deep(), block: self.block.deep() }
    }
}

impl DoBlock {
    /// The model of this do-block.
    pub open spec fn deep(self) -> DoBlockV
        decreases self,
    {
        DoBlockV { block: self.block.deep() }
    }
}

impl ForStat {
    /// The model of this for statement.
    pub open spec fn deep(self) -> ForStatV
        decreases self,
    {
        match self {
            ForStat::ForNum(f) => ForStatV::ForNum(f.deep()),
            ForStat::ForList(f) => ForStatV::ForList(f.deep()),
        }
    }
}

impl ForNum {
    /// The model of this numeric for loop.
    pub open spec fn deep(self) -> ForNumV
        decreases self,
    {
        ForNumV {
            var: self.var@,
            init: self.init.deep(),
            limit: self.limit.deep(),
            step: match self.step {
                Some(e) => Some(e.deep()),
                None => None,
            },
            body: self.body.deep(),
        }
    }
}

impl ForList {
    /// The model of this generic for loop.
    pub open spec fn deep(self) -> ForListV
        decreases self,
    {
        ForListV { vars: names_deep(self.vars@), exprs: exprs_deep(self.exprs@), body: self.body.deep() }
    }
}

impl RepeatStat {
    /// The model of this repeat-until loop.
    pub open spec fn deep(self) -> RepeatStatV
        decreases self,
    {
        RepeatStatV { cond: self.cond.deep(), block: self.block.deep() }
    }
}

impl FuncStat {
    /// The model of this function declaration.
    pub open spec fn deep(self) -> FuncStatV
        decreases self,
    {
        FuncStatV { func_type: self.func_type, func_name: self.func_name.deep(), body: self.body.deep() }
    }
}

impl FuncName {
    /// The model of this function name.
    pub open spec fn deep(self) -> FuncNameV
        decreases self,
    {
        FuncNameV {
            fields: names_deep(self.fields@),
            method: match self.method {
                Some(s) => Some(s@),
                None => None,
            },
        }
    }
}

impl FuncBody {
    /// The model of this function body.
    pub open spec fn deep(self) -> FuncBodyV
        decreases self,
    {
        FuncBodyV { params: params_deep(self.params@), block: self.block.deep() }
    }
}

impl Param {
    /// The model of this parameter.
    pub open spec fn deep(self) -> ParamV
        decreases self,
    {
        match self {
            Param::VarArg => ParamV::VarArg,
            Param::Name(s) => ParamV::Name(s@),
        }
    }
}

impl LocalStat {
    /// The model of this local declaration.
    pub open spec fn deep(self) -> LocalStatV
        decreases self,
    {
        LocalStatV { names: names_deep(self.names@), exprs: exprs_deep(self.exprs@) }
    }
}

impl LabelStat {
    /// The model of this label.
    pub open spec fn deep(self) -> LabelStatV {
        LabelStatV { label: self.label@ }
    }
}

impl RetStat {
    /// The model of this return statement.
    pub open spec fn deep(self) -> RetStatV
        decreases self,
    {
        RetStatV { exprs: exprs_deep(self.exprs@) }
    }
}

impl BreakStat {
    /// The model of this break statement.
    pub open spec fn deep(self) -> BreakStatV {
        BreakStatV {  }
    }
}

impl GotoStat {
    /// The model of this goto statement.
    pub open spec fn deep(self) -> GotoStatV {
        GotoStatV { label: self.label@ }
    }
}

impl AssignStat {
    /// The model of this assignment.
    pub open spec fn deep(self) -> AssignStatV
        decreases self,
    {
        AssignStatV { left: suffixed_exprs_deep(self.left@), right: exprs_deep(self.right@) }
    }
}

impl CallStat {
    /// The model of this call statement.
    pub open spec fn deep(self) -> CallStatV
        decreases self,
    {
        CallStatV { call: self.call.deep() }
    }
}

impl Stat {
    /// The model of this statement.
    pub open spec fn deep(self) -> StatV
        decreases self,
    {
        match self {
            Stat::Empty => StatV::Empty,
            Stat::IfStat(s) => StatV::IfStat(s.deep()),
            Stat::WhileStat(s) => StatV::WhileStat(s.deep()),
            Stat::DoBlock(s) => StatV::DoBlock(s.deep()),
            Stat::ForStat(s) => StatV::ForStat(s.deep()),
            Stat::RepeatStat(s) => StatV::RepeatStat(s.deep()),
            Stat::FuncStat(s) => StatV::FuncStat(s.deep()),
            Stat::LocalStat(s) => StatV::LocalStat(s.deep()),
            Stat::LabelStat(s) => StatV::LabelStat(s.deep()),
            Stat::RetStat(s) => StatV::RetStat(s.deep()),
            Stat::BreakStat(s) => StatV::BreakStat(s.deep()),
            Stat::GotoStat(s) => StatV::GotoStat(s.deep()),
            Stat::AssignStat(s) => StatV::AssignStat(s.deep()),
            Stat::CallStat(s) => StatV::CallStat(s.deep()),
        }
    }
}

impl Block {
    /// The model of this block.
    pub open spec fn deep(self) -> BlockV
        decreases self,
    {
        BlockV { stats: stats_deep(self.stats@) }
    }
}


// ---------------------------------------------------------------------------
// Sentinel freedom: the `NoOp` tags exist only for classification during
// parsing and never appear inside a completed tree.
// ---------------------------------------------------------------------------

/// No operator sentinel occurs anywhere below this expression.
pub open spec fn expr_ops_ok(e: ExprV) -> bool
    decreases e,
{
    match e {
        ExprV::Nil => true,
        ExprV::True => true,
        ExprV::False => true,
        ExprV::Float(_) => true,
        ExprV::Int(_) => true,
        ExprV::String(_) => true,
        ExprV::FuncBody(fb) => funcbody_ops_ok(fb),
        ExprV::Table(t) => table_ops_ok(t),
        ExprV::BinExpr(b) => b.op != BinOp::NoOp && expr_ops_ok(*b.left) && expr_ops_ok(*b.right),
        ExprV::UnExpr(u) => u.op != UnOp::NoOp && expr_ops_ok(*u.expr),
        ExprV::VarArg => true,
        ExprV::SuffixedExpr(se) => suffixed_ops_ok(se),
    }
}

/// No operator sentinel occurs below this suffixed expression.
pub open spec fn suffixed_ops_ok(se: SuffixedExprV) -> bool
    decreases se,
{
    &&& primary_ops_ok(se.primary)
    &&& forall|i: int| 0 <= i < se.suffixes.len() ==> suffix_ops_ok(#[trigger] se.suffixes[i])
}

/// No operator sentinel occurs below this primary expression.
pub open spec fn primary_ops_ok(p: PrimaryExprV) -> bool
    decreases p,
{
    match p {
        PrimaryExprV::Name(_) => true,
        PrimaryExprV::ParenExpr(e) => expr_ops_ok(*e),
    }
}

/// No operator sentinel occurs below this suffix.
pub open spec fn suffix_ops_ok(s: SuffixV) -> bool
    decreases s,
{
    match s {
        SuffixV::Attr(_) => true,
        SuffixV::Index(e) => expr_ops_ok(*e),
        SuffixV::Method(_) => true,
        SuffixV::FuncArgs(fa) => funcargs_ops_ok(fa),
    }
}

/// No operator sentinel occurs below these call arguments.
pub open spec fn funcargs_ops_ok(fa: FuncArgsV) -> bool
    decreases fa,
{
    match fa {
        FuncArgsV::Exprs(es) => forall|i: int| 0 <= i < es.len() ==> expr_ops_ok(#[trigger] es[i]),
        FuncArgsV::Table(t) => table_ops_ok(t),
        FuncArgsV::String(_) => true,
    }
}

/// No operator sentinel occurs below this table constructor.
pub open spec fn table_ops_ok(t: TableV) -> bool
    decreases t,
{
    forall|i: int| 0 <= i < t.fields.len() ==> field_ops_ok(#[trigger] t.fields[i])
}

/// No operator sentinel occurs below this table field.
pub open spec fn field_ops_ok(f: FieldV) -> bool
    decreases f,
{
    match f {
        FieldV::ListField(e) => expr_ops_ok(*e),
        FieldV::RecFileld(rf) => fieldkey_ops_ok(rf.key) && expr_ops_ok(*rf.value),
    }
}

/// No operator sentinel occurs below this field key.
pub open spec fn fieldkey_ops_ok(k: FieldKeyV) -> bool
    decreases k,
{
    match k {
        FieldKeyV::Name(_) => true,
        FieldKeyV::Expr(e) => expr_ops_ok(*e),
    }
}

/// No operator sentinel occurs below this function body.
pub open spec fn funcbody_ops_ok(fb: FuncBodyV) -> bool
    decreases fb,
{
    block_ops_ok(fb.block)
}

/// No operator sentinel occurs below this block.
pub open spec fn block_ops_ok(b: BlockV) -> bool
    decreases b,
{
    forall|i: int| 0 <= i < b.stats.len() ==> stat_ops_ok(#[trigger] b.stats[i])
}

/// No operator sentinel occurs below this statement.
pub open spec fn stat_ops_ok(s: StatV) -> bool
    decreases s,
{
    match s {
        StatV::Empty => true,
        StatV::IfStat(i) => {
            &&& forall|j: int|
                0 <= j < i.cond_blocks.len() ==> cond_block_ops_ok(#[trigger] i.cond_blocks[j])
            &&& block_ops_ok(i.else_block)
        },
        StatV::WhileStat(w) => expr_ops_ok(w.cond) && block_ops_ok(w.block),
        StatV::DoBlock(d) => block_ops_ok(d.block),
        StatV::ForStat(f) => match f {
            ForStatV::ForNum(fr) => {
                &&& expr_ops_ok(fr.init)
                &&& expr_ops_ok(fr.limit)
                &&& match fr.step {
                    Some(e) => expr_ops_ok(e),
                    None => true,
                }
                &&& block_ops_ok(fr.body)
            },
            ForStatV::ForList(fl) => {
                &&& forall|j: int| 0 <= j < fl.exprs.len() ==> expr_ops_ok(#[trigger] fl.exprs[j])
                &&& block_ops_ok(fl.body)
            },
        },
        StatV::RepeatStat(r) => expr_ops_ok(r.cond) && block_ops_ok(r.block),
        StatV::FuncStat(f) => funcbody_ops_ok(f.body),
        StatV::LocalStat(l) => forall|j: int|
            0 <= j < l.exprs.len() ==> expr_ops_ok(#[trigger] l.exprs[j]),
        StatV::LabelStat(_) => true,
        StatV::RetStat(r) => forall|j: int|
            0 <= j < r.exprs.len() ==> expr_ops_ok(#[trigger] r.exprs[j]),
        StatV::BreakStat(_) => true,
        StatV::GotoStat(_) => true,
        StatV::AssignStat(a) => {
            &&& forall|j: int| 0 <= j < a.left.len() ==> suffixed_ops_ok(#[trigger] a.left[j])
            &&& forall|j: int| 0 <= j < a.right.len() ==> expr_ops_ok(#[trigger] a.right[j])
        },
        StatV::CallStat(c) => suffixed_ops_ok(c.call),
    }
}

/// No operator sentinel occurs below this condition block.
pub open spec fn cond_block_ops_ok(cb: CondBlockV) -> bool
    decreases cb,
{
    expr_ops_ok(cb.cond) && block_ops_ok(cb.block)
}

} // verus!
