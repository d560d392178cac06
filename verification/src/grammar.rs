//! The grammar, stated as a mathematical function over token sequences.
//!
//! Each `spec_*` function maps a token sequence and a position to `None`
//! (the input is rejected there) or `Some((node, end))`: the model of the
//! parsed node together with the position just past it. The executable
//! parser is proved to return exactly these results, so these functions
//! are the single definition of which inputs the parser accepts and of
//! the tree it builds.
//!
//! Each grammar function has an error companion (`spec_err_*`) giving
//! the exact diagnostic text the parser reports when it rejects the
//! input, so rejection too is pinned down to the rendered message.
//!
//! The functions recurse along the same structure as the parser. To make
//! them well-founded without assuming anything about the input, every
//! position that comes back from an inner parse is checked to have moved
//! forward and to lie inside the sequence before parsing continues after
//! it; the executable parser always moves forward, so for it these checks
//! never fail. Positions that the grammar advances by itself carry
//! explicit in-range checks for the same reason.

use vstd::prelude::*;

use crate::ast::BinOp;
use crate::ast::UnOp;
use crate::ast::bin_prio;
use crate::ast::binop_of;
use crate::ast::un_prio;
use crate::ast::unop_of;
use crate::ast::AssignStatV;
use crate::ast::BinExprV;
use crate::ast::BlockV;
use crate::ast::BreakStatV;
use crate::ast::CallStatV;
use crate::ast::CondBlockV;
use crate::ast::DoBlockV;
use crate::ast::ExprV;
use crate::ast::FieldKeyV;
use crate::ast::FieldV;
use crate::ast::ForListV;
use crate::ast::ForNumV;
use crate::ast::ForStatV;
use crate::ast::FuncArgsV;
use crate::ast::FuncBodyV;
use crate::ast::FuncNameV;
use crate::ast::FuncStatV;
use crate::ast::FuncType;
use crate::ast::GotoStatV;
use crate::ast::IfStatV;
use crate::ast::LabelStatV;
use crate::ast::LocalStatV;
use crate::ast::ParamV;
use crate::ast::PrimaryExprV;
use crate::ast::RecFieldV;
use crate::ast::RepeatStatV;
use crate::ast::RetStatV;
use crate::ast::StatV;
use crate::ast::SuffixV;
use crate::ast::SuffixedExprV;
use crate::ast::TableV;
use crate::ast::UnExprV;
use crate::ast::WhileStatV;
use crate::token::Token;
use crate::token::TokenType;

verus! {

/// A token whose presence ends the current block without being consumed.
pub open spec fn is_block_end_t(t: TokenType) -> bool {
    ||| t == TokenType::Else
    ||| t == TokenType::ElseIf
    ||| t == TokenType::End
    ||| t == TokenType::Until
    ||| t == TokenType::Eos
}

/// The position `p` returned by an inner parse moved strictly forward
/// from `pos` and still lies inside the sequence.
pub open spec fn moved(toks: Seq<Token>, pos: int, p: int) -> bool {
    pos < p < toks.len()
}

/// The position `p` returned by an inner parse did not move backwards
/// from `pos` and still lies inside the sequence.
pub open spec fn reached(toks: Seq<Token>, pos: int, p: int) -> bool {
    pos <= p < toks.len()
}

/// `pos` is a position at a token of the sequence.
pub open spec fn at_tok(toks: Seq<Token>, pos: int) -> bool {
    0 <= pos < toks.len()
}

// ---------------------------------------------------------------------------
// Name lists and parameter lists
// ---------------------------------------------------------------------------

/// `{',' NAME}`: a possibly empty comma-led name list.
pub open spec fn spec_more_names(toks: Seq<Token>, pos: int) -> Option<(Seq<Seq<char>>, int)>
    decreases toks.len() - pos,
{
    if !at_tok(toks, pos) {
        None
    } else if toks[pos].t == TokenType::Comma {
        if pos + 1 < toks.len() && toks[pos + 1].t == TokenType::Name {
            match spec_more_names(toks, pos + 2) {
                Some((ns, p)) => Some((seq![toks[pos + 1].str_value()] + ns, p)),
                None => None,
            }
        } else {
            None
        }
    } else {
        Some((Seq::empty(), pos))
    }
}

/// `NAME {',' NAME}`: a name list with at least one name.
pub open spec fn spec_namelist(toks: Seq<Token>, pos: int) -> Option<(Seq<Seq<char>>, int)> {
    if !at_tok(toks, pos) {
        None
    } else if toks[pos].t == TokenType::Name {
        match spec_more_names(toks, pos + 1) {
            Some((ns, p)) => Some((seq![toks[pos].str_value()] + ns, p)),
            None => None,
        }
    } else {
        None
    }
}

/// `{'.' NAME}`: the dotted tail of a function name.
pub open spec fn spec_dotted(toks: Seq<Token>, pos: int) -> Option<(Seq<Seq<char>>, int)>
    decreases toks.len() - pos,
{
    if !at_tok(toks, pos) {
        None
    } else if toks[pos].t == TokenType::Attr {
        if pos + 1 < toks.len() && toks[pos + 1].t == TokenType::Name {
            match spec_dotted(toks, pos + 2) {
                Some((ns, p)) => Some((seq![toks[pos + 1].str_value()] + ns, p)),
                None => None,
            }
        } else {
            None
        }
    } else {
        Some((Seq::empty(), pos))
    }
}

/// `funcname -> NAME {'.' NAME} [':' NAME]`.
pub open spec fn spec_funcname(toks: Seq<Token>, pos: int) -> Option<(FuncNameV, int)> {
    if !at_tok(toks, pos) {
        None
    } else if toks[pos].t == TokenType::Name {
        match spec_dotted(toks, pos + 1) {
            Some((fs, p1)) => {
                let fields = seq![toks[pos].str_value()] + fs;
                if at_tok(toks, p1) && toks[p1].t == TokenType::Colon {
                    if p1 + 1 < toks.len() && toks[p1 + 1].t == TokenType::Name {
                        Some(
                            (
                                FuncNameV {
                                    fields,
                                    method: Some(toks[p1 + 1].str_value()),
                                },
                                p1 + 2,
                            ),
                        )
                    } else {
                        None
                    }
                } else {
                    Some((FuncNameV { fields, method: None }, p1))
                }
            },
            None => None,
        }
    } else {
        None
    }
}

/// `parlist -> [ {NAME ','} (NAME | '...') [','] ]`, as the parser reads
/// it: parameters separated by commas, a trailing comma permitted, the
/// list ended by the closing parenthesis (which is not consumed here).
pub open spec fn spec_params(toks: Seq<Token>, pos: int) -> Option<(Seq<ParamV>, int)>
    decreases toks.len() - pos,
{
    if !at_tok(toks, pos) {
        None
    } else if toks[pos].t == TokenType::Rp {
        Some((Seq::empty(), pos))
    } else {
        let prm = if toks[pos].t == TokenType::Dots {
            Some(ParamV::VarArg)
        } else if toks[pos].t == TokenType::Name {
            Some(ParamV::Name(toks[pos].str_value()))
        } else {
            None
        };
        match prm {
            Some(p0) => if pos + 1 < toks.len() && toks[pos + 1].t == TokenType::Comma {
                match spec_params(toks, pos + 2) {
                    Some((ps, p)) => Some((seq![p0] + ps, p)),
                    None => None,
                }
            } else {
                Some((seq![p0], pos + 1))
            },
            None => None,
        }
    }
}

// ---------------------------------------------------------------------------
// Blocks, statements, expressions
// ---------------------------------------------------------------------------

/// `block -> { stat }`, ending at a block-terminating token; a parsed
/// return statement is the last statement collected.
pub open spec fn spec_block(toks: Seq<Token>, pos: int) -> Option<(BlockV, int)>
    decreases toks.len() - pos, 50int,
{
    match spec_stats(toks, pos) {
        Some((ss, p)) => Some((BlockV { stats: ss }, p)),
        None => None,
    }
}

/// The statement sequence of a block.
pub open spec fn spec_stats(toks: Seq<Token>, pos: int) -> Option<(Seq<StatV>, int)>
    decreases toks.len() - pos, 49int,
{
    if !at_tok(toks, pos) {
        None
    } else if is_block_end_t(toks[pos].t) {
        Some((Seq::empty(), pos))
    } else if toks[pos].t == TokenType::Return {
        match spec_stat(toks, pos) {
            Some((s, p)) => Some((seq![s], p)),
            None => None,
        }
    } else {
        match spec_stat(toks, pos) {
            Some((s, p1)) => if moved(toks, pos, p1) {
                match spec_stats(toks, p1) {
                    Some((ss, p2)) => Some((seq![s] + ss, p2)),
                    None => None,
                }
            } else {
                None
            },
            None => None,
        }
    }
}

/// `stat`: dispatch on the current token's type.
pub open spec fn spec_stat(toks: Seq<Token>, pos: int) -> Option<(StatV, int)>
    decreases toks.len() - pos, 48int,
{
    if !at_tok(toks, pos) {
        None
    } else {
        match toks[pos].t {
            TokenType::Semi => Some((StatV::Empty, pos + 1)),
            TokenType::If => match spec_ifstat(toks, pos) {
                Some((s, p)) => Some((StatV::IfStat(s), p)),
                None => None,
            },
            TokenType::While => match spec_whilestat(toks, pos) {
                Some((s, p)) => Some((StatV::WhileStat(s), p)),
                None => None,
            },
            TokenType::Do => match spec_block(toks, pos + 1) {
                Some((b, p1)) => if at_tok(toks, p1) && toks[p1].t == TokenType::End {
                    Some((StatV::DoBlock(DoBlockV { block: b }), p1 + 1))
                } else {
                    None
                },
                None => None,
            },
            TokenType::For => match spec_forstat(toks, pos) {
                Some((s, p)) => Some((StatV::ForStat(s), p)),
                None => None,
            },
            TokenType::Repeat => match spec_repeatstat(toks, pos) {
                Some((s, p)) => Some((StatV::RepeatStat(s), p)),
                None => None,
            },
            TokenType::Function => match spec_funcstat(toks, pos) {
                Some((s, p)) => Some((StatV::FuncStat(s), p)),
                None => None,
            },
            TokenType::Local => if pos + 1 < toks.len() && toks[pos + 1].t == TokenType::Function {
                match spec_localfunc(toks, pos + 1) {
                    Some((s, p)) => Some((StatV::FuncStat(s), p)),
                    None => None,
                }
            } else {
                match spec_localstat(toks, pos + 1) {
                    Some((s, p)) => Some((StatV::LocalStat(s), p)),
                    None => None,
                }
            },
            TokenType::DbColon => if pos + 1 < toks.len() && toks[pos + 1].t == TokenType::Name && pos
                + 2 < toks.len() && toks[pos + 2].t == TokenType::DbColon {
                Some((StatV::LabelStat(LabelStatV { label: toks[pos + 1].str_value() }), pos + 3))
            } else {
                None
            },
            TokenType::Return => match spec_retstat(toks, pos + 1) {
                Some((s, p)) => Some((StatV::RetStat(s), p)),
                None => None,
            },
            TokenType::Break => Some((StatV::BreakStat(BreakStatV {  }), pos + 1)),
            TokenType::Goto => if pos + 1 < toks.len() && toks[pos + 1].t == TokenType::Name {
                Some((StatV::GotoStat(GotoStatV { label: toks[pos + 1].str_value() }), pos + 2))
            } else {
                None
            },
            _ => spec_exprstat(toks, pos),
        }
    }
}

/// `ifstat -> IF cond THEN block {ELSEIF cond THEN block} [ELSE block] END`.
pub open spec fn spec_ifstat(toks: Seq<Token>, pos: int) -> Option<(IfStatV, int)>
    decreases toks.len() - pos, 47int,
{
    match spec_test_then_block(toks, pos) {
        Some((cb0, p1)) => if moved(toks, pos, p1) {
            match spec_cond_blocks(toks, p1) {
                Some((cbs, p2)) => if reached(toks, p1, p2) {
                    if toks[p2].t == TokenType::Else {
                        match spec_block(toks, p2 + 1) {
                            Some((eb, p3)) => if at_tok(toks, p3) && toks[p3].t == TokenType::End {
                                Some(
                                    (
                                        IfStatV { cond_blocks: seq![cb0] + cbs, else_block: eb },
                                        p3 + 1,
                                    ),
                                )
                            } else {
                                None
                            },
                            None => None,
                        }
                    } else if toks[p2].t == TokenType::End {
                        Some(
                            (
                                IfStatV {
                                    cond_blocks: seq![cb0] + cbs,
                                    else_block: BlockV { stats: Seq::empty() },
                                },
                                p2 + 1,
                            ),
                        )
                    } else {
                        None
                    }
                } else {
                    None
                },
                None => None,
            }
        } else {
            None
        },
        None => None,
    }
}

/// `{ELSEIF cond THEN block}`: the elseif chain of an if statement.
pub open spec fn spec_cond_blocks(toks: Seq<Token>, pos: int) -> Option<(Seq<CondBlockV>, int)>
    decreases toks.len() - pos, 46int,
{
    if !at_tok(toks, pos) {
        None
    } else if toks[pos].t == TokenType::ElseIf {
        match spec_test_then_block(toks, pos) {
            Some((cb, p1)) => if moved(toks, pos, p1) {
                match spec_cond_blocks(toks, p1) {
                    Some((cbs, p2)) => Some((seq![cb] + cbs, p2)),
                    None => None,
                }
            } else {
                None
            },
            None => None,
        }
    } else {
        Some((Seq::empty(), pos))
    }
}

/// `(IF | ELSEIF) cond THEN block`.
pub open spec fn spec_test_then_block(toks: Seq<Token>, pos: int) -> Option<(CondBlockV, int)>
    decreases toks.len() - pos, 45int,
{
    if !at_tok(toks, pos) {
        None
    } else {
        match spec_expr(toks, pos + 1) {
            Some((cond, p1)) => if moved(toks, pos, p1) && toks[p1].t == TokenType::Then {
                match spec_block(toks, p1 + 1) {
                    Some((b, p2)) => Some((CondBlockV { cond, block: b }, p2)),
                    None => None,
                }
            } else {
                None
            },
            None => None,
        }
    }
}

/// `whilestat -> WHILE cond DO block END`.
pub open spec fn spec_whilestat(toks: Seq<Token>, pos: int) -> Option<(WhileStatV, int)>
    decreases toks.len() - pos, 47int,
{
    if !at_tok(toks, pos) {
        None
    } else {
        match spec_expr(toks, pos + 1) {
            Some((cond, p1)) => if moved(toks, pos, p1) && toks[p1].t == TokenType::Do {
                match spec_block(toks, p1 + 1) {
                    Some((b, p2)) => if at_tok(toks, p2) && toks[p2].t == TokenType::End {
                        Some((WhileStatV { cond, block: b }, p2 + 1))
                    } else {
                        None
                    },
                    None => None,
                }
            } else {
                None
            },
            None => None,
        }
    }
}

/// `forstat -> FOR (fornum | forlist) END`.
pub open spec fn spec_forstat(toks: Seq<Token>, pos: int) -> Option<(ForStatV, int)>
    decreases toks.len() - pos, 47int,
{
    if !(0 <= pos && pos + 2 < toks.len()) {
        None
    } else if toks[pos + 1].t == TokenType::Name {
        let var = toks[pos + 1].str_value();
        let inner = if toks[pos + 2].t == TokenType::Assign {
            spec_forenum(toks, pos + 2, var)
        } else if toks[pos + 2].t == TokenType::Comma || toks[pos + 2].t == TokenType::In {
            spec_forlist(toks, pos + 2, var)
        } else {
            None
        };
        match inner {
            Some((fs, p)) => if at_tok(toks, p) && toks[p].t == TokenType::End {
                Some((fs, p + 1))
            } else {
                None
            },
            None => None,
        }
    } else {
        None
    }
}

/// `fornum -> NAME '=' exp ',' exp [',' exp] DO block`, entered at the
/// `=` with the loop variable already read.
pub open spec fn spec_forenum(toks: Seq<Token>, pos: int, var: Seq<char>) -> Option<(ForStatV, int)>
    decreases toks.len() - pos, 46int,
{
    if !at_tok(toks, pos) {
        None
    } else {
        match spec_expr(toks, pos + 1) {
            Some((init, p1)) => if moved(toks, pos, p1) && toks[p1].t == TokenType::Comma {
                match spec_expr(toks, p1 + 1) {
                    Some((limit, p2)) => if moved(toks, p1, p2) {
                        if toks[p2].t == TokenType::Comma {
                            match spec_expr(toks, p2 + 1) {
                                Some((step, p3)) => if moved(toks, p2, p3) && toks[p3].t
                                    == TokenType::Do {
                                    match spec_block(toks, p3 + 1) {
                                        Some((b, p4)) => Some(
                                            (
                                                ForStatV::ForNum(
                                                    ForNumV {
                                                        var,
                                                        init,
                                                        limit,
                                                        step: Some(step),
                                                        body: b,
                                                    },
                                                ),
                                                p4,
                                            ),
                                        ),
                                        None => None,
                                    }
                                } else {
                                    None
                                },
                                None => None,
                            }
                        } else if toks[p2].t == TokenType::Do {
                            match spec_block(toks, p2 + 1) {
                                Some((b, p3)) => Some(
                                    (
                                        ForStatV::ForNum(
                                            ForNumV { var, init, limit, step: None, body: b },
                                        ),
                                        p3,
                                    ),
                                ),
                                None => None,
                            }
                        } else {
                            None
                        }
                    } else {
                        None
                    },
                    None => None,
                }
            } else {
                None
            },
            None => None,
        }
    }
}

/// `forlist -> NAME {',' NAME} IN explist DO block`, entered at the `,`
/// or `in` with the first loop variable already read.
pub open spec fn spec_forlist(toks: Seq<Token>, pos: int, var: Seq<char>) -> Option<(ForStatV, int)>
    decreases toks.len() - pos, 46int,
{
    if !at_tok(toks, pos) {
        None
    } else {
        match spec_more_names(toks, pos) {
            Some((ns, p1)) => if reached(toks, pos, p1) && toks[p1].t == TokenType::In {
                match spec_exprlist(toks, p1 + 1) {
                    Some((es, p2)) => if moved(toks, p1, p2) && toks[p2].t == TokenType::Do {
                        match spec_block(toks, p2 + 1) {
                            Some((b, p3)) => Some(
                                (
                                    ForStatV::ForList(
                                        ForListV { vars: seq![var] + ns, exprs: es, body: b },
                                    ),
                                    p3,
                                ),
                            ),
                            None => None,
                        }
                    } else {
                        None
                    },
                    None => None,
                }
            } else {
                None
            },
            None => None,
        }
    }
}

/// `repeatstat -> REPEAT block UNTIL cond`.
pub open spec fn spec_repeatstat(toks: Seq<Token>, pos: int) -> Option<(RepeatStatV, int)>
    decreases toks.len() - pos, 47int,
{
    if !at_tok(toks, pos) {
        None
    } else {
        match spec_block(toks, pos + 1) {
            Some((b, p1)) => if moved(toks, pos, p1) && toks[p1].t == TokenType::Until {
                match spec_expr(toks, p1 + 1) {
                    Some((cond, p2)) => Some((RepeatStatV { block: b, cond }, p2)),
                    None => None,
                }
            } else {
                None
            },
            None => None,
        }
    }
}

/// `funcstat -> FUNCTION funcname body`.
pub open spec fn spec_funcstat(toks: Seq<Token>, pos: int) -> Option<(FuncStatV, int)>
    decreases toks.len() - pos, 47int,
{
    if !at_tok(toks, pos) {
        None
    } else {
        match spec_funcname(toks, pos + 1) {
            Some((fname, p1)) => if moved(toks, pos, p1) {
                match spec_funcbody(toks, p1) {
                    Some((body, p2)) => Some(
                        (FuncStatV { func_type: FuncType::Global, func_name: fname, body }, p2),
                    ),
                    None => None,
                }
            } else {
                None
            },
            None => None,
        }
    }
}

/// `LOCAL FUNCTION funcname body`, entered at the `function`.
pub open spec fn spec_localfunc(toks: Seq<Token>, pos: int) -> Option<(FuncStatV, int)>
    decreases toks.len() - pos, 42int,
{
    if !at_tok(toks, pos) {
        None
    } else {
        match spec_funcname(toks, pos + 1) {
            Some((fname, p1)) => if moved(toks, pos, p1) {
                match spec_funcbody(toks, p1) {
                    Some((body, p2)) => Some(
                        (FuncStatV { func_type: FuncType::Local, func_name: fname, body }, p2),
                    ),
                    None => None,
                }
            } else {
                None
            },
            None => None,
        }
    }
}

/// `localstat -> LOCAL NAME {',' NAME} ['=' explist]`, entered just past
/// the `local`.
pub open spec fn spec_localstat(toks: Seq<Token>, pos: int) -> Option<(LocalStatV, int)>
    decreases toks.len() - pos, 42int,
{
    match spec_namelist(toks, pos) {
        Some((ns, p1)) => if reached(toks, pos, p1) {
            if toks[p1].t == TokenType::Assign {
                match spec_exprlist(toks, p1 + 1) {
                    Some((es, p2)) => Some((LocalStatV { names: ns, exprs: es }, p2)),
                    None => None,
                }
            } else {
                Some((LocalStatV { names: ns, exprs: Seq::empty() }, p1))
            }
        } else {
            None
        },
        None => None,
    }
}

/// `retstat -> RETURN [explist] [';']`, entered just past the `return`.
pub open spec fn spec_retstat(toks: Seq<Token>, pos: int) -> Option<(RetStatV, int)>
    decreases toks.len() - pos, 42int,
{
    if !at_tok(toks, pos) {
        None
    } else if is_block_end_t(toks[pos].t) {
        Some((RetStatV { exprs: Seq::empty() }, pos))
    } else if toks[pos].t == TokenType::Semi {
        Some((RetStatV { exprs: Seq::empty() }, pos + 1))
    } else {
        match spec_exprlist(toks, pos) {
            Some((es, p1)) => if at_tok(toks, p1) && toks[p1].t == TokenType::Semi {
                Some((RetStatV { exprs: es }, p1 + 1))
            } else {
                Some((RetStatV { exprs: es }, p1))
            },
            None => None,
        }
    }
}

/// `exprstat -> call | assignment`: a statement led by a suffixed
/// expression, an assignment when `=` or `,` follows, a bare call
/// otherwise.
pub open spec fn spec_exprstat(toks: Seq<Token>, pos: int) -> Option<(StatV, int)>
    decreases toks.len() - pos, 47int,
{
    match spec_suffixedexpr(toks, pos) {
        Some((se, p1)) => if moved(toks, pos, p1) {
            if toks[p1].t == TokenType::Assign || toks[p1].t == TokenType::Comma {
                match spec_assignment(toks, p1, se) {
                    Some((a, p2)) => Some((StatV::AssignStat(a), p2)),
                    None => None,
                }
            } else {
                Some((StatV::CallStat(CallStatV { call: se }), p1))
            }
        } else {
            None
        },
        None => None,
    }
}

/// `assignment -> {',' suffixedexp} '=' explist`, entered at the first
/// `,` or `=` with the first target already read.
pub open spec fn spec_assignment(toks: Seq<Token>, pos: int, first: SuffixedExprV) -> Option<
    (AssignStatV, int),
>
    decreases toks.len() - pos, 44int,
{
    match spec_assign_lhs(toks, pos) {
        Some((more, p1)) => if reached(toks, pos, p1) && toks[p1].t == TokenType::Assign {
            match spec_exprlist(toks, p1 + 1) {
                Some((es, p2)) => Some((AssignStatV { left: seq![first] + more, right: es }, p2)),
                None => None,
            }
        } else {
            None
        },
        None => None,
    }
}

/// `{',' suffixedexp}`: the remaining assignment targets.
pub open spec fn spec_assign_lhs(toks: Seq<Token>, pos: int) -> Option<(Seq<SuffixedExprV>, int)>
    decreases toks.len() - pos, 43int,
{
    if !at_tok(toks, pos) {
        None
    } else if toks[pos].t == TokenType::Comma {
        match spec_suffixedexpr(toks, pos + 1) {
            Some((se, p1)) => if moved(toks, pos, p1) {
                match spec_assign_lhs(toks, p1) {
                    Some((more, p2)) => Some((seq![se] + more, p2)),
                    None => None,
                }
            } else {
                None
            },
            None => None,
        }
    } else {
        Some((Seq::empty(), pos))
    }
}

/// `body -> '(' parlist ')' block END`, entered at the `(`.
pub open spec fn spec_funcbody(toks: Seq<Token>, pos: int) -> Option<(FuncBodyV, int)>
    decreases toks.len() - pos, 41int,
{
    if !at_tok(toks, pos) {
        None
    } else if toks[pos].t == TokenType::Lp {
        match spec_params(toks, pos + 1) {
            Some((ps, p1)) => if moved(toks, pos, p1) && toks[p1].t == TokenType::Rp {
                match spec_block(toks, p1 + 1) {
                    Some((b, p2)) => if at_tok(toks, p2) && toks[p2].t == TokenType::End {
                        Some((FuncBodyV { params: ps, block: b }, p2 + 1))
                    } else {
                        None
                    },
                    None => None,
                }
            } else {
                None
            },
            None => None,
        }
    } else {
        None
    }
}

/// `explist -> expr {',' expr}`.
pub open spec fn spec_exprlist(toks: Seq<Token>, pos: int) -> Option<(Seq<ExprV>, int)>
    decreases toks.len() - pos, 40int,
{
    match spec_expr(toks, pos) {
        Some((e, p1)) => if reached(toks, pos, p1) {
            match spec_exprlist_more(toks, p1) {
                Some((es, p2)) => Some((seq![e] + es, p2)),
                None => None,
            }
        } else {
            None
        },
        None => None,
    }
}

/// `{',' expr}`: the remaining expressions of an expression list.
pub open spec fn spec_exprlist_more(toks: Seq<Token>, pos: int) -> Option<(Seq<ExprV>, int)>
    decreases toks.len() - pos, 39int,
{
    if !at_tok(toks, pos) {
        None
    } else if toks[pos].t == TokenType::Comma {
        match spec_expr(toks, pos + 1) {
            Some((e, p1)) => if moved(toks, pos, p1) {
                match spec_exprlist_more(toks, p1) {
                    Some((es, p2)) => Some((seq![e] + es, p2)),
                    None => None,
                }
            } else {
                None
            },
            None => None,
        }
    } else {
        Some((Seq::empty(), pos))
    }
}

/// `expr`: a subexpression with no lower bound on operator priority.
pub open spec fn spec_expr(toks: Seq<Token>, pos: int) -> Option<(ExprV, int)>
    decreases toks.len() - pos, 35int,
{
    spec_subexpr(toks, pos, 0)
}

/// `subexpr -> (simpleexpr | unop subexpr) { binop subexpr }`, keeping
/// only binary operators whose left binding power exceeds `limit`.
pub open spec fn spec_subexpr(toks: Seq<Token>, pos: int, limit: u8) -> Option<(ExprV, int)>
    decreases toks.len() - pos, 34int,
{
    if !at_tok(toks, pos) {
        None
    } else {
        let u = unop_of(toks[pos].t);
        if u != UnOp::NoOp {
            match spec_subexpr(toks, pos + 1, un_prio(u)) {
                Some((operand, p1)) => if moved(toks, pos, p1) {
                    spec_bin_rest(
                        toks,
                        p1,
                        limit,
                        ExprV::UnExpr(UnExprV { op: u, expr: Box::new(operand) }),
                    )
                } else {
                    None
                },
                None => None,
            }
        } else {
            match spec_simpleexpr(toks, pos) {
                Some((e, p1)) => if moved(toks, pos, p1) {
                    spec_bin_rest(toks, p1, limit, e)
                } else {
                    None
                },
                None => None,
            }
        }
    }
}

/// `{ binop subexpr }`: folds binary operators above `limit` into a
/// left-deepening tree starting from `left`.
pub open spec fn spec_bin_rest(toks: Seq<Token>, pos: int, limit: u8, left: ExprV) -> Option<
    (ExprV, int),
>
    decreases toks.len() - pos, 33int,
{
    if !at_tok(toks, pos) {
        None
    } else {
        let b = binop_of(toks[pos].t);
        if b != BinOp::NoOp && bin_prio(b).left > limit {
            match spec_subexpr(toks, pos + 1, bin_prio(b).right) {
                Some((right, p1)) => if moved(toks, pos, p1) {
                    spec_bin_rest(
                        toks,
                        p1,
                        limit,
                        ExprV::BinExpr(
                            BinExprV { op: b, left: Box::new(left), right: Box::new(right) },
                        ),
                    )
                } else {
                    None
                },
                None => None,
            }
        } else {
            Some((left, pos))
        }
    }
}

/// `simpleexpr -> FLT | INT | STRING | NIL | TRUE | FALSE | '...' |
/// constructor | FUNCTION body | suffixedexp`.
pub open spec fn spec_simpleexpr(toks: Seq<Token>, pos: int) -> Option<(ExprV, int)>
    decreases toks.len() - pos, 32int,
{
    if !at_tok(toks, pos) {
        None
    } else {
        match toks[pos].t {
            TokenType::Flt => if toks[pos].value is Float {
                Some((ExprV::Float(toks[pos].float_value()), pos + 1))
            } else {
                None
            },
            TokenType::Int => if toks[pos].value is Int {
                Some((ExprV::Int(toks[pos].int_value()), pos + 1))
            } else {
                None
            },
            TokenType::String => if toks[pos].value is Str {
                Some((ExprV::String(toks[pos].str_value()), pos + 1))
            } else {
                None
            },
            TokenType::Nil => Some((ExprV::Nil, pos + 1)),
            TokenType::True => Some((ExprV::True, pos + 1)),
            TokenType::False => Some((ExprV::False, pos + 1)),
            TokenType::Dots => Some((ExprV::VarArg, pos + 1)),
            TokenType::Lb => match spec_table(toks, pos) {
                Some((t, p)) => Some((ExprV::Table(t), p)),
                None => None,
            },
            TokenType::Function => match spec_funcbody(toks, pos + 1) {
                Some((fb, p)) => Some((ExprV::FuncBody(fb), p)),
                None => None,
            },
            _ => match spec_suffixedexpr(toks, pos) {
                Some((se, p)) => Some((ExprV::SuffixedExpr(se), p)),
                None => None,
            },
        }
    }
}

/// `suffixedexpr -> primaryexpr { suffix }`.
pub open spec fn spec_suffixedexpr(toks: Seq<Token>, pos: int) -> Option<(SuffixedExprV, int)>
    decreases toks.len() - pos, 30int,
{
    match spec_primaryexpr(toks, pos) {
        Some((pe, p1)) => if moved(toks, pos, p1) {
            match spec_suffixes(toks, p1) {
                Some((sfs, p2)) => Some((SuffixedExprV { primary: pe, suffixes: sfs }, p2)),
                None => None,
            }
        } else {
            None
        },
        None => None,
    }
}

/// `{ '.' NAME | '[' expr ']' | ':' NAME | funcargs }`: the postfix
/// suffix chain.
pub open spec fn spec_suffixes(toks: Seq<Token>, pos: int) -> Option<(Seq<SuffixV>, int)>
    decreases toks.len() - pos, 29int,
{
    if !at_tok(toks, pos) {
        None
    } else {
        match toks[pos].t {
            TokenType::Attr => if pos + 1 < toks.len() && toks[pos + 1].t == TokenType::Name {
                match spec_suffixes(toks, pos + 2) {
                    Some((sfs, p)) => Some(
                        (seq![SuffixV::Attr(toks[pos + 1].str_value())] + sfs, p),
                    ),
                    None => None,
                }
            } else {
                None
            },
            TokenType::Ls => match spec_expr(toks, pos + 1) {
                Some((e, p1)) => if moved(toks, pos, p1) && toks[p1].t == TokenType::Rs {
                    match spec_suffixes(toks, p1 + 1) {
                        Some((sfs, p2)) => Some((seq![SuffixV::Index(Box::new(e))] + sfs, p2)),
                        None => None,
                    }
                } else {
                    None
                },
                None => None,
            },
            TokenType::Colon => if pos + 1 < toks.len() && toks[pos + 1].t == TokenType::Name {
                match spec_suffixes(toks, pos + 2) {
                    Some((sfs, p)) => Some(
                        (seq![SuffixV::Method(toks[pos + 1].str_value())] + sfs, p),
                    ),
                    None => None,
                }
            } else {
                None
            },
            TokenType::Lp | TokenType::Lb | TokenType::String => match spec_funcargs(toks, pos) {
                Some((fa, p1)) => if moved(toks, pos, p1) {
                    match spec_suffixes(toks, p1) {
                        Some((sfs, p2)) => Some((seq![SuffixV::FuncArgs(fa)] + sfs, p2)),
                        None => None,
                    }
                } else {
                    None
                },
                None => None,
            },
            _ => Some((Seq::empty(), pos)),
        }
    }
}

/// `funcargs -> '(' [explist] ')' | constructor | STRING`.
pub open spec fn spec_funcargs(toks: Seq<Token>, pos: int) -> Option<(FuncArgsV, int)>
    decreases toks.len() - pos, 28int,
{
    if !at_tok(toks, pos) {
        None
    } else {
        match toks[pos].t {
            TokenType::Lp => if pos + 1 < toks.len() && toks[pos + 1].t == TokenType::Rp {
                Some((FuncArgsV::Exprs(Seq::empty()), pos + 2))
            } else {
                match spec_exprlist(toks, pos + 1) {
                    Some((es, p1)) => if moved(toks, pos, p1) && toks[p1].t == TokenType::Rp {
                        Some((FuncArgsV::Exprs(es), p1 + 1))
                    } else {
                        None
                    },
                    None => None,
                }
            },
            TokenType::Lb => match spec_table(toks, pos) {
                Some((t, p)) => Some((FuncArgsV::Table(t), p)),
                None => None,
            },
            TokenType::String => if toks[pos].value is Str {
                Some((FuncArgsV::String(toks[pos].str_value()), pos + 1))
            } else {
                None
            },
            _ => None,
        }
    }
}

/// `constructor -> '{' [field {sep field} [sep]] '}'` with `sep -> ',' | ';'`.
pub open spec fn spec_table(toks: Seq<Token>, pos: int) -> Option<(TableV, int)>
    decreases toks.len() - pos, 20int,
{
    if !at_tok(toks, pos) {
        None
    } else if toks[pos].t == TokenType::Lb {
        match spec_fields(toks, pos + 1) {
            Some((fs, p1)) => if at_tok(toks, p1) && toks[p1].t == TokenType::Rb {
                Some((TableV { fields: fs }, p1 + 1))
            } else {
                None
            },
            None => None,
        }
    } else {
        None
    }
}

/// The field sequence of a table constructor, ended by the closing `}`
/// (which is not consumed here).
pub open spec fn spec_fields(toks: Seq<Token>, pos: int) -> Option<(Seq<FieldV>, int)>
    decreases toks.len() - pos, 38int,
{
    if !at_tok(toks, pos) {
        None
    } else if toks[pos].t == TokenType::Rb {
        Some((Seq::empty(), pos))
    } else {
        match spec_field(toks, pos) {
            Some((f, p1)) => if moved(toks, pos, p1) {
                if toks[p1].t == TokenType::Comma || toks[p1].t == TokenType::Semi {
                    match spec_fields(toks, p1 + 1) {
                        Some((fs, p2)) => Some((seq![f] + fs, p2)),
                        None => None,
                    }
                } else {
                    Some((seq![f], p1))
                }
            } else {
                None
            },
            None => None,
        }
    }
}

/// `field -> listfield | recfield`, decided by one token of lookahead
/// after a name, or the opening bracket of a keyed field.
pub open spec fn spec_field(toks: Seq<Token>, pos: int) -> Option<(FieldV, int)>
    decreases toks.len() - pos, 37int,
{
    if !at_tok(toks, pos) {
        None
    } else {
        match toks[pos].t {
            TokenType::Name => if pos + 1 < toks.len() && toks[pos + 1].t == TokenType::Assign {
                spec_recfield(toks, pos)
            } else {
                spec_listfield(toks, pos)
            },
            TokenType::Ls => spec_recfield(toks, pos),
            _ => spec_listfield(toks, pos),
        }
    }
}

/// `recfield -> (NAME | '[' exp ']') '=' exp`.
pub open spec fn spec_recfield(toks: Seq<Token>, pos: int) -> Option<(FieldV, int)>
    decreases toks.len() - pos, 36int,
{
    if !at_tok(toks, pos) {
        None
    } else if toks[pos].t == TokenType::Name {
        if pos + 1 < toks.len() && toks[pos + 1].t == TokenType::Assign {
            match spec_expr(toks, pos + 2) {
                Some((v, p)) => Some(
                    (
                        FieldV::RecFileld(
                            RecFieldV {
                                key: FieldKeyV::Name(toks[pos].str_value()),
                                value: Box::new(v),
                            },
                        ),
                        p,
                    ),
                ),
                None => None,
            }
        } else {
            None
        }
    } else if toks[pos].t == TokenType::Ls {
        match spec_expr(toks, pos + 1) {
            Some((k, p1)) => if moved(toks, pos, p1) && toks[p1].t == TokenType::Rs {
                if p1 + 1 < toks.len() && toks[p1 + 1].t == TokenType::Assign {
                    match spec_expr(toks, p1 + 2) {
                        Some((v, p2)) => Some(
                            (
                                FieldV::RecFileld(
                                    RecFieldV {
                                        key: FieldKeyV::Expr(Box::new(k)),
                                        value: Box::new(v),
                                    },
                                ),
                                p2,
                            ),
                        ),
                        None => None,
                    }
                } else {
                    None
                }
            } else {
                None
            },
            None => None,
        }
    } else {
        None
    }
}

/// `listfield -> exp`.
pub open spec fn spec_listfield(toks: Seq<Token>, pos: int) -> Option<(FieldV, int)>
    decreases toks.len() - pos, 36int,
{
    match spec_expr(toks, pos) {
        Some((e, p)) => Some((FieldV::ListField(Box::new(e)), p)),
        None => None,
    }
}

/// `primaryexp -> NAME | '(' expr ')'`.
pub open spec fn spec_primaryexpr(toks: Seq<Token>, pos: int) -> Option<(PrimaryExprV, int)>
    decreases toks.len() - pos, 10int,
{
    if !at_tok(toks, pos) {
        None
    } else {
        match toks[pos].t {
            TokenType::Name => if toks[pos].value is Str {
                Some((PrimaryExprV::Name(toks[pos].str_value()), pos + 1))
            } else {
                None
            },
            TokenType::Lp => match spec_expr(toks, pos + 1) {
                Some((e, p1)) => if at_tok(toks, p1) && toks[p1].t == TokenType::Rp {
                    Some((PrimaryExprV::ParenExpr(Box::new(e)), p1 + 1))
                } else {
                    None
                },
                None => None,
            },
            _ => None,
        }
    }
}

// ---------------------------------------------------------------------------
// The whole input
// ---------------------------------------------------------------------------

/// The tree of a whole input, if the grammar accepts it: the top-level
/// block, parsed from the beginning of the sequence. Tokens past the
/// block's terminating token are not inspected.
pub open spec fn spec_parse(toks: Seq<Token>) -> Option<BlockV> {
    match spec_block(toks, 0) {
        Some((b, p)) => Some(b),
        None => None,
    }
}

// ---------------------------------------------------------------------------
// The first error, as text
//
// For every grammar function there is a companion that gives the exact
// diagnostic the parser reports when that function rejects the input:
// the first failure wins, and the message is rendered by the functions
// of `crate::text` against the token at which the parse stopped. On
// accepted input the companion's value is irrelevant (it is the empty
// sequence along paths that cannot fail).
// ---------------------------------------------------------------------------

use crate::text::closer_text;
use crate::text::error_text;
use crate::text::expected_text;
use crate::text::unexpected_text;

/// The error text of a rejected block.
pub open spec fn spec_err_block(toks: Seq<Token>, pos: int) -> Seq<char>
    decreases toks.len() - pos, 50int,
{
    spec_err_stats(toks, pos)
}

/// The error text of a rejected statement sequence.
pub open spec fn spec_err_stats(toks: Seq<Token>, pos: int) -> Seq<char>
    decreases toks.len() - pos, 49int,
{
    if !at_tok(toks, pos) {
        Seq::empty()
    } else if is_block_end_t(toks[pos].t) {
        Seq::empty()
    } else {
        match spec_stat(toks, pos) {
            None => spec_err_stat(toks, pos),
            Some((s, p1)) => if toks[pos].t == TokenType::Return {
                Seq::empty()
            } else if moved(toks, pos, p1) {
                spec_err_stats(toks, p1)
            } else {
                Seq::empty()
            },
        }
    }
}

/// The error text of a rejected statement.
pub open spec fn spec_err_stat(toks: Seq<Token>, pos: int) -> Seq<char>
    decreases toks.len() - pos, 48int,
{
    if !at_tok(toks, pos) {
        Seq::empty()
    } else {
        match toks[pos].t {
            TokenType::If => spec_err_ifstat(toks, pos),
            TokenType::While => spec_err_whilestat(toks, pos),
            TokenType::Do => match spec_block(toks, pos + 1) {
                None => spec_err_block(toks, pos + 1),
                Some((b, p1)) => if at_tok(toks, p1) && toks[p1].t != TokenType::End {
                    closer_text(
                        TokenType::End,
                        TokenType::Do,
                        toks[pos].source.line as int,
                        toks[p1],
                    )
                } else {
                    Seq::empty()
                },
            },
            TokenType::For => spec_err_forstat(toks, pos),
            TokenType::Repeat => spec_err_repeatstat(toks, pos),
            TokenType::Function => spec_err_funcstat(toks, pos),
            TokenType::Local => if pos + 1 < toks.len() && toks[pos + 1].t
                == TokenType::Function {
                spec_err_localfunc(toks, pos + 1)
            } else {
                spec_err_localstat(toks, pos + 1)
            },
            TokenType::DbColon => if pos + 1 < toks.len() && toks[pos + 1].t
                == TokenType::Name {
                if pos + 2 < toks.len() && toks[pos + 2].t == TokenType::DbColon {
                    Seq::empty()
                } else {
                    error_text(expected_text(TokenType::DbColon), toks[pos + 2])
                }
            } else {
                error_text(expected_text(TokenType::Name), toks[pos + 1])
            },
            TokenType::Return => spec_err_retstat(toks, pos + 1),
            TokenType::Goto => if pos + 1 < toks.len() && toks[pos + 1].t == TokenType::Name {
                Seq::empty()
            } else {
                error_text(expected_text(TokenType::Name), toks[pos + 1])
            },
            TokenType::Semi => Seq::empty(),
            TokenType::Break => Seq::empty(),
            _ => spec_err_exprstat(toks, pos),
        }
    }
}

/// The error text of a rejected if statement.
pub open spec fn spec_err_ifstat(toks: Seq<Token>, pos: int) -> Seq<char>
    decreases toks.len() - pos, 47int,
{
    match spec_test_then_block(toks, pos) {
        None => spec_err_test_then_block(toks, pos),
        Some((cb0, p1)) => if moved(toks, pos, p1) {
            match spec_cond_blocks(toks, p1) {
                None => spec_err_cond_blocks(toks, p1),
                Some((cbs, p2)) => if reached(toks, p1, p2) {
                    if toks[p2].t == TokenType::Else {
                        match spec_block(toks, p2 + 1) {
                            None => spec_err_block(toks, p2 + 1),
                            Some((eb, p3)) => if at_tok(toks, p3) && toks[p3].t
                                != TokenType::End {
                                closer_text(
                                    TokenType::End,
                                    TokenType::If,
                                    toks[pos].source.line as int,
                                    toks[p3],
                                )
                            } else {
                                Seq::empty()
                            },
                        }
                    } else if toks[p2].t == TokenType::End {
                        Seq::empty()
                    } else {
                        closer_text(
                            TokenType::End,
                            TokenType::If,
                            toks[pos].source.line as int,
                            toks[p2],
                        )
                    }
                } else {
                    Seq::empty()
                },
            }
        } else {
            Seq::empty()
        },
    }
}

/// The error text of a rejected elseif chain.
pub open spec fn spec_err_cond_blocks(toks: Seq<Token>, pos: int) -> Seq<char>
    decreases toks.len() - pos, 46int,
{
    if !at_tok(toks, pos) {
        Seq::empty()
    } else if toks[pos].t == TokenType::ElseIf {
        match spec_test_then_block(toks, pos) {
            None => spec_err_test_then_block(toks, pos),
            Some((cb, p1)) => if moved(toks, pos, p1) {
                spec_err_cond_blocks(toks, p1)
            } else {
                Seq::empty()
            },
        }
    } else {
        Seq::empty()
    }
}

/// The error text of a rejected condition block.
pub open spec fn spec_err_test_then_block(toks: Seq<Token>, pos: int) -> Seq<char>
    decreases toks.len() - pos, 45int,
{
    if !at_tok(toks, pos) {
        Seq::empty()
    } else {
        match spec_expr(toks, pos + 1) {
            None => spec_err_expr(toks, pos + 1),
            Some((cond, p1)) => if moved(toks, pos, p1) {
                if toks[p1].t == TokenType::Then {
                    match spec_block(toks, p1 + 1) {
                        None => spec_err_block(toks, p1 + 1),
                        Some(_) => Seq::empty(),
                    }
                } else {
                    error_text(expected_text(TokenType::Then), toks[p1])
                }
            } else {
                Seq::empty()
            },
        }
    }
}

/// The error text of a rejected while loop.
pub open spec fn spec_err_whilestat(toks: Seq<Token>, pos: int) -> Seq<char>
    decreases toks.len() - pos, 47int,
{
    if !at_tok(toks, pos) {
        Seq::empty()
    } else {
        match spec_expr(toks, pos + 1) {
            None => spec_err_expr(toks, pos + 1),
            Some((cond, p1)) => if moved(toks, pos, p1) {
                if toks[p1].t == TokenType::Do {
                    match spec_block(toks, p1 + 1) {
                        None => spec_err_block(toks, p1 + 1),
                        Some((b, p2)) => if at_tok(toks, p2) && toks[p2].t != TokenType::End {
                            closer_text(
                                TokenType::End,
                                TokenType::While,
                                toks[pos].source.line as int,
                                toks[p2],
                            )
                        } else {
                            Seq::empty()
                        },
                    }
                } else {
                    error_text(expected_text(TokenType::Do), toks[p1])
                }
            } else {
                Seq::empty()
            },
        }
    }
}

/// The error text of a rejected for statement.
pub open spec fn spec_err_forstat(toks: Seq<Token>, pos: int) -> Seq<char>
    decreases toks.len() - pos, 47int,
{
    if !(0 <= pos && pos + 2 < toks.len()) {
        if 0 <= pos && pos + 1 < toks.len() && toks[pos + 1].t != TokenType::Name {
            error_text(expected_text(TokenType::Name), toks[pos + 1])
        } else {
            Seq::empty()
        }
    } else if toks[pos + 1].t == TokenType::Name {
        let inner = if toks[pos + 2].t == TokenType::Assign {
            spec_forenum(toks, pos + 2, toks[pos + 1].str_value())
        } else if toks[pos + 2].t == TokenType::Comma || toks[pos + 2].t == TokenType::In {
            spec_forlist(toks, pos + 2, toks[pos + 1].str_value())
        } else {
            None
        };
        if toks[pos + 2].t == TokenType::Assign || toks[pos + 2].t == TokenType::Comma
            || toks[pos + 2].t == TokenType::In {
            match inner {
                None => if toks[pos + 2].t == TokenType::Assign {
                    spec_err_forenum(toks, pos + 2)
                } else {
                    spec_err_forlist(toks, pos + 2)
                },
                Some((fs, p)) => if at_tok(toks, p) && toks[p].t != TokenType::End {
                    closer_text(
                        TokenType::End,
                        TokenType::For,
                        toks[pos].source.line as int,
                        toks[p],
                    )
                } else {
                    Seq::empty()
                },
            }
        } else {
            error_text("'=' or 'in' expected"@, toks[pos + 2])
        }
    } else {
        error_text(expected_text(TokenType::Name), toks[pos + 1])
    }
}

/// The error text of a rejected numeric for loop.
pub open spec fn spec_err_forenum(toks: Seq<Token>, pos: int) -> Seq<char>
    decreases toks.len() - pos, 46int,
{
    if !at_tok(toks, pos) {
        Seq::empty()
    } else {
        match spec_expr(toks, pos + 1) {
            None => spec_err_expr(toks, pos + 1),
            Some((init, p1)) => if moved(toks, pos, p1) {
                if toks[p1].t == TokenType::Comma {
                    match spec_expr(toks, p1 + 1) {
                        None => spec_err_expr(toks, p1 + 1),
                        Some((limit, p2)) => if moved(toks, p1, p2) {
                            if toks[p2].t == TokenType::Comma {
                                match spec_expr(toks, p2 + 1) {
                                    None => spec_err_expr(toks, p2 + 1),
                                    Some((st, p3)) => if moved(toks, p2, p3) {
                                        if toks[p3].t == TokenType::Do {
                                            match spec_block(toks, p3 + 1) {
                                                None => spec_err_block(toks, p3 + 1),
                                                Some(_) => Seq::empty(),
                                            }
                                        } else {
                                            error_text(expected_text(TokenType::Do), toks[p3])
                                        }
                                    } else {
                                        Seq::empty()
                                    },
                                }
                            } else if toks[p2].t == TokenType::Do {
                                match spec_block(toks, p2 + 1) {
                                    None => spec_err_block(toks, p2 + 1),
                                    Some(_) => Seq::empty(),
                                }
                            } else {
                                error_text(expected_text(TokenType::Do), toks[p2])
                            }
                        } else {
                            Seq::empty()
                        },
                    }
                } else {
                    error_text(expected_text(TokenType::Comma), toks[p1])
                }
            } else {
                Seq::empty()
            },
        }
    }
}

/// The error text of a rejected generic for loop.
pub open spec fn spec_err_forlist(toks: Seq<Token>, pos: int) -> Seq<char>
    decreases toks.len() - pos, 46int,
{
    if !at_tok(toks, pos) {
        Seq::empty()
    } else {
        match spec_more_names(toks, pos) {
            None => spec_err_more_names(toks, pos),
            Some((ns, p1)) => if reached(toks, pos, p1) {
                if toks[p1].t == TokenType::In {
                    match spec_exprlist(toks, p1 + 1) {
                        None => spec_err_exprlist(toks, p1 + 1),
                        Some((es, p2)) => if moved(toks, p1, p2) {
                            if toks[p2].t == TokenType::Do {
                                match spec_block(toks, p2 + 1) {
                                    None => spec_err_block(toks, p2 + 1),
                                    Some(_) => Seq::empty(),
                                }
                            } else {
                                error_text(expected_text(TokenType::Do), toks[p2])
                            }
                        } else {
                            Seq::empty()
                        },
                    }
                } else {
                    error_text(expected_text(TokenType::In), toks[p1])
                }
            } else {
                Seq::empty()
            },
        }
    }
}

/// The error text of a rejected comma-led name list.
pub open spec fn spec_err_more_names(toks: Seq<Token>, pos: int) -> Seq<char>
    decreases toks.len() - pos,
{
    if !at_tok(toks, pos) {
        Seq::empty()
    } else if toks[pos].t == TokenType::Comma {
        if pos + 1 < toks.len() && toks[pos + 1].t == TokenType::Name {
            spec_err_more_names(toks, pos + 2)
        } else {
            error_text(expected_text(TokenType::Name), toks[pos + 1])
        }
    } else {
        Seq::empty()
    }
}

/// The error text of a rejected repeat loop.
pub open spec fn spec_err_repeatstat(toks: Seq<Token>, pos: int) -> Seq<char>
    decreases toks.len() - pos, 47int,
{
    if !at_tok(toks, pos) {
        Seq::empty()
    } else {
        match spec_block(toks, pos + 1) {
            None => spec_err_block(toks, pos + 1),
            Some((b, p1)) => if moved(toks, pos, p1) {
                if toks[p1].t == TokenType::Until {
                    match spec_expr(toks, p1 + 1) {
                        None => spec_err_expr(toks, p1 + 1),
                        Some(_) => Seq::empty(),
                    }
                } else {
                    closer_text(
                        TokenType::Until,
                        TokenType::Repeat,
                        toks[pos].source.line as int,
                        toks[p1],
                    )
                }
            } else {
                Seq::empty()
            },
        }
    }
}

/// The error text of a rejected function declaration.
pub open spec fn spec_err_funcstat(toks: Seq<Token>, pos: int) -> Seq<char>
    decreases toks.len() - pos, 47int,
{
    if !at_tok(toks, pos) {
        Seq::empty()
    } else {
        match spec_funcname(toks, pos + 1) {
            None => spec_err_funcname(toks, pos + 1),
            Some((fname, p1)) => if moved(toks, pos, p1) {
                match spec_funcbody(toks, p1) {
                    None => spec_err_funcbody(toks, p1),
                    Some(_) => Seq::empty(),
                }
            } else {
                Seq::empty()
            },
        }
    }
}

/// The error text of a rejected local function declaration.
pub open spec fn spec_err_localfunc(toks: Seq<Token>, pos: int) -> Seq<char>
    decreases toks.len() - pos, 42int,
{
    if !at_tok(toks, pos) {
        Seq::empty()
    } else {
        match spec_funcname(toks, pos + 1) {
            None => spec_err_funcname(toks, pos + 1),
            Some((fname, p1)) => if moved(toks, pos, p1) {
                match spec_funcbody(toks, p1) {
                    None => spec_err_funcbody(toks, p1),
                    Some(_) => Seq::empty(),
                }
            } else {
                Seq::empty()
            },
        }
    }
}

/// The error text of a rejected function name.
pub open spec fn spec_err_funcname(toks: Seq<Token>, pos: int) -> Seq<char> {
    if !at_tok(toks, pos) {
        Seq::empty()
    } else if toks[pos].t == TokenType::Name {
        match spec_dotted(toks, pos + 1) {
            None => spec_err_dotted(toks, pos + 1),
            Some((fs, p1)) => if at_tok(toks, p1) && toks[p1].t == TokenType::Colon {
                if p1 + 1 < toks.len() && toks[p1 + 1].t == TokenType::Name {
                    Seq::empty()
                } else {
                    error_text(expected_text(TokenType::Name), toks[p1 + 1])
                }
            } else {
                Seq::empty()
            },
        }
    } else {
        error_text(expected_text(TokenType::Name), toks[pos])
    }
}

/// The error text of a rejected dotted name tail.
pub open spec fn spec_err_dotted(toks: Seq<Token>, pos: int) -> Seq<char>
    decreases toks.len() - pos,
{
    if !at_tok(toks, pos) {
        Seq::empty()
    } else if toks[pos].t == TokenType::Attr {
        if pos + 1 < toks.len() && toks[pos + 1].t == TokenType::Name {
            spec_err_dotted(toks, pos + 2)
        } else {
            error_text(expected_text(TokenType::Name), toks[pos + 1])
        }
    } else {
        Seq::empty()
    }
}

/// The error text of a rejected function body.
pub open spec fn spec_err_funcbody(toks: Seq<Token>, pos: int) -> Seq<char>
    decreases toks.len() - pos, 41int,
{
    if !at_tok(toks, pos) {
        Seq::empty()
    } else if toks[pos].t == TokenType::Lp {
        match spec_params(toks, pos + 1) {
            None => spec_err_params(toks, pos + 1),
            Some((ps, p1)) => if moved(toks, pos, p1) {
                if toks[p1].t == TokenType::Rp {
                    match spec_block(toks, p1 + 1) {
                        None => spec_err_block(toks, p1 + 1),
                        Some((b, p2)) => if at_tok(toks, p2) && toks[p2].t != TokenType::End {
                            closer_text(
                                TokenType::End,
                                TokenType::Function,
                                toks[pos].source.line as int,
                                toks[p2],
                            )
                        } else {
                            Seq::empty()
                        },
                    }
                } else {
                    error_text(expected_text(TokenType::Rp), toks[p1])
                }
            } else {
                Seq::empty()
            },
        }
    } else {
        error_text(expected_text(TokenType::Lp), toks[pos])
    }
}

/// The error text of a rejected parameter list.
pub open spec fn spec_err_params(toks: Seq<Token>, pos: int) -> Seq<char>
    decreases toks.len() - pos,
{
    if !at_tok(toks, pos) {
        Seq::empty()
    } else if toks[pos].t == TokenType::Rp {
        Seq::empty()
    } else if toks[pos].t == TokenType::Dots || toks[pos].t == TokenType::Name {
        if pos + 1 < toks.len() && toks[pos + 1].t == TokenType::Comma {
            spec_err_params(toks, pos + 2)
        } else {
            Seq::empty()
        }
    } else {
        error_text("<name> or '...' expected"@, toks[pos])
    }
}

/// The error text of a rejected local declaration.
pub open spec fn spec_err_localstat(toks: Seq<Token>, pos: int) -> Seq<char>
    decreases toks.len() - pos, 42int,
{
    match spec_namelist(toks, pos) {
        None => if at_tok(toks, pos) && toks[pos].t == TokenType::Name {
            spec_err_more_names(toks, pos + 1)
        } else {
            error_text(expected_text(TokenType::Name), toks[pos])
        },
        Some((ns, p1)) => if reached(toks, pos, p1) && toks[p1].t == TokenType::Assign {
            match spec_exprlist(toks, p1 + 1) {
                None => spec_err_exprlist(toks, p1 + 1),
                Some(_) => Seq::empty(),
            }
        } else {
            Seq::empty()
        },
    }
}

/// The error text of a rejected return statement.
pub open spec fn spec_err_retstat(toks: Seq<Token>, pos: int) -> Seq<char>
    decreases toks.len() - pos, 42int,
{
    if !at_tok(toks, pos) {
        Seq::empty()
    } else if is_block_end_t(toks[pos].t) || toks[pos].t == TokenType::Semi {
        Seq::empty()
    } else {
        match spec_exprlist(toks, pos) {
            None => spec_err_exprlist(toks, pos),
            Some(_) => Seq::empty(),
        }
    }
}

/// The error text of a rejected expression statement.
pub open spec fn spec_err_exprstat(toks: Seq<Token>, pos: int) -> Seq<char>
    decreases toks.len() - pos, 47int,
{
    match spec_suffixedexpr(toks, pos) {
        None => spec_err_suffixedexpr(toks, pos),
        Some((se, p1)) => if moved(toks, pos, p1) {
            if toks[p1].t == TokenType::Assign || toks[p1].t == TokenType::Comma {
                spec_err_assignment(toks, p1)
            } else {
                Seq::empty()
            }
        } else {
            Seq::empty()
        },
    }
}

/// The error text of a rejected assignment.
pub open spec fn spec_err_assignment(toks: Seq<Token>, pos: int) -> Seq<char>
    decreases toks.len() - pos, 44int,
{
    match spec_assign_lhs(toks, pos) {
        None => spec_err_assign_lhs(toks, pos),
        Some((more, p1)) => if reached(toks, pos, p1) {
            if toks[p1].t == TokenType::Assign {
                match spec_exprlist(toks, p1 + 1) {
                    None => spec_err_exprlist(toks, p1 + 1),
                    Some(_) => Seq::empty(),
                }
            } else {
                error_text(expected_text(TokenType::Assign), toks[p1])
            }
        } else {
            Seq::empty()
        },
    }
}

/// The error text of a rejected assignment target list.
pub open spec fn spec_err_assign_lhs(toks: Seq<Token>, pos: int) -> Seq<char>
    decreases toks.len() - pos, 43int,
{
    if !at_tok(toks, pos) {
        Seq::empty()
    } else if toks[pos].t == TokenType::Comma {
        match spec_suffixedexpr(toks, pos + 1) {
            None => spec_err_suffixedexpr(toks, pos + 1),
            Some((se, p1)) => if moved(toks, pos, p1) {
                spec_err_assign_lhs(toks, p1)
            } else {
                Seq::empty()
            },
        }
    } else {
        Seq::empty()
    }
}

/// The error text of a rejected expression list.
pub open spec fn spec_err_exprlist(toks: Seq<Token>, pos: int) -> Seq<char>
    decreases toks.len() - pos, 40int,
{
    match spec_expr(toks, pos) {
        None => spec_err_expr(toks, pos),
        Some((e, p1)) => if reached(toks, pos, p1) {
            match spec_exprlist_more(toks, p1) {
                None => spec_err_exprlist_more(toks, p1),
                Some(_) => Seq::empty(),
            }
        } else {
            Seq::empty()
        },
    }
}

/// The error text of a rejected expression list tail.
pub open spec fn spec_err_exprlist_more(toks: Seq<Token>, pos: int) -> Seq<char>
    decreases toks.len() - pos, 39int,
{
    if !at_tok(toks, pos) {
        Seq::empty()
    } else if toks[pos].t == TokenType::Comma {
        match spec_expr(toks, pos + 1) {
            None => spec_err_expr(toks, pos + 1),
            Some((e, p1)) => if moved(toks, pos, p1) {
                spec_err_exprlist_more(toks, p1)
            } else {
                Seq::empty()
            },
        }
    } else {
        Seq::empty()
    }
}

/// The error text of a rejected expression.
pub open spec fn spec_err_expr(toks: Seq<Token>, pos: int) -> Seq<char>
    decreases toks.len() - pos, 35int,
{
    spec_err_subexpr(toks, pos, 0)
}

/// The error text of a rejected subexpression.
pub open spec fn spec_err_subexpr(toks: Seq<Token>, pos: int, limit: u8) -> Seq<char>
    decreases toks.len() - pos, 34int,
{
    if !at_tok(toks, pos) {
        Seq::empty()
    } else {
        let u = unop_of(toks[pos].t);
        if u != UnOp::NoOp {
            match spec_subexpr(toks, pos + 1, un_prio(u)) {
                None => spec_err_subexpr(toks, pos + 1, un_prio(u)),
                Some((operand, p1)) => if moved(toks, pos, p1) {
                    spec_err_bin_rest(toks, p1, limit)
                } else {
                    Seq::empty()
                },
            }
        } else {
            match spec_simpleexpr(toks, pos) {
                None => spec_err_simpleexpr(toks, pos),
                Some((e, p1)) => if moved(toks, pos, p1) {
                    spec_err_bin_rest(toks, p1, limit)
                } else {
                    Seq::empty()
                },
            }
        }
    }
}

/// The error text of a rejected binary-operator fold.
pub open spec fn spec_err_bin_rest(toks: Seq<Token>, pos: int, limit: u8) -> Seq<char>
    decreases toks.len() - pos, 33int,
{
    if !at_tok(toks, pos) {
        Seq::empty()
    } else {
        let b = binop_of(toks[pos].t);
        if b != BinOp::NoOp && bin_prio(b).left > limit {
            match spec_subexpr(toks, pos + 1, bin_prio(b).right) {
                None => spec_err_subexpr(toks, pos + 1, bin_prio(b).right),
                Some((right, p1)) => if moved(toks, pos, p1) {
                    spec_err_bin_rest(toks, p1, limit)
                } else {
                    Seq::empty()
                },
            }
        } else {
            Seq::empty()
        }
    }
}

/// The error text of a rejected simple expression.
pub open spec fn spec_err_simpleexpr(toks: Seq<Token>, pos: int) -> Seq<char>
    decreases toks.len() - pos, 32int,
{
    if !at_tok(toks, pos) {
        Seq::empty()
    } else {
        match toks[pos].t {
            TokenType::Lb => spec_err_table(toks, pos),
            TokenType::Function => spec_err_funcbody(toks, pos + 1),
            TokenType::Flt => Seq::empty(),
            TokenType::Int => Seq::empty(),
            TokenType::String => Seq::empty(),
            TokenType::Nil => Seq::empty(),
            TokenType::True => Seq::empty(),
            TokenType::False => Seq::empty(),
            TokenType::Dots => Seq::empty(),
            _ => spec_err_suffixedexpr(toks, pos),
        }
    }
}

/// The error text of a rejected suffixed expression.
pub open spec fn spec_err_suffixedexpr(toks: Seq<Token>, pos: int) -> Seq<char>
    decreases toks.len() - pos, 30int,
{
    match spec_primaryexpr(toks, pos) {
        None => spec_err_primaryexpr(toks, pos),
        Some((pe, p1)) => if moved(toks, pos, p1) {
            match spec_suffixes(toks, p1) {
                None => spec_err_suffixes(toks, p1),
                Some(_) => Seq::empty(),
            }
        } else {
            Seq::empty()
        },
    }
}

/// The error text of a rejected suffix chain.
pub open spec fn spec_err_suffixes(toks: Seq<Token>, pos: int) -> Seq<char>
    decreases toks.len() - pos, 29int,
{
    if !at_tok(toks, pos) {
        Seq::empty()
    } else {
        match toks[pos].t {
            TokenType::Attr => if pos + 1 < toks.len() && toks[pos + 1].t == TokenType::Name {
                spec_err_suffixes(toks, pos + 2)
            } else {
                error_text(expected_text(TokenType::Name), toks[pos + 1])
            },
            TokenType::Ls => match spec_expr(toks, pos + 1) {
                None => spec_err_expr(toks, pos + 1),
                Some((e, p1)) => if moved(toks, pos, p1) {
                    if toks[p1].t == TokenType::Rs {
                        spec_err_suffixes(toks, p1 + 1)
                    } else {
                        closer_text(
                            TokenType::Rs,
                            TokenType::Ls,
                            toks[pos].source.line as int,
                            toks[p1],
                        )
                    }
                } else {
                    Seq::empty()
                },
            },
            TokenType::Colon => if pos + 1 < toks.len() && toks[pos + 1].t == TokenType::Name {
                spec_err_suffixes(toks, pos + 2)
            } else {
                error_text(expected_text(TokenType::Name), toks[pos + 1])
            },
            TokenType::Lp | TokenType::Lb | TokenType::String => match spec_funcargs(
                toks,
                pos,
            ) {
                None => spec_err_funcargs(toks, pos),
                Some((fa, p1)) => if moved(toks, pos, p1) {
                    spec_err_suffixes(toks, p1)
                } else {
                    Seq::empty()
                },
            },
            _ => Seq::empty(),
        }
    }
}

/// The error text of rejected call arguments.
pub open spec fn spec_err_funcargs(toks: Seq<Token>, pos: int) -> Seq<char>
    decreases toks.len() - pos, 28int,
{
    if !at_tok(toks, pos) {
        Seq::empty()
    } else {
        match toks[pos].t {
            TokenType::Lp => if pos + 1 < toks.len() && toks[pos + 1].t == TokenType::Rp {
                Seq::empty()
            } else {
                match spec_exprlist(toks, pos + 1) {
                    None => spec_err_exprlist(toks, pos + 1),
                    Some((es, p1)) => if moved(toks, pos, p1) {
                        if toks[p1].t == TokenType::Rp {
                            Seq::empty()
                        } else {
                            closer_text(
                                TokenType::Rp,
                                TokenType::Lp,
                                toks[pos].source.line as int,
                                toks[p1],
                            )
                        }
                    } else {
                        Seq::empty()
                    },
                }
            },
            TokenType::Lb => spec_err_table(toks, pos),
            TokenType::String => Seq::empty(),
            _ => error_text("function arguments expected"@, toks[pos]),
        }
    }
}

/// The error text of a rejected table constructor.
pub open spec fn spec_err_table(toks: Seq<Token>, pos: int) -> Seq<char>
    decreases toks.len() - pos, 20int,
{
    if !at_tok(toks, pos) {
        Seq::empty()
    } else if toks[pos].t == TokenType::Lb {
        match spec_fields(toks, pos + 1) {
            None => spec_err_fields(toks, pos + 1),
            Some((fs, p1)) => if at_tok(toks, p1) && toks[p1].t != TokenType::Rb {
                closer_text(
                    TokenType::Rb,
                    TokenType::Lb,
                    toks[pos].source.line as int,
                    toks[p1],
                )
            } else {
                Seq::empty()
            },
        }
    } else {
        error_text(expected_text(TokenType::Lb), toks[pos])
    }
}

/// The error text of a rejected table field sequence.
pub open spec fn spec_err_fields(toks: Seq<Token>, pos: int) -> Seq<char>
    decreases toks.len() - pos, 38int,
{
    if !at_tok(toks, pos) {
        Seq::empty()
    } else if toks[pos].t == TokenType::Rb {
        Seq::empty()
    } else {
        match spec_field(toks, pos) {
            None => spec_err_field(toks, pos),
            Some((f, p1)) => if moved(toks, pos, p1) {
                if toks[p1].t == TokenType::Comma || toks[p1].t == TokenType::Semi {
                    spec_err_fields(toks, p1 + 1)
                } else {
                    Seq::empty()
                }
            } else {
                Seq::empty()
            },
        }
    }
}

/// The error text of a rejected table field.
pub open spec fn spec_err_field(toks: Seq<Token>, pos: int) -> Seq<char>
    decreases toks.len() - pos, 37int,
{
    if !at_tok(toks, pos) {
        Seq::empty()
    } else {
        match toks[pos].t {
            TokenType::Name => if pos + 1 < toks.len() && toks[pos + 1].t == TokenType::Assign {
                spec_err_recfield(toks, pos)
            } else {
                spec_err_listfield(toks, pos)
            },
            TokenType::Ls => spec_err_recfield(toks, pos),
            _ => spec_err_listfield(toks, pos),
        }
    }
}

/// The error text of a rejected keyed field.
pub open spec fn spec_err_recfield(toks: Seq<Token>, pos: int) -> Seq<char>
    decreases toks.len() - pos, 36int,
{
    if !at_tok(toks, pos) {
        Seq::empty()
    } else if toks[pos].t == TokenType::Name {
        if pos + 1 < toks.len() && toks[pos + 1].t == TokenType::Assign {
            match spec_expr(toks, pos + 2) {
                None => spec_err_expr(toks, pos + 2),
                Some(_) => Seq::empty(),
            }
        } else {
            error_text(expected_text(TokenType::Assign), toks[pos + 1])
        }
    } else if toks[pos].t == TokenType::Ls {
        match spec_expr(toks, pos + 1) {
            None => spec_err_expr(toks, pos + 1),
            Some((k, p1)) => if moved(toks, pos, p1) {
                if toks[p1].t == TokenType::Rs {
                    if p1 + 1 < toks.len() && toks[p1 + 1].t == TokenType::Assign {
                        match spec_expr(toks, p1 + 2) {
                            None => spec_err_expr(toks, p1 + 2),
                            Some(_) => Seq::empty(),
                        }
                    } else {
                        error_text(expected_text(TokenType::Assign), toks[p1 + 1])
                    }
                } else {
                    closer_text(
                        TokenType::Rs,
                        TokenType::Ls,
                        toks[pos].source.line as int,
                        toks[p1],
                    )
                }
            } else {
                Seq::empty()
            },
        }
    } else {
        Seq::empty()
    }
}

/// The error text of a rejected positional field.
pub open spec fn spec_err_listfield(toks: Seq<Token>, pos: int) -> Seq<char>
    decreases toks.len() - pos, 36int,
{
    match spec_expr(toks, pos) {
        None => spec_err_expr(toks, pos),
        Some(_) => Seq::empty(),
    }
}

/// The error text of a rejected primary expression.
pub open spec fn spec_err_primaryexpr(toks: Seq<Token>, pos: int) -> Seq<char>
    decreases toks.len() - pos, 10int,
{
    if !at_tok(toks, pos) {
        Seq::empty()
    } else {
        match toks[pos].t {
            TokenType::Name => Seq::empty(),
            TokenType::Lp => match spec_expr(toks, pos + 1) {
                None => spec_err_expr(toks, pos + 1),
                Some((e, p1)) => if at_tok(toks, p1) && toks[p1].t != TokenType::Rp {
                    closer_text(
                        TokenType::Rp,
                        TokenType::Lp,
                        toks[pos].source.line as int,
                        toks[p1],
                    )
                } else {
                    Seq::empty()
                },
            },
            _ => error_text(unexpected_text(toks[pos].t), toks[pos]),
        }
    }
}

/// The error text of a rejected input: the first syntax error's full
/// rendering, as `crate::text::error_text` defines it.
pub open spec fn spec_err_parse(toks: Seq<Token>) -> Seq<char> {
    spec_err_block(toks, 0)
}

// ---------------------------------------------------------------------------
// The completed tree is free of classification sentinels
// ---------------------------------------------------------------------------

/// Every block the grammar yields is free of `NoOp` sentinels.
pub proof fn lemma_block_ops(toks: Seq<Token>, pos: int)
    ensures
        (match spec_block(toks, pos) {
            Some((b, p)) => crate::ast::block_ops_ok(b),
            None => true,
        }),
    decreases toks.len() - pos, 50int,
{
    lemma_stats_ops(toks, pos);
}

/// Every statement sequence the grammar yields is sentinel-free.
pub proof fn lemma_stats_ops(toks: Seq<Token>, pos: int)
    ensures
        (match spec_stats(toks, pos) {
            Some((ss, p)) => forall|i: int|
                0 <= i < ss.len() ==> crate::ast::stat_ops_ok(#[trigger] ss[i]),
            None => true,
        }),
    decreases toks.len() - pos, 49int,
{
    if at_tok(toks, pos) && !is_block_end_t(toks[pos].t) {
        lemma_stat_ops(toks, pos);
        if toks[pos].t != TokenType::Return {
            match spec_stat(toks, pos) {
                Some((st, p1)) => {
                    if moved(toks, pos, p1) {
                        lemma_stats_ops(toks, p1);
                    }
                },
                None => {},
            }
        }
    }
}

/// Every statement the grammar yields is sentinel-free.
#[verifier::rlimit(100)]
#[verifier::spinoff_prover]
pub proof fn lemma_stat_ops(toks: Seq<Token>, pos: int)
    ensures
        (match spec_stat(toks, pos) {
            Some((st, p)) => crate::ast::stat_ops_ok(st),
            None => true,
        }),
    decreases toks.len() - pos, 48int,
{
    if at_tok(toks, pos) {
        match toks[pos].t {
            TokenType::If => lemma_ifstat_ops(toks, pos),
            TokenType::While => lemma_whilestat_ops(toks, pos),
            TokenType::Do => lemma_block_ops(toks, pos + 1),
            TokenType::For => lemma_forstat_ops(toks, pos),
            TokenType::Repeat => lemma_repeatstat_ops(toks, pos),
            TokenType::Function => lemma_funcstat_ops(toks, pos),
            TokenType::Local => {
                if pos + 1 < toks.len() && toks[pos + 1].t == TokenType::Function {
                    lemma_localfunc_ops(toks, pos + 1);
                } else {
                    lemma_localstat_ops(toks, pos + 1);
                }
            },
            TokenType::Return => lemma_retstat_ops(toks, pos + 1),
            _ => lemma_exprstat_ops(toks, pos),
        }
    }
}

/// Every if statement the grammar yields is sentinel-free.
pub proof fn lemma_ifstat_ops(toks: Seq<Token>, pos: int)
    ensures
        (match spec_ifstat(toks, pos) {
            Some((s, p)) => crate::ast::stat_ops_ok(StatV::IfStat(s)),
            None => true,
        }),
    decreases toks.len() - pos, 47int,
{
    lemma_test_then_block_ops(toks, pos);
    match spec_test_then_block(toks, pos) {
        Some((cb0, p1)) => {
            if moved(toks, pos, p1) {
                lemma_cond_blocks_ops(toks, p1);
                match spec_cond_blocks(toks, p1) {
                    Some((cbs, p2)) => {
                        if reached(toks, p1, p2) && toks[p2].t == TokenType::Else {
                            lemma_block_ops(toks, p2 + 1);
                        }
                    },
                    None => {},
                }
            }
        },
        None => {},
    }
}

/// Every elseif chain the grammar yields is sentinel-free.
pub proof fn lemma_cond_blocks_ops(toks: Seq<Token>, pos: int)
    ensures
        (match spec_cond_blocks(toks, pos) {
            Some((cbs, p)) => forall|i: int|
                0 <= i < cbs.len() ==> crate::ast::cond_block_ops_ok(#[trigger] cbs[i]),
            None => true,
        }),
    decreases toks.len() - pos, 46int,
{
    if at_tok(toks, pos) && toks[pos].t == TokenType::ElseIf {
        lemma_test_then_block_ops(toks, pos);
        match spec_test_then_block(toks, pos) {
            Some((cb, p1)) => {
                if moved(toks, pos, p1) {
                    lemma_cond_blocks_ops(toks, p1);
                }
            },
            None => {},
        }
    }
}

/// Every condition block the grammar yields is sentinel-free.
pub proof fn lemma_test_then_block_ops(toks: Seq<Token>, pos: int)
    ensures
        (match spec_test_then_block(toks, pos) {
            Some((cb, p)) => crate::ast::cond_block_ops_ok(cb),
            None => true,
        }),
    decreases toks.len() - pos, 45int,
{
    if at_tok(toks, pos) {
        lemma_expr_ops(toks, pos + 1);
        match spec_expr(toks, pos + 1) {
            Some((cond, p1)) => {
                if moved(toks, pos, p1) && toks[p1].t == TokenType::Then {
                    lemma_block_ops(toks, p1 + 1);
                }
            },
            None => {},
        }
    }
}

/// Every while loop the grammar yields is sentinel-free.
pub proof fn lemma_whilestat_ops(toks: Seq<Token>, pos: int)
    ensures
        (match spec_whilestat(toks, pos) {
            Some((s, p)) => crate::ast::stat_ops_ok(StatV::WhileStat(s)),
            None => true,
        }),
    decreases toks.len() - pos, 47int,
{
    if at_tok(toks, pos) {
        lemma_expr_ops(toks, pos + 1);
        match spec_expr(toks, pos + 1) {
            Some((cond, p1)) => {
                if moved(toks, pos, p1) && toks[p1].t == TokenType::Do {
                    lemma_block_ops(toks, p1 + 1);
                }
            },
            None => {},
        }
    }
}

/// Every for statement the grammar yields is sentinel-free.
pub proof fn lemma_forstat_ops(toks: Seq<Token>, pos: int)
    ensures
        (match spec_forstat(toks, pos) {
            Some((s, p)) => crate::ast::stat_ops_ok(StatV::ForStat(s)),
            None => true,
        }),
    decreases toks.len() - pos, 47int,
{
    if 0 <= pos && pos + 2 < toks.len() && toks[pos + 1].t == TokenType::Name {
        let var = toks[pos + 1].str_value();
        if toks[pos + 2].t == TokenType::Assign {
            lemma_forenum_ops(toks, pos + 2, var);
        } else if toks[pos + 2].t == TokenType::Comma || toks[pos + 2].t == TokenType::In {
            lemma_forlist_ops(toks, pos + 2, var);
        }
    }
}

/// Every numeric for loop the grammar yields is sentinel-free.
pub proof fn lemma_forenum_ops(toks: Seq<Token>, pos: int, var: Seq<char>)
    ensures
        (match spec_forenum(toks, pos, var) {
            Some((s, p)) => crate::ast::stat_ops_ok(StatV::ForStat(s)),
            None => true,
        }),
    decreases toks.len() - pos, 46int,
{
    if at_tok(toks, pos) {
        lemma_expr_ops(toks, pos + 1);
        match spec_expr(toks, pos + 1) {
            Some((init, p1)) => {
                if moved(toks, pos, p1) && toks[p1].t == TokenType::Comma {
                    lemma_expr_ops(toks, p1 + 1);
                    match spec_expr(toks, p1 + 1) {
                        Some((limit, p2)) => {
                            if moved(toks, p1, p2) {
                                if toks[p2].t == TokenType::Comma {
                                    lemma_expr_ops(toks, p2 + 1);
                                    match spec_expr(toks, p2 + 1) {
                                        Some((step, p3)) => {
                                            if moved(toks, p2, p3) && toks[p3].t
                                                == TokenType::Do {
                                                lemma_block_ops(toks, p3 + 1);
                                            }
                                        },
                                        None => {},
                                    }
                                } else if toks[p2].t == TokenType::Do {
                                    lemma_block_ops(toks, p2 + 1);
                                }
                            }
                        },
                        None => {},
                    }
                }
            },
            None => {},
        }
    }
}

/// Every generic for loop the grammar yields is sentinel-free.
pub proof fn lemma_forlist_ops(toks: Seq<Token>, pos: int, var: Seq<char>)
    ensures
        (match spec_forlist(toks, pos, var) {
            Some((s, p)) => crate::ast::stat_ops_ok(StatV::ForStat(s)),
            None => true,
        }),
    decreases toks.len() - pos, 46int,
{
    if at_tok(toks, pos) {
        match spec_more_names(toks, pos) {
            Some((ns, p1)) => {
                if reached(toks, pos, p1) && toks[p1].t == TokenType::In {
                    lemma_exprlist_ops(toks, p1 + 1);
                    match spec_exprlist(toks, p1 + 1) {
                        Some((es, p2)) => {
                            if moved(toks, p1, p2) && toks[p2].t == TokenType::Do {
                                lemma_block_ops(toks, p2 + 1);
                            }
                        },
                        None => {},
                    }
                }
            },
            None => {},
        }
    }
}

/// Every repeat loop the grammar yields is sentinel-free.
pub proof fn lemma_repeatstat_ops(toks: Seq<Token>, pos: int)
    ensures
        (match spec_repeatstat(toks, pos) {
            Some((s, p)) => crate::ast::stat_ops_ok(StatV::RepeatStat(s)),
            None => true,
        }),
    decreases toks.len() - pos, 47int,
{
    if at_tok(toks, pos) {
        lemma_block_ops(toks, pos + 1);
        match spec_block(toks, pos + 1) {
            Some((b, p1)) => {
                if moved(toks, pos, p1) && toks[p1].t == TokenType::Until {
                    lemma_expr_ops(toks, p1 + 1);
                }
            },
            None => {},
        }
    }
}

/// Every function declaration the grammar yields is sentinel-free.
pub proof fn lemma_funcstat_ops(toks: Seq<Token>, pos: int)
    ensures
        (match spec_funcstat(toks, pos) {
            Some((s, p)) => crate::ast::stat_ops_ok(StatV::FuncStat(s)),
            None => true,
        }),
    decreases toks.len() - pos, 47int,
{
    if at_tok(toks, pos) {
        match spec_funcname(toks, pos + 1) {
            Some((fname, p1)) => {
                if moved(toks, pos, p1) {
                    lemma_funcbody_ops(toks, p1);
                }
            },
            None => {},
        }
    }
}

/// Every local function declaration the grammar yields is sentinel-free.
pub proof fn lemma_localfunc_ops(toks: Seq<Token>, pos: int)
    ensures
        (match spec_localfunc(toks, pos) {
            Some((s, p)) => crate::ast::stat_ops_ok(StatV::FuncStat(s)),
            None => true,
        }),
    decreases toks.len() - pos, 42int,
{
    if at_tok(toks, pos) {
        match spec_funcname(toks, pos + 1) {
            Some((fname, p1)) => {
                if moved(toks, pos, p1) {
                    lemma_funcbody_ops(toks, p1);
                }
            },
            None => {},
        }
    }
}

/// Every local declaration the grammar yields is sentinel-free.
pub proof fn lemma_localstat_ops(toks: Seq<Token>, pos: int)
    ensures
        (match spec_localstat(toks, pos) {
            Some((s, p)) => crate::ast::stat_ops_ok(StatV::LocalStat(s)),
            None => true,
        }),
    decreases toks.len() - pos, 42int,
{
    match spec_namelist(toks, pos) {
        Some((ns, p1)) => {
            if reached(toks, pos, p1) && toks[p1].t == TokenType::Assign {
                lemma_exprlist_ops(toks, p1 + 1);
            }
        },
        None => {},
    }
}

/// Every return statement the grammar yields is sentinel-free.
#[verifier::rlimit(100)]
#[verifier::spinoff_prover]
pub proof fn lemma_retstat_ops(toks: Seq<Token>, pos: int)
    ensures
        (match spec_retstat(toks, pos) {
            Some((s, p)) => forall|i: int|
                0 <= i < s.exprs.len() ==> crate::ast::expr_ops_ok(#[trigger] s.exprs[i]),
            None => true,
        }),
    decreases toks.len() - pos, 42int,
{
    if at_tok(toks, pos) && !is_block_end_t(toks[pos].t) && toks[pos].t != TokenType::Semi {
        lemma_exprlist_ops(toks, pos);
    }
}

/// Every expression statement the grammar yields is sentinel-free.
pub proof fn lemma_exprstat_ops(toks: Seq<Token>, pos: int)
    ensures
        (match spec_exprstat(toks, pos) {
            Some((s, p)) => crate::ast::stat_ops_ok(s),
            None => true,
        }),
    decreases toks.len() - pos, 47int,
{
    lemma_suffixedexpr_ops(toks, pos);
    match spec_suffixedexpr(toks, pos) {
        Some((se, p1)) => {
            if moved(toks, pos, p1) {
                if toks[p1].t == TokenType::Assign || toks[p1].t == TokenType::Comma {
                    lemma_assignment_ops(toks, p1, se);
                }
            }
        },
        None => {},
    }
}

/// Every assignment the grammar yields is sentinel-free, given a
/// sentinel-free first target.
#[verifier::rlimit(100)]
#[verifier::spinoff_prover]
pub proof fn lemma_assignment_ops(toks: Seq<Token>, pos: int, first: SuffixedExprV)
    requires
        crate::ast::suffixed_ops_ok(first),
    ensures
        (match spec_assignment(toks, pos, first) {
            Some((a, p)) => crate::ast::stat_ops_ok(StatV::AssignStat(a)),
            None => true,
        }),
    decreases toks.len() - pos, 44int,
{
    lemma_assign_lhs_ops(toks, pos);
    match spec_assign_lhs(toks, pos) {
        Some((more, p1)) => {
            if reached(toks, pos, p1) && toks[p1].t == TokenType::Assign {
                lemma_exprlist_ops(toks, p1 + 1);
            }
        },
        None => {},
    }
}

/// Every assignment target list the grammar yields is sentinel-free.
pub proof fn lemma_assign_lhs_ops(toks: Seq<Token>, pos: int)
    ensures
        (match spec_assign_lhs(toks, pos) {
            Some((more, p)) => forall|i: int|
                0 <= i < more.len() ==> crate::ast::suffixed_ops_ok(#[trigger] more[i]),
            None => true,
        }),
    decreases toks.len() - pos, 43int,
{
    if at_tok(toks, pos) && toks[pos].t == TokenType::Comma {
        lemma_suffixedexpr_ops(toks, pos + 1);
        match spec_suffixedexpr(toks, pos + 1) {
            Some((se, p1)) => {
                if moved(toks, pos, p1) {
                    lemma_assign_lhs_ops(toks, p1);
                }
            },
            None => {},
        }
    }
}

/// Every function body the grammar yields is sentinel-free.
pub proof fn lemma_funcbody_ops(toks: Seq<Token>, pos: int)
    ensures
        (match spec_funcbody(toks, pos) {
            Some((fb, p)) => crate::ast::funcbody_ops_ok(fb),
            None => true,
        }),
    decreases toks.len() - pos, 41int,
{
    if at_tok(toks, pos) && toks[pos].t == TokenType::Lp {
        match spec_params(toks, pos + 1) {
            Some((ps, p1)) => {
                if moved(toks, pos, p1) && toks[p1].t == TokenType::Rp {
                    lemma_block_ops(toks, p1 + 1);
                }
            },
            None => {},
        }
    }
}

/// Every expression list the grammar yields is sentinel-free.
pub proof fn lemma_exprlist_ops(toks: Seq<Token>, pos: int)
    ensures
        (match spec_exprlist(toks, pos) {
            Some((es, p)) => forall|i: int|
                0 <= i < es.len() ==> crate::ast::expr_ops_ok(#[trigger] es[i]),
            None => true,
        }),
    decreases toks.len() - pos, 40int,
{
    lemma_expr_ops(toks, pos);
    match spec_expr(toks, pos) {
        Some((e, p1)) => {
            if reached(toks, pos, p1) {
                lemma_exprlist_more_ops(toks, p1);
            }
        },
        None => {},
    }
}

/// Every expression list tail the grammar yields is sentinel-free.
pub proof fn lemma_exprlist_more_ops(toks: Seq<Token>, pos: int)
    ensures
        (match spec_exprlist_more(toks, pos) {
            Some((es, p)) => forall|i: int|
                0 <= i < es.len() ==> crate::ast::expr_ops_ok(#[trigger] es[i]),
            None => true,
        }),
    decreases toks.len() - pos, 39int,
{
    if at_tok(toks, pos) && toks[pos].t == TokenType::Comma {
        lemma_expr_ops(toks, pos + 1);
        match spec_expr(toks, pos + 1) {
            Some((e, p1)) => {
                if moved(toks, pos, p1) {
                    lemma_exprlist_more_ops(toks, p1);
                }
            },
            None => {},
        }
    }
}

/// Every expression the grammar yields is sentinel-free.
pub proof fn lemma_expr_ops(toks: Seq<Token>, pos: int)
    ensures
        (match spec_expr(toks, pos) {
            Some((e, p)) => crate::ast::expr_ops_ok(e),
            None => true,
        }),
    decreases toks.len() - pos, 35int,
{
    lemma_subexpr_ops(toks, pos, 0);
}

/// Every subexpression the grammar yields is sentinel-free.
pub proof fn lemma_subexpr_ops(toks: Seq<Token>, pos: int, limit: u8)
    ensures
        (match spec_subexpr(toks, pos, limit) {
            Some((e, p)) => crate::ast::expr_ops_ok(e),
            None => true,
        }),
    decreases toks.len() - pos, 34int,
{
    if at_tok(toks, pos) {
        let u = unop_of(toks[pos].t);
        if u != UnOp::NoOp {
            lemma_subexpr_ops(toks, pos + 1, un_prio(u));
            match spec_subexpr(toks, pos + 1, un_prio(u)) {
                Some((operand, p1)) => {
                    if moved(toks, pos, p1) {
                        lemma_bin_rest_ops(
                            toks,
                            p1,
                            limit,
                            ExprV::UnExpr(UnExprV { op: u, expr: Box::new(operand) }),
                        );
                    }
                },
                None => {},
            }
        } else {
            lemma_simpleexpr_ops(toks, pos);
            match spec_simpleexpr(toks, pos) {
                Some((e, p1)) => {
                    if moved(toks, pos, p1) {
                        lemma_bin_rest_ops(toks, p1, limit, e);
                    }
                },
                None => {},
            }
        }
    }
}

/// Folding further binary operators onto a sentinel-free tree keeps it
/// sentinel-free.
pub proof fn lemma_bin_rest_ops(toks: Seq<Token>, pos: int, limit: u8, left: ExprV)
    requires
        crate::ast::expr_ops_ok(left),
    ensures
        (match spec_bin_rest(toks, pos, limit, left) {
            Some((e, p)) => crate::ast::expr_ops_ok(e),
            None => true,
        }),
    decreases toks.len() - pos, 33int,
{
    if at_tok(toks, pos) {
        let b = binop_of(toks[pos].t);
        if b != BinOp::NoOp && bin_prio(b).left > limit {
            lemma_subexpr_ops(toks, pos + 1, bin_prio(b).right);
            match spec_subexpr(toks, pos + 1, bin_prio(b).right) {
                Some((right, p1)) => {
                    if moved(toks, pos, p1) {
                        lemma_bin_rest_ops(
                            toks,
                            p1,
                            limit,
                            ExprV::BinExpr(
                                BinExprV {
                                    op: b,
                                    left: Box::new(left),
                                    right: Box::new(right),
                                },
                            ),
                        );
                    }
                },
                None => {},
            }
        }
    }
}

/// Every simple expression the grammar yields is sentinel-free.
pub proof fn lemma_simpleexpr_ops(toks: Seq<Token>, pos: int)
    ensures
        (match spec_simpleexpr(toks, pos) {
            Some((e, p)) => crate::ast::expr_ops_ok(e),
            None => true,
        }),
    decreases toks.len() - pos, 32int,
{
    if at_tok(toks, pos) {
        match toks[pos].t {
            TokenType::Lb => lemma_table_ops(toks, pos),
            TokenType::Function => lemma_funcbody_ops(toks, pos + 1),
            TokenType::Flt => {},
            TokenType::Int => {},
            TokenType::String => {},
            TokenType::Nil => {},
            TokenType::True => {},
            TokenType::False => {},
            TokenType::Dots => {},
            _ => lemma_suffixedexpr_ops(toks, pos),
        }
    }
}

/// Every suffixed expression the grammar yields is sentinel-free.
pub proof fn lemma_suffixedexpr_ops(toks: Seq<Token>, pos: int)
    ensures
        (match spec_suffixedexpr(toks, pos) {
            Some((se, p)) => crate::ast::suffixed_ops_ok(se),
            None => true,
        }),
    decreases toks.len() - pos, 30int,
{
    lemma_primaryexpr_ops(toks, pos);
    match spec_primaryexpr(toks, pos) {
        Some((pe, p1)) => {
            if moved(toks, pos, p1) {
                lemma_suffixes_ops(toks, p1);
            }
        },
        None => {},
    }
}

/// Every suffix chain the grammar yields is sentinel-free.
pub proof fn lemma_suffixes_ops(toks: Seq<Token>, pos: int)
    ensures
        (match spec_suffixes(toks, pos) {
            Some((sfs, p)) => forall|i: int|
                0 <= i < sfs.len() ==> crate::ast::suffix_ops_ok(#[trigger] sfs[i]),
            None => true,
        }),
    decreases toks.len() - pos, 29int,
{
    if at_tok(toks, pos) {
        match toks[pos].t {
            TokenType::Attr => {
                if pos + 1 < toks.len() && toks[pos + 1].t == TokenType::Name {
                    lemma_suffixes_ops(toks, pos + 2);
                }
            },
            TokenType::Ls => {
                lemma_expr_ops(toks, pos + 1);
                match spec_expr(toks, pos + 1) {
                    Some((e, p1)) => {
                        if moved(toks, pos, p1) && toks[p1].t == TokenType::Rs {
                            lemma_suffixes_ops(toks, p1 + 1);
                        }
                    },
                    None => {},
                }
            },
            TokenType::Colon => {
                if pos + 1 < toks.len() && toks[pos + 1].t == TokenType::Name {
                    lemma_suffixes_ops(toks, pos + 2);
                }
            },
            TokenType::Lp | TokenType::Lb | TokenType::String => {
                lemma_funcargs_ops(toks, pos);
                match spec_funcargs(toks, pos) {
                    Some((fa, p1)) => {
                        if moved(toks, pos, p1) {
                            lemma_suffixes_ops(toks, p1);
                        }
                    },
                    None => {},
                }
            },
            _ => {},
        }
    }
}

/// Every call argument list the grammar yields is sentinel-free.
pub proof fn lemma_funcargs_ops(toks: Seq<Token>, pos: int)
    ensures
        (match spec_funcargs(toks, pos) {
            Some((fa, p)) => crate::ast::funcargs_ops_ok(fa),
            None => true,
        }),
    decreases toks.len() - pos, 28int,
{
    if at_tok(toks, pos) {
        match toks[pos].t {
            TokenType::Lp => {
                if !(pos + 1 < toks.len() && toks[pos + 1].t == TokenType::Rp) {
                    lemma_exprlist_ops(toks, pos + 1);
                }
            },
            TokenType::Lb => lemma_table_ops(toks, pos),
            _ => {},
        }
    }
}

/// Every table constructor the grammar yields is sentinel-free.
pub proof fn lemma_table_ops(toks: Seq<Token>, pos: int)
    ensures
        (match spec_table(toks, pos) {
            Some((t, p)) => crate::ast::table_ops_ok(t),
            None => true,
        }),
    decreases toks.len() - pos, 20int,
{
    if at_tok(toks, pos) && toks[pos].t == TokenType::Lb {
        lemma_fields_ops(toks, pos + 1);
    }
}

/// Every table field sequence the grammar yields is sentinel-free.
pub proof fn lemma_fields_ops(toks: Seq<Token>, pos: int)
    ensures
        (match spec_fields(toks, pos) {
            Some((fs, p)) => forall|i: int|
                0 <= i < fs.len() ==> crate::ast::field_ops_ok(#[trigger] fs[i]),
            None => true,
        }),
    decreases toks.len() - pos, 38int,
{
    if at_tok(toks, pos) && toks[pos].t != TokenType::Rb {
        lemma_field_ops(toks, pos);
        match spec_field(toks, pos) {
            Some((f, p1)) => {
                if moved(toks, pos, p1) {
                    if toks[p1].t == TokenType::Comma || toks[p1].t == TokenType::Semi {
                        lemma_fields_ops(toks, p1 + 1);
                    }
                }
            },
            None => {},
        }
    }
}

/// Every table field the grammar yields is sentinel-free.
pub proof fn lemma_field_ops(toks: Seq<Token>, pos: int)
    ensures
        (match spec_field(toks, pos) {
            Some((f, p)) => crate::ast::field_ops_ok(f),
            None => true,
        }),
    decreases toks.len() - pos, 37int,
{
    if at_tok(toks, pos) {
        match toks[pos].t {
            TokenType::Name => {
                if pos + 1 < toks.len() && toks[pos + 1].t == TokenType::Assign {
                    lemma_recfield_ops(toks, pos);
                } else {
                    lemma_listfield_ops(toks, pos);
                }
            },
            TokenType::Ls => lemma_recfield_ops(toks, pos),
            _ => lemma_listfield_ops(toks, pos),
        }
    }
}

/// Every keyed field the grammar yields is sentinel-free.
pub proof fn lemma_recfield_ops(toks: Seq<Token>, pos: int)
    ensures
        (match spec_recfield(toks, pos) {
            Some((f, p)) => crate::ast::field_ops_ok(f),
            None => true,
        }),
    decreases toks.len() - pos, 36int,
{
    if at_tok(toks, pos) {
        if toks[pos].t == TokenType::Name {
            if pos + 1 < toks.len() && toks[pos + 1].t == TokenType::Assign {
                lemma_expr_ops(toks, pos + 2);
            }
        } else if toks[pos].t == TokenType::Ls {
            lemma_expr_ops(toks, pos + 1);
            match spec_expr(toks, pos + 1) {
                Some((k, p1)) => {
                    if moved(toks, pos, p1) && toks[p1].t == TokenType::Rs {
                        if p1 + 1 < toks.len() && toks[p1 + 1].t == TokenType::Assign {
                            lemma_expr_ops(toks, p1 + 2);
                        }
                    }
                },
                None => {},
            }
        }
    }
}

/// Every positional field the grammar yields is sentinel-free.
pub proof fn lemma_listfield_ops(toks: Seq<Token>, pos: int)
    ensures
        (match spec_listfield(toks, pos) {
            Some((f, p)) => crate::ast::field_ops_ok(f),
            None => true,
        }),
    decreases toks.len() - pos, 36int,
{
    lemma_expr_ops(toks, pos);
}

/// Every primary expression the grammar yields is sentinel-free.
pub proof fn lemma_primaryexpr_ops(toks: Seq<Token>, pos: int)
    ensures
        (match spec_primaryexpr(toks, pos) {
            Some((pe, p)) => crate::ast::primary_ops_ok(pe),
            None => true,
        }),
    decreases toks.len() - pos, 10int,
{
    if at_tok(toks, pos) && toks[pos].t == TokenType::Lp {
        lemma_expr_ops(toks, pos + 1);
    }
}

/// The tree of any accepted input carries no classification sentinel:
/// no `UnOp::NoOp` or `BinOp::NoOp` tag appears anywhere in it.
pub proof fn lemma_parse_ops(toks: Seq<Token>)
    ensures
        (match spec_parse(toks) {
            Some(b) => crate::ast::block_ops_ok(b),
            None => true,
        }),
{
    lemma_block_ops(toks, 0);
}

/// The grammar yields a return statement only at a `return` token.
pub proof fn lemma_stat_ret(toks: Seq<Token>, pos: int)
    ensures
        (match spec_stat(toks, pos) {
            Some((s, p)) => (s is RetStat) ==> toks[pos].t == TokenType::Return,
            None => true,
        }),
{
    if at_tok(toks, pos) && toks[pos].t != TokenType::Return {
        match toks[pos].t {
            TokenType::Semi => {},
            TokenType::If => {},
            TokenType::While => {},
            TokenType::Do => {},
            TokenType::For => {},
            TokenType::Repeat => {},
            TokenType::Function => {},
            TokenType::Local => {},
            TokenType::DbColon => {},
            TokenType::Break => {},
            TokenType::Goto => {},
            _ => {
                assert(match spec_exprstat(toks, pos) {
                    Some((s, p)) => !(s is RetStat),
                    None => true,
                });
            },
        }
    }
}

/// In every statement sequence the grammar yields, a return statement
/// occurs only in the last position: collection stops once a return is
/// parsed.
pub proof fn lemma_stats_ret_last(toks: Seq<Token>, pos: int)
    ensures
        (match spec_stats(toks, pos) {
            Some((ss, p)) => forall|i: int|
                0 <= i < ss.len() - 1 ==> !((#[trigger] ss[i]) is RetStat),
            None => true,
        }),
    decreases toks.len() - pos,
{
    if at_tok(toks, pos) && !is_block_end_t(toks[pos].t) && toks[pos].t != TokenType::Return {
        lemma_stat_ret(toks, pos);
        match spec_stat(toks, pos) {
            Some((s, p1)) => {
                if moved(toks, pos, p1) {
                    lemma_stats_ret_last(toks, p1);
                    match spec_stats(toks, p1) {
                        Some((ss, p2)) => {
                            assert forall|i: int|
                                0 <= i < (seq![s] + ss).len() - 1 implies !((#[trigger] (
                            seq![s] + ss)[i]) is RetStat) by {
                                if i == 0 {
                                    assert((seq![s] + ss)[0] == s);
                                } else {
                                    assert((seq![s] + ss)[i] == ss[i - 1]);
                                }
                            }
                        },
                        None => {},
                    }
                }
            },
            None => {},
        }
    }
}

/// A return statement occurs only as the last statement of any block the
/// grammar yields for a whole input.
pub proof fn lemma_parse_ret_last(toks: Seq<Token>)
    ensures
        (match spec_parse(toks) {
            Some(b) => ret_is_last(b),
            None => true,
        }),
{
    lemma_stats_ret_last(toks, 0);
}

/// A return statement occurs only as the last statement of its block.
pub open spec fn ret_is_last(b: BlockV) -> bool {
    forall|i: int| 0 <= i < b.stats.len() - 1 ==> !((#[trigger] b.stats[i]) is RetStat)
}

} // verus!
