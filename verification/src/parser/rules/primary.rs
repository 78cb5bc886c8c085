//! `primary: constructor-call | new-array | loop | if | block | for | while | "(" expr ")"
//!          | var | literal`
use vstd::prelude::*;

use crate::ast::{Expr, Literal, LiteralExpr};
use crate::diagnostic::ErrMsg;
use crate::parser::rules::block::{apply_block, block_check, BlockRule};
use crate::parser::rules::constructor_call::{apply_constructor_call, constructor_call_check, ConstructorCallRule};
use crate::parser::rules::expr::{apply_expr, ExprRule};
use crate::parser::rules::for_loop::{apply_for, for_check, ForLoopRule};
use crate::parser::rules::if_block::{apply_if, if_check, IfBlockRule};
use crate::parser::rules::loop_expr::{apply_loop, loop_check, LoopRule};
use crate::parser::rules::new_array::{apply_new_array, new_array_check, NewArrayRule};
use crate::parser::rules::var::{apply_var, var_check, VarRule};
use crate::parser::rules::while_loop::{apply_while, while_check, WhileLoopRule};
use crate::parser::{extends_parse, 
    advance, at, begin_range, consume_or_report, cur_tok, ends_with_eof, no_match, rem, report, state_wf,
    ExprParser, PState, ParserCursor,
};
use crate::token::{Token, TokenKind, TokenType};

verus! {

pub struct PrimaryRule {}

/// The rule always tries to match.
pub open spec fn primary_check(toks: Seq<Token>, ptr: int) -> bool {
    true
}

/// The literal that a token is, if it is one.
pub open spec fn literal_of(t: Token) -> Option<LiteralExpr> {
    match t.value {
        TokenType::IntLiteral(x) => Some(LiteralExpr { value: Literal::Int(x), position: t.position }),
        TokenType::DoubleLiteral(x) => Some(LiteralExpr { value: Literal::Double(x), position: t.position }),
        TokenType::BoolLiteral(x) => Some(LiteralExpr { value: Literal::Bool(x), position: t.position }),
        TokenType::CharLiteral(x) => Some(LiteralExpr { value: Literal::Char(x), position: t.position }),
        TokenType::StringLiteral(x) => Some(LiteralExpr { value: Literal::String(x), position: t.position }),
        _ => None,
    }
}

/// The primary rule: the first alternative whose start matches; a token that starts none
/// is reported as a missing expression.
pub open spec fn parse_primary(toks: Seq<Token>, st: PState) -> (Option<Expr>, PState)
    decreases rem(toks, st), 310nat,
{
    if !(ends_with_eof(toks) && state_wf(toks, st)) {
        (None, st)
    } else if constructor_call_check(toks, st.ptr) {
        let (r, st1) = apply_constructor_call(toks, st, None);
        (match r { Some(x) => Some(Expr::ConstructorCall(x)), None => None }, st1)
    } else if new_array_check(toks, st.ptr) {
        let (r, st1) = apply_new_array(toks, st, None);
        (match r { Some(x) => Some(Expr::NewArray(x)), None => None }, st1)
    } else if loop_check(toks, st.ptr) {
        let (r, st1) = apply_loop(toks, st, None);
        (match r { Some(x) => Some(Expr::Loop(x)), None => None }, st1)
    } else if if_check(toks, st.ptr) {
        let (r, st1) = apply_if(toks, st, None);
        (match r { Some(x) => Some(Expr::If(x)), None => None }, st1)
    } else if block_check(toks, st.ptr) {
        let (r, st1) = apply_block(toks, st, None);
        (match r { Some(x) => Some(Expr::Block(x)), None => None }, st1)
    } else if for_check(toks, st.ptr) {
        let (r, st1) = apply_for(toks, st, None);
        (match r { Some(x) => Some(Expr::Loop(x)), None => None }, st1)
    } else if while_check(toks, st.ptr) {
        let (r, st1) = apply_while(toks, st, None);
        (match r { Some(x) => Some(Expr::Loop(x)), None => None }, st1)
    } else if at(toks, st, TokenKind::LeftParen) {
        let (r, st1) = apply_expr(toks, advance(toks, st), Some(ErrMsg::ExpectedExpression));
        match r {
            None => (None, st1),
            Some(e) => (Some(e), consume_or_report(toks, st1, TokenKind::RightParen).1),
        }
    } else if var_check(toks, st.ptr) {
        let (r, st1) = apply_var(toks, st, None);
        (match r { Some(x) => Some(Expr::Var(x)), None => None }, st1)
    } else {
        match literal_of(cur_tok(toks, st)) {
            Some(l) => (Some(Expr::Literal(l)), advance(toks, st)),
            None => (None, report(toks, st, ErrMsg::ExpectedExpression)),
        }
    }
}

pub open spec fn apply_primary(toks: Seq<Token>, st: PState, err: Option<ErrMsg>) -> (Option<Expr>, PState)
    decreases rem(toks, st), 312nat,
{
    let st1 = begin_range(toks, st);
    if primary_check(toks, st.ptr) {
        parse_primary(toks, st1)
    } else {
        (None, no_match(toks, st1, err))
    }
}

impl PrimaryRule {
    pub fn name(&self) -> (s: String)
        ensures
            s@ == "Primary"@,
    {
        String::from_str("Primary")
    }

    pub fn check_match(&self, cursor: ParserCursor) -> (b: bool)
        requires
            cursor.ptr < cursor.tokens@.len(),
        ensures
            b == primary_check(cursor.tokens@, cursor.ptr as int),
    {
        true
    }

    pub fn parse(&self, parser: &mut ExprParser) -> (r: Option<Expr>)
        requires
            old(parser).wf(),
        ensures
            final(parser).wf(),
            final(parser).toks() == old(parser).toks(),
            extends_parse(old(parser)@, final(parser)@),
            old(parser)@.ptr <= final(parser)@.ptr,
            r is Some ==> old(parser)@.ptr < final(parser)@.ptr,
            (r, final(parser)@) == parse_primary(old(parser).toks(), old(parser)@),
        decreases rem(old(parser).toks(), old(parser)@), 310nat,
    {
        if (ConstructorCallRule {}).check_match(parser.get_cursor()) {
            return match (ConstructorCallRule {}).apply(parser, None) {
                Some(x) => Some(Expr::ConstructorCall(x)),
                None => None,
            };
        }
        if (NewArrayRule {}).check_match(parser.get_cursor()) {
            return match (NewArrayRule {}).apply(parser, None) {
                Some(x) => Some(Expr::NewArray(x)),
                None => None,
            };
        }
        if (LoopRule {}).check_match(parser.get_cursor()) {
            return match (LoopRule {}).apply(parser, None) {
                Some(x) => Some(Expr::Loop(x)),
                None => None,
            };
        }
        if (IfBlockRule {}).check_match(parser.get_cursor()) {
            return match (IfBlockRule {}).apply(parser, None) {
                Some(x) => Some(Expr::If(x)),
                None => None,
            };
        }
        if (BlockRule {}).check_match(parser.get_cursor()) {
            return match (BlockRule {}).apply(parser, None) {
                Some(x) => Some(Expr::Block(x)),
                None => None,
            };
        }
        if (ForLoopRule {}).check_match(parser.get_cursor()) {
            return match (ForLoopRule {}).apply(parser, None) {
                Some(x) => Some(Expr::Loop(x)),
                None => None,
            };
        }
        if (WhileLoopRule {}).check_match(parser.get_cursor()) {
            return match (WhileLoopRule {}).apply(parser, None) {
                Some(x) => Some(Expr::Loop(x)),
                None => None,
            };
        }
        if parser.at(TokenKind::LeftParen) {
            parser.next();
            let expr = match (ExprRule {}).apply(parser, Some(ErrMsg::ExpectedExpression)) {
                Some(e) => e,
                None => return None,
            };
            parser.consume_or_diagnostic(TokenKind::RightParen);
            return Some(expr);
        }
        if (VarRule {}).check_match(parser.get_cursor()) {
            return match (VarRule {}).apply(parser, None) {
                Some(x) => Some(Expr::Var(x)),
                None => None,
            };
        }
        let cur = parser.cur();
        let literal = match cur.value {
            TokenType::IntLiteral(x) => LiteralExpr { value: Literal::Int(x), position: cur.position },
            TokenType::DoubleLiteral(x) => LiteralExpr { value: Literal::Double(x), position: cur.position },
            TokenType::BoolLiteral(x) => LiteralExpr { value: Literal::Bool(x), position: cur.position },
            TokenType::CharLiteral(x) => LiteralExpr { value: Literal::Char(x), position: cur.position },
            TokenType::StringLiteral(x) => LiteralExpr { value: Literal::String(x), position: cur.position },
            _ => {
                parser.report(ErrMsg::ExpectedExpression);
                return None;
            },
        };
        parser.next();
        Some(Expr::Literal(literal))
    }

    pub(crate) fn apply(&self, parser: &mut ExprParser, err: Option<ErrMsg>) -> (r: Option<Expr>)
        requires
            old(parser).wf(),
        ensures
            final(parser).wf(),
            final(parser).toks() == old(parser).toks(),
            extends_parse(old(parser)@, final(parser)@),
            old(parser)@.ptr <= final(parser)@.ptr,
            r is Some ==> old(parser)@.ptr < final(parser)@.ptr,
            (r, final(parser)@) == apply_primary(old(parser).toks(), old(parser)@, err),
        decreases rem(old(parser).toks(), old(parser)@), 312nat,
    {
        let matched = self.check_match(parser.get_cursor());
        parser.begin_range();
        if matched {
            self.parse(parser)
        } else {
            parser.no_match(err);
            None
        }
    }
}

} // verus!
