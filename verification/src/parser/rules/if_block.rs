//! `if: "if" expr expr ("else" (if | block))?`
use vstd::prelude::*;

use crate::ast::{Expr, IfExpr};
use crate::diagnostic::ErrMsg;
use crate::parser::rules::block::{apply_block, BlockRule};
use crate::parser::rules::expr::{apply_expr, ExprRule};
use crate::parser::{extends_parse, 
    advance, at, begin_range, end_range, ends_with_eof, no_match, not_before, rem, state_wf, ExprParser,
    PState, ParserCursor,
};
use crate::token::{kind_matches, Token, TokenKind};

verus! {

pub struct IfBlockRule {}

/// An if expression starts with `if`.
pub open spec fn if_check(toks: Seq<Token>, ptr: int) -> bool {
    kind_matches(toks[ptr].value.spec_kind(), TokenKind::If)
}

/// The else branch after `else`: another if expression, or else a block.
pub open spec fn else_branch(toks: Seq<Token>, st: PState) -> (Option<Box<Expr>>, PState)
    decreases rem(toks, st), 104nat,
{
    if !(ends_with_eof(toks) && state_wf(toks, st)) {
        (None, st)
    } else {
        let (fi, st1) = apply_if(toks, st, None);
        match fi {
            Some(x) => (Some(Box::new(Expr::If(x))), st1),
            None => if not_before(toks, st, st1) {
                let (fb, st2) = apply_block(toks, st1, None);
                match fb {
                    Some(b) => (Some(Box::new(Expr::Block(b))), st2),
                    None => (None, st2),
                }
            } else {
                (None, st1)
            },
        }
    }
}

/// The if rule. The success branch is any expression; an `else` that is followed by
/// neither an if nor a block leaves no else branch.
pub open spec fn parse_if(toks: Seq<Token>, st: PState) -> (Option<IfExpr>, PState)
    decreases rem(toks, st), 100nat,
{
    if !(ends_with_eof(toks) && state_wf(toks, st)) {
        (None, st)
    } else {
        let st1 = begin_range(toks, st);
        if !at(toks, st1, TokenKind::If) {
            (None, st1)
        } else {
            let st2 = advance(toks, st1);
            let (c, st3) = apply_expr(toks, st2, Some(ErrMsg::ExpectedExpression));
            match c {
                None => (None, st3),
                Some(condition) => if !not_before(toks, st2, st3) {
                    (None, st3)
                } else {
                    let (s, st4) = apply_expr(toks, st3, Some(ErrMsg::ExpectedBlock));
                    match s {
                        None => (None, st4),
                        Some(success) => if !not_before(toks, st3, st4) {
                            (None, st4)
                        } else {
                            let (fail, st5) = if at(toks, st4, TokenKind::Else) {
                                else_branch(toks, advance(toks, st4))
                            } else {
                                (None, st4)
                            };
                            let (range, st6) = end_range(toks, st5);
                            (
                                Some(
                                    IfExpr {
                                        condition: Box::new(condition),
                                        success: Box::new(success),
                                        fail,
                                        position: range,
                                    },
                                ),
                                st6,
                            )
                        },
                    }
                },
            }
        }
    }
}

pub open spec fn apply_if(toks: Seq<Token>, st: PState, err: Option<ErrMsg>) -> (Option<IfExpr>, PState)
    decreases rem(toks, st), 102nat,
{
    let st1 = begin_range(toks, st);
    if if_check(toks, st.ptr) {
        parse_if(toks, st1)
    } else {
        (None, no_match(toks, st1, err))
    }
}

impl IfBlockRule {
    pub fn name(&self) -> (s: String)
        ensures
            s@ == "IfBlock"@,
    {
        String::from_str("IfBlock")
    }

    pub fn check_match(&self, cursor: ParserCursor) -> (b: bool)
        requires
            cursor.ptr < cursor.tokens@.len(),
        ensures
            b == if_check(cursor.tokens@, cursor.ptr as int),
    {
        let mut cursor = cursor;
        cursor.try_consume(TokenKind::If)
    }

    pub fn parse(&self, parser: &mut ExprParser) -> (r: Option<IfExpr>)
        requires
            old(parser).wf(),
        ensures
            final(parser).wf(),
            final(parser).toks() == old(parser).toks(),
            extends_parse(old(parser)@, final(parser)@),
            old(parser)@.ptr <= final(parser)@.ptr,
            r is Some ==> old(parser)@.ptr < final(parser)@.ptr,
            (r, final(parser)@) == parse_if(old(parser).toks(), old(parser)@),
        decreases rem(old(parser).toks(), old(parser)@), 100nat,
    {
        parser.begin_range();
        if !parser.at(TokenKind::If) {
            return None;
        }
        parser.next();
        let condition = match (ExprRule {}).apply(parser, Some(ErrMsg::ExpectedExpression)) {
            Some(c) => c,
            None => return None,
        };
        let success = match (ExprRule {}).apply(parser, Some(ErrMsg::ExpectedBlock)) {
            Some(s) => s,
            None => return None,
        };
        let mut fail: Option<Box<Expr>> = None;
        if parser.at(TokenKind::Else) {
            parser.next();
            fail = match (IfBlockRule {}).apply(parser, None) {
                Some(x) => Some(Box::new(Expr::If(x))),
                None => None,
            };
            if fail.is_none() {
                fail = match (BlockRule {}).apply(parser, None) {
                    Some(b) => Some(Box::new(Expr::Block(b))),
                    None => None,
                };
            }
        }
        let position = parser.end_range();
        Some(IfExpr { condition: Box::new(condition), success: Box::new(success), fail, position })
    }

    pub(crate) fn apply(&self, parser: &mut ExprParser, err: Option<ErrMsg>) -> (r: Option<IfExpr>)
        requires
            old(parser).wf(),
        ensures
            final(parser).wf(),
            final(parser).toks() == old(parser).toks(),
            extends_parse(old(parser)@, final(parser)@),
            old(parser)@.ptr <= final(parser)@.ptr,
            r is Some ==> old(parser)@.ptr < final(parser)@.ptr,
            (r, final(parser)@) == apply_if(old(parser).toks(), old(parser)@, err),
        decreases rem(old(parser).toks(), old(parser)@), 102nat,
    {
        let matched = self.check_match(parser.get_cursor());
        parser.begin_range();
        if matched {
            self.parse(parser)
        } else {
            parser.no_match(err);
            None
        }
    }
}

} // verus!
