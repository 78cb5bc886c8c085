//! `while: "while" (":" IDENT)? expr block`
use vstd::prelude::*;

use crate::ast::LoopExpr;
use crate::diagnostic::ErrMsg;
use crate::parser::rules::block::{apply_block, BlockRule};
use crate::parser::rules::expr::{apply_expr, ExprRule};
use crate::parser::rules::loop_expr::{label_part, parse_label};
use crate::parser::{extends_parse, 
    advance, at, begin_range, end_range, ends_with_eof, no_match, not_before, rem, state_wf, ExprParser,
    PState, ParserCursor,
};
use crate::token::{kind_matches, Token, TokenKind};

verus! {

pub struct WhileLoopRule {}

/// A while loop starts with `while`.
pub open spec fn while_check(toks: Seq<Token>, ptr: int) -> bool {
    kind_matches(toks[ptr].value.spec_kind(), TokenKind::While)
}

/// The while-loop rule.
pub open spec fn parse_while(toks: Seq<Token>, st: PState) -> (Option<LoopExpr>, PState)
    decreases rem(toks, st), 100nat,
{
    if !(ends_with_eof(toks) && state_wf(toks, st)) {
        (None, st)
    } else {
        let st1 = begin_range(toks, st);
        if !at(toks, st1, TokenKind::While) {
            (None, st1)
        } else {
            let st2 = advance(toks, st1);
            let (l, st3) = label_part(toks, st2);
            match l {
                None => (None, st3),
                Some(label) => {
                    let (c, st4) = apply_expr(toks, st3, Some(ErrMsg::ExpectedExpression));
                    match c {
                        None => (None, st4),
                        Some(condition) => if not_before(toks, st3, st4) {
                            let (b, st5) = apply_block(toks, st4, Some(ErrMsg::ExpectedBlock));
                            match b {
                                None => (None, st5),
                                Some(body) => {
                                    let (range, st6) = end_range(toks, st5);
                                    (
                                        Some(
                                            LoopExpr {
                                                initial: None,
                                                condition: Some(Box::new(condition)),
                                                increment: None,
                                                body,
                                                label,
                                                position: range,
                                            },
                                        ),
                                        st6,
                                    )
                                },
                            }
                        } else {
                            (None, st4)
                        },
                    }
                },
            }
        }
    }
}

pub open spec fn apply_while(toks: Seq<Token>, st: PState, err: Option<ErrMsg>) -> (Option<LoopExpr>, PState)
    decreases rem(toks, st), 102nat,
{
    let st1 = begin_range(toks, st);
    if while_check(toks, st.ptr) {
        parse_while(toks, st1)
    } else {
        (None, no_match(toks, st1, err))
    }
}

impl WhileLoopRule {
    pub fn name(&self) -> (s: String)
        ensures
            s@ == "WhileLoop"@,
    {
        String::from_str("WhileLoop")
    }

    pub fn check_match(&self, cursor: ParserCursor) -> (b: bool)
        requires
            cursor.ptr < cursor.tokens@.len(),
        ensures
            b == while_check(cursor.tokens@, cursor.ptr as int),
    {
        let mut cursor = cursor;
        cursor.try_consume(TokenKind::While)
    }

    pub fn parse(&self, parser: &mut ExprParser) -> (r: Option<LoopExpr>)
        requires
            old(parser).wf(),
        ensures
            final(parser).wf(),
            final(parser).toks() == old(parser).toks(),
            extends_parse(old(parser)@, final(parser)@),
            old(parser)@.ptr <= final(parser)@.ptr,
            r is Some ==> old(parser)@.ptr < final(parser)@.ptr,
            (r, final(parser)@) == parse_while(old(parser).toks(), old(parser)@),
        decreases rem(old(parser).toks(), old(parser)@), 100nat,
    {
        parser.begin_range();
        if !parser.at(TokenKind::While) {
            return None;
        }
        parser.next();
        let label = match parse_label(parser) {
            Some(l) => l,
            None => return None,
        };
        let condition = match (ExprRule {}).apply(parser, Some(ErrMsg::ExpectedExpression)) {
            Some(c) => c,
            None => return None,
        };
        let body = match (BlockRule {}).apply(parser, Some(ErrMsg::ExpectedBlock)) {
            Some(b) => b,
            None => return None,
        };
        let position = parser.end_range();
        Some(LoopExpr { initial: None, condition: Some(Box::new(condition)), increment: None, body, label, position })
    }

    pub(crate) fn apply(&self, parser: &mut ExprParser, err: Option<ErrMsg>) -> (r: Option<LoopExpr>)
        requires
            old(parser).wf(),
        ensures
            final(parser).wf(),
            final(parser).toks() == old(parser).toks(),
            extends_parse(old(parser)@, final(parser)@),
            old(parser)@.ptr <= final(parser)@.ptr,
            r is Some ==> old(parser)@.ptr < final(parser)@.ptr,
            (r, final(parser)@) == apply_while(old(parser).toks(), old(parser)@, err),
        decreases rem(old(parser).toks(), old(parser)@), 102nat,
    {
        let matched = self.check_match(parser.get_cursor());
        parser.begin_range();
        if matched {
            self.parse(parser)
        } else {
            parser.no_match(err);
            None
        }
    }
}

} // verus!
