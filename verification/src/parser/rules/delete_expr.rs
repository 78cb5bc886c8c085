//! `delete: "delete" expr ";"`
use vstd::prelude::*;

use crate::ast::DeleteExpr;
use crate::diagnostic::ErrMsg;
use crate::parser::rules::expr::{apply_expr, ExprRule};
use crate::parser::{extends_parse, 
    advance, at, begin_range, consume_or_report, end_range, ends_with_eof, no_match, rem, state_wf,
    ExprParser, PState, ParserCursor,
};
use crate::token::{kind_matches, Token, TokenKind};

verus! {

pub struct DeleteRule {}

/// A delete starts with `delete`.
pub open spec fn delete_check(toks: Seq<Token>, ptr: int) -> bool {
    kind_matches(toks[ptr].value.spec_kind(), TokenKind::Delete)
}

/// The delete rule; a missing `;` is reported.
pub open spec fn parse_delete(toks: Seq<Token>, st: PState) -> (Option<DeleteExpr>, PState)
    decreases rem(toks, st), 100nat,
{
    if !(ends_with_eof(toks) && state_wf(toks, st)) {
        (None, st)
    } else {
        let st1 = begin_range(toks, st);
        if !at(toks, st1, TokenKind::Delete) {
            (None, st1)
        } else {
            let (r, st2) = apply_expr(toks, advance(toks, st1), Some(ErrMsg::ExpectedExpression));
            match r {
                None => (None, st2),
                Some(e) => {
                    let st3 = consume_or_report(toks, st2, TokenKind::Semicolon).1;
                    let (range, st4) = end_range(toks, st3);
                    (Some(DeleteExpr { expr: Box::new(e), position: range }), st4)
                },
            }
        }
    }
}

pub open spec fn apply_delete(toks: Seq<Token>, st: PState, err: Option<ErrMsg>) -> (Option<DeleteExpr>, PState)
    decreases rem(toks, st), 102nat,
{
    let st1 = begin_range(toks, st);
    if delete_check(toks, st.ptr) {
        parse_delete(toks, st1)
    } else {
        (None, no_match(toks, st1, err))
    }
}

impl DeleteRule {
    pub fn name(&self) -> (s: String)
        ensures
            s@ == "Delete"@,
    {
        String::from_str("Delete")
    }

    pub fn check_match(&self, cursor: ParserCursor) -> (b: bool)
        requires
            cursor.ptr < cursor.tokens@.len(),
        ensures
            b == delete_check(cursor.tokens@, cursor.ptr as int),
    {
        let mut cursor = cursor;
        cursor.try_consume(TokenKind::Delete)
    }

    pub fn parse(&self, parser: &mut ExprParser) -> (r: Option<DeleteExpr>)
        requires
            old(parser).wf(),
        ensures
            final(parser).wf(),
            final(parser).toks() == old(parser).toks(),
            extends_parse(old(parser)@, final(parser)@),
            old(parser)@.ptr <= final(parser)@.ptr,
            r is Some ==> old(parser)@.ptr < final(parser)@.ptr,
            (r, final(parser)@) == parse_delete(old(parser).toks(), old(parser)@),
        decreases rem(old(parser).toks(), old(parser)@), 100nat,
    {
        parser.begin_range();
        if !parser.at(TokenKind::Delete) {
            return None;
        }
        parser.next();
        let expr = match (ExprRule {}).apply(parser, Some(ErrMsg::ExpectedExpression)) {
            Some(e) => e,
            None => return None,
        };
        parser.consume_or_diagnostic(TokenKind::Semicolon);
        let position = parser.end_range();
        Some(DeleteExpr { expr: Box::new(expr), position })
    }

    pub(crate) fn apply(&self, parser: &mut ExprParser, err: Option<ErrMsg>) -> (r: Option<DeleteExpr>)
        requires
            old(parser).wf(),
        ensures
            final(parser).wf(),
            final(parser).toks() == old(parser).toks(),
            extends_parse(old(parser)@, final(parser)@),
            old(parser)@.ptr <= final(parser)@.ptr,
            r is Some ==> old(parser)@.ptr < final(parser)@.ptr,
            (r, final(parser)@) == apply_delete(old(parser).toks(), old(parser)@, err),
        decreases rem(old(parser).toks(), old(parser)@), 102nat,
    {
        let matched = self.check_match(parser.get_cursor());
        parser.begin_range();
        if matched {
            self.parse(parser)
        } else {
            parser.no_match(err);
            None
        }
    }
}

} // verus!
