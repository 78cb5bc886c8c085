//! `expr: condition`
use vstd::prelude::*;

use crate::ast::Expr;
use crate::diagnostic::ErrMsg;
use crate::parser::rules::condition::{apply_condition, ConditionRule};
use crate::parser::{extends_parse, begin_range, no_match, rem, ExprParser, PState, ParserCursor};
use crate::token::Token;

verus! {

pub struct ExprRule {}

/// The rule always tries to match.
pub open spec fn expr_check(toks: Seq<Token>, ptr: int) -> bool {
    true
}

/// The expression rule: a condition.
pub open spec fn parse_expr(toks: Seq<Token>, st: PState) -> (Option<Expr>, PState)
    decreases rem(toks, st), 400nat,
{
    apply_condition(toks, st, None)
}

pub open spec fn apply_expr(toks: Seq<Token>, st: PState, err: Option<ErrMsg>) -> (Option<Expr>, PState)
    decreases rem(toks, st), 402nat,
{
    let st1 = begin_range(toks, st);
    if expr_check(toks, st.ptr) {
        parse_expr(toks, st1)
    } else {
        (None, no_match(toks, st1, err))
    }
}

impl ExprRule {
    pub fn name(&self) -> (s: String)
        ensures
            s@ == "Expr"@,
    {
        String::from_str("Expr")
    }

    pub fn check_match(&self, cursor: ParserCursor) -> (b: bool)
        requires
            cursor.ptr < cursor.tokens@.len(),
        ensures
            b == expr_check(cursor.tokens@, cursor.ptr as int),
    {
        true
    }

    pub fn parse(&self, parser: &mut ExprParser) -> (r: Option<Expr>)
        requires
            old(parser).wf(),
        ensures
            final(parser).wf(),
            final(parser).toks() == old(parser).toks(),
            extends_parse(old(parser)@, final(parser)@),
            old(parser)@.ptr <= final(parser)@.ptr,
            r is Some ==> old(parser)@.ptr < final(parser)@.ptr,
            (r, final(parser)@) == parse_expr(old(parser).toks(), old(parser)@),
        decreases rem(old(parser).toks(), old(parser)@), 400nat,
    {
        (ConditionRule {}).apply(parser, None)
    }

    pub(crate) fn apply(&self, parser: &mut ExprParser, err: Option<ErrMsg>) -> (r: Option<Expr>)
        requires
            old(parser).wf(),
        ensures
            final(parser).wf(),
            final(parser).toks() == old(parser).toks(),
            extends_parse(old(parser)@, final(parser)@),
            old(parser)@.ptr <= final(parser)@.ptr,
            r is Some ==> old(parser)@.ptr < final(parser)@.ptr,
            (r, final(parser)@) == apply_expr(old(parser).toks(), old(parser)@, err),
        decreases rem(old(parser).toks(), old(parser)@), 402nat,
    {
        let matched = self.check_match(parser.get_cursor());
        parser.begin_range();
        if matched {
            self.parse(parser)
        } else {
            parser.no_match(err);
            None
        }
    }
}

} // verus!
