//! `assignment: expr ("=" assignment)?`
//!
//! Assignment is right-associative: `x = y = 42` assigns `y = 42` to `x`.
use vstd::prelude::*;

use crate::ast::{AssignmentExpr, Expr};
use crate::diagnostic::ErrMsg;
use crate::parser::rules::expr::{apply_expr, ExprRule};
use crate::parser::{extends_parse, 
    advance, at, begin_range, end_range, ends_with_eof, no_match, not_before, rem, state_wf, ExprParser,
    PState, ParserCursor,
};
use crate::token::{Token, TokenKind};

verus! {

pub struct AssignmentRule {}

/// The rule always tries to match.
pub open spec fn assignment_check(toks: Seq<Token>, ptr: int) -> bool {
    true
}

/// The assignment rule: an expression, assigned the value of a further
/// (right-associative) assignment if `=` follows.
pub open spec fn parse_assignment(toks: Seq<Token>, st: PState) -> (Option<Expr>, PState)
    decreases rem(toks, st), 450nat,
{
    if !(ends_with_eof(toks) && state_wf(toks, st)) {
        (None, st)
    } else {
        let st1 = begin_range(toks, st);
        let (a, st2) = apply_expr(toks, st1, Some(ErrMsg::ExpectedExpression));
        match a {
            None => (None, st2),
            Some(assignee) => if at(toks, st2, TokenKind::Assignment) {
                if !not_before(toks, st1, st2) {
                    (None, st2)
                } else {
                    let (r, st3) = apply_assignment(toks, advance(toks, st2), Some(ErrMsg::ExpectedExpression));
                    match r {
                        None => (None, st3),
                        Some(e) => {
                            let (range, st4) = end_range(toks, st3);
                            (
                                Some(Expr::Assignment(AssignmentExpr { assignee: Box::new(assignee), expr: Box::new(e), position: range })),
                                st4,
                            )
                        },
                    }
                }
            } else {
                (Some(assignee), st2)
            },
        }
    }
}

pub open spec fn apply_assignment(toks: Seq<Token>, st: PState, err: Option<ErrMsg>) -> (Option<Expr>, PState)
    decreases rem(toks, st), 452nat,
{
    let st1 = begin_range(toks, st);
    if assignment_check(toks, st.ptr) {
        parse_assignment(toks, st1)
    } else {
        (None, no_match(toks, st1, err))
    }
}

impl AssignmentRule {
    pub fn name(&self) -> (s: String)
        ensures
            s@ == "Assignment"@,
    {
        String::from_str("Assignment")
    }

    pub fn check_match(&self, cursor: ParserCursor) -> (b: bool)
        requires
            cursor.ptr < cursor.tokens@.len(),
        ensures
            b == assignment_check(cursor.tokens@, cursor.ptr as int),
    {
        true
    }

    pub fn parse(&self, parser: &mut ExprParser) -> (r: Option<Expr>)
        requires
            old(parser).wf(),
        ensures
            final(parser).wf(),
            final(parser).toks() == old(parser).toks(),
            extends_parse(old(parser)@, final(parser)@),
            old(parser)@.ptr <= final(parser)@.ptr,
            r is Some ==> old(parser)@.ptr < final(parser)@.ptr,
            (r, final(parser)@) == parse_assignment(old(parser).toks(), old(parser)@),
        decreases rem(old(parser).toks(), old(parser)@), 450nat,
    {
        parser.begin_range();
        let assignee = match (ExprRule {}).apply(parser, Some(ErrMsg::ExpectedExpression)) {
            Some(a) => a,
            None => return None,
        };
        if parser.at(TokenKind::Assignment) {
            parser.next();
            let expr = match self.apply(parser, Some(ErrMsg::ExpectedExpression)) {
                Some(e) => e,
                None => return None,
            };
            let position = parser.end_range();
            Some(Expr::Assignment(AssignmentExpr { assignee: Box::new(assignee), expr: Box::new(expr), position }))
        } else {
            Some(assignee)
        }
    }

    pub(crate) fn apply(&self, parser: &mut ExprParser, err: Option<ErrMsg>) -> (r: Option<Expr>)
        requires
            old(parser).wf(),
        ensures
            final(parser).wf(),
            final(parser).toks() == old(parser).toks(),
            extends_parse(old(parser)@, final(parser)@),
            old(parser)@.ptr <= final(parser)@.ptr,
            r is Some ==> old(parser)@.ptr < final(parser)@.ptr,
            (r, final(parser)@) == apply_assignment(old(parser).toks(), old(parser)@, err),
        decreases rem(old(parser).toks(), old(parser)@), 452nat,
    {
        let matched = self.check_match(parser.get_cursor());
        parser.begin_range();
        if matched {
            self.parse(parser)
        } else {
            parser.no_match(err);
            None
        }
    }
}

} // verus!
