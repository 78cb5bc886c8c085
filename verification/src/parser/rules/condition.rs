//! `condition: boolean-factor ("or" boolean-factor)*`
use vstd::prelude::*;

use crate::ast::{BinaryExpr, Expr};
use crate::diagnostic::ErrMsg;
use crate::parser::rules::boolean_factor::{apply_boolean_factor, BooleanFactorRule};
use crate::parser::{extends_parse, 
    advance, at, begin_range, binary_operator, binop_of, cur_kind, ends_with_eof, no_match, not_before, rem,
    state_wf, ExprParser, PState, ParserCursor,
};
use crate::token::{Token, TokenKind};

verus! {

pub struct ConditionRule {}

/// The rule always tries to match.
pub open spec fn condition_check(toks: Seq<Token>, ptr: int) -> bool {
    true
}

/// The operators of the rule: each joins what came before (on the left) with the next
/// operand (on the right).
pub open spec fn condition_tail(toks: Seq<Token>, e: Expr, st: PState) -> (Option<Expr>, PState)
    decreases rem(toks, st), 389nat,
{
    if ends_with_eof(toks) && state_wf(toks, st) && (at(toks, st, TokenKind::Or)) {
        let op = binop_of(cur_kind(toks, st));
        let st1 = advance(toks, st);
        let (r, st2) = apply_boolean_factor(toks, st1, None);
        match r {
            None => (None, st2),
            Some(right) => if not_before(toks, st1, st2) {
                condition_tail(toks, Expr::Binary(BinaryExpr { left: Box::new(e), right: Box::new(right), operator: op }), st2)
            } else {
                (None, st2)
            },
        }
    } else {
        (Some(e), st)
    }
}

/// The rule: a first operand, then its operators.
pub open spec fn parse_condition(toks: Seq<Token>, st: PState) -> (Option<Expr>, PState)
    decreases rem(toks, st), 390nat,
{
    if !(ends_with_eof(toks) && state_wf(toks, st)) {
        (None, st)
    } else {
        let (r, st1) = apply_boolean_factor(toks, st, None);
        match r {
            None => (None, st1),
            Some(e) => if not_before(toks, st, st1) {
                condition_tail(toks, e, st1)
            } else {
                (None, st1)
            },
        }
    }
}

pub open spec fn apply_condition(toks: Seq<Token>, st: PState, err: Option<ErrMsg>) -> (Option<Expr>, PState)
    decreases rem(toks, st), 392nat,
{
    let st1 = begin_range(toks, st);
    if condition_check(toks, st.ptr) {
        parse_condition(toks, st1)
    } else {
        (None, no_match(toks, st1, err))
    }
}

impl ConditionRule {
    pub fn name(&self) -> (s: String)
        ensures
            s@ == "Condition"@,
    {
        String::from_str("Condition")
    }

    pub fn check_match(&self, cursor: ParserCursor) -> (b: bool)
        requires
            cursor.ptr < cursor.tokens@.len(),
        ensures
            b == condition_check(cursor.tokens@, cursor.ptr as int),
    {
        true
    }

    #[verifier::loop_isolation(false)]
    pub fn parse(&self, parser: &mut ExprParser) -> (r: Option<Expr>)
        requires
            old(parser).wf(),
        ensures
            final(parser).wf(),
            final(parser).toks() == old(parser).toks(),
            extends_parse(old(parser)@, final(parser)@),
            old(parser)@.ptr <= final(parser)@.ptr,
            r is Some ==> old(parser)@.ptr < final(parser)@.ptr,
            (r, final(parser)@) == parse_condition(old(parser).toks(), old(parser)@),
        decreases rem(old(parser).toks(), old(parser)@), 390nat,
    {
        let ghost toks = parser.toks();
        let ghost st0 = parser@;
        let mut expr = match (BooleanFactorRule {}).apply(parser, None) {
            Some(e) => e,
            None => return None,
        };
        let ghost st1 = parser@;
        let ghost e1 = expr;
        while parser.at(TokenKind::Or)
            invariant
                parser.wf(),
                parser.toks() == toks,
                extends_parse(old(parser)@, parser@),
                st1.ptr <= parser@.ptr,
                condition_tail(toks, expr, parser@) == condition_tail(toks, e1, st1),
            decreases rem(toks, parser@),
        {
            let kind = parser.cur_kind();
            let operator = binary_operator(kind);
            parser.next();
            let right = match (BooleanFactorRule {}).apply(parser, None) {
                Some(e) => e,
                None => return None,
            };
            expr = Expr::Binary(BinaryExpr { left: Box::new(expr), right: Box::new(right), operator });
        }
        Some(expr)
    }

    pub(crate) fn apply(&self, parser: &mut ExprParser, err: Option<ErrMsg>) -> (r: Option<Expr>)
        requires
            old(parser).wf(),
        ensures
            final(parser).wf(),
            final(parser).toks() == old(parser).toks(),
            extends_parse(old(parser)@, final(parser)@),
            old(parser)@.ptr <= final(parser)@.ptr,
            r is Some ==> old(parser)@.ptr < final(parser)@.ptr,
            (r, final(parser)@) == apply_condition(old(parser).toks(), old(parser)@, err),
        decreases rem(old(parser).toks(), old(parser)@), 392nat,
    {
        let matched = self.check_match(parser.get_cursor());
        parser.begin_range();
        if matched {
            self.parse(parser)
        } else {
            parser.no_match(err);
            None
        }
    }
}

} // verus!
