//! `comparison: term ((">" | ">=" | "<" | "<=") term)*`
use vstd::prelude::*;

use crate::ast::{BinaryExpr, Expr};
use crate::diagnostic::ErrMsg;
use crate::parser::rules::term::{apply_term, TermRule};
use crate::parser::{extends_parse, 
    advance, at, begin_range, binary_operator, binop_of, cur_kind, ends_with_eof, no_match, not_before, rem,
    state_wf, ExprParser, PState, ParserCursor,
};
use crate::token::{Token, TokenKind};

verus! {

pub struct ComparisonRule {}

/// The rule always tries to match.
pub open spec fn comparison_check(toks: Seq<Token>, ptr: int) -> bool {
    true
}

/// The operators of the rule: each joins what came before (on the left) with the next
/// operand (on the right).
pub open spec fn comparison_tail(toks: Seq<Token>, e: Expr, st: PState) -> (Option<Expr>, PState)
    decreases rem(toks, st), 359nat,
{
    if ends_with_eof(toks) && state_wf(toks, st) && (at(toks, st, TokenKind::Greater) || at(toks, st, TokenKind::GreaterEqual) || at(toks, st, TokenKind::Less) || at(toks, st, TokenKind::LessEqual)) {
        let op = binop_of(cur_kind(toks, st));
        let st1 = advance(toks, st);
        let (r, st2) = apply_term(toks, st1, None);
        match r {
            None => (None, st2),
            Some(right) => if not_before(toks, st1, st2) {
                comparison_tail(toks, Expr::Binary(BinaryExpr { left: Box::new(e), right: Box::new(right), operator: op }), st2)
            } else {
                (None, st2)
            },
        }
    } else {
        (Some(e), st)
    }
}

/// The rule: a first operand, then its operators.
pub open spec fn parse_comparison(toks: Seq<Token>, st: PState) -> (Option<Expr>, PState)
    decreases rem(toks, st), 360nat,
{
    if !(ends_with_eof(toks) && state_wf(toks, st)) {
        (None, st)
    } else {
        let (r, st1) = apply_term(toks, st, None);
        match r {
            None => (None, st1),
            Some(e) => if not_before(toks, st, st1) {
                comparison_tail(toks, e, st1)
            } else {
                (None, st1)
            },
        }
    }
}

pub open spec fn apply_comparison(toks: Seq<Token>, st: PState, err: Option<ErrMsg>) -> (Option<Expr>, PState)
    decreases rem(toks, st), 362nat,
{
    let st1 = begin_range(toks, st);
    if comparison_check(toks, st.ptr) {
        parse_comparison(toks, st1)
    } else {
        (None, no_match(toks, st1, err))
    }
}

impl ComparisonRule {
    pub fn name(&self) -> (s: String)
        ensures
            s@ == "Comparison"@,
    {
        String::from_str("Comparison")
    }

    pub fn check_match(&self, cursor: ParserCursor) -> (b: bool)
        requires
            cursor.ptr < cursor.tokens@.len(),
        ensures
            b == comparison_check(cursor.tokens@, cursor.ptr as int),
    {
        true
    }

    #[verifier::loop_isolation(false)]
    pub fn parse(&self, parser: &mut ExprParser) -> (r: Option<Expr>)
        requires
            old(parser).wf(),
        ensures
            final(parser).wf(),
            final(parser).toks() == old(parser).toks(),
            extends_parse(old(parser)@, final(parser)@),
            old(parser)@.ptr <= final(parser)@.ptr,
            r is Some ==> old(parser)@.ptr < final(parser)@.ptr,
            (r, final(parser)@) == parse_comparison(old(parser).toks(), old(parser)@),
        decreases rem(old(parser).toks(), old(parser)@), 360nat,
    {
        let ghost toks = parser.toks();
        let ghost st0 = parser@;
        let mut expr = match (TermRule {}).apply(parser, None) {
            Some(e) => e,
            None => return None,
        };
        let ghost st1 = parser@;
        let ghost e1 = expr;
        while parser.at(TokenKind::Greater) || parser.at(TokenKind::GreaterEqual) || parser.at(TokenKind::Less) || parser.at(TokenKind::LessEqual)
            invariant
                parser.wf(),
                parser.toks() == toks,
                extends_parse(old(parser)@, parser@),
                st1.ptr <= parser@.ptr,
                comparison_tail(toks, expr, parser@) == comparison_tail(toks, e1, st1),
            decreases rem(toks, parser@),
        {
            let kind = parser.cur_kind();
            let operator = binary_operator(kind);
            parser.next();
            let right = match (TermRule {}).apply(parser, None) {
                Some(e) => e,
                None => return None,
            };
            expr = Expr::Binary(BinaryExpr { left: Box::new(expr), right: Box::new(right), operator });
        }
        Some(expr)
    }

    pub(crate) fn apply(&self, parser: &mut ExprParser, err: Option<ErrMsg>) -> (r: Option<Expr>)
        requires
            old(parser).wf(),
        ensures
            final(parser).wf(),
            final(parser).toks() == old(parser).toks(),
            extends_parse(old(parser)@, final(parser)@),
            old(parser)@.ptr <= final(parser)@.ptr,
            r is Some ==> old(parser)@.ptr < final(parser)@.ptr,
            (r, final(parser)@) == apply_comparison(old(parser).toks(), old(parser)@, err),
        decreases rem(old(parser).toks(), old(parser)@), 362nat,
    {
        let matched = self.check_match(parser.get_cursor());
        parser.begin_range();
        if matched {
            self.parse(parser)
        } else {
            parser.no_match(err);
            None
        }
    }
}

} // verus!
