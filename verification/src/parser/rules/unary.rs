//! `unary: ("!" | "-" | "*" | "&" | "~") unary | member-access`
use vstd::prelude::*;

use crate::ast::{Expr, UnaryExpr, UnaryOperator};
use crate::diagnostic::ErrMsg;
use crate::parser::rules::member_access::{apply_member_access, MemberAccessRule};
use crate::parser::{extends_parse, 
    advance, begin_range, cur_kind, end_range, ends_with_eof, no_match, rem, state_wf,
    ExprParser, PState, ParserCursor,
};
use crate::token::{Token, TokenKind};

verus! {

pub struct UnaryRule {}

/// The rule always tries to match.
pub open spec fn unary_check(toks: Seq<Token>, ptr: int) -> bool {
    true
}

/// Whether a token kind is a prefix operator.
pub open spec fn is_unary_op(kind: TokenKind) -> bool {
    kind == TokenKind::Not || kind == TokenKind::Minus || kind == TokenKind::Star || kind == TokenKind::Ampersand
        || kind == TokenKind::Tilda
}

/// The prefix operator that a token kind stands for.
pub open spec fn unop_of(kind: TokenKind) -> UnaryOperator {
    match kind {
        TokenKind::Not => UnaryOperator::Not,
        TokenKind::Minus => UnaryOperator::Negate,
        TokenKind::Star => UnaryOperator::Deref,
        TokenKind::Ampersand => UnaryOperator::Ref,
        _ => UnaryOperator::BitNot,
    }
}

fn unary_operator(kind: TokenKind) -> (op: UnaryOperator)
    ensures
        op == unop_of(kind),
{
    match kind {
        TokenKind::Not => UnaryOperator::Not,
        TokenKind::Minus => UnaryOperator::Negate,
        TokenKind::Star => UnaryOperator::Deref,
        TokenKind::Ampersand => UnaryOperator::Ref,
        _ => UnaryOperator::BitNot,
    }
}

/// The unary rule: an operator applied to a unary expression, or a member access.
pub open spec fn parse_unary(toks: Seq<Token>, st: PState) -> (Option<Expr>, PState)
    decreases rem(toks, st), 330nat,
{
    if !(ends_with_eof(toks) && state_wf(toks, st)) {
        (None, st)
    } else {
        let st1 = begin_range(toks, st);
        if is_unary_op(cur_kind(toks, st1)) {
            let op = unop_of(cur_kind(toks, st1));
            let st2 = advance(toks, st1);
            let (r, st3) = apply_unary(toks, st2, None);
            match r {
                None => (None, st3),
                Some(u) => {
                    let (range, st4) = end_range(toks, st3);
                    (Some(Expr::Unary(UnaryExpr { expr: Box::new(u), operator: op, position: range })), st4)
                },
            }
        } else {
            apply_member_access(toks, st1, None)
        }
    }
}

pub open spec fn apply_unary(toks: Seq<Token>, st: PState, err: Option<ErrMsg>) -> (Option<Expr>, PState)
    decreases rem(toks, st), 332nat,
{
    let st1 = begin_range(toks, st);
    if unary_check(toks, st.ptr) {
        parse_unary(toks, st1)
    } else {
        (None, no_match(toks, st1, err))
    }
}

impl UnaryRule {
    pub fn name(&self) -> (s: String)
        ensures
            s@ == "Unary"@,
    {
        String::from_str("Unary")
    }

    pub fn check_match(&self, cursor: ParserCursor) -> (b: bool)
        requires
            cursor.ptr < cursor.tokens@.len(),
        ensures
            b == unary_check(cursor.tokens@, cursor.ptr as int),
    {
        true
    }

    pub fn parse(&self, parser: &mut ExprParser) -> (r: Option<Expr>)
        requires
            old(parser).wf(),
        ensures
            final(parser).wf(),
            final(parser).toks() == old(parser).toks(),
            extends_parse(old(parser)@, final(parser)@),
            old(parser)@.ptr <= final(parser)@.ptr,
            r is Some ==> old(parser)@.ptr < final(parser)@.ptr,
            (r, final(parser)@) == parse_unary(old(parser).toks(), old(parser)@),
        decreases rem(old(parser).toks(), old(parser)@), 330nat,
    {
        parser.begin_range();
        let kind = parser.cur_kind();
        if kind == TokenKind::Not || kind == TokenKind::Minus || kind == TokenKind::Star || kind == TokenKind::Ampersand
            || kind == TokenKind::Tilda {
            let operator = unary_operator(kind);
            parser.next();
            let unary = match (UnaryRule {}).apply(parser, None) {
                Some(u) => u,
                None => return None,
            };
            let position = parser.end_range();
            Some(Expr::Unary(UnaryExpr { expr: Box::new(unary), operator, position }))
        } else {
            (MemberAccessRule {}).apply(parser, None)
        }
    }

    pub(crate) fn apply(&self, parser: &mut ExprParser, err: Option<ErrMsg>) -> (r: Option<Expr>)
        requires
            old(parser).wf(),
        ensures
            final(parser).wf(),
            final(parser).toks() == old(parser).toks(),
            extends_parse(old(parser)@, final(parser)@),
            old(parser)@.ptr <= final(parser)@.ptr,
            r is Some ==> old(parser)@.ptr < final(parser)@.ptr,
            (r, final(parser)@) == apply_unary(old(parser).toks(), old(parser)@, err),
        decreases rem(old(parser).toks(), old(parser)@), 332nat,
    {
        let matched = self.check_match(parser.get_cursor());
        parser.begin_range();
        if matched {
            self.parse(parser)
        } else {
            parser.no_match(err);
            None
        }
    }
}

} // verus!
