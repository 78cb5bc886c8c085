//! `cast: unary ("as" type)?`
use vstd::prelude::*;

use crate::ast::{CastExpr, Expr};
use crate::diagnostic::ErrMsg;
use crate::parser::rules::parsed_type::{apply_type, ParsedTypeRule};
use crate::parser::rules::unary::{apply_unary, UnaryRule};
use crate::parser::{extends_parse, advance, at, begin_range, end_range, no_match, ExprParser, PState, ParserCursor};
use crate::token::{Token, TokenKind};

verus! {

pub struct CastRule {}

/// The rule always tries to match.
pub open spec fn cast_check(toks: Seq<Token>, ptr: int) -> bool {
    true
}

/// The cast rule: a unary expression, converted to a type if `as` follows.
pub open spec fn parse_cast(toks: Seq<Token>, st: PState) -> (Option<Expr>, PState) {
    let st1 = begin_range(toks, st);
    let (e, st2) = apply_unary(toks, st1, Some(ErrMsg::ExpectedExpression));
    match e {
        None => (None, st2),
        Some(expr) => if at(toks, st2, TokenKind::As) {
            let (t, st3) = apply_type(toks, advance(toks, st2), Some(ErrMsg::ExpectedType));
            match t {
                None => (None, st3),
                Some(cast_type) => {
                    let (range, st4) = end_range(toks, st3);
                    (Some(Expr::Cast(CastExpr { expr: Box::new(expr), cast_type, position: range })), st4)
                },
            }
        } else {
            (Some(expr), st2)
        },
    }
}

pub open spec fn apply_cast(toks: Seq<Token>, st: PState, err: Option<ErrMsg>) -> (Option<Expr>, PState) {
    let st1 = begin_range(toks, st);
    if cast_check(toks, st.ptr) {
        parse_cast(toks, st1)
    } else {
        (None, no_match(toks, st1, err))
    }
}

impl CastRule {
    pub fn name(&self) -> (s: String)
        ensures
            s@ == "Cast"@,
    {
        String::from_str("Cast")
    }

    pub fn check_match(&self, cursor: ParserCursor) -> (b: bool)
        requires
            cursor.ptr < cursor.tokens@.len(),
        ensures
            b == cast_check(cursor.tokens@, cursor.ptr as int),
    {
        true
    }

    pub fn parse(&self, parser: &mut ExprParser) -> (r: Option<Expr>)
        requires
            old(parser).wf(),
        ensures
            final(parser).wf(),
            final(parser).toks() == old(parser).toks(),
            extends_parse(old(parser)@, final(parser)@),
            old(parser)@.ptr <= final(parser)@.ptr,
            r is Some ==> old(parser)@.ptr < final(parser)@.ptr,
            (r, final(parser)@) == parse_cast(old(parser).toks(), old(parser)@),
    {
        parser.begin_range();
        let expr = match (UnaryRule {}).apply(parser, Some(ErrMsg::ExpectedExpression)) {
            Some(e) => e,
            None => return None,
        };
        if parser.at(TokenKind::As) {
            parser.next();
            let cast_type = match (ParsedTypeRule {}).apply(parser, Some(ErrMsg::ExpectedType)) {
                Some(t) => t,
                None => return None,
            };
            let position = parser.end_range();
            Some(Expr::Cast(CastExpr { expr: Box::new(expr), cast_type, position }))
        } else {
            Some(expr)
        }
    }

    pub(crate) fn apply(&self, parser: &mut ExprParser, err: Option<ErrMsg>) -> (r: Option<Expr>)
        requires
            old(parser).wf(),
        ensures
            final(parser).wf(),
            final(parser).toks() == old(parser).toks(),
            extends_parse(old(parser)@, final(parser)@),
            old(parser)@.ptr <= final(parser)@.ptr,
            r is Some ==> old(parser)@.ptr < final(parser)@.ptr,
            (r, final(parser)@) == apply_cast(old(parser).toks(), old(parser)@, err),
    {
        let matched = self.check_match(parser.get_cursor());
        parser.begin_range();
        if matched {
            self.parse(parser)
        } else {
            parser.no_match(err);
            None
        }
    }
}

} // verus!
