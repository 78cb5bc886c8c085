//! `new-array: "new" unit-type ("[" expr "]")*`
use vstd::prelude::*;

use crate::ast::{list_from_vec, list_of, Expr, NewArrayExpr};
use crate::diagnostic::ErrMsg;
use crate::parser::rules::expr::{apply_expr, ExprRule};
use crate::parser::rules::parsed_type::{type_check, ParsedTypeRule};
use crate::parser::rules::parsed_unit_type::{apply_unit_type, ParsedUnitTypeRule};
use crate::parser::{extends_parse, 
    advance, at, begin_range, consume_or_report, end_range, ends_with_eof, no_match, not_before, rem,
    state_wf, ExprParser, PState, ParserCursor,
};
use crate::token::{kind_matches, Token, TokenKind};

verus! {

pub struct NewArrayRule {}

/// An array allocation is `new` followed by a type.
pub open spec fn new_array_check(toks: Seq<Token>, ptr: int) -> bool {
    &&& kind_matches(toks[ptr].value.spec_kind(), TokenKind::New)
    &&& type_check(toks, if ptr + 1 < toks.len() { ptr + 1 } else { ptr })
}

/// The sizes: each `[` must be followed by an expression; its `]` is reported if missing.
pub open spec fn sizes_tail(toks: Seq<Token>, acc: Seq<Expr>, st: PState) -> (Option<Seq<Expr>>, PState)
    decreases rem(toks, st), 99nat,
{
    if ends_with_eof(toks) && state_wf(toks, st) && at(toks, st, TokenKind::LeftSquare) {
        let st1 = advance(toks, st);
        let (r, st2) = apply_expr(toks, st1, Some(ErrMsg::ExpectedExpression));
        match r {
            None => (None, st2),
            Some(size) => {
                let st3 = consume_or_report(toks, st2, TokenKind::RightSquare).1;
                if not_before(toks, st1, st2) {
                    sizes_tail(toks, acc.push(size), st3)
                } else {
                    (None, st3)
                }
            },
        }
    } else {
        (Some(acc), st)
    }
}

/// The new-array rule.
pub open spec fn parse_new_array(toks: Seq<Token>, st: PState) -> (Option<NewArrayExpr>, PState)
    decreases rem(toks, st), 100nat,
{
    if !(ends_with_eof(toks) && state_wf(toks, st)) {
        (None, st)
    } else {
        let st1 = begin_range(toks, st);
        if !at(toks, st1, TokenKind::New) {
            (None, st1)
        } else {
            let st2 = advance(toks, st1);
            let (t, st3) = apply_unit_type(toks, st2, None);
            match t {
                None => (None, st3),
                Some(array_type) => if not_before(toks, st2, st3) {
                    match sizes_tail(toks, Seq::empty(), st3) {
                        (None, st4) => (None, st4),
                        (Some(sizes), st4) => {
                            let (range, st5) = end_range(toks, st4);
                            (Some(NewArrayExpr { sizes: list_of(sizes), array_type, position: range }), st5)
                        },
                    }
                } else {
                    (None, st3)
                },
            }
        }
    }
}

pub open spec fn apply_new_array(toks: Seq<Token>, st: PState, err: Option<ErrMsg>) -> (Option<NewArrayExpr>, PState)
    decreases rem(toks, st), 102nat,
{
    let st1 = begin_range(toks, st);
    if new_array_check(toks, st.ptr) {
        parse_new_array(toks, st1)
    } else {
        (None, no_match(toks, st1, err))
    }
}

impl NewArrayRule {
    pub fn name(&self) -> (s: String)
        ensures
            s@ == "NewArray"@,
    {
        String::from_str("NewArray")
    }

    pub fn check_match(&self, cursor: ParserCursor) -> (b: bool)
        requires
            cursor.ptr < cursor.tokens@.len(),
        ensures
            b == new_array_check(cursor.tokens@, cursor.ptr as int),
    {
        let mut cursor = cursor;
        cursor.try_consume(TokenKind::New) && (ParsedTypeRule {}).check_match(cursor)
    }

    #[verifier::loop_isolation(false)]
    pub fn parse(&self, parser: &mut ExprParser) -> (r: Option<NewArrayExpr>)
        requires
            old(parser).wf(),
        ensures
            final(parser).wf(),
            final(parser).toks() == old(parser).toks(),
            extends_parse(old(parser)@, final(parser)@),
            old(parser)@.ptr <= final(parser)@.ptr,
            r is Some ==> old(parser)@.ptr < final(parser)@.ptr,
            (r, final(parser)@) == parse_new_array(old(parser).toks(), old(parser)@),
        decreases rem(old(parser).toks(), old(parser)@), 100nat,
    {
        let ghost toks = parser.toks();
        parser.begin_range();
        if !parser.at(TokenKind::New) {
            return None;
        }
        parser.next();
        let array_type = match (ParsedUnitTypeRule {}).apply(parser, None) {
            Some(t) => t,
            None => return None,
        };
        let mut sizes: Vec<Expr> = Vec::new();
        let ghost st3 = parser@;
        while parser.at(TokenKind::LeftSquare)
            invariant
                parser.wf(),
                parser.toks() == toks,
                extends_parse(old(parser)@, parser@),
                st3.ptr <= parser@.ptr,
                sizes_tail(toks, sizes@, parser@) == sizes_tail(toks, Seq::empty(), st3),
            decreases rem(toks, parser@),
        {
            parser.next();
            let size = match (ExprRule {}).apply(parser, Some(ErrMsg::ExpectedExpression)) {
                Some(s) => s,
                None => return None,
            };
            sizes.push(size);
            parser.consume_or_diagnostic(TokenKind::RightSquare);
        }
        let position = parser.end_range();
        Some(NewArrayExpr { sizes: list_from_vec(sizes), array_type, position })
    }

    pub(crate) fn apply(&self, parser: &mut ExprParser, err: Option<ErrMsg>) -> (r: Option<NewArrayExpr>)
        requires
            old(parser).wf(),
        ensures
            final(parser).wf(),
            final(parser).toks() == old(parser).toks(),
            extends_parse(old(parser)@, final(parser)@),
            old(parser)@.ptr <= final(parser)@.ptr,
            r is Some ==> old(parser)@.ptr < final(parser)@.ptr,
            (r, final(parser)@) == apply_new_array(old(parser).toks(), old(parser)@, err),
        decreases rem(old(parser).toks(), old(parser)@), 102nat,
    {
        let matched = self.check_match(parser.get_cursor());
        parser.begin_range();
        if matched {
            self.parse(parser)
        } else {
            parser.no_match(err);
            None
        }
    }
}

} // verus!
