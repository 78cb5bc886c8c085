//! `constructor-call: "new"? "$" IDENT arguments`
use vstd::prelude::*;

use crate::ast::ConstructorCallExpr;
use crate::diagnostic::ErrMsg;
use crate::parser::rules::arguments::{apply_arguments, ArgumentsRule};
use crate::parser::rules::path::{ident_of, located_ident};
use crate::parser::{extends_parse, 
    begin_range, consume_or_report, end_range, ends_with_eof, no_match, rem, state_wf, try_consume,
    ExprParser, PState, ParserCursor,
};
use crate::token::{kind_matches, Token, TokenKind};

verus! {

pub struct ConstructorCallRule {}

/// A constructor call starts with `$`, perhaps after `new`.
pub open spec fn constructor_call_check(toks: Seq<Token>, ptr: int) -> bool {
    let p1 = if kind_matches(toks[ptr].value.spec_kind(), TokenKind::New) && ptr + 1 < toks.len() {
        ptr + 1
    } else {
        ptr
    };
    kind_matches(toks[p1].value.spec_kind(), TokenKind::DollarSign)
}

/// The constructor-call rule; `new` makes it a heap allocation.
pub open spec fn parse_constructor_call(toks: Seq<Token>, st: PState) -> (Option<ConstructorCallExpr>, PState)
    decreases rem(toks, st), 100nat,
{
    if !(ends_with_eof(toks) && state_wf(toks, st)) {
        (None, st)
    } else {
        let st1 = begin_range(toks, st);
        let (n, st2) = try_consume(toks, st1, TokenKind::New);
        let st3 = consume_or_report(toks, st2, TokenKind::DollarSign).1;
        let (id, st4) = consume_or_report(toks, st3, TokenKind::AnyIdentifier);
        match id {
            None => (None, st4),
            Some(t) => {
                let (r, st5) = apply_arguments(toks, st4, Some(ErrMsg::ExpectedArguments));
                match r {
                    None => (None, st5),
                    Some(arguments) => {
                        let (range, st6) = end_range(toks, st5);
                        (
                            Some(
                                ConstructorCallExpr {
                                    struct_name: located_ident(t),
                                    arguments,
                                    is_heap: n is Some,
                                    position: range,
                                },
                            ),
                            st6,
                        )
                    },
                }
            },
        }
    }
}

pub open spec fn apply_constructor_call(toks: Seq<Token>, st: PState, err: Option<ErrMsg>) -> (
    Option<ConstructorCallExpr>,
    PState,
)
    decreases rem(toks, st), 102nat,
{
    let st1 = begin_range(toks, st);
    if constructor_call_check(toks, st.ptr) {
        parse_constructor_call(toks, st1)
    } else {
        (None, no_match(toks, st1, err))
    }
}

impl ConstructorCallRule {
    pub fn name(&self) -> (s: String)
        ensures
            s@ == "ConstructorCall"@,
    {
        String::from_str("ConstructorCall")
    }

    pub fn check_match(&self, cursor: ParserCursor) -> (b: bool)
        requires
            cursor.ptr < cursor.tokens@.len(),
        ensures
            b == constructor_call_check(cursor.tokens@, cursor.ptr as int),
    {
        let mut cursor = cursor;
        cursor.try_consume(TokenKind::New);
        cursor.try_consume(TokenKind::DollarSign)
    }

    pub fn parse(&self, parser: &mut ExprParser) -> (r: Option<ConstructorCallExpr>)
        requires
            old(parser).wf(),
        ensures
            final(parser).wf(),
            final(parser).toks() == old(parser).toks(),
            extends_parse(old(parser)@, final(parser)@),
            old(parser)@.ptr <= final(parser)@.ptr,
            r is Some ==> old(parser)@.ptr < final(parser)@.ptr,
            (r, final(parser)@) == parse_constructor_call(old(parser).toks(), old(parser)@),
        decreases rem(old(parser).toks(), old(parser)@), 100nat,
    {
        parser.begin_range();
        let is_heap = parser.try_consume(TokenKind::New).is_some();
        parser.consume_or_diagnostic(TokenKind::DollarSign);
        let name = match parser.consume_or_diagnostic(TokenKind::AnyIdentifier) {
            Some(t) => ident_of(t),
            None => return None,
        };
        let arguments = match (ArgumentsRule {}).apply(parser, Some(ErrMsg::ExpectedArguments)) {
            Some(a) => a,
            None => return None,
        };
        let position = parser.end_range();
        Some(ConstructorCallExpr { struct_name: name, arguments, is_heap, position })
    }

    pub(crate) fn apply(&self, parser: &mut ExprParser, err: Option<ErrMsg>) -> (r: Option<ConstructorCallExpr>)
        requires
            old(parser).wf(),
        ensures
            final(parser).wf(),
            final(parser).toks() == old(parser).toks(),
            extends_parse(old(parser)@, final(parser)@),
            old(parser)@.ptr <= final(parser)@.ptr,
            r is Some ==> old(parser)@.ptr < final(parser)@.ptr,
            (r, final(parser)@) == apply_constructor_call(old(parser).toks(), old(parser)@, err),
        decreases rem(old(parser).toks(), old(parser)@), 102nat,
    {
        let matched = self.check_match(parser.get_cursor());
        parser.begin_range();
        if matched {
            self.parse(parser)
        } else {
            parser.no_match(err);
            None
        }
    }
}

} // verus!
