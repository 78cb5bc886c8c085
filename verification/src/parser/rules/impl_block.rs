//! `impl: "impl" type "{" function* "}"`; a missing `{` or `}` is reported and parsing goes
//! on.
use vstd::prelude::*;

use crate::ast::{list_from_vec, list_of, FunctionItem, ImplItem};
use crate::diagnostic::ErrMsg;
use crate::parser::rules::function_item::{apply_function, FunctionRule};
use crate::parser::rules::parsed_type::{apply_type, ParsedTypeRule};
use crate::parser::{extends_parse, 
    advance, after, at, begin_range, consume_or_report, end_range, ends_with_eof, no_match, rem, state_wf,
    ExprParser, PState, ParserCursor,
};
use crate::token::{kind_matches, Token, TokenKind};

verus! {

pub struct ImplBlockRule {}

/// An impl block starts with `impl`.
pub open spec fn impl_check(toks: Seq<Token>, ptr: int) -> bool {
    kind_matches(toks[ptr].value.spec_kind(), TokenKind::Impl)
}

/// The functions of an impl block, as long as they parse.
pub open spec fn impl_functions(toks: Seq<Token>, acc: Seq<FunctionItem>, st: PState) -> (Seq<FunctionItem>, PState)
    decreases rem(toks, st),
{
    if !(ends_with_eof(toks) && state_wf(toks, st)) {
        (acc, st)
    } else {
        let (f, st1) = apply_function(toks, st, None);
        match f {
            None => (acc, st1),
            Some(x) => if after(toks, st, st1) {
                impl_functions(toks, acc.push(x), st1)
            } else {
                (acc, st1)
            },
        }
    }
}

/// The impl block rule.
pub open spec fn parse_impl(toks: Seq<Token>, st: PState) -> (Option<ImplItem>, PState) {
    if !(ends_with_eof(toks) && state_wf(toks, st)) {
        (None, st)
    } else {
        let st1 = begin_range(toks, st);
        if !at(toks, st1, TokenKind::Impl) {
            (None, st1)
        } else {
            let (t, st2) = apply_type(toks, advance(toks, st1), Some(ErrMsg::ExpectedType));
            match t {
                None => (None, st2),
                Some(impl_type) => {
                    let st3 = consume_or_report(toks, st2, TokenKind::LeftCurly).1;
                    let (functions, st4) = impl_functions(toks, Seq::empty(), st3);
                    let st5 = consume_or_report(toks, st4, TokenKind::RightCurly).1;
                    let (range, st6) = end_range(toks, st5);
                    (Some(ImplItem { impl_type, functions: list_of(functions), position: range }), st6)
                },
            }
        }
    }
}

pub open spec fn apply_impl(toks: Seq<Token>, st: PState, err: Option<ErrMsg>) -> (Option<ImplItem>, PState) {
    let st1 = begin_range(toks, st);
    if impl_check(toks, st.ptr) {
        parse_impl(toks, st1)
    } else {
        (None, no_match(toks, st1, err))
    }
}

#[verifier::loop_isolation(false)]
fn parse_functions(parser: &mut ExprParser) -> (r: Vec<FunctionItem>)
    requires
        old(parser).wf(),
    ensures
        final(parser).wf(),
        final(parser).toks() == old(parser).toks(),
            extends_parse(old(parser)@, final(parser)@),
        old(parser)@.ptr <= final(parser)@.ptr,
        (r@, final(parser)@) == impl_functions(old(parser).toks(), Seq::empty(), old(parser)@),
{
    let ghost toks = parser.toks();
    let ghost st0 = parser@;
    let mut functions: Vec<FunctionItem> = Vec::new();
    loop
        invariant
            parser.wf(),
            parser.toks() == toks,
            extends_parse(old(parser)@, parser@),
            st0.ptr <= parser@.ptr,
            impl_functions(toks, functions@, parser@) == impl_functions(toks, Seq::empty(), st0),
        decreases rem(toks, parser@),
    {
        match (FunctionRule {}).apply(parser, None) {
            Some(f) => functions.push(f),
            None => break,
        }
    }
    functions
}

impl ImplBlockRule {
    pub fn name(&self) -> (s: String)
        ensures
            s@ == "ImplBlock"@,
    {
        String::from_str("ImplBlock")
    }

    pub fn check_match(&self, cursor: ParserCursor) -> (b: bool)
        requires
            cursor.ptr < cursor.tokens@.len(),
        ensures
            b == impl_check(cursor.tokens@, cursor.ptr as int),
    {
        let mut cursor = cursor;
        cursor.try_consume(TokenKind::Impl)
    }

    pub fn parse(&self, parser: &mut ExprParser) -> (r: Option<ImplItem>)
        requires
            old(parser).wf(),
        ensures
            final(parser).wf(),
            final(parser).toks() == old(parser).toks(),
            extends_parse(old(parser)@, final(parser)@),
            old(parser)@.ptr <= final(parser)@.ptr,
            r is Some ==> old(parser)@.ptr < final(parser)@.ptr,
            (r, final(parser)@) == parse_impl(old(parser).toks(), old(parser)@),
    {
        parser.begin_range();
        if !parser.at(TokenKind::Impl) {
            return None;
        }
        parser.next();
        let impl_type = match (ParsedTypeRule {}).apply(parser, Some(ErrMsg::ExpectedType)) {
            Some(t) => t,
            None => return None,
        };
        parser.consume_or_diagnostic(TokenKind::LeftCurly);
        let functions = parse_functions(parser);
        parser.consume_or_diagnostic(TokenKind::RightCurly);
        let position = parser.end_range();
        Some(ImplItem { impl_type, functions: list_from_vec(functions), position })
    }

    pub(crate) fn apply(&self, parser: &mut ExprParser, err: Option<ErrMsg>) -> (r: Option<ImplItem>)
        requires
            old(parser).wf(),
        ensures
            final(parser).wf(),
            final(parser).toks() == old(parser).toks(),
            extends_parse(old(parser)@, final(parser)@),
            old(parser)@.ptr <= final(parser)@.ptr,
            r is Some ==> old(parser)@.ptr < final(parser)@.ptr,
            (r, final(parser)@) == apply_impl(old(parser).toks(), old(parser)@, err),
    {
        let matched = self.check_match(parser.get_cursor());
        parser.begin_range();
        if matched {
            self.parse(parser)
        } else {
            parser.no_match(err);
            None
        }
    }
}

} // verus!
