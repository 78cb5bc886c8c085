//! `function: "extern"? "fn" IDENT parameters "->" type (block | ";")`; an extern
//! function has no body.
use vstd::prelude::*;

use crate::ast::{BlockExpr, DeclarationExpr, FunctionItem, List, ParsedType};
use crate::diagnostic::ErrMsg;
use crate::parser::rules::block::{apply_block, BlockRule};
use crate::parser::rules::parameters::{apply_parameters, ParametersRule};
use crate::parser::rules::parsed_type::{apply_type, ParsedTypeRule};
use crate::parser::rules::path::{ident_of, located_ident};
use crate::parser::{extends_parse, 
    begin_range, consume_or_report, end_range, ends_with_eof, no_match, state_wf, try_consume,
    ExprParser, PState, ParserCursor,
};
use crate::token::{kind_matches, Located, Token, TokenKind};

verus! {

pub struct FunctionRule;

/// A function starts with `fn` or `extern`.
pub open spec fn function_check(toks: Seq<Token>, ptr: int) -> bool {
    kind_matches(toks[ptr].value.spec_kind(), TokenKind::Fn) || kind_matches(
        toks[ptr].value.spec_kind(),
        TokenKind::Extern,
    )
}

/// The return type, after `->` (reported if missing).
pub open spec fn return_type(toks: Seq<Token>, st: PState) -> (Option<ParsedType>, PState) {
    let (arrow, st1) = consume_or_report(toks, st, TokenKind::Arrow);
    match arrow {
        None => (None, st1),
        Some(_) => apply_type(toks, st1, Some(ErrMsg::ExpectedType)),
    }
}

/// The body: a block, or for an extern function a `;` (reported if missing) and no body.
pub open spec fn function_body(toks: Seq<Token>, is_extern: bool, st: PState) -> (Option<Option<BlockExpr>>, PState) {
    if !is_extern {
        let (b, st1) = apply_block(toks, st, Some(ErrMsg::ExpectedBlock));
        match b {
            None => (None, st1),
            Some(block) => (Some(Some(block)), st1),
        }
    } else {
        (Some(None), consume_or_report(toks, st, TokenKind::Semicolon).1)
    }
}

/// What follows the name of a function.
pub open spec fn function_rest(toks: Seq<Token>, is_extern: bool, name: Located<String>, st: PState) -> (
    Option<FunctionItem>,
    PState,
) {
    let (p, st1) = apply_parameters(toks, st, Some(ErrMsg::ExpectedParameters));
    match p {
        None => (None, st1),
        Some(parameters) => {
            let (t, st2) = return_type(toks, st1);
            match t {
                None => (None, st2),
                Some(ret) => {
                    let (b, st3) = function_body(toks, is_extern, st2);
                    match b {
                        None => (None, st3),
                        Some(body) => {
                            let (range, st4) = end_range(toks, st3);
                            (
                                Some(
                                    FunctionItem {
                                        name,
                                        parameters,
                                        return_type: ret,
                                        body,
                                        position: range,
                                    },
                                ),
                                st4,
                            )
                        },
                    }
                },
            }
        },
    }
}

/// The function rule.
pub open spec fn parse_function(toks: Seq<Token>, st: PState) -> (Option<FunctionItem>, PState) {
    if !(ends_with_eof(toks) && state_wf(toks, st)) {
        (None, st)
    } else {
        let st1 = begin_range(toks, st);
        let (e, st2) = try_consume(toks, st1, TokenKind::Extern);
        let (f, st3) = try_consume(toks, st2, TokenKind::Fn);
        match f {
            None => (None, st3),
            Some(_) => {
                let (id, st4) = consume_or_report(toks, st3, TokenKind::AnyIdentifier);
                match id {
                    None => (None, st4),
                    Some(t) => function_rest(toks, e is Some, located_ident(t), st4),
                }
            },
        }
    }
}

pub open spec fn apply_function(toks: Seq<Token>, st: PState, err: Option<ErrMsg>) -> (Option<FunctionItem>, PState) {
    let st1 = begin_range(toks, st);
    if function_check(toks, st.ptr) {
        parse_function(toks, st1)
    } else {
        (None, no_match(toks, st1, err))
    }
}

fn parse_return_type(parser: &mut ExprParser) -> (r: Option<ParsedType>)
    requires
        old(parser).wf(),
    ensures
        final(parser).wf(),
        final(parser).toks() == old(parser).toks(),
            extends_parse(old(parser)@, final(parser)@),
        old(parser)@.ptr <= final(parser)@.ptr,
        (r, final(parser)@) == return_type(old(parser).toks(), old(parser)@),
{
    if parser.consume_or_diagnostic(TokenKind::Arrow).is_none() {
        return None;
    }
    (ParsedTypeRule {}).apply(parser, Some(ErrMsg::ExpectedType))
}

fn parse_function_body(parser: &mut ExprParser, is_extern: bool) -> (r: Option<Option<BlockExpr>>)
    requires
        old(parser).wf(),
    ensures
        final(parser).wf(),
        final(parser).toks() == old(parser).toks(),
            extends_parse(old(parser)@, final(parser)@),
        old(parser)@.ptr <= final(parser)@.ptr,
        (r, final(parser)@) == function_body(old(parser).toks(), is_extern, old(parser)@),
{
    if !is_extern {
        match (BlockRule {}).apply(parser, Some(ErrMsg::ExpectedBlock)) {
            None => None,
            Some(b) => Some(Some(b)),
        }
    } else {
        parser.consume_or_diagnostic(TokenKind::Semicolon);
        Some(None)
    }
}

fn parse_function_rest(parser: &mut ExprParser, is_extern: bool, name: Located<String>) -> (r: Option<FunctionItem>)
    requires
        old(parser).wf(),
    ensures
        final(parser).wf(),
        final(parser).toks() == old(parser).toks(),
            extends_parse(old(parser)@, final(parser)@),
        old(parser)@.ptr <= final(parser)@.ptr,
        (r, final(parser)@) == function_rest(old(parser).toks(), is_extern, name, old(parser)@),
{
    let parameters: List<DeclarationExpr> = match (ParametersRule {}).apply(parser, Some(ErrMsg::ExpectedParameters)) {
        Some(p) => p,
        None => return None,
    };
    let ret = match parse_return_type(parser) {
        Some(t) => t,
        None => return None,
    };
    let body = match parse_function_body(parser, is_extern) {
        Some(b) => b,
        None => return None,
    };
    let position = parser.end_range();
    Some(FunctionItem { name, parameters, return_type: ret, body, position })
}

impl FunctionRule {
    pub fn name(&self) -> (s: String)
        ensures
            s@ == "Function"@,
    {
        String::from_str("Function")
    }

    pub fn check_match(&self, cursor: ParserCursor) -> (b: bool)
        requires
            cursor.ptr < cursor.tokens@.len(),
        ensures
            b == function_check(cursor.tokens@, cursor.ptr as int),
    {
        let mut cursor = cursor;
        cursor.try_consume(TokenKind::Fn) || cursor.try_consume(TokenKind::Extern)
    }

    pub fn parse(&self, parser: &mut ExprParser) -> (r: Option<FunctionItem>)
        requires
            old(parser).wf(),
        ensures
            final(parser).wf(),
            final(parser).toks() == old(parser).toks(),
            extends_parse(old(parser)@, final(parser)@),
            old(parser)@.ptr <= final(parser)@.ptr,
            r is Some ==> old(parser)@.ptr < final(parser)@.ptr,
            (r, final(parser)@) == parse_function(old(parser).toks(), old(parser)@),
    {
        parser.begin_range();
        let is_extern = parser.try_consume(TokenKind::Extern).is_some();
        if parser.try_consume(TokenKind::Fn).is_none() {
            return None;
        }
        let t = match parser.consume_or_diagnostic(TokenKind::AnyIdentifier) {
            Some(t) => t,
            None => return None,
        };
        parse_function_rest(parser, is_extern, ident_of(t))
    }

    pub(crate) fn apply(&self, parser: &mut ExprParser, err: Option<ErrMsg>) -> (r: Option<FunctionItem>)
        requires
            old(parser).wf(),
        ensures
            final(parser).wf(),
            final(parser).toks() == old(parser).toks(),
            extends_parse(old(parser)@, final(parser)@),
            old(parser)@.ptr <= final(parser)@.ptr,
            r is Some ==> old(parser)@.ptr < final(parser)@.ptr,
            (r, final(parser)@) == apply_function(old(parser).toks(), old(parser)@, err),
    {
        let matched = self.check_match(parser.get_cursor());
        parser.begin_range();
        if matched {
            self.parse(parser)
        } else {
            parser.no_match(err);
            None
        }
    }
}

} // verus!
