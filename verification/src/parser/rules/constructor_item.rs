//! `constructor: "$" parameters block`
use vstd::prelude::*;

use crate::ast::ConstructorItem;
use crate::diagnostic::ErrMsg;
use crate::parser::rules::block::{apply_block, BlockRule};
use crate::parser::rules::parameters::{apply_parameters, ParametersRule};
use crate::parser::{extends_parse, 
    advance, at, begin_range, end_range, ends_with_eof, no_match, state_wf, ExprParser, PState, ParserCursor,
};
use crate::token::{kind_matches, Token, TokenKind};

verus! {

pub struct ConstructorRule {}

/// A constructor starts with `$`.
pub open spec fn constructor_check(toks: Seq<Token>, ptr: int) -> bool {
    kind_matches(toks[ptr].value.spec_kind(), TokenKind::DollarSign)
}

/// The constructor rule.
pub open spec fn parse_constructor(toks: Seq<Token>, st: PState) -> (Option<ConstructorItem>, PState) {
    if !(ends_with_eof(toks) && state_wf(toks, st)) {
        (None, st)
    } else {
        let st1 = begin_range(toks, st);
        if !at(toks, st1, TokenKind::DollarSign) {
            (None, st1)
        } else {
            let (p, st2) = apply_parameters(toks, advance(toks, st1), Some(ErrMsg::ExpectedParameters));
            match p {
                None => (None, st2),
                Some(parameters) => {
                    let (b, st3) = apply_block(toks, st2, Some(ErrMsg::ExpectedBlock));
                    match b {
                        None => (None, st3),
                        Some(body) => {
                            let (range, st4) = end_range(toks, st3);
                            (Some(ConstructorItem { parameters, body, position: range }), st4)
                        },
                    }
                },
            }
        }
    }
}

pub open spec fn apply_constructor(toks: Seq<Token>, st: PState, err: Option<ErrMsg>) -> (Option<ConstructorItem>, PState) {
    let st1 = begin_range(toks, st);
    if constructor_check(toks, st.ptr) {
        parse_constructor(toks, st1)
    } else {
        (None, no_match(toks, st1, err))
    }
}

impl ConstructorRule {
    pub fn name(&self) -> (s: String)
        ensures
            s@ == "Constructor"@,
    {
        String::from_str("Constructor")
    }

    pub fn check_match(&self, cursor: ParserCursor) -> (b: bool)
        requires
            cursor.ptr < cursor.tokens@.len(),
        ensures
            b == constructor_check(cursor.tokens@, cursor.ptr as int),
    {
        let mut cursor = cursor;
        cursor.try_consume(TokenKind::DollarSign)
    }

    pub fn parse(&self, parser: &mut ExprParser) -> (r: Option<ConstructorItem>)
        requires
            old(parser).wf(),
        ensures
            final(parser).wf(),
            final(parser).toks() == old(parser).toks(),
            extends_parse(old(parser)@, final(parser)@),
            old(parser)@.ptr <= final(parser)@.ptr,
            r is Some ==> old(parser)@.ptr < final(parser)@.ptr,
            (r, final(parser)@) == parse_constructor(old(parser).toks(), old(parser)@),
    {
        parser.begin_range();
        if !parser.at(TokenKind::DollarSign) {
            return None;
        }
        parser.next();
        let parameters = match (ParametersRule {}).apply(parser, Some(ErrMsg::ExpectedParameters)) {
            Some(p) => p,
            None => return None,
        };
        let body = match (BlockRule {}).apply(parser, Some(ErrMsg::ExpectedBlock)) {
            Some(b) => b,
            None => return None,
        };
        let position = parser.end_range();
        Some(ConstructorItem { parameters, body, position })
    }

    pub(crate) fn apply(&self, parser: &mut ExprParser, err: Option<ErrMsg>) -> (r: Option<ConstructorItem>)
        requires
            old(parser).wf(),
        ensures
            final(parser).wf(),
            final(parser).toks() == old(parser).toks(),
            extends_parse(old(parser)@, final(parser)@),
            old(parser)@.ptr <= final(parser)@.ptr,
            r is Some ==> old(parser)@.ptr < final(parser)@.ptr,
            (r, final(parser)@) == apply_constructor(old(parser).toks(), old(parser)@, err),
    {
        let matched = self.check_match(parser.get_cursor());
        parser.begin_range();
        if matched {
            self.parse(parser)
        } else {
            parser.no_match(err);
            None
        }
    }
}

} // verus!
