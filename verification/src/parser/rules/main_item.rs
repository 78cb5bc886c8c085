//! `main: "main" block`
use vstd::prelude::*;

use crate::ast::MainItem;
use crate::diagnostic::ErrMsg;
use crate::parser::rules::block::{apply_block, BlockRule};
use crate::parser::{extends_parse, 
    advance, at, begin_range, end_range, ends_with_eof, no_match, state_wf, ExprParser, PState, ParserCursor,
};
use crate::token::{kind_matches, Token, TokenKind};

verus! {

pub struct MainItemRule {}

/// A main item starts with `main`.
pub open spec fn main_check(toks: Seq<Token>, ptr: int) -> bool {
    kind_matches(toks[ptr].value.spec_kind(), TokenKind::Main)
}

/// The main item rule.
pub open spec fn parse_main(toks: Seq<Token>, st: PState) -> (Option<MainItem>, PState) {
    if !(ends_with_eof(toks) && state_wf(toks, st)) {
        (None, st)
    } else {
        let st1 = begin_range(toks, st);
        if !at(toks, st1, TokenKind::Main) {
            (None, st1)
        } else {
            let (b, st2) = apply_block(toks, advance(toks, st1), Some(ErrMsg::ExpectedBlock));
            match b {
                None => (None, st2),
                Some(block) => {
                    let (range, st3) = end_range(toks, st2);
                    (Some(MainItem { block, position: range }), st3)
                },
            }
        }
    }
}

pub open spec fn apply_main(toks: Seq<Token>, st: PState, err: Option<ErrMsg>) -> (Option<MainItem>, PState) {
    let st1 = begin_range(toks, st);
    if main_check(toks, st.ptr) {
        parse_main(toks, st1)
    } else {
        (None, no_match(toks, st1, err))
    }
}

impl MainItemRule {
    pub fn name(&self) -> (s: String)
        ensures
            s@ == "MainItem"@,
    {
        String::from_str("MainItem")
    }

    pub fn check_match(&self, cursor: ParserCursor) -> (b: bool)
        requires
            cursor.ptr < cursor.tokens@.len(),
        ensures
            b == main_check(cursor.tokens@, cursor.ptr as int),
    {
        let mut cursor = cursor;
        cursor.try_consume(TokenKind::Main)
    }

    pub fn parse(&self, parser: &mut ExprParser) -> (r: Option<MainItem>)
        requires
            old(parser).wf(),
        ensures
            final(parser).wf(),
            final(parser).toks() == old(parser).toks(),
            extends_parse(old(parser)@, final(parser)@),
            old(parser)@.ptr <= final(parser)@.ptr,
            r is Some ==> old(parser)@.ptr < final(parser)@.ptr,
            (r, final(parser)@) == parse_main(old(parser).toks(), old(parser)@),
    {
        parser.begin_range();
        if !parser.at(TokenKind::Main) {
            return None;
        }
        parser.next();
        let block = match (BlockRule {}).apply(parser, Some(ErrMsg::ExpectedBlock)) {
            Some(b) => b,
            None => return None,
        };
        let position = parser.end_range();
        Some(MainItem { block, position })
    }

    pub(crate) fn apply(&self, parser: &mut ExprParser, err: Option<ErrMsg>) -> (r: Option<MainItem>)
        requires
            old(parser).wf(),
        ensures
            final(parser).wf(),
            final(parser).toks() == old(parser).toks(),
            extends_parse(old(parser)@, final(parser)@),
            old(parser)@.ptr <= final(parser)@.ptr,
            r is Some ==> old(parser)@.ptr < final(parser)@.ptr,
            (r, final(parser)@) == apply_main(old(parser).toks(), old(parser)@, err),
    {
        let matched = self.check_match(parser.get_cursor());
        parser.begin_range();
        if matched {
            self.parse(parser)
        } else {
            parser.no_match(err);
            None
        }
    }
}

} // verus!
