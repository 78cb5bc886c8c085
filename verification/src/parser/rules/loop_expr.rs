//! `loop: "loop" (":" IDENT)? block`
use vstd::prelude::*;

use crate::ast::LoopExpr;
use crate::diagnostic::ErrMsg;
use crate::parser::rules::block::{apply_block, BlockRule};
use crate::parser::rules::path::{ident_of, located_ident};
use crate::parser::{extends_parse, 
    advance, at, begin_range, consume_or_report, end_range, ends_with_eof, no_match, rem, state_wf,
    ExprParser, PState, ParserCursor,
};
use crate::token::{kind_matches, Located, Token, TokenKind};

verus! {

pub struct LoopRule {}

/// A loop starts with `loop`.
pub open spec fn loop_check(toks: Seq<Token>, ptr: int) -> bool {
    kind_matches(toks[ptr].value.spec_kind(), TokenKind::Loop)
}

/// An optional label `: IDENT`; the outer `None` means that `:` came without a name.
pub open spec fn label_part(toks: Seq<Token>, st: PState) -> (Option<Option<Located<String>>>, PState) {
    if at(toks, st, TokenKind::Colon) {
        let st1 = advance(toks, st);
        let (id, st2) = consume_or_report(toks, st1, TokenKind::AnyIdentifier);
        match id {
            None => (None, st2),
            Some(t) => (Some(Some(located_ident(t))), st2),
        }
    } else {
        (Some(None), st)
    }
}

/// Parses an optional label.
pub(crate) fn parse_label(parser: &mut ExprParser) -> (r: Option<Option<Located<String>>>)
    requires
        old(parser).wf(),
    ensures
        final(parser).wf(),
        final(parser).toks() == old(parser).toks(),
            extends_parse(old(parser)@, final(parser)@),
        old(parser)@.ptr <= final(parser)@.ptr,
        (r, final(parser)@) == label_part(old(parser).toks(), old(parser)@),
{
    if parser.at(TokenKind::Colon) {
        parser.next();
        match parser.consume_or_diagnostic(TokenKind::AnyIdentifier) {
            Some(t) => Some(Some(ident_of(t))),
            None => None,
        }
    } else {
        Some(None)
    }
}

/// The loop rule.
pub open spec fn parse_loop(toks: Seq<Token>, st: PState) -> (Option<LoopExpr>, PState)
    decreases rem(toks, st), 100nat,
{
    if !(ends_with_eof(toks) && state_wf(toks, st)) {
        (None, st)
    } else {
        let st1 = begin_range(toks, st);
        if !at(toks, st1, TokenKind::Loop) {
            (None, st1)
        } else {
            let st2 = advance(toks, st1);
            let (l, st3) = label_part(toks, st2);
            match l {
                None => (None, st3),
                Some(label) => {
                    let (b, st4) = apply_block(toks, st3, Some(ErrMsg::ExpectedBlock));
                    match b {
                        None => (None, st4),
                        Some(body) => {
                            let (range, st5) = end_range(toks, st4);
                            (
                                Some(
                                    LoopExpr {
                                        initial: None,
                                        condition: None,
                                        increment: None,
                                        body,
                                        label,
                                        position: range,
                                    },
                                ),
                                st5,
                            )
                        },
                    }
                },
            }
        }
    }
}

pub open spec fn apply_loop(toks: Seq<Token>, st: PState, err: Option<ErrMsg>) -> (Option<LoopExpr>, PState)
    decreases rem(toks, st), 102nat,
{
    let st1 = begin_range(toks, st);
    if loop_check(toks, st.ptr) {
        parse_loop(toks, st1)
    } else {
        (None, no_match(toks, st1, err))
    }
}

impl LoopRule {
    pub fn name(&self) -> (s: String)
        ensures
            s@ == "Loop"@,
    {
        String::from_str("Loop")
    }

    pub fn check_match(&self, cursor: ParserCursor) -> (b: bool)
        requires
            cursor.ptr < cursor.tokens@.len(),
        ensures
            b == loop_check(cursor.tokens@, cursor.ptr as int),
    {
        let mut cursor = cursor;
        cursor.try_consume(TokenKind::Loop)
    }

    pub fn parse(&self, parser: &mut ExprParser) -> (r: Option<LoopExpr>)
        requires
            old(parser).wf(),
        ensures
            final(parser).wf(),
            final(parser).toks() == old(parser).toks(),
            extends_parse(old(parser)@, final(parser)@),
            old(parser)@.ptr <= final(parser)@.ptr,
            r is Some ==> old(parser)@.ptr < final(parser)@.ptr,
            (r, final(parser)@) == parse_loop(old(parser).toks(), old(parser)@),
        decreases rem(old(parser).toks(), old(parser)@), 100nat,
    {
        parser.begin_range();
        if !parser.at(TokenKind::Loop) {
            return None;
        }
        parser.next();
        let label = match parse_label(parser) {
            Some(l) => l,
            None => return None,
        };
        let body = match (BlockRule {}).apply(parser, Some(ErrMsg::ExpectedBlock)) {
            Some(b) => b,
            None => return None,
        };
        let position = parser.end_range();
        Some(LoopExpr { initial: None, condition: None, increment: None, body, label, position })
    }

    pub(crate) fn apply(&self, parser: &mut ExprParser, err: Option<ErrMsg>) -> (r: Option<LoopExpr>)
        requires
            old(parser).wf(),
        ensures
            final(parser).wf(),
            final(parser).toks() == old(parser).toks(),
            extends_parse(old(parser)@, final(parser)@),
            old(parser)@.ptr <= final(parser)@.ptr,
            r is Some ==> old(parser)@.ptr < final(parser)@.ptr,
            (r, final(parser)@) == apply_loop(old(parser).toks(), old(parser)@, err),
        decreases rem(old(parser).toks(), old(parser)@), 102nat,
    {
        let matched = self.check_match(parser.get_cursor());
        parser.begin_range();
        if matched {
            self.parse(parser)
        } else {
            parser.no_match(err);
            None
        }
    }
}

} // verus!
