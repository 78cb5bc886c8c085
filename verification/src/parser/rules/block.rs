//! `block: "{" statement* "}"`, recovering from statements that do not parse by skipping a
//! token.
use vstd::prelude::*;

use crate::ast::{list_from_vec, list_of, BlockExpr, Expr};
use crate::diagnostic::ErrMsg;
use crate::parser::rules::statement::{apply_statement, StatementRule};
use crate::parser::{extends_parse, 
    advance, after, at, begin_range, consume_or_report, end_range, ends_with_eof, no_match, rem, report,
    state_wf, ExprParser, PState, ParserCursor,
};
use crate::token::{kind_matches, Token, TokenKind};

verus! {

pub struct BlockRule {}

/// A block starts with `{`.
pub open spec fn block_check(toks: Seq<Token>, ptr: int) -> bool {
    kind_matches(toks[ptr].value.spec_kind(), TokenKind::LeftCurly)
}

/// The rank of the block rule in the parser's measure: a block that starts with `{`
/// consumes it before anything else; one that does not parses its statements where it
/// stands.
pub open spec fn block_rank(toks: Seq<Token>, st: PState) -> nat {
    if at(toks, st, TokenKind::LeftCurly) {
        100
    } else {
        600
    }
}

/// The statements of a block up to its `}`. A statement that does not parse is skipped
/// one token at a time; at the end of the file the `}` is reported and the block ends.
pub open spec fn block_items(toks: Seq<Token>, acc: Seq<Expr>, st: PState) -> (Seq<Expr>, PState)
    decreases rem(toks, st), 550nat,
{
    if !(ends_with_eof(toks) && state_wf(toks, st)) {
        (acc, st)
    } else if at(toks, st, TokenKind::RightCurly) {
        (acc, advance(toks, st))
    } else {
        let (s, st1) = apply_statement(toks, st, Some(ErrMsg::ExpectedStatement));
        match s {
            Some(x) => if after(toks, st, st1) {
                block_items(toks, acc.push(x), st1)
            } else {
                (acc, st1)
            },
            None => if at(toks, st1, TokenKind::RightCurly) {
                if after(toks, st, st1) {
                    block_items(toks, acc, st1)
                } else {
                    (acc, st1)
                }
            } else if at(toks, st1, TokenKind::EOF) {
                (acc, report(toks, st1, ErrMsg::ExpectedToken(TokenKind::RightCurly)))
            } else {
                let st2 = advance(toks, st1);
                if after(toks, st, st2) {
                    block_items(toks, acc, st2)
                } else {
                    (acc, st2)
                }
            },
        }
    }
}

/// The block rule: a missing `{` is reported and the statements are parsed anyway.
pub open spec fn parse_block(toks: Seq<Token>, st: PState) -> (Option<BlockExpr>, PState)
    decreases rem(toks, st), block_rank(toks, st),
{
    if !(ends_with_eof(toks) && state_wf(toks, st)) {
        (None, st)
    } else {
        let st1 = begin_range(toks, st);
        let st2 = consume_or_report(toks, st1, TokenKind::LeftCurly).1;
        let (exprs, st3) = block_items(toks, Seq::empty(), st2);
        let (range, st4) = end_range(toks, st3);
        (Some(BlockExpr { exprs: list_of(exprs), position: range }), st4)
    }
}

pub open spec fn apply_block(toks: Seq<Token>, st: PState, err: Option<ErrMsg>) -> (Option<BlockExpr>, PState)
    decreases rem(toks, st), 102nat,
{
    let st1 = begin_range(toks, st);
    if block_check(toks, st.ptr) {
        parse_block(toks, st1)
    } else {
        (None, no_match(toks, st1, err))
    }
}

impl BlockRule {
    pub fn name(&self) -> (s: String)
        ensures
            s@ == "Block"@,
    {
        String::from_str("Block")
    }

    pub fn check_match(&self, cursor: ParserCursor) -> (b: bool)
        requires
            cursor.ptr < cursor.tokens@.len(),
        ensures
            b == block_check(cursor.tokens@, cursor.ptr as int),
    {
        let mut cursor = cursor;
        cursor.try_consume(TokenKind::LeftCurly)
    }

    #[verifier::loop_isolation(false)]
    pub fn parse(&self, parser: &mut ExprParser) -> (r: Option<BlockExpr>)
        requires
            old(parser).wf(),
        ensures
            final(parser).wf(),
            final(parser).toks() == old(parser).toks(),
            extends_parse(old(parser)@, final(parser)@),
            old(parser)@.ptr <= final(parser)@.ptr,
            r is Some,
            at(old(parser).toks(), old(parser)@, TokenKind::LeftCurly) ==> old(parser)@.ptr < final(parser)@.ptr,
            (r, final(parser)@) == parse_block(old(parser).toks(), old(parser)@),
        decreases rem(old(parser).toks(), old(parser)@), block_rank(old(parser).toks(), old(parser)@),
    {
        let ghost toks = parser.toks();
        parser.begin_range();
        parser.consume_or_diagnostic(TokenKind::LeftCurly);
        let mut exprs: Vec<Expr> = Vec::new();
        let ghost st2 = parser@;
        loop
            invariant
                parser.wf(),
                parser.toks() == toks,
                extends_parse(old(parser)@, parser@),
                st2.ptr <= parser@.ptr,
                block_items(toks, exprs@, parser@) == block_items(toks, Seq::empty(), st2),
            decreases rem(toks, parser@),
        {
            if parser.at(TokenKind::RightCurly) {
                parser.next();
                let position = parser.end_range();
                return Some(BlockExpr { exprs: list_from_vec(exprs), position });
            }
            let statement = (StatementRule {}).apply(parser, Some(ErrMsg::ExpectedStatement));
            match statement {
                Some(s) => {
                    exprs.push(s);
                },
                None => {
                    if !parser.at(TokenKind::RightCurly) {
                        if parser.at(TokenKind::EOF) {
                            parser.report(ErrMsg::ExpectedToken(TokenKind::RightCurly));
                            let position = parser.end_range();
                            return Some(BlockExpr { exprs: list_from_vec(exprs), position });
                        }
                        parser.next();
                    }
                },
            }
        }
    }

    pub(crate) fn apply(&self, parser: &mut ExprParser, err: Option<ErrMsg>) -> (r: Option<BlockExpr>)
        requires
            old(parser).wf(),
        ensures
            final(parser).wf(),
            final(parser).toks() == old(parser).toks(),
            extends_parse(old(parser)@, final(parser)@),
            old(parser)@.ptr <= final(parser)@.ptr,
            r is Some ==> old(parser)@.ptr < final(parser)@.ptr,
            (r, final(parser)@) == apply_block(old(parser).toks(), old(parser)@, err),
        decreases rem(old(parser).toks(), old(parser)@), 102nat,
    {
        let matched = self.check_match(parser.get_cursor());
        parser.begin_range();
        if matched {
            self.parse(parser)
        } else {
            parser.no_match(err);
            None
        }
    }
}

} // verus!
