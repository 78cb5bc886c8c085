//! `for: "for" "(" declaration expr ";" assignment ")" block`, where the declaration is a
//! `let` statement (with its `;`).
use vstd::prelude::*;

use crate::ast::{DeclarationExpr, LoopExpr};
use crate::diagnostic::ErrMsg;
use crate::parser::rules::assignment::{apply_assignment, AssignmentRule};
use crate::parser::rules::block::{apply_block, BlockRule};
use crate::parser::rules::declaration::{apply_declaration, DeclarationRule};
use crate::parser::rules::expr::{apply_expr, ExprRule};
use crate::parser::{extends_parse, 
    advance, at, begin_range, consume_or_report, end_range, ends_with_eof, no_match, not_before, rem,
    state_wf, ExprParser, PState, ParserCursor,
};
use crate::token::{kind_matches, Token, TokenKind};

verus! {

pub struct ForLoopRule {}

/// A for loop starts with `for`.
pub open spec fn for_check(toks: Seq<Token>, ptr: int) -> bool {
    kind_matches(toks[ptr].value.spec_kind(), TokenKind::For)
}

/// The for-loop rule. A missing `(`, `;` or `)` is reported and parsing goes on.
/// What follows the initial declaration of a for loop.
pub open spec fn for_rest(toks: Seq<Token>, initial: DeclarationExpr, st4: PState) -> (Option<LoopExpr>, PState)
    decreases rem(toks, st4), 460nat,
{
    if !(ends_with_eof(toks) && state_wf(toks, st4)) {
        (None, st4)
    } else {
        let (c, st5) = apply_expr(toks, st4, Some(ErrMsg::ExpectedExpression));
        match c {
            None => (None, st5),
            Some(condition) => if !not_before(toks, st4, st5) {
                (None, st5)
            } else {
                let st6 = consume_or_report(toks, st5, TokenKind::Semicolon).1;
                let (a, st7) = apply_assignment(toks, st6, Some(ErrMsg::ExpectedAssignment));
                match a {
                    None => (None, st7),
                    Some(increment) => if !not_before(toks, st6, st7) {
                        (None, st7)
                    } else {
                        let st8 = consume_or_report(toks, st7, TokenKind::RightParen).1;
                        let (b, st9) = apply_block(toks, st8, Some(ErrMsg::ExpectedBlock));
                        match b {
                            None => (None, st9),
                            Some(body) => {
                                let (range, st10) = end_range(toks, st9);
                                (
                                    Some(
                                        LoopExpr {
                                            initial: Some(Box::new(initial)),
                                            condition: Some(Box::new(condition)),
                                            increment: Some(Box::new(increment)),
                                            body,
                                            label: None,
                                            position: range,
                                        },
                                    ),
                                    st10,
                                )
                            },
                        }
                    },
                }
            },
        }
    }
}

/// The for-loop rule.
pub open spec fn parse_for(toks: Seq<Token>, st: PState) -> (Option<LoopExpr>, PState)
    decreases rem(toks, st), 100nat,
{
    if !(ends_with_eof(toks) && state_wf(toks, st)) {
        (None, st)
    } else {
        let st1 = begin_range(toks, st);
        if !at(toks, st1, TokenKind::For) {
            (None, st1)
        } else {
            let st2 = advance(toks, st1);
            let st3 = consume_or_report(toks, st2, TokenKind::LeftParen).1;
            let (d, st4) = apply_declaration(toks, st3, true, Some(ErrMsg::ExpectedDeclaration));
            match d {
                None => (None, st4),
                Some(initial) => if !not_before(toks, st3, st4) {
                    (None, st4)
                } else {
                    for_rest(toks, initial, st4)
                },
            }
        }
    }
}

pub open spec fn apply_for(toks: Seq<Token>, st: PState, err: Option<ErrMsg>) -> (Option<LoopExpr>, PState)
    decreases rem(toks, st), 102nat,
{
    let st1 = begin_range(toks, st);
    if for_check(toks, st.ptr) {
        parse_for(toks, st1)
    } else {
        (None, no_match(toks, st1, err))
    }
}

impl ForLoopRule {
    pub fn name(&self) -> (s: String)
        ensures
            s@ == "ForLoop"@,
    {
        String::from_str("ForLoop")
    }

    pub fn check_match(&self, cursor: ParserCursor) -> (b: bool)
        requires
            cursor.ptr < cursor.tokens@.len(),
        ensures
            b == for_check(cursor.tokens@, cursor.ptr as int),
    {
        let mut cursor = cursor;
        cursor.try_consume(TokenKind::For)
    }

    pub fn parse(&self, parser: &mut ExprParser) -> (r: Option<LoopExpr>)
        requires
            old(parser).wf(),
        ensures
            final(parser).wf(),
            final(parser).toks() == old(parser).toks(),
            extends_parse(old(parser)@, final(parser)@),
            old(parser)@.ptr <= final(parser)@.ptr,
            r is Some ==> old(parser)@.ptr < final(parser)@.ptr,
            (r, final(parser)@) == parse_for(old(parser).toks(), old(parser)@),
        decreases rem(old(parser).toks(), old(parser)@), 100nat,
    {
        parser.begin_range();
        if !parser.at(TokenKind::For) {
            return None;
        }
        parser.next();
        parser.consume_or_diagnostic(TokenKind::LeftParen);
        let initial = match (DeclarationRule { use_let: true }).apply(parser, Some(ErrMsg::ExpectedDeclaration)) {
            Some(d) => d,
            None => return None,
        };
        Self::parse_rest(parser, initial)
    }

    fn parse_rest(parser: &mut ExprParser, initial: DeclarationExpr) -> (r: Option<LoopExpr>)
        requires
            old(parser).wf(),
        ensures
            final(parser).wf(),
            final(parser).toks() == old(parser).toks(),
            extends_parse(old(parser)@, final(parser)@),
            old(parser)@.ptr <= final(parser)@.ptr,
            (r, final(parser)@) == for_rest(old(parser).toks(), initial, old(parser)@),
        decreases rem(old(parser).toks(), old(parser)@), 460nat,
    {
        let condition = match (ExprRule {}).apply(parser, Some(ErrMsg::ExpectedExpression)) {
            Some(c) => c,
            None => return None,
        };
        parser.consume_or_diagnostic(TokenKind::Semicolon);
        let increment = match (AssignmentRule {}).apply(parser, Some(ErrMsg::ExpectedAssignment)) {
            Some(a) => a,
            None => return None,
        };
        parser.consume_or_diagnostic(TokenKind::RightParen);
        let body = match (BlockRule {}).apply(parser, Some(ErrMsg::ExpectedBlock)) {
            Some(b) => b,
            None => return None,
        };
        let position = parser.end_range();
        Some(
            LoopExpr {
                initial: Some(Box::new(initial)),
                condition: Some(Box::new(condition)),
                increment: Some(Box::new(increment)),
                body,
                label: None,
                position,
            },
        )
    }

    pub(crate) fn apply(&self, parser: &mut ExprParser, err: Option<ErrMsg>) -> (r: Option<LoopExpr>)
        requires
            old(parser).wf(),
        ensures
            final(parser).wf(),
            final(parser).toks() == old(parser).toks(),
            extends_parse(old(parser)@, final(parser)@),
            old(parser)@.ptr <= final(parser)@.ptr,
            r is Some ==> old(parser)@.ptr < final(parser)@.ptr,
            (r, final(parser)@) == apply_for(old(parser).toks(), old(parser)@, err),
        decreases rem(old(parser).toks(), old(parser)@), 102nat,
    {
        let matched = self.check_match(parser.get_cursor());
        parser.begin_range();
        if matched {
            self.parse(parser)
        } else {
            parser.no_match(err);
            None
        }
    }
}

} // verus!
