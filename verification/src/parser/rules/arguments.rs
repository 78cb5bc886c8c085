//! `arguments: "(" (expr ("," expr)*)? ")"`
use vstd::prelude::*;

use crate::ast::{list_from_vec, list_of, Expr, List};
use crate::diagnostic::ErrMsg;
use crate::parser::rules::expr::{apply_expr, ExprRule};
use crate::parser::{extends_parse, 
    advance, at, begin_range, consume_or_report, ends_with_eof, no_match, not_before, rem, state_wf,
    ExprParser, PState, ParserCursor,
};
use crate::token::{kind_matches, Token, TokenKind};

verus! {

pub struct ArgumentsRule {}

/// An argument list starts with `(`.
pub open spec fn arguments_check(toks: Seq<Token>, ptr: int) -> bool {
    kind_matches(toks[ptr].value.spec_kind(), TokenKind::LeftParen)
}

/// The arguments after the first: each `,` must be followed by an expression, else the
/// list fails.
pub open spec fn arguments_tail(toks: Seq<Token>, acc: Seq<Expr>, st: PState) -> (Option<Seq<Expr>>, PState)
    decreases rem(toks, st), 99nat,
{
    if ends_with_eof(toks) && state_wf(toks, st) && at(toks, st, TokenKind::Comma) {
        let st1 = advance(toks, st);
        let (r, st2) = apply_expr(toks, st1, None);
        match r {
            None => (None, st2),
            Some(a) => if not_before(toks, st1, st2) {
                arguments_tail(toks, acc.push(a), st2)
            } else {
                (None, st2)
            },
        }
    } else {
        (Some(acc), st)
    }
}

/// The arguments rule. A list whose first argument does not parse is empty; its `)` is
/// still expected.
pub open spec fn parse_arguments(toks: Seq<Token>, st: PState) -> (Option<List<Expr>>, PState)
    decreases rem(toks, st), 100nat,
{
    if !(ends_with_eof(toks) && state_wf(toks, st)) {
        (None, st)
    } else {
        let st1 = begin_range(toks, st);
        if !at(toks, st1, TokenKind::LeftParen) {
            (None, st1)
        } else {
            let st2 = advance(toks, st1);
            if at(toks, st2, TokenKind::RightParen) {
                (Some(list_of(Seq::empty())), advance(toks, st2))
            } else {
                let (r, st3) = apply_expr(toks, st2, None);
                match r {
                    None => (Some(list_of(Seq::empty())), consume_or_report(toks, st3, TokenKind::RightParen).1),
                    Some(a) => if not_before(toks, st2, st3) {
                        match arguments_tail(toks, seq![a], st3) {
                            (None, st4) => (None, st4),
                            (Some(args), st4) => (
                                Some(list_of(args)),
                                consume_or_report(toks, st4, TokenKind::RightParen).1,
                            ),
                        }
                    } else {
                        (None, st3)
                    },
                }
            }
        }
    }
}

pub open spec fn apply_arguments(toks: Seq<Token>, st: PState, err: Option<ErrMsg>) -> (Option<List<Expr>>, PState)
    decreases rem(toks, st), 102nat,
{
    let st1 = begin_range(toks, st);
    if arguments_check(toks, st.ptr) {
        parse_arguments(toks, st1)
    } else {
        (None, no_match(toks, st1, err))
    }
}

impl ArgumentsRule {
    pub fn name(&self) -> (s: String)
        ensures
            s@ == "Arguments"@,
    {
        String::from_str("Arguments")
    }

    pub fn check_match(&self, cursor: ParserCursor) -> (b: bool)
        requires
            cursor.ptr < cursor.tokens@.len(),
        ensures
            b == arguments_check(cursor.tokens@, cursor.ptr as int),
    {
        let mut cursor = cursor;
        cursor.try_consume(TokenKind::LeftParen)
    }

    #[verifier::loop_isolation(false)]
    pub fn parse(&self, parser: &mut ExprParser) -> (r: Option<List<Expr>>)
        requires
            old(parser).wf(),
        ensures
            final(parser).wf(),
            final(parser).toks() == old(parser).toks(),
            extends_parse(old(parser)@, final(parser)@),
            old(parser)@.ptr <= final(parser)@.ptr,
            r is Some ==> old(parser)@.ptr < final(parser)@.ptr,
            (r, final(parser)@) == parse_arguments(old(parser).toks(), old(parser)@),
        decreases rem(old(parser).toks(), old(parser)@), 100nat,
    {
        let ghost toks = parser.toks();
        parser.begin_range();
        if !parser.at(TokenKind::LeftParen) {
            return None;
        }
        parser.next();
        let mut arguments: Vec<Expr> = Vec::new();
        if parser.at(TokenKind::RightParen) {
            parser.next();
            return Some(list_from_vec(arguments));
        }
        let first = (ExprRule {}).apply(parser, None);
        match first {
            None => {
                parser.consume_or_diagnostic(TokenKind::RightParen);
                return Some(list_from_vec(arguments));
            },
            Some(a) => {
                arguments.push(a);
            },
        }
        let ghost st3 = parser@;
        let ghost init = arguments@;
        assert(init == seq![first->0]);
        while parser.at(TokenKind::Comma)
            invariant
                parser.wf(),
                parser.toks() == toks,
                extends_parse(old(parser)@, parser@),
                st3.ptr <= parser@.ptr,
                arguments_tail(toks, arguments@, parser@) == arguments_tail(toks, init, st3),
            decreases rem(toks, parser@),
        {
            parser.next();
            let a = match (ExprRule {}).apply(parser, None) {
                Some(a) => a,
                None => return None,
            };
            arguments.push(a);
        }
        parser.consume_or_diagnostic(TokenKind::RightParen);
        Some(list_from_vec(arguments))
    }

    pub(crate) fn apply(&self, parser: &mut ExprParser, err: Option<ErrMsg>) -> (r: Option<List<Expr>>)
        requires
            old(parser).wf(),
        ensures
            final(parser).wf(),
            final(parser).toks() == old(parser).toks(),
            extends_parse(old(parser)@, final(parser)@),
            old(parser)@.ptr <= final(parser)@.ptr,
            r is Some ==> old(parser)@.ptr < final(parser)@.ptr,
            (r, final(parser)@) == apply_arguments(old(parser).toks(), old(parser)@, err),
        decreases rem(old(parser).toks(), old(parser)@), 102nat,
    {
        let matched = self.check_match(parser.get_cursor());
        parser.begin_range();
        if matched {
            self.parse(parser)
        } else {
            parser.no_match(err);
            None
        }
    }
}

} // verus!
