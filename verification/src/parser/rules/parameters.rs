//! `parameters: "(" (declaration ("," declaration)*)? ")"`, declarations without `let`.
use vstd::prelude::*;

use crate::ast::{list_from_vec, list_of, DeclarationExpr, List};
use crate::diagnostic::ErrMsg;
use crate::parser::rules::declaration::{apply_declaration, DeclarationRule};
use crate::parser::{extends_parse, 
    advance, at, begin_range, consume_or_report, ends_with_eof, no_match, not_before, rem, state_wf,
    ExprParser, PState, ParserCursor,
};
use crate::token::{kind_matches, Token, TokenKind};

verus! {

pub struct ParametersRule {}

/// A parameter list starts with `(`.
pub open spec fn parameters_check(toks: Seq<Token>, ptr: int) -> bool {
    kind_matches(toks[ptr].value.spec_kind(), TokenKind::LeftParen)
}

/// The parameters after a `,`; one that does not parse makes the list fail.
pub open spec fn parameters_tail(toks: Seq<Token>, acc: Seq<DeclarationExpr>, st: PState) -> (
    Option<Seq<DeclarationExpr>>,
    PState,
)
    decreases rem(toks, st),
{
    if ends_with_eof(toks) && state_wf(toks, st) && at(toks, st, TokenKind::Comma) {
        let st1 = advance(toks, st);
        let (d, st2) = apply_declaration(toks, st1, false, None);
        match d {
            None => (None, st2),
            Some(x) => if not_before(toks, st1, st2) {
                parameters_tail(toks, acc.push(x), st2)
            } else {
                (None, st2)
            },
        }
    } else {
        (Some(acc), st)
    }
}

/// The first parameter, unless the list is closed at once.
pub open spec fn first_parameter(toks: Seq<Token>, st: PState) -> (Option<Seq<DeclarationExpr>>, PState) {
    if !at(toks, st, TokenKind::RightParen) {
        let (d, st1) = apply_declaration(toks, st, false, None);
        match d {
            None => (None, st1),
            Some(x) => (Some(seq![x]), st1),
        }
    } else {
        (Some(Seq::empty()), st)
    }
}

/// The parameters rule; a missing `)` is reported.
pub open spec fn parse_parameters(toks: Seq<Token>, st: PState) -> (Option<List<DeclarationExpr>>, PState) {
    let st1 = begin_range(toks, st);
    if !at(toks, st1, TokenKind::LeftParen) {
        (None, st1)
    } else {
        let st2 = advance(toks, st1);
        let (first, st3) = first_parameter(toks, st2);
        match first {
            None => (None, st3),
            Some(acc) => match parameters_tail(toks, acc, st3) {
                (None, st4) => (None, st4),
                (Some(params), st4) => (Some(list_of(params)), consume_or_report(toks, st4, TokenKind::RightParen).1),
            },
        }
    }
}

pub open spec fn apply_parameters(toks: Seq<Token>, st: PState, err: Option<ErrMsg>) -> (
    Option<List<DeclarationExpr>>,
    PState,
) {
    let st1 = begin_range(toks, st);
    if parameters_check(toks, st.ptr) {
        parse_parameters(toks, st1)
    } else {
        (None, no_match(toks, st1, err))
    }
}

impl ParametersRule {
    pub fn name(&self) -> (s: String)
        ensures
            s@ == "Parameters"@,
    {
        String::from_str("Parameters")
    }

    pub fn check_match(&self, cursor: ParserCursor) -> (b: bool)
        requires
            cursor.ptr < cursor.tokens@.len(),
        ensures
            b == parameters_check(cursor.tokens@, cursor.ptr as int),
    {
        let mut cursor = cursor;
        cursor.try_consume(TokenKind::LeftParen)
    }

    #[verifier::loop_isolation(false)]
    pub fn parse(&self, parser: &mut ExprParser) -> (r: Option<List<DeclarationExpr>>)
        requires
            old(parser).wf(),
        ensures
            final(parser).wf(),
            final(parser).toks() == old(parser).toks(),
            extends_parse(old(parser)@, final(parser)@),
            old(parser)@.ptr <= final(parser)@.ptr,
            r is Some ==> old(parser)@.ptr < final(parser)@.ptr,
            (r, final(parser)@) == parse_parameters(old(parser).toks(), old(parser)@),
    {
        let ghost toks = parser.toks();
        parser.begin_range();
        if !parser.at(TokenKind::LeftParen) {
            return None;
        }
        parser.next();
        let mut parameters: Vec<DeclarationExpr> = Vec::new();
        if !parser.at(TokenKind::RightParen) {
            match (DeclarationRule { use_let: false }).apply(parser, None) {
                Some(d) => parameters.push(d),
                None => return None,
            }
        }
        let ghost st3 = parser@;
        let ghost init = parameters@;
        while parser.at(TokenKind::Comma)
            invariant
                parser.wf(),
                parser.toks() == toks,
                extends_parse(old(parser)@, parser@),
                st3.ptr <= parser@.ptr,
                parameters_tail(toks, parameters@, parser@) == parameters_tail(toks, init, st3),
            decreases rem(toks, parser@),
        {
            parser.next();
            match (DeclarationRule { use_let: false }).apply(parser, None) {
                Some(d) => parameters.push(d),
                None => return None,
            }
        }
        parser.consume_or_diagnostic(TokenKind::RightParen);
        Some(list_from_vec(parameters))
    }

    pub(crate) fn apply(&self, parser: &mut ExprParser, err: Option<ErrMsg>) -> (r: Option<List<DeclarationExpr>>)
        requires
            old(parser).wf(),
        ensures
            final(parser).wf(),
            final(parser).toks() == old(parser).toks(),
            extends_parse(old(parser)@, final(parser)@),
            old(parser)@.ptr <= final(parser)@.ptr,
            r is Some ==> old(parser)@.ptr < final(parser)@.ptr,
            (r, final(parser)@) == apply_parameters(old(parser).toks(), old(parser)@, err),
    {
        let matched = self.check_match(parser.get_cursor());
        parser.begin_range();
        if matched {
            self.parse(parser)
        } else {
            parser.no_match(err);
            None
        }
    }
}

} // verus!
