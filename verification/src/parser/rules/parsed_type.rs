//! `type: unit-type ("[" "]" "&"?)*`
use vstd::prelude::*;

use crate::ast::{ParsedType, ParsedTypeEnum};
use crate::diagnostic::ErrMsg;
use crate::parser::rules::parsed_unit_type::{apply_unit_type, unit_type_check, with_reference, ParsedUnitTypeRule};
use crate::parser::{extends_parse, 
    advance, at, begin_range, consume_or_report, current_range, end_range, ends_with_eof, no_match, rem,
    state_wf, ExprParser, PState, ParserCursor,
};
use crate::token::{Token, TokenKind};

verus! {

pub struct ParsedTypeRule {}

/// A type starts as a unit type does.
pub open spec fn type_check(toks: Seq<Token>, ptr: int) -> bool {
    unit_type_check(toks, ptr)
}

/// Each `[` (with its `]`, reported if missing) makes the type an array of what came before,
/// and a following `&` makes that a reference.
pub open spec fn type_suffixes(toks: Seq<Token>, t: ParsedType, st: PState) -> (ParsedType, PState)
    decreases rem(toks, st),
{
    if ends_with_eof(toks) && state_wf(toks, st) && at(toks, st, TokenKind::LeftSquare) {
        let st1 = advance(toks, st);
        let st2 = consume_or_report(toks, st1, TokenKind::RightSquare).1;
        let t2 = ParsedType { parsed_type: ParsedTypeEnum::Array(Box::new(t)), position: current_range(toks, st2) };
        let (t3, st3) = with_reference(toks, t2, st2);
        type_suffixes(toks, t3, st3)
    } else {
        (t, st)
    }
}

/// The type rule.
pub open spec fn parse_type(toks: Seq<Token>, st: PState) -> (Option<ParsedType>, PState) {
    let st1 = begin_range(toks, st);
    let (u, st2) = apply_unit_type(toks, st1, Some(ErrMsg::ExpectedType));
    match u {
        None => (None, st2),
        Some(u) => {
            let (t, st3) = type_suffixes(toks, u, st2);
            (Some(t), end_range(toks, st3).1)
        },
    }
}

pub open spec fn apply_type(toks: Seq<Token>, st: PState, err: Option<ErrMsg>) -> (Option<ParsedType>, PState) {
    let st1 = begin_range(toks, st);
    if type_check(toks, st.ptr) {
        parse_type(toks, st1)
    } else {
        (None, no_match(toks, st1, err))
    }
}

impl ParsedTypeRule {
    pub fn name(&self) -> (s: String)
        ensures
            s@ == "ParsedType"@,
    {
        String::from_str("ParsedType")
    }

    pub fn check_match(&self, cursor: ParserCursor) -> (b: bool)
        requires
            cursor.ptr < cursor.tokens@.len(),
        ensures
            b == type_check(cursor.tokens@, cursor.ptr as int),
    {
        (ParsedUnitTypeRule {}).check_match(cursor)
    }

    #[verifier::loop_isolation(false)]
    pub fn parse(&self, parser: &mut ExprParser) -> (r: Option<ParsedType>)
        requires
            old(parser).wf(),
        ensures
            final(parser).wf(),
            final(parser).toks() == old(parser).toks(),
            extends_parse(old(parser)@, final(parser)@),
            old(parser)@.ptr <= final(parser)@.ptr,
            r is Some ==> old(parser)@.ptr < final(parser)@.ptr,
            (r, final(parser)@) == parse_type(old(parser).toks(), old(parser)@),
    {
        let ghost toks = parser.toks();
        parser.begin_range();
        let mut unit_type = match (ParsedUnitTypeRule {}).apply(parser, Some(ErrMsg::ExpectedType)) {
            Some(u) => u,
            None => return None,
        };
        let ghost st2 = parser@;
        let ghost u0 = unit_type;
        while parser.at(TokenKind::LeftSquare)
            invariant
                parser.wf(),
                parser.toks() == toks,
                extends_parse(old(parser)@, parser@),
                st2.ptr <= parser@.ptr,
                type_suffixes(toks, unit_type, parser@) == type_suffixes(toks, u0, st2),
            decreases rem(toks, parser@),
        {
            parser.next();
            parser.consume_or_diagnostic(TokenKind::RightSquare);
            unit_type = ParsedType { parsed_type: ParsedTypeEnum::Array(Box::new(unit_type)), position: parser.current_range() };
            if parser.at(TokenKind::Ampersand) {
                parser.next();
                unit_type = ParsedType { parsed_type: ParsedTypeEnum::Reference(Box::new(unit_type)), position: parser.current_range() };
            }
        }
        parser.end_range();
        Some(unit_type)
    }

    pub(crate) fn apply(&self, parser: &mut ExprParser, err: Option<ErrMsg>) -> (r: Option<ParsedType>)
        requires
            old(parser).wf(),
        ensures
            final(parser).wf(),
            final(parser).toks() == old(parser).toks(),
            extends_parse(old(parser)@, final(parser)@),
            old(parser)@.ptr <= final(parser)@.ptr,
            r is Some ==> old(parser)@.ptr < final(parser)@.ptr,
            (r, final(parser)@) == apply_type(old(parser).toks(), old(parser)@, err),
    {
        let matched = self.check_match(parser.get_cursor());
        parser.begin_range();
        if matched {
            self.parse(parser)
        } else {
            parser.no_match(err);
            None
        }
    }
}

} // verus!
