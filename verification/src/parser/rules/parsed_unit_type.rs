//! `unit-type: ("int" | "double" | "bool" | "char" | "void" | IDENT) "*"* "&"?`
use vstd::prelude::*;

use crate::ast::{ParsedType, ParsedTypeEnum};
use crate::diagnostic::ErrMsg;
use crate::parser::{extends_parse, 
    advance, at, begin_range, cur_tok, current_range, end_range, ends_with_eof, no_match, rem, state_wf,
    ExprParser, PState, ParserCursor,
};
use crate::token::{kind_matches, Token, TokenKind, TokenType};

verus! {

pub struct ParsedUnitTypeRule {}

/// A unit type starts with a primitive type keyword or an identifier.
pub open spec fn unit_type_check(toks: Seq<Token>, ptr: int) -> bool {
    let k = toks[ptr].value.spec_kind();
    ||| k == TokenKind::Int
    ||| k == TokenKind::Double
    ||| k == TokenKind::Bool
    ||| k == TokenKind::Char
    ||| k == TokenKind::Void
    ||| kind_matches(k, TokenKind::AnyIdentifier)
}

/// The type that a single token names, if it names one.
pub open spec fn base_type(t: Token) -> Option<ParsedType> {
    match t.value {
        TokenType::Int => Some(ParsedType { parsed_type: ParsedTypeEnum::Integer, position: t.position }),
        TokenType::Double => Some(ParsedType { parsed_type: ParsedTypeEnum::Double, position: t.position }),
        TokenType::Bool => Some(ParsedType { parsed_type: ParsedTypeEnum::Boolean, position: t.position }),
        TokenType::Char => Some(ParsedType { parsed_type: ParsedTypeEnum::Char, position: t.position }),
        TokenType::Void => Some(ParsedType { parsed_type: ParsedTypeEnum::Void, position: t.position }),
        TokenType::Identifier(name) => Some(ParsedType { parsed_type: ParsedTypeEnum::TypeName(name), position: t.position }),
        _ => None,
    }
}

/// Each `*` makes the type a pointer to what came before.
pub open spec fn unit_type_stars(toks: Seq<Token>, t: ParsedType, st: PState) -> (ParsedType, PState)
    decreases rem(toks, st),
{
    if ends_with_eof(toks) && state_wf(toks, st) && at(toks, st, TokenKind::Star) {
        let st1 = advance(toks, st);
        unit_type_stars(
            toks,
            ParsedType { parsed_type: ParsedTypeEnum::Pointer(Box::new(t)), position: current_range(toks, st1) },
            st1,
        )
    } else {
        (t, st)
    }
}

/// A final `&` makes the type a reference.
pub open spec fn with_reference(toks: Seq<Token>, t: ParsedType, st: PState) -> (ParsedType, PState) {
    if at(toks, st, TokenKind::Ampersand) {
        let st1 = advance(toks, st);
        (ParsedType { parsed_type: ParsedTypeEnum::Reference(Box::new(t)), position: current_range(toks, st1) }, st1)
    } else {
        (t, st)
    }
}

/// The unit-type rule: the first token is consumed whatever it is; if it names no type the
/// rule fails.
pub open spec fn parse_unit_type(toks: Seq<Token>, st: PState) -> (Option<ParsedType>, PState) {
    let st1 = begin_range(toks, st);
    let st2 = advance(toks, st1);
    match base_type(cur_tok(toks, st1)) {
        None => (None, st2),
        Some(b) => {
            let (b2, st3) = unit_type_stars(toks, b, st2);
            let (b3, st4) = with_reference(toks, b2, st3);
            (Some(b3), end_range(toks, st4).1)
        },
    }
}

/// Applying the rule: the position is pushed, then the rule is parsed if it matches, and
/// otherwise `err` is reported.
pub open spec fn apply_unit_type(toks: Seq<Token>, st: PState, err: Option<ErrMsg>) -> (Option<ParsedType>, PState) {
    let st1 = begin_range(toks, st);
    if unit_type_check(toks, st.ptr) {
        parse_unit_type(toks, st1)
    } else {
        (None, no_match(toks, st1, err))
    }
}

impl ParsedUnitTypeRule {
    pub fn name(&self) -> (s: String)
        ensures
            s@ == "ParsedUnitType"@,
    {
        String::from_str("ParsedUnitType")
    }

    pub fn check_match(&self, cursor: ParserCursor) -> (b: bool)
        requires
            cursor.ptr < cursor.tokens@.len(),
        ensures
            b == unit_type_check(cursor.tokens@, cursor.ptr as int),
    {
        let k = cursor.cur_kind();
        k == TokenKind::Int || k == TokenKind::Double || k == TokenKind::Bool || k == TokenKind::Char
            || k == TokenKind::Void || kinds_match_any_identifier(k)
    }

    #[verifier::loop_isolation(false)]
    pub fn parse(&self, parser: &mut ExprParser) -> (r: Option<ParsedType>)
        requires
            old(parser).wf(),
        ensures
            final(parser).wf(),
            final(parser).toks() == old(parser).toks(),
            extends_parse(old(parser)@, final(parser)@),
            old(parser)@.ptr <= final(parser)@.ptr,
            r is Some ==> old(parser)@.ptr < final(parser)@.ptr,
            (r, final(parser)@) == parse_unit_type(old(parser).toks(), old(parser)@),
    {
        let ghost toks = parser.toks();
        parser.begin_range();
        let cur = parser.next();
        let mut base_type = match cur.value {
            TokenType::Int => ParsedType { parsed_type: ParsedTypeEnum::Integer, position: cur.position },
            TokenType::Double => ParsedType { parsed_type: ParsedTypeEnum::Double, position: cur.position },
            TokenType::Bool => ParsedType { parsed_type: ParsedTypeEnum::Boolean, position: cur.position },
            TokenType::Char => ParsedType { parsed_type: ParsedTypeEnum::Char, position: cur.position },
            TokenType::Void => ParsedType { parsed_type: ParsedTypeEnum::Void, position: cur.position },
            TokenType::Identifier(name) => ParsedType { parsed_type: ParsedTypeEnum::TypeName(name), position: cur.position },
            _ => {
                return None;
            },
        };
        let ghost st2 = parser@;
        let ghost b = base_type;
        while parser.at(TokenKind::Star)
            invariant
                parser.wf(),
                parser.toks() == toks,
                extends_parse(old(parser)@, parser@),
                st2.ptr <= parser@.ptr,
                unit_type_stars(toks, base_type, parser@) == unit_type_stars(toks, b, st2),
            decreases rem(toks, parser@),
        {
            parser.next();
            base_type = ParsedType { parsed_type: ParsedTypeEnum::Pointer(Box::new(base_type)), position: parser.current_range() };
        }
        if parser.at(TokenKind::Ampersand) {
            parser.next();
            base_type = ParsedType { parsed_type: ParsedTypeEnum::Reference(Box::new(base_type)), position: parser.current_range() };
        }
        parser.end_range();
        Some(base_type)
    }

    pub(crate) fn apply(&self, parser: &mut ExprParser, err: Option<ErrMsg>) -> (r: Option<ParsedType>)
        requires
            old(parser).wf(),
        ensures
            final(parser).wf(),
            final(parser).toks() == old(parser).toks(),
            extends_parse(old(parser)@, final(parser)@),
            old(parser)@.ptr <= final(parser)@.ptr,
            r is Some ==> old(parser)@.ptr < final(parser)@.ptr,
            (r, final(parser)@) == apply_unit_type(old(parser).toks(), old(parser)@, err),
    {
        let matched = self.check_match(parser.get_cursor());
        parser.begin_range();
        if matched {
            self.parse(parser)
        } else {
            parser.no_match(err);
            None
        }
    }
}

fn kinds_match_any_identifier(k: TokenKind) -> (b: bool)
    ensures
        b == kind_matches(k, TokenKind::AnyIdentifier),
{
    crate::token::kinds_match(k, TokenKind::AnyIdentifier)
}

} // verus!
