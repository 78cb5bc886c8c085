//! `struct: "struct" IDENT "{" (type IDENT ";")* constructor* "}"`; a missing `{`, `;` or `}`
//! is reported and parsing goes on.
use vstd::prelude::*;

use crate::ast::{list_from_vec, list_of, ConstructorItem, ParsedType, StructItem};
use crate::diagnostic::ErrMsg;
use crate::parser::rules::constructor_item::{apply_constructor, ConstructorRule};
use crate::parser::rules::parsed_type::{apply_type, ParsedTypeRule};
use crate::parser::rules::path::{ident_of, located_ident};
use crate::parser::{extends_parse, 
    advance, after, at, begin_range, consume_or_report, end_range, ends_with_eof, no_match, rem, state_wf,
    ExprParser, PState, ParserCursor,
};
use crate::token::{kind_matches, Located, Token, TokenKind};

verus! {

pub struct StructRule {}

/// A struct starts with `struct`.
pub open spec fn struct_check(toks: Seq<Token>, ptr: int) -> bool {
    kind_matches(toks[ptr].value.spec_kind(), TokenKind::Struct)
}

/// The members of a struct: while a type parses, it is followed by the member's name (a
/// member without a name is dropped) and a `;`.
pub open spec fn struct_members(toks: Seq<Token>, acc: Seq<(ParsedType, Located<String>)>, st: PState) -> (
    Seq<(ParsedType, Located<String>)>,
    PState,
)
    decreases rem(toks, st),
{
    if !(ends_with_eof(toks) && state_wf(toks, st)) {
        (acc, st)
    } else {
        let (t, st1) = apply_type(toks, st, None);
        match t {
            None => (acc, st1),
            Some(ty) => {
                let (id, st2) = consume_or_report(toks, st1, TokenKind::AnyIdentifier);
                match id {
                    Some(tok) => {
                        let st3 = consume_or_report(toks, st2, TokenKind::Semicolon).1;
                        if after(toks, st, st3) {
                            struct_members(toks, acc.push((ty, located_ident(tok))), st3)
                        } else {
                            (acc, st3)
                        }
                    },
                    None => if after(toks, st, st2) {
                        struct_members(toks, acc, st2)
                    } else {
                        (acc, st2)
                    },
                }
            },
        }
    }
}

/// The constructors of a struct, as long as they parse.
pub open spec fn struct_constructors(toks: Seq<Token>, acc: Seq<ConstructorItem>, st: PState) -> (
    Seq<ConstructorItem>,
    PState,
)
    decreases rem(toks, st),
{
    if !(ends_with_eof(toks) && state_wf(toks, st)) {
        (acc, st)
    } else {
        let (c, st1) = apply_constructor(toks, st, None);
        match c {
            None => (acc, st1),
            Some(x) => if after(toks, st, st1) {
                struct_constructors(toks, acc.push(x), st1)
            } else {
                (acc, st1)
            },
        }
    }
}

/// The struct rule.
pub open spec fn parse_struct(toks: Seq<Token>, st: PState) -> (Option<StructItem>, PState) {
    if !(ends_with_eof(toks) && state_wf(toks, st)) {
        (None, st)
    } else {
        let st1 = begin_range(toks, st);
        if !at(toks, st1, TokenKind::Struct) {
            (None, st1)
        } else {
            let (id, st2) = consume_or_report(toks, advance(toks, st1), TokenKind::AnyIdentifier);
            match id {
                None => (None, st2),
                Some(t) => {
                    let st3 = consume_or_report(toks, st2, TokenKind::LeftCurly).1;
                    let (members, st4) = struct_members(toks, Seq::empty(), st3);
                    let (constructors, st5) = struct_constructors(toks, Seq::empty(), st4);
                    let st6 = consume_or_report(toks, st5, TokenKind::RightCurly).1;
                    let (range, st7) = end_range(toks, st6);
                    (
                        Some(
                            StructItem {
                                name: located_ident(t),
                                members: list_of(members),
                                constructors: list_of(constructors),
                                position: range,
                            },
                        ),
                        st7,
                    )
                },
            }
        }
    }
}

pub open spec fn apply_struct(toks: Seq<Token>, st: PState, err: Option<ErrMsg>) -> (Option<StructItem>, PState) {
    let st1 = begin_range(toks, st);
    if struct_check(toks, st.ptr) {
        parse_struct(toks, st1)
    } else {
        (None, no_match(toks, st1, err))
    }
}

#[verifier::loop_isolation(false)]
fn parse_members(parser: &mut ExprParser) -> (r: Vec<(ParsedType, Located<String>)>)
    requires
        old(parser).wf(),
    ensures
        final(parser).wf(),
        final(parser).toks() == old(parser).toks(),
            extends_parse(old(parser)@, final(parser)@),
        old(parser)@.ptr <= final(parser)@.ptr,
        (r@, final(parser)@) == struct_members(old(parser).toks(), Seq::empty(), old(parser)@),
{
    let ghost toks = parser.toks();
    let ghost st0 = parser@;
    let mut members: Vec<(ParsedType, Located<String>)> = Vec::new();
    loop
        invariant
            parser.wf(),
            parser.toks() == toks,
            extends_parse(old(parser)@, parser@),
            st0.ptr <= parser@.ptr,
            struct_members(toks, members@, parser@) == struct_members(toks, Seq::empty(), st0),
        decreases rem(toks, parser@),
    {
        let member_type = match (ParsedTypeRule {}).apply(parser, None) {
            Some(t) => t,
            None => break,
        };
        match parser.consume_or_diagnostic(TokenKind::AnyIdentifier) {
            Some(t) => {
                parser.consume_or_diagnostic(TokenKind::Semicolon);
                members.push((member_type, ident_of(t)));
            },
            None => {},
        }
    }
    members
}

#[verifier::loop_isolation(false)]
fn parse_constructors(parser: &mut ExprParser) -> (r: Vec<ConstructorItem>)
    requires
        old(parser).wf(),
    ensures
        final(parser).wf(),
        final(parser).toks() == old(parser).toks(),
            extends_parse(old(parser)@, final(parser)@),
        old(parser)@.ptr <= final(parser)@.ptr,
        (r@, final(parser)@) == struct_constructors(old(parser).toks(), Seq::empty(), old(parser)@),
{
    let ghost toks = parser.toks();
    let ghost st0 = parser@;
    let mut constructors: Vec<ConstructorItem> = Vec::new();
    loop
        invariant
            parser.wf(),
            parser.toks() == toks,
            extends_parse(old(parser)@, parser@),
            st0.ptr <= parser@.ptr,
            struct_constructors(toks, constructors@, parser@) == struct_constructors(toks, Seq::empty(), st0),
        decreases rem(toks, parser@),
    {
        match (ConstructorRule {}).apply(parser, None) {
            Some(c) => constructors.push(c),
            None => break,
        }
    }
    constructors
}

impl StructRule {
    pub fn name(&self) -> (s: String)
        ensures
            s@ == "Struct"@,
    {
        String::from_str("Struct")
    }

    pub fn check_match(&self, cursor: ParserCursor) -> (b: bool)
        requires
            cursor.ptr < cursor.tokens@.len(),
        ensures
            b == struct_check(cursor.tokens@, cursor.ptr as int),
    {
        let mut cursor = cursor;
        cursor.try_consume(TokenKind::Struct)
    }

    pub fn parse(&self, parser: &mut ExprParser) -> (r: Option<StructItem>)
        requires
            old(parser).wf(),
        ensures
            final(parser).wf(),
            final(parser).toks() == old(parser).toks(),
            extends_parse(old(parser)@, final(parser)@),
            old(parser)@.ptr <= final(parser)@.ptr,
            r is Some ==> old(parser)@.ptr < final(parser)@.ptr,
            (r, final(parser)@) == parse_struct(old(parser).toks(), old(parser)@),
    {
        parser.begin_range();
        if !parser.at(TokenKind::Struct) {
            return None;
        }
        parser.next();
        let t = match parser.consume_or_diagnostic(TokenKind::AnyIdentifier) {
            Some(t) => t,
            None => return None,
        };
        parser.consume_or_diagnostic(TokenKind::LeftCurly);
        let members = parse_members(parser);
        let constructors = parse_constructors(parser);
        parser.consume_or_diagnostic(TokenKind::RightCurly);
        let position = parser.end_range();
        Some(
            StructItem {
                name: ident_of(t),
                members: list_from_vec(members),
                constructors: list_from_vec(constructors),
                position,
            },
        )
    }

    pub(crate) fn apply(&self, parser: &mut ExprParser, err: Option<ErrMsg>) -> (r: Option<StructItem>)
        requires
            old(parser).wf(),
        ensures
            final(parser).wf(),
            final(parser).toks() == old(parser).toks(),
            extends_parse(old(parser)@, final(parser)@),
            old(parser)@.ptr <= final(parser)@.ptr,
            r is Some ==> old(parser)@.ptr < final(parser)@.ptr,
            (r, final(parser)@) == apply_struct(old(parser).toks(), old(parser)@, err),
    {
        let matched = self.check_match(parser.get_cursor());
        parser.begin_range();
        if matched {
            self.parse(parser)
        } else {
            parser.no_match(err);
            None
        }
    }
}

} // verus!
