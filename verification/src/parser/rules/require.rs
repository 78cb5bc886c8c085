//! `require: ("from" path)? path ("as" IDENT)? ("," path ("as" IDENT)?)* ";"`; the path after
//! `from` is put in front of every required path. The rule matches at `require` or `from`
//! and parses paths from there: the `require` keyword itself is not consumed.
use vstd::prelude::*;

use crate::ast::{list_from_vec, list_of, push_all, vec_from_list, Require, List};
use crate::diagnostic::ErrMsg;
use crate::parser::rules::path::{apply_path, ident_of, located_ident, PathRule};
use crate::parser::{extends_parse, 
    advance, after, at, begin_range, consume_or_report, ends_with_eof, no_match, not_before, rem, state_wf,
    try_consume, ExprParser, PState, ParserCursor,
};
use crate::token::{kind_matches, Located, Token, TokenKind};

verus! {

pub struct RequireRule {}

/// A require starts with `require` or `from`.
pub open spec fn require_check(toks: Seq<Token>, ptr: int) -> bool {
    kind_matches(toks[ptr].value.spec_kind(), TokenKind::Require) || kind_matches(
        toks[ptr].value.spec_kind(),
        TokenKind::From,
    )
}

/// One required path, after `prefix`, with its alias if `as` follows.
pub open spec fn path_alias(toks: Seq<Token>, prefix: Seq<Located<String>>, st: PState) -> (Option<Require>, PState) {
    let (p, st1) = apply_path(toks, st, None);
    match p {
        None => (None, st1),
        Some(path) => {
            let segments = prefix + path.data.segments.to_seq();
            if at(toks, st1, TokenKind::As) {
                let (id, st2) = consume_or_report(toks, advance(toks, st1), TokenKind::AnyIdentifier);
                match id {
                    None => (None, st2),
                    Some(t) => (Some(Require { path: list_of(segments), alias: Some(located_ident(t)) }), st2),
                }
            } else {
                (Some(Require { path: list_of(segments), alias: None }), st1)
            }
        },
    }
}

/// The required paths after a `,`; one that does not parse makes the rule fail.
pub open spec fn requires_tail(toks: Seq<Token>, prefix: Seq<Located<String>>, acc: Seq<Require>, st: PState) -> (
    Option<Seq<Require>>,
    PState,
)
    decreases rem(toks, st),
{
    if ends_with_eof(toks) && state_wf(toks, st) && at(toks, st, TokenKind::Comma) {
        let st1 = advance(toks, st);
        let (r, st2) = path_alias(toks, prefix, st1);
        match r {
            None => (None, st2),
            Some(x) => if not_before(toks, st1, st2) {
                requires_tail(toks, prefix, acc.push(x), st2)
            } else {
                (None, st2)
            },
        }
    } else {
        (Some(acc), st)
    }
}

/// The list of required paths and its `;` (reported if missing).
pub open spec fn require_list(toks: Seq<Token>, prefix: Seq<Located<String>>, st: PState) -> (
    Option<List<Require>>,
    PState,
) {
    let (first, st1) = path_alias(toks, prefix, st);
    match first {
        None => (None, st1),
        Some(r) => match requires_tail(toks, prefix, seq![r], st1) {
            (None, st2) => (None, st2),
            (Some(rs), st2) => (Some(list_of(rs)), consume_or_report(toks, st2, TokenKind::Semicolon).1),
        },
    }
}

/// The require rule.
pub open spec fn parse_require(toks: Seq<Token>, st: PState) -> (Option<List<Require>>, PState) {
    if !(ends_with_eof(toks) && state_wf(toks, st)) {
        (None, st)
    } else {
        let (f, st1) = try_consume(toks, st, TokenKind::From);
        match f {
            Some(_) => {
                let (p, st2) = apply_path(toks, st1, None);
                match p {
                    None => (None, st2),
                    Some(path) => require_list(toks, path.data.segments.to_seq(), st2),
                }
            },
            None => require_list(toks, Seq::empty(), st1),
        }
    }
}

pub open spec fn apply_require(toks: Seq<Token>, st: PState, err: Option<ErrMsg>) -> (Option<List<Require>>, PState) {
    let st1 = begin_range(toks, st);
    if require_check(toks, st.ptr) {
        parse_require(toks, st1)
    } else {
        (None, no_match(toks, st1, err))
    }
}

/// The requires at the current token and after it, as long as they parse; each adds its
/// paths in order.
pub open spec fn require_items(toks: Seq<Token>, acc: Seq<Require>, st: PState) -> (Seq<Require>, PState)
    decreases rem(toks, st),
{
    if !(ends_with_eof(toks) && state_wf(toks, st)) {
        (acc, st)
    } else {
        let (r, st1) = apply_require(toks, st, None);
        match r {
            None => (acc, st1),
            Some(rs) => if after(toks, st, st1) {
                require_items(toks, acc + rs.to_seq(), st1)
            } else {
                (acc, st1)
            },
        }
    }
}

/// Parses the requires at the current token, as long as they parse.
#[verifier::loop_isolation(false)]
pub fn parse_require_items(parser: &mut ExprParser) -> (r: Vec<Require>)
    requires
        old(parser).wf(),
    ensures
        final(parser).wf(),
        final(parser).toks() == old(parser).toks(),
            extends_parse(old(parser)@, final(parser)@),
        old(parser)@.ptr <= final(parser)@.ptr,
        (r@, final(parser)@) == require_items(old(parser).toks(), Seq::empty(), old(parser)@),
{
    let ghost toks = parser.toks();
    let ghost st0 = parser@;
    let mut found: Vec<Require> = Vec::new();
    loop
        invariant
            parser.wf(),
            parser.toks() == toks,
            extends_parse(old(parser)@, parser@),
            st0.ptr <= parser@.ptr,
            require_items(toks, found@, parser@) == require_items(toks, Seq::empty(), st0),
        decreases rem(toks, parser@),
    {
        match (RequireRule {}).apply(parser, None) {
            Some(rs) => push_all(&mut found, rs),
            None => break,
        }
    }
    found
}

/// A copy of a list of names.
fn clone_names(names: &Vec<Located<String>>) -> (r: Vec<Located<String>>)
    ensures
        r@ == names@,
{
    let mut r: Vec<Located<String>> = Vec::new();
    let mut i: usize = 0;
    while i < names.len()
        invariant
            i <= names@.len(),
            r@ == names@.subrange(0, i as int),
        decreases names@.len() - i,
    {
        r.push(names[i].clone());
        i = i + 1;
    }
    r
}

fn parse_path_alias(parser: &mut ExprParser, prefix: &Vec<Located<String>>) -> (r: Option<Require>)
    requires
        old(parser).wf(),
    ensures
        final(parser).wf(),
        final(parser).toks() == old(parser).toks(),
            extends_parse(old(parser)@, final(parser)@),
        old(parser)@.ptr <= final(parser)@.ptr,
        r is Some ==> old(parser)@.ptr < final(parser)@.ptr,
        (r, final(parser)@) == path_alias(old(parser).toks(), prefix@, old(parser)@),
{
    let path = match (PathRule {}).apply(parser, None) {
        Some(p) => p,
        None => return None,
    };
    let mut segments = clone_names(prefix);
    push_all(&mut segments, path.data.segments);
    if parser.at(TokenKind::As) {
        parser.next();
        match parser.consume_or_diagnostic(TokenKind::AnyIdentifier) {
            None => None,
            Some(t) => Some(Require { path: list_from_vec(segments), alias: Some(ident_of(t)) }),
        }
    } else {
        Some(Require { path: list_from_vec(segments), alias: None })
    }
}

#[verifier::loop_isolation(false)]
fn parse_require_list(parser: &mut ExprParser, prefix: &Vec<Located<String>>) -> (r: Option<List<Require>>)
    requires
        old(parser).wf(),
    ensures
        final(parser).wf(),
        final(parser).toks() == old(parser).toks(),
            extends_parse(old(parser)@, final(parser)@),
        old(parser)@.ptr <= final(parser)@.ptr,
        r is Some ==> old(parser)@.ptr < final(parser)@.ptr,
        (r, final(parser)@) == require_list(old(parser).toks(), prefix@, old(parser)@),
{
    let ghost toks = parser.toks();
    let first = match parse_path_alias(parser, prefix) {
        Some(r) => r,
        None => return None,
    };
    let mut found: Vec<Require> = Vec::new();
    found.push(first);
    let ghost st1 = parser@;
    let ghost init = found@;
    while parser.at(TokenKind::Comma)
        invariant
            parser.wf(),
            parser.toks() == toks,
            extends_parse(old(parser)@, parser@),
            st1.ptr <= parser@.ptr,
            requires_tail(toks, prefix@, found@, parser@) == requires_tail(toks, prefix@, init, st1),
        decreases rem(toks, parser@),
    {
        parser.next();
        match parse_path_alias(parser, prefix) {
            Some(r) => found.push(r),
            None => return None,
        }
    }
    parser.consume_or_diagnostic(TokenKind::Semicolon);
    Some(list_from_vec(found))
}

impl RequireRule {
    pub fn name(&self) -> (s: String)
        ensures
            s@ == "Require"@,
    {
        String::from_str("Require")
    }

    pub fn check_match(&self, cursor: ParserCursor) -> (b: bool)
        requires
            cursor.ptr < cursor.tokens@.len(),
        ensures
            b == require_check(cursor.tokens@, cursor.ptr as int),
    {
        let mut cursor = cursor;
        let ghost p0 = cursor.ptr as int;
        let kinds = [TokenKind::Require, TokenKind::From];
        let r = cursor.try_consume_match(&kinds);
        proof {
            let st = PState { ptr: p0, diags: Seq::empty(), ranges: Seq::empty(), next_id: 0 };
            assert(kinds@[0] == TokenKind::Require && kinds@[1] == TokenKind::From);
            if kind_matches(cursor.tokens@[p0].value.spec_kind(), TokenKind::Require) {
                assert(at(cursor.tokens@, st, kinds@[0]));
            } else if kind_matches(cursor.tokens@[p0].value.spec_kind(), TokenKind::From) {
                assert(at(cursor.tokens@, st, kinds@[1]));
            }
        }
        r.is_some()
    }

    pub fn parse(&self, parser: &mut ExprParser) -> (r: Option<List<Require>>)
        requires
            old(parser).wf(),
        ensures
            final(parser).wf(),
            final(parser).toks() == old(parser).toks(),
            extends_parse(old(parser)@, final(parser)@),
            old(parser)@.ptr <= final(parser)@.ptr,
            r is Some ==> old(parser)@.ptr < final(parser)@.ptr,
            (r, final(parser)@) == parse_require(old(parser).toks(), old(parser)@),
    {
        if parser.try_consume(TokenKind::From).is_some() {
            let from_path = match (PathRule {}).apply(parser, None) {
                Some(p) => p,
                None => return None,
            };
            let prefix = vec_from_list(from_path.data.segments);
            parse_require_list(parser, &prefix)
        } else {
            let prefix: Vec<Located<String>> = Vec::new();
            parse_require_list(parser, &prefix)
        }
    }

    pub(crate) fn apply(&self, parser: &mut ExprParser, err: Option<ErrMsg>) -> (r: Option<List<Require>>)
        requires
            old(parser).wf(),
        ensures
            final(parser).wf(),
            final(parser).toks() == old(parser).toks(),
            extends_parse(old(parser)@, final(parser)@),
            old(parser)@.ptr <= final(parser)@.ptr,
            r is Some ==> old(parser)@.ptr < final(parser)@.ptr,
            (r, final(parser)@) == apply_require(old(parser).toks(), old(parser)@, err),
    {
        let matched = self.check_match(parser.get_cursor());
        parser.begin_range();
        if matched {
            self.parse(parser)
        } else {
            parser.no_match(err);
            None
        }
    }
}

} // verus!
