//! `scope: "scope" path "{" require* (item | scope)* "}"`
use vstd::prelude::*;

use crate::ast::{list_from_vec, list_of, scope_list_from_vec, scope_list_of, Item, Path, Require, Scope};
use crate::diagnostic::ErrMsg;
use crate::parser::rules::item::{apply_item, ItemRule};
use crate::parser::rules::path::{apply_path, PathRule};
use crate::parser::rules::require::{parse_require_items, require_items};
use crate::parser::{extends_parse, 
    after, begin_range, consume_or_report, end_range, ends_with_eof, no_match, not_before, rem, state_wf,
    ExprParser, PState, ParserCursor,
};
use crate::token::{kind_matches, Located, Token, TokenKind};

verus! {

pub struct ScopeRule {}

/// A scope starts with `scope`.
pub open spec fn scope_check(toks: Seq<Token>, ptr: int) -> bool {
    kind_matches(toks[ptr].value.spec_kind(), TokenKind::Scope)
}

/// The items and child scopes of a scope, in the order they come, as long as one of them
/// parses.
pub open spec fn scope_body(toks: Seq<Token>, items: Seq<Item>, children: Seq<Scope>, st: PState) -> (
    Seq<Item>,
    Seq<Scope>,
    PState,
)
    decreases rem(toks, st), 5nat,
{
    if !(ends_with_eof(toks) && state_wf(toks, st)) {
        (items, children, st)
    } else {
        let (i, st1) = apply_item(toks, st, None);
        match i {
            Some(x) => if after(toks, st, st1) {
                scope_body(toks, items.push(x), children, st1)
            } else {
                (items, children, st1)
            },
            None => if not_before(toks, st, st1) {
                let (c, st2) = apply_scope(toks, st1, None);
                match c {
                    Some(x) => if after(toks, st, st2) {
                        scope_body(toks, items, children.push(x), st2)
                    } else {
                        (items, children, st2)
                    },
                    None => (items, children, st2),
                }
            } else {
                (items, children, st1)
            },
        }
    }
}

/// What follows the requires of a scope: its items and child scopes, and its `}`.
pub open spec fn scope_rest(toks: Seq<Token>, path: Located<Path>, reqs: Seq<Require>, st: PState) -> (
    Option<Scope>,
    PState,
)
    decreases rem(toks, st), 6nat,
{
    let (items, children, st1) = scope_body(toks, Seq::empty(), Seq::empty(), st);
    let (rc, st2) = consume_or_report(toks, st1, TokenKind::RightCurly);
    match rc {
        None => (None, st2),
        Some(_) => {
            let (range, st3) = end_range(toks, st2);
            (
                Some(
                    Scope {
                        path,
                        requires: list_of(reqs),
                        child_scopes: scope_list_of(children),
                        items: list_of(items),
                        position: range,
                    },
                ),
                st3,
            )
        },
    }
}

/// The scope rule; a missing `scope`, `{` or `}` is reported and makes it fail.
pub open spec fn parse_scope(toks: Seq<Token>, st: PState) -> (Option<Scope>, PState)
    decreases rem(toks, st), 2nat,
{
    if !(ends_with_eof(toks) && state_wf(toks, st)) {
        (None, st)
    } else {
        let st1 = begin_range(toks, st);
        let (s, st2) = consume_or_report(toks, st1, TokenKind::Scope);
        match s {
            None => (None, st2),
            Some(_) => {
                let (p, st3) = apply_path(toks, st2, None);
                match p {
                    None => (None, st3),
                    Some(path) => {
                        let (lc, st4) = consume_or_report(toks, st3, TokenKind::LeftCurly);
                        match lc {
                            None => (None, st4),
                            Some(_) => {
                                let (reqs, st5) = require_items(toks, Seq::empty(), st4);
                                if after(toks, st, st5) {
                                    scope_rest(toks, path, reqs, st5)
                                } else {
                                    (None, st5)
                                }
                            },
                        }
                    },
                }
            },
        }
    }
}

pub open spec fn apply_scope(toks: Seq<Token>, st: PState, err: Option<ErrMsg>) -> (Option<Scope>, PState)
    decreases rem(toks, st), 3nat,
{
    let st1 = begin_range(toks, st);
    if scope_check(toks, st.ptr) {
        parse_scope(toks, st1)
    } else {
        (None, no_match(toks, st1, err))
    }
}

#[verifier::loop_isolation(false)]
fn parse_scope_rest(parser: &mut ExprParser, path: Located<Path>, reqs: Vec<Require>) -> (r: Option<Scope>)
    requires
        old(parser).wf(),
    ensures
        final(parser).wf(),
        final(parser).toks() == old(parser).toks(),
            extends_parse(old(parser)@, final(parser)@),
        old(parser)@.ptr <= final(parser)@.ptr,
        (r, final(parser)@) == scope_rest(old(parser).toks(), path, reqs@, old(parser)@),
    decreases rem(old(parser).toks(), old(parser)@), 6nat,
{
    let ghost toks = parser.toks();
    let ghost st0 = parser@;
    let mut items: Vec<Item> = Vec::new();
    let mut children: Vec<Scope> = Vec::new();
    loop
        invariant
            parser.wf(),
            parser.toks() == toks,
            extends_parse(old(parser)@, parser@),
            st0.ptr <= parser@.ptr,
            scope_body(toks, items@, children@, parser@) == scope_body(toks, Seq::empty(), Seq::empty(), st0),
        decreases rem(toks, parser@),
    {
        match (ItemRule {}).apply(parser, None) {
            Some(i) => {
                items.push(i);
            },
            None => {
                match (ScopeRule {}).apply(parser, None) {
                    Some(s) => children.push(s),
                    None => break,
                }
            },
        }
    }
    if parser.consume_or_diagnostic(TokenKind::RightCurly).is_none() {
        return None;
    }
    let position = parser.end_range();
    Some(
        Scope {
            path,
            requires: list_from_vec(reqs),
            child_scopes: scope_list_from_vec(children),
            items: list_from_vec(items),
            position,
        },
    )
}

impl ScopeRule {
    pub fn name(&self) -> (s: String)
        ensures
            s@ == "Scope"@,
    {
        String::from_str("Scope")
    }

    pub fn check_match(&self, cursor: ParserCursor) -> (b: bool)
        requires
            cursor.ptr < cursor.tokens@.len(),
        ensures
            b == scope_check(cursor.tokens@, cursor.ptr as int),
    {
        let mut cursor = cursor;
        cursor.try_consume(TokenKind::Scope)
    }

    pub fn parse(&self, parser: &mut ExprParser) -> (r: Option<Scope>)
        requires
            old(parser).wf(),
        ensures
            final(parser).wf(),
            final(parser).toks() == old(parser).toks(),
            extends_parse(old(parser)@, final(parser)@),
            old(parser)@.ptr <= final(parser)@.ptr,
            r is Some ==> old(parser)@.ptr < final(parser)@.ptr,
            (r, final(parser)@) == parse_scope(old(parser).toks(), old(parser)@),
        decreases rem(old(parser).toks(), old(parser)@), 2nat,
    {
        parser.begin_range();
        if parser.consume_or_diagnostic(TokenKind::Scope).is_none() {
            return None;
        }
        let path = match (PathRule {}).apply(parser, None) {
            Some(p) => p,
            None => return None,
        };
        if parser.consume_or_diagnostic(TokenKind::LeftCurly).is_none() {
            return None;
        }
        let reqs = parse_require_items(parser);
        parse_scope_rest(parser, path, reqs)
    }

    pub(crate) fn apply(&self, parser: &mut ExprParser, err: Option<ErrMsg>) -> (r: Option<Scope>)
        requires
            old(parser).wf(),
        ensures
            final(parser).wf(),
            final(parser).toks() == old(parser).toks(),
            extends_parse(old(parser)@, final(parser)@),
            old(parser)@.ptr <= final(parser)@.ptr,
            r is Some ==> old(parser)@.ptr < final(parser)@.ptr,
            (r, final(parser)@) == apply_scope(old(parser).toks(), old(parser)@, err),
        decreases rem(old(parser).toks(), old(parser)@), 3nat,
    {
        let matched = self.check_match(parser.get_cursor());
        parser.begin_range();
        if matched {
            self.parse(parser)
        } else {
            parser.no_match(err);
            None
        }
    }
}

} // verus!
