//! `path: IDENT ("::" IDENT)*`
use vstd::prelude::*;

use crate::ast::{list_from_vec, list_of, Path};
use crate::diagnostic::ErrMsg;
use crate::parser::{extends_parse, 
    advance, at, begin_range, consume_or_report, end_range, ends_with_eof, no_match, rem, state_wf,
    ExprParser, PState, ParserCursor,
};
use crate::token::{Located, Token, TokenKind};

verus! {

pub struct PathRule {}

/// The name of an identifier token, located where the token stands.
pub open spec fn located_ident(t: Token) -> Located<String> {
    Located { data: t.value->Identifier_0, position: t.position }
}

/// The name of an identifier token, located where the token stands.
pub fn ident_of(t: Token) -> (r: Located<String>)
    requires
        t.value.spec_kind() == TokenKind::Identifier,
    ensures
        r == located_ident(t),
{
    t.unwrap_identifier()
}

/// The path rule always tries to match.
pub open spec fn path_check(toks: Seq<Token>, ptr: int) -> bool {
    true
}

/// The segments after the first: each `::` must be followed by an identifier, else the
/// path fails.
pub open spec fn path_tail(toks: Seq<Token>, acc: Seq<Located<String>>, st: PState) -> (
    Option<Seq<Located<String>>>,
    PState,
)
    decreases rem(toks, st),
{
    if ends_with_eof(toks) && state_wf(toks, st) && at(toks, st, TokenKind::DoubleColon) {
        let st1 = advance(toks, st);
        let (id, st2) = consume_or_report(toks, st1, TokenKind::AnyIdentifier);
        match id {
            None => (None, st2),
            Some(t) => path_tail(toks, acc.push(located_ident(t)), st2),
        }
    } else {
        (Some(acc), st)
    }
}

/// The path rule.
pub open spec fn parse_path(toks: Seq<Token>, st: PState) -> (Option<Located<Path>>, PState) {
    let st1 = begin_range(toks, st);
    let (id, st2) = consume_or_report(toks, st1, TokenKind::AnyIdentifier);
    match id {
        None => (None, st2),
        Some(t) => match path_tail(toks, seq![located_ident(t)], st2) {
            (None, st3) => (None, st3),
            (Some(segments), st3) => {
                let (range, st4) = end_range(toks, st3);
                (Some(Located { data: Path { segments: list_of(segments) }, position: range }), st4)
            },
        },
    }
}

pub open spec fn apply_path(toks: Seq<Token>, st: PState, err: Option<ErrMsg>) -> (Option<Located<Path>>, PState) {
    let st1 = begin_range(toks, st);
    if path_check(toks, st.ptr) {
        parse_path(toks, st1)
    } else {
        (None, no_match(toks, st1, err))
    }
}

impl PathRule {
    pub fn name(&self) -> (s: String)
        ensures
            s@ == "Path"@,
    {
        String::from_str("Path")
    }

    pub fn check_match(&self, cursor: ParserCursor) -> (b: bool)
        requires
            cursor.ptr < cursor.tokens@.len(),
        ensures
            b == path_check(cursor.tokens@, cursor.ptr as int),
    {
        true
    }

    #[verifier::loop_isolation(false)]
    pub fn parse(&self, parser: &mut ExprParser) -> (r: Option<Located<Path>>)
        requires
            old(parser).wf(),
        ensures
            final(parser).wf(),
            final(parser).toks() == old(parser).toks(),
            extends_parse(old(parser)@, final(parser)@),
            old(parser)@.ptr <= final(parser)@.ptr,
            r is Some ==> old(parser)@.ptr < final(parser)@.ptr,
            (r, final(parser)@) == parse_path(old(parser).toks(), old(parser)@),
    {
        let ghost toks = parser.toks();
        parser.begin_range();
        let first = match parser.consume_or_diagnostic(TokenKind::AnyIdentifier) {
            Some(t) => t,
            None => return None,
        };
        let mut path: Vec<Located<String>> = Vec::new();
        path.push(ident_of(first));
        let ghost st2 = parser@;
        let ghost init = path@;
        while parser.at(TokenKind::DoubleColon)
            invariant
                parser.wf(),
                parser.toks() == toks,
                extends_parse(old(parser)@, parser@),
                st2.ptr <= parser@.ptr,
                path_tail(toks, path@, parser@) == path_tail(toks, init, st2),
            decreases rem(toks, parser@),
        {
            parser.next();
            let t = match parser.consume_or_diagnostic(TokenKind::AnyIdentifier) {
                Some(t) => t,
                None => return None,
            };
            path.push(ident_of(t));
        }
        let position = parser.end_range();
        Some(Located { data: Path { segments: list_from_vec(path) }, position })
    }

    pub(crate) fn apply(&self, parser: &mut ExprParser, err: Option<ErrMsg>) -> (r: Option<Located<Path>>)
        requires
            old(parser).wf(),
        ensures
            final(parser).wf(),
            final(parser).toks() == old(parser).toks(),
            extends_parse(old(parser)@, final(parser)@),
            old(parser)@.ptr <= final(parser)@.ptr,
            r is Some ==> old(parser)@.ptr < final(parser)@.ptr,
            (r, final(parser)@) == apply_path(old(parser).toks(), old(parser)@, err),
    {
        let matched = self.check_match(parser.get_cursor());
        parser.begin_range();
        if matched {
            self.parse(parser)
        } else {
            parser.no_match(err);
            None
        }
    }
}

} // verus!
