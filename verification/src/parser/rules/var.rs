//! `var: path`, when the current token is an identifier.
use vstd::prelude::*;

use crate::ast::VarExpr;
use crate::diagnostic::ErrMsg;
use crate::parser::rules::path::{apply_path, PathRule};
use crate::parser::{extends_parse, begin_range, fresh_id, no_match, ExprParser, PState, ParserCursor};
use crate::token::{kind_matches, Token, TokenKind};

verus! {

pub struct VarRule {}

/// A variable starts with an identifier.
pub open spec fn var_check(toks: Seq<Token>, ptr: int) -> bool {
    kind_matches(toks[ptr].value.spec_kind(), TokenKind::AnyIdentifier)
}

/// The variable rule: a path, given a fresh node id.
pub open spec fn parse_var(toks: Seq<Token>, st: PState) -> (Option<VarExpr>, PState) {
    let (p, st1) = apply_path(toks, st, None);
    match p {
        None => (None, st1),
        Some(path) => {
            let (id, st2) = fresh_id(st1);
            (Some(VarExpr { path, id }), st2)
        },
    }
}

pub open spec fn apply_var(toks: Seq<Token>, st: PState, err: Option<ErrMsg>) -> (Option<VarExpr>, PState) {
    let st1 = begin_range(toks, st);
    if var_check(toks, st.ptr) {
        parse_var(toks, st1)
    } else {
        (None, no_match(toks, st1, err))
    }
}

impl VarRule {
    pub fn name(&self) -> (s: String)
        ensures
            s@ == "Var"@,
    {
        String::from_str("Var")
    }

    pub fn check_match(&self, cursor: ParserCursor) -> (b: bool)
        requires
            cursor.ptr < cursor.tokens@.len(),
        ensures
            b == var_check(cursor.tokens@, cursor.ptr as int),
    {
        let mut cursor = cursor;
        cursor.try_consume(TokenKind::AnyIdentifier)
    }

    #[verifier::loop_isolation(false)]
    pub fn parse(&self, parser: &mut ExprParser) -> (r: Option<VarExpr>)
        requires
            old(parser).wf(),
        ensures
            final(parser).wf(),
            final(parser).toks() == old(parser).toks(),
            extends_parse(old(parser)@, final(parser)@),
            old(parser)@.ptr <= final(parser)@.ptr,
            r is Some ==> old(parser)@.ptr < final(parser)@.ptr,
            (r, final(parser)@) == parse_var(old(parser).toks(), old(parser)@),
    {
        let path = match (PathRule {}).apply(parser, None) {
            Some(p) => p,
            None => return None,
        };
        let id = parser.fresh_id();
        Some(VarExpr { path, id })
    }

    pub(crate) fn apply(&self, parser: &mut ExprParser, err: Option<ErrMsg>) -> (r: Option<VarExpr>)
        requires
            old(parser).wf(),
        ensures
            final(parser).wf(),
            final(parser).toks() == old(parser).toks(),
            extends_parse(old(parser)@, final(parser)@),
            old(parser)@.ptr <= final(parser)@.ptr,
            r is Some ==> old(parser)@.ptr < final(parser)@.ptr,
            (r, final(parser)@) == apply_var(old(parser).toks(), old(parser)@, err),
    {
        let matched = self.check_match(parser.get_cursor());
        parser.begin_range();
        if matched {
            self.parse(parser)
        } else {
            parser.no_match(err);
            None
        }
    }
}

} // verus!
