//! `function-call: member-access arguments?`
use vstd::prelude::*;

use crate::ast::{Expr, FunctionCall};
use crate::diagnostic::ErrMsg;
use crate::parser::rules::arguments::{apply_arguments, ArgumentsRule};
use crate::parser::rules::member_access::{apply_member_access, MemberAccessRule};
use crate::parser::{extends_parse, begin_range, end_range, no_match, ExprParser, PState, ParserCursor};
use crate::token::Token;

verus! {

pub struct FunctionCallRule;

/// The rule always tries to match.
pub open spec fn function_call_check(toks: Seq<Token>, ptr: int) -> bool {
    true
}

/// The function-call rule: a member access, called if an argument list follows.
pub open spec fn parse_function_call(toks: Seq<Token>, st: PState) -> (Option<Expr>, PState) {
    let st1 = begin_range(toks, st);
    let (m, st2) = apply_member_access(toks, st1, None);
    match m {
        None => (None, st2),
        Some(member_access) => {
            let (a, st3) = apply_arguments(toks, st2, None);
            match a {
                Some(arguments) => {
                    let (range, st4) = end_range(toks, st3);
                    (Some(Expr::FunctionCall(FunctionCall { function: Box::new(member_access), arguments, position: range })), st4)
                },
                None => (Some(member_access), st3),
            }
        },
    }
}

pub open spec fn apply_function_call(toks: Seq<Token>, st: PState, err: Option<ErrMsg>) -> (Option<Expr>, PState) {
    let st1 = begin_range(toks, st);
    if function_call_check(toks, st.ptr) {
        parse_function_call(toks, st1)
    } else {
        (None, no_match(toks, st1, err))
    }
}

impl FunctionCallRule {
    pub fn name(&self) -> (s: String)
        ensures
            s@ == "FunctionCall"@,
    {
        String::from_str("FunctionCall")
    }

    pub fn check_match(&self, cursor: ParserCursor) -> (b: bool)
        requires
            cursor.ptr < cursor.tokens@.len(),
        ensures
            b == function_call_check(cursor.tokens@, cursor.ptr as int),
    {
        true
    }

    pub fn parse(&self, parser: &mut ExprParser) -> (r: Option<Expr>)
        requires
            old(parser).wf(),
        ensures
            final(parser).wf(),
            final(parser).toks() == old(parser).toks(),
            extends_parse(old(parser)@, final(parser)@),
            old(parser)@.ptr <= final(parser)@.ptr,
            r is Some ==> old(parser)@.ptr < final(parser)@.ptr,
            (r, final(parser)@) == parse_function_call(old(parser).toks(), old(parser)@),
    {
        parser.begin_range();
        let member_access = match (MemberAccessRule {}).apply(parser, None) {
            Some(m) => m,
            None => return None,
        };
        match (ArgumentsRule {}).apply(parser, None) {
            Some(arguments) => {
                let position = parser.end_range();
                Some(Expr::FunctionCall(FunctionCall { function: Box::new(member_access), arguments, position }))
            },
            None => Some(member_access),
        }
    }

    pub(crate) fn apply(&self, parser: &mut ExprParser, err: Option<ErrMsg>) -> (r: Option<Expr>)
        requires
            old(parser).wf(),
        ensures
            final(parser).wf(),
            final(parser).toks() == old(parser).toks(),
            extends_parse(old(parser)@, final(parser)@),
            old(parser)@.ptr <= final(parser)@.ptr,
            r is Some ==> old(parser)@.ptr < final(parser)@.ptr,
            (r, final(parser)@) == apply_function_call(old(parser).toks(), old(parser)@, err),
    {
        let matched = self.check_match(parser.get_cursor());
        parser.begin_range();
        if matched {
            self.parse(parser)
        } else {
            parser.no_match(err);
            None
        }
    }
}

} // verus!
