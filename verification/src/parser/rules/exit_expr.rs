//! `exit: ("break" | "return" | "result") (":" IDENT)? (";" | expr ";")`, where only
//! `break` and `result` take a label.
use vstd::prelude::*;

use crate::ast::{ExitExpr, ExitType};
use crate::diagnostic::ErrMsg;
use crate::parser::rules::expr::{apply_expr, ExprRule};
use crate::parser::rules::loop_expr::{label_part, parse_label};
use crate::parser::{extends_parse, not_before, 
    advance, at, begin_range, consume_or_report, cur_kind, end_range, ends_with_eof, no_match, rem, state_wf,
    ExprParser, PState, ParserCursor,
};
use crate::token::{Located, Token, TokenKind};

verus! {

pub struct ExitRule {}

/// Whether a token kind starts an exit.
pub open spec fn is_exit_kind(k: TokenKind) -> bool {
    k == TokenKind::Break || k == TokenKind::Return || k == TokenKind::Result
}

/// An exit starts with `break`, `return` or `result`.
pub open spec fn exit_check(toks: Seq<Token>, ptr: int) -> bool {
    is_exit_kind(toks[ptr].value.spec_kind())
}

/// The kind of exit that a token kind starts.
pub open spec fn exit_type_of(k: TokenKind) -> ExitType {
    if k == TokenKind::Break {
        ExitType::Break
    } else if k == TokenKind::Return {
        ExitType::Return
    } else {
        ExitType::Result
    }
}

/// The label of an exit: only `break` and `result` take one.
pub open spec fn exit_label(toks: Seq<Token>, st: PState, exit_type: ExitType) -> (Option<Option<Located<String>>>, PState) {
    if exit_type == ExitType::Break || exit_type == ExitType::Result {
        label_part(toks, st)
    } else {
        (Some(None), st)
    }
}

/// What follows the label: `;` alone, or an expression whose `;` is reported if missing.
pub open spec fn exit_rest(toks: Seq<Token>, st: PState, exit_type: ExitType, label: Option<Located<String>>) -> (
    Option<ExitExpr>,
    PState,
)
    decreases rem(toks, st), 405nat,
{
    if at(toks, st, TokenKind::Semicolon) {
        let (range, st1) = end_range(toks, advance(toks, st));
        (Some(ExitExpr { exit_type, expr: None, label, position: range }), st1)
    } else {
        let (r, st1) = apply_expr(toks, st, Some(ErrMsg::ExpectedExpression));
        match r {
            None => (None, st1),
            Some(e) => {
                let st2 = consume_or_report(toks, st1, TokenKind::Semicolon).1;
                let (range, st3) = end_range(toks, st2);
                (Some(ExitExpr { exit_type, expr: Some(Box::new(e)), label, position: range }), st3)
            },
        }
    }
}

/// What follows the keyword of an exit: its label, then the rest.
pub open spec fn exit_after_keyword(toks: Seq<Token>, st: PState, exit_type: ExitType) -> (Option<ExitExpr>, PState)
    decreases rem(toks, st), 406nat,
{
    if !(ends_with_eof(toks) && state_wf(toks, st)) {
        (None, st)
    } else {
        let (l, st1) = exit_label(toks, st, exit_type);
        match l {
            None => (None, st1),
            Some(label) => if not_before(toks, st, st1) {
                exit_rest(toks, st1, exit_type, label)
            } else {
                (None, st1)
            },
        }
    }
}

/// The exit rule.
pub open spec fn parse_exit(toks: Seq<Token>, st: PState) -> (Option<ExitExpr>, PState)
    decreases rem(toks, st), 100nat,
{
    if !(ends_with_eof(toks) && state_wf(toks, st)) {
        (None, st)
    } else {
        let st1 = begin_range(toks, st);
        let k = cur_kind(toks, st1);
        if !is_exit_kind(k) {
            (None, st1)
        } else {
            exit_after_keyword(toks, advance(toks, st1), exit_type_of(k))
        }
    }
}

pub open spec fn apply_exit(toks: Seq<Token>, st: PState, err: Option<ErrMsg>) -> (Option<ExitExpr>, PState)
    decreases rem(toks, st), 102nat,
{
    let st1 = begin_range(toks, st);
    if exit_check(toks, st.ptr) {
        parse_exit(toks, st1)
    } else {
        (None, no_match(toks, st1, err))
    }
}

impl ExitRule {
    pub fn name(&self) -> (s: String)
        ensures
            s@ == "Exit"@,
    {
        String::from_str("Exit")
    }

    pub fn check_match(&self, cursor: ParserCursor) -> (b: bool)
        requires
            cursor.ptr < cursor.tokens@.len(),
        ensures
            b == exit_check(cursor.tokens@, cursor.ptr as int),
    {
        let k = cursor.cur_kind();
        k == TokenKind::Break || k == TokenKind::Return || k == TokenKind::Result
    }

    pub fn parse(&self, parser: &mut ExprParser) -> (r: Option<ExitExpr>)
        requires
            old(parser).wf(),
        ensures
            final(parser).wf(),
            final(parser).toks() == old(parser).toks(),
            extends_parse(old(parser)@, final(parser)@),
            old(parser)@.ptr <= final(parser)@.ptr,
            r is Some ==> old(parser)@.ptr < final(parser)@.ptr,
            (r, final(parser)@) == parse_exit(old(parser).toks(), old(parser)@),
        decreases rem(old(parser).toks(), old(parser)@), 100nat,
    {
        parser.begin_range();
        let k = parser.cur_kind();
        let exit_type = if k == TokenKind::Break {
            ExitType::Break
        } else if k == TokenKind::Return {
            ExitType::Return
        } else if k == TokenKind::Result {
            ExitType::Result
        } else {
            return None;
        };
        parser.next();
        Self::parse_after_keyword(parser, exit_type)
    }

    fn parse_after_keyword(parser: &mut ExprParser, exit_type: ExitType) -> (r: Option<ExitExpr>)
        requires
            old(parser).wf(),
        ensures
            final(parser).wf(),
            final(parser).toks() == old(parser).toks(),
            extends_parse(old(parser)@, final(parser)@),
            old(parser)@.ptr <= final(parser)@.ptr,
            (r, final(parser)@) == exit_after_keyword(old(parser).toks(), old(parser)@, exit_type),
        decreases rem(old(parser).toks(), old(parser)@), 406nat,
    {
        let label = if exit_type == ExitType::Break || exit_type == ExitType::Result {
            match parse_label(parser) {
                Some(l) => l,
                None => return None,
            }
        } else {
            None
        };
        Self::parse_rest(parser, exit_type, label)
    }

    fn parse_rest(parser: &mut ExprParser, exit_type: ExitType, label: Option<Located<String>>) -> (r: Option<ExitExpr>)
        requires
            old(parser).wf(),
        ensures
            final(parser).wf(),
            final(parser).toks() == old(parser).toks(),
            extends_parse(old(parser)@, final(parser)@),
            old(parser)@.ptr <= final(parser)@.ptr,
            (r, final(parser)@) == exit_rest(old(parser).toks(), old(parser)@, exit_type, label),
        decreases rem(old(parser).toks(), old(parser)@), 405nat,
    {
        let expr = if parser.at(TokenKind::Semicolon) {
            parser.next();
            None
        } else {
            let result = match (ExprRule {}).apply(parser, Some(ErrMsg::ExpectedExpression)) {
                Some(e) => e,
                None => return None,
            };
            parser.consume_or_diagnostic(TokenKind::Semicolon);
            Some(Box::new(result))
        };
        let position = parser.end_range();
        Some(ExitExpr { exit_type, expr, label, position })
    }

    pub(crate) fn apply(&self, parser: &mut ExprParser, err: Option<ErrMsg>) -> (r: Option<ExitExpr>)
        requires
            old(parser).wf(),
        ensures
            final(parser).wf(),
            final(parser).toks() == old(parser).toks(),
            extends_parse(old(parser)@, final(parser)@),
            old(parser)@.ptr <= final(parser)@.ptr,
            r is Some ==> old(parser)@.ptr < final(parser)@.ptr,
            (r, final(parser)@) == apply_exit(old(parser).toks(), old(parser)@, err),
        decreases rem(old(parser).toks(), old(parser)@), 102nat,
    {
        let matched = self.check_match(parser.get_cursor());
        parser.begin_range();
        if matched {
            self.parse(parser)
        } else {
            parser.no_match(err);
            None
        }
    }
}

} // verus!
