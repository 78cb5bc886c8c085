//! `statement: loop | if | block | for | while | exit | delete | declaration | assignment ";"`
use vstd::prelude::*;

use crate::ast::Expr;
use crate::diagnostic::ErrMsg;
use crate::parser::rules::assignment::{apply_assignment, assignment_check, AssignmentRule};
use crate::parser::rules::block::{apply_block, block_check, BlockRule};
use crate::parser::rules::declaration::{apply_declaration, declaration_check, DeclarationRule};
use crate::parser::rules::delete_expr::{apply_delete, delete_check, DeleteRule};
use crate::parser::rules::exit_expr::{apply_exit, exit_check, ExitRule};
use crate::parser::rules::for_loop::{apply_for, for_check, ForLoopRule};
use crate::parser::rules::if_block::{apply_if, if_check, IfBlockRule};
use crate::parser::rules::loop_expr::{apply_loop, loop_check, LoopRule};
use crate::parser::rules::while_loop::{apply_while, while_check, WhileLoopRule};
use crate::parser::{extends_parse, 
    begin_range, consume_or_report, no_match, rem, ExprParser, PState, ParserCursor,
};
use crate::token::{Token, TokenKind};

verus! {

pub struct StatementRule {}

/// The rule always tries to match.
pub open spec fn statement_check(toks: Seq<Token>, ptr: int) -> bool {
    true
}

/// The statement rule: the first alternative whose start matches is parsed; an assignment
/// (or bare expression) statement must be followed by `;`, which is reported if missing.
pub open spec fn parse_statement(toks: Seq<Token>, st: PState) -> (Option<Expr>, PState)
    decreases rem(toks, st), 500nat,
{
    if loop_check(toks, st.ptr) {
        let (r, st1) = apply_loop(toks, st, None);
        (match r { Some(x) => Some(Expr::Loop(x)), None => None }, st1)
    } else if if_check(toks, st.ptr) {
        let (r, st1) = apply_if(toks, st, None);
        (match r { Some(x) => Some(Expr::If(x)), None => None }, st1)
    } else if block_check(toks, st.ptr) {
        let (r, st1) = apply_block(toks, st, None);
        (match r { Some(x) => Some(Expr::Block(x)), None => None }, st1)
    } else if for_check(toks, st.ptr) {
        let (r, st1) = apply_for(toks, st, None);
        (match r { Some(x) => Some(Expr::Loop(x)), None => None }, st1)
    } else if while_check(toks, st.ptr) {
        let (r, st1) = apply_while(toks, st, None);
        (match r { Some(x) => Some(Expr::Loop(x)), None => None }, st1)
    } else if exit_check(toks, st.ptr) {
        let (r, st1) = apply_exit(toks, st, None);
        (match r { Some(x) => Some(Expr::Exit(x)), None => None }, st1)
    } else if delete_check(toks, st.ptr) {
        let (r, st1) = apply_delete(toks, st, None);
        (match r { Some(x) => Some(Expr::Delete(x)), None => None }, st1)
    } else if declaration_check(toks, st.ptr, true) {
        let (r, st1) = apply_declaration(toks, st, true, None);
        (match r { Some(x) => Some(Expr::Declaration(x)), None => None }, st1)
    } else if assignment_check(toks, st.ptr) {
        let (r, st1) = apply_assignment(toks, st, None);
        match r {
            None => (None, st1),
            Some(x) => (Some(x), consume_or_report(toks, st1, TokenKind::Semicolon).1),
        }
    } else {
        (None, st)
    }
}

pub open spec fn apply_statement(toks: Seq<Token>, st: PState, err: Option<ErrMsg>) -> (Option<Expr>, PState)
    decreases rem(toks, st), 502nat,
{
    let st1 = begin_range(toks, st);
    if statement_check(toks, st.ptr) {
        parse_statement(toks, st1)
    } else {
        (None, no_match(toks, st1, err))
    }
}

impl StatementRule {
    pub fn name(&self) -> (s: String)
        ensures
            s@ == "Statement"@,
    {
        String::from_str("Statement")
    }

    pub fn check_match(&self, cursor: ParserCursor) -> (b: bool)
        requires
            cursor.ptr < cursor.tokens@.len(),
        ensures
            b == statement_check(cursor.tokens@, cursor.ptr as int),
    {
        true
    }

    pub fn parse(&self, parser: &mut ExprParser) -> (r: Option<Expr>)
        requires
            old(parser).wf(),
        ensures
            final(parser).wf(),
            final(parser).toks() == old(parser).toks(),
            extends_parse(old(parser)@, final(parser)@),
            old(parser)@.ptr <= final(parser)@.ptr,
            r is Some ==> old(parser)@.ptr < final(parser)@.ptr,
            (r, final(parser)@) == parse_statement(old(parser).toks(), old(parser)@),
        decreases rem(old(parser).toks(), old(parser)@), 500nat,
    {
        if (LoopRule {}).check_match(parser.get_cursor()) {
            return match (LoopRule {}).apply(parser, None) {
                Some(x) => Some(Expr::Loop(x)),
                None => None,
            };
        }
        if (IfBlockRule {}).check_match(parser.get_cursor()) {
            return match (IfBlockRule {}).apply(parser, None) {
                Some(x) => Some(Expr::If(x)),
                None => None,
            };
        }
        if (BlockRule {}).check_match(parser.get_cursor()) {
            return match (BlockRule {}).apply(parser, None) {
                Some(x) => Some(Expr::Block(x)),
                None => None,
            };
        }
        if (ForLoopRule {}).check_match(parser.get_cursor()) {
            return match (ForLoopRule {}).apply(parser, None) {
                Some(x) => Some(Expr::Loop(x)),
                None => None,
            };
        }
        if (WhileLoopRule {}).check_match(parser.get_cursor()) {
            return match (WhileLoopRule {}).apply(parser, None) {
                Some(x) => Some(Expr::Loop(x)),
                None => None,
            };
        }
        if (ExitRule {}).check_match(parser.get_cursor()) {
            return match (ExitRule {}).apply(parser, None) {
                Some(x) => Some(Expr::Exit(x)),
                None => None,
            };
        }
        if (DeleteRule {}).check_match(parser.get_cursor()) {
            return match (DeleteRule {}).apply(parser, None) {
                Some(x) => Some(Expr::Delete(x)),
                None => None,
            };
        }
        let decl_rule = DeclarationRule { use_let: true };
        if decl_rule.check_match(parser.get_cursor()) {
            return match decl_rule.apply(parser, None) {
                Some(x) => Some(Expr::Declaration(x)),
                None => None,
            };
        }
        if (AssignmentRule {}).check_match(parser.get_cursor()) {
            let result = match (AssignmentRule {}).apply(parser, None) {
                Some(x) => x,
                None => return None,
            };
            parser.consume_or_diagnostic(TokenKind::Semicolon);
            return Some(result);
        }
        None
    }

    pub(crate) fn apply(&self, parser: &mut ExprParser, err: Option<ErrMsg>) -> (r: Option<Expr>)
        requires
            old(parser).wf(),
        ensures
            final(parser).wf(),
            final(parser).toks() == old(parser).toks(),
            extends_parse(old(parser)@, final(parser)@),
            old(parser)@.ptr <= final(parser)@.ptr,
            r is Some ==> old(parser)@.ptr < final(parser)@.ptr,
            (r, final(parser)@) == apply_statement(old(parser).toks(), old(parser)@, err),
        decreases rem(old(parser).toks(), old(parser)@), 502nat,
    {
        let matched = self.check_match(parser.get_cursor());
        parser.begin_range();
        if matched {
            self.parse(parser)
        } else {
            parser.no_match(err);
            None
        }
    }
}

} // verus!
