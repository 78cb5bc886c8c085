//! `program: require* item*`
use vstd::prelude::*;

use crate::ast::{list_from_vec, list_of, Item, Program};
use crate::diagnostic::ErrMsg;
use crate::parser::rules::item::{apply_item, ItemRule};
use crate::parser::rules::require::{parse_require_items, require_items};
use crate::parser::{extends_parse, after, begin_range, end_range, ends_with_eof, no_match, rem, state_wf, ExprParser, PState, ParserCursor};
use crate::token::Token;

verus! {

pub struct ProgramRule {}

/// A program may start with any token.
pub open spec fn program_check(toks: Seq<Token>, ptr: int) -> bool {
    true
}

/// The items of a program, as long as they parse.
pub open spec fn program_items(toks: Seq<Token>, acc: Seq<Item>, st: PState) -> (Seq<Item>, PState)
    decreases rem(toks, st),
{
    if !(ends_with_eof(toks) && state_wf(toks, st)) {
        (acc, st)
    } else {
        let (i, st1) = apply_item(toks, st, None);
        match i {
            None => (acc, st1),
            Some(x) => if after(toks, st, st1) {
                program_items(toks, acc.push(x), st1)
            } else {
                (acc, st1)
            },
        }
    }
}

/// The program rule: the requires, then the items. It never fails; what follows the last
/// item that parses is left unread.
pub open spec fn parse_program(toks: Seq<Token>, st: PState) -> (Option<Program>, PState) {
    let st1 = begin_range(toks, st);
    let (reqs, st2) = require_items(toks, Seq::empty(), st1);
    let (items, st3) = program_items(toks, Seq::empty(), st2);
    let (range, st4) = end_range(toks, st3);
    (Some(Program { requires: list_of(reqs), items: list_of(items), position: range }), st4)
}

pub open spec fn apply_program(toks: Seq<Token>, st: PState, err: Option<ErrMsg>) -> (Option<Program>, PState) {
    let st1 = begin_range(toks, st);
    if program_check(toks, st.ptr) {
        parse_program(toks, st1)
    } else {
        (None, no_match(toks, st1, err))
    }
}

/// The program that a parse of `toks` from state `st` gives.
pub open spec fn program_of(toks: Seq<Token>, st: PState) -> Program {
    apply_program(toks, st, None).0->Some_0
}

#[verifier::loop_isolation(false)]
fn parse_items(parser: &mut ExprParser) -> (r: Vec<Item>)
    requires
        old(parser).wf(),
    ensures
        final(parser).wf(),
        final(parser).toks() == old(parser).toks(),
            extends_parse(old(parser)@, final(parser)@),
        old(parser)@.ptr <= final(parser)@.ptr,
        (r@, final(parser)@) == program_items(old(parser).toks(), Seq::empty(), old(parser)@),
{
    let ghost toks = parser.toks();
    let ghost st0 = parser@;
    let mut items: Vec<Item> = Vec::new();
    loop
        invariant
            parser.wf(),
            parser.toks() == toks,
            extends_parse(old(parser)@, parser@),
            st0.ptr <= parser@.ptr,
            program_items(toks, items@, parser@) == program_items(toks, Seq::empty(), st0),
        decreases rem(toks, parser@),
    {
        match (ItemRule {}).apply(parser, None) {
            Some(i) => items.push(i),
            None => break,
        }
    }
    items
}

impl ProgramRule {
    pub fn name(&self) -> (s: String)
        ensures
            s@ == "Program"@,
    {
        String::from_str("Program")
    }

    pub fn check_match(&self, cursor: ParserCursor) -> (b: bool)
        requires
            cursor.ptr < cursor.tokens@.len(),
        ensures
            b == program_check(cursor.tokens@, cursor.ptr as int),
    {
        true
    }

    pub fn parse(&self, parser: &mut ExprParser) -> (r: Option<Program>)
        requires
            old(parser).wf(),
        ensures
            final(parser).wf(),
            final(parser).toks() == old(parser).toks(),
            extends_parse(old(parser)@, final(parser)@),
            old(parser)@.ptr <= final(parser)@.ptr,
            r is Some,
            (r, final(parser)@) == parse_program(old(parser).toks(), old(parser)@),
    {
        parser.begin_range();
        let reqs = parse_require_items(parser);
        let items = parse_items(parser);
        let position = parser.end_range();
        Some(Program { requires: list_from_vec(reqs), items: list_from_vec(items), position })
    }

    pub(crate) fn apply(&self, parser: &mut ExprParser, err: Option<ErrMsg>) -> (r: Option<Program>)
        requires
            old(parser).wf(),
        ensures
            final(parser).wf(),
            final(parser).toks() == old(parser).toks(),
            extends_parse(old(parser)@, final(parser)@),
            old(parser)@.ptr <= final(parser)@.ptr,
            r is Some,
            (r, final(parser)@) == apply_program(old(parser).toks(), old(parser)@, err),
    {
        let matched = self.check_match(parser.get_cursor());
        parser.begin_range();
        if matched {
            self.parse(parser)
        } else {
            parser.no_match(err);
            None
        }
    }
}

impl ExprParser {
    /// Parses the whole token stream as a program. The diagnostics stay with the parser.
    pub fn parse(&mut self) -> (p: Program)
        requires
            old(self).wf(),
        ensures
            final(self).wf(),
            final(self).toks() == old(self).toks(),
            extends_parse(old(self)@, final(self)@),
            p == program_of(old(self).toks(), old(self)@),
            final(self)@ == apply_program(old(self).toks(), old(self)@, None).1,
    {
        (ProgramRule {}).apply(self, None).unwrap()
    }
}

} // verus!
