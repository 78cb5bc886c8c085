//! `item: main | function | struct | impl`, tried in that order by their first token.
use vstd::prelude::*;

use crate::ast::Item;
use crate::diagnostic::ErrMsg;
use crate::parser::rules::function_item::{apply_function, function_check, FunctionRule};
use crate::parser::rules::impl_block::{apply_impl, impl_check, ImplBlockRule};
use crate::parser::rules::main_item::{apply_main, main_check, MainItemRule};
use crate::parser::rules::struct_item::{apply_struct, struct_check, StructRule};
use crate::parser::{extends_parse, begin_range, no_match, ExprParser, PState, ParserCursor};
use crate::token::Token;

verus! {

pub struct ItemRule {}

/// An item starts as one of its kinds does.
pub open spec fn item_check(toks: Seq<Token>, ptr: int) -> bool {
    main_check(toks, ptr) || function_check(toks, ptr) || struct_check(toks, ptr) || impl_check(toks, ptr)
}

/// The item rule: the first kind whose start matches is applied.
pub open spec fn parse_item(toks: Seq<Token>, st: PState) -> (Option<Item>, PState) {
    if main_check(toks, st.ptr) {
        let (m, st1) = apply_main(toks, st, None);
        match m {
            Some(x) => (Some(Item::Main(x)), st1),
            None => (None, st1),
        }
    } else if function_check(toks, st.ptr) {
        let (f, st1) = apply_function(toks, st, None);
        match f {
            Some(x) => (Some(Item::Function(x)), st1),
            None => (None, st1),
        }
    } else if struct_check(toks, st.ptr) {
        let (s, st1) = apply_struct(toks, st, None);
        match s {
            Some(x) => (Some(Item::Struct(x)), st1),
            None => (None, st1),
        }
    } else if impl_check(toks, st.ptr) {
        let (i, st1) = apply_impl(toks, st, None);
        match i {
            Some(x) => (Some(Item::Impl(x)), st1),
            None => (None, st1),
        }
    } else {
        (None, st)
    }
}

#[verifier::opaque]
pub open spec fn apply_item(toks: Seq<Token>, st: PState, err: Option<ErrMsg>) -> (Option<Item>, PState) {
    let st1 = begin_range(toks, st);
    if item_check(toks, st.ptr) {
        parse_item(toks, st1)
    } else {
        (None, no_match(toks, st1, err))
    }
}

impl ItemRule {
    pub fn name(&self) -> (s: String)
        ensures
            s@ == "Item"@,
    {
        String::from_str("Item")
    }

    pub fn check_match(&self, cursor: ParserCursor) -> (b: bool)
        requires
            cursor.ptr < cursor.tokens@.len(),
        ensures
            b == item_check(cursor.tokens@, cursor.ptr as int),
    {
        (MainItemRule {}).check_match(cursor) || (FunctionRule {}).check_match(cursor) || (StructRule {}).check_match(
            cursor,
        ) || (ImplBlockRule {}).check_match(cursor)
    }

    pub fn parse(&self, parser: &mut ExprParser) -> (r: Option<Item>)
        requires
            old(parser).wf(),
        ensures
            final(parser).wf(),
            final(parser).toks() == old(parser).toks(),
            extends_parse(old(parser)@, final(parser)@),
            old(parser)@.ptr <= final(parser)@.ptr,
            r is Some ==> old(parser)@.ptr < final(parser)@.ptr,
            (r, final(parser)@) == parse_item(old(parser).toks(), old(parser)@),
    {
        if (MainItemRule {}).check_match(parser.get_cursor()) {
            return match (MainItemRule {}).apply(parser, None) {
                Some(x) => Some(Item::Main(x)),
                None => None,
            };
        }
        if (FunctionRule {}).check_match(parser.get_cursor()) {
            return match (FunctionRule {}).apply(parser, None) {
                Some(x) => Some(Item::Function(x)),
                None => None,
            };
        }
        if (StructRule {}).check_match(parser.get_cursor()) {
            return match (StructRule {}).apply(parser, None) {
                Some(x) => Some(Item::Struct(x)),
                None => None,
            };
        }
        if (ImplBlockRule {}).check_match(parser.get_cursor()) {
            return match (ImplBlockRule {}).apply(parser, None) {
                Some(x) => Some(Item::Impl(x)),
                None => None,
            };
        }
        None
    }

    pub(crate) fn apply(&self, parser: &mut ExprParser, err: Option<ErrMsg>) -> (r: Option<Item>)
        requires
            old(parser).wf(),
        ensures
            final(parser).wf(),
            final(parser).toks() == old(parser).toks(),
            extends_parse(old(parser)@, final(parser)@),
            old(parser)@.ptr <= final(parser)@.ptr,
            r is Some ==> old(parser)@.ptr < final(parser)@.ptr,
            (r, final(parser)@) == apply_item(old(parser).toks(), old(parser)@, err),
    {
        proof {
            reveal(apply_item);
        }
        let matched = self.check_match(parser.get_cursor());
        parser.begin_range();
        if matched {
            self.parse(parser)
        } else {
            parser.no_match(err);
            None
        }
    }
}

} // verus!
