//! `declaration: "let"? type IDENT ("=" expr)? ";"?`: statements are written with `let` and
//! end with `;`; parameters have neither.
use vstd::prelude::*;

use crate::ast::{DeclarationExpr, Expr, ParsedType};
use crate::diagnostic::ErrMsg;
use crate::parser::rules::expr::{apply_expr, ExprRule};
use crate::parser::rules::parsed_type::{apply_type, ParsedTypeRule};
use crate::parser::rules::path::{ident_of, located_ident};
use crate::parser::{extends_parse, 
    advance, at, begin_range, consume_or_report, end_range, fresh_id, ends_with_eof, no_match, not_before, rem,
    state_wf, ExprParser, PState, ParserCursor,
};
use crate::token::{kind_matches, Token, TokenKind};

verus! {

pub struct DeclarationRule {
    pub use_let: bool,
}

/// A declaration written with `let` starts with `let`; one without always tries to match.
pub open spec fn declaration_check(toks: Seq<Token>, ptr: int, use_let: bool) -> bool {
    !use_let || kind_matches(toks[ptr].value.spec_kind(), TokenKind::Let)
}

/// The initializer `= expr`, if there is one; the outer `None` means that `=` came
/// without an expression.
pub open spec fn initializer(toks: Seq<Token>, st: PState) -> (Option<Option<Box<Expr>>>, PState)
    decreases rem(toks, st), 403nat,
{
    if !(ends_with_eof(toks) && state_wf(toks, st)) {
        (None, st)
    } else if at(toks, st, TokenKind::Assignment) {
        let (r, st1) = apply_expr(toks, advance(toks, st), Some(ErrMsg::ExpectedExpression));
        match r {
            None => (None, st1),
            Some(e) => (Some(Some(Box::new(e))), st1),
        }
    } else {
        (Some(None), st)
    }
}

/// What follows the type: the name, the initializer and, for a statement, its `;` (reported
/// if missing); the declaration is given a fresh node id.
pub open spec fn declaration_rest(toks: Seq<Token>, st: PState, declaration_type: ParsedType, use_let: bool) -> (
    Option<DeclarationExpr>,
    PState,
)
    decreases rem(toks, st), 98nat,
{
    if !(ends_with_eof(toks) && state_wf(toks, st)) {
        (None, st)
    } else {
        let (id, st1) = consume_or_report(toks, st, TokenKind::AnyIdentifier);
        match id {
            None => (None, st1),
            Some(name) => {
                let (init, st2) = initializer(toks, st1);
                match init {
                    None => (None, st2),
                    Some(expr) => {
                        let st3 = if use_let {
                            consume_or_report(toks, st2, TokenKind::Semicolon).1
                        } else {
                            st2
                        };
                        let (range, st4) = end_range(toks, st3);
                        let (id, st5) = fresh_id(st4);
                        (
                            Some(
                                DeclarationExpr { identifier: located_ident(name), declaration_type, expr, position: range, id },
                            ),
                            st5,
                        )
                    },
                }
            },
        }
    }
}

/// The declaration rule.
pub open spec fn parse_declaration(toks: Seq<Token>, st: PState, use_let: bool) -> (Option<DeclarationExpr>, PState)
    decreases rem(toks, st), 100nat,
{
    if !(ends_with_eof(toks) && state_wf(toks, st)) {
        (None, st)
    } else {
        let st1 = begin_range(toks, st);
        if use_let && !at(toks, st1, TokenKind::Let) {
            (None, st1)
        } else {
            let st2 = if use_let { advance(toks, st1) } else { st1 };
            let (t, st3) = apply_type(toks, st2, Some(ErrMsg::ExpectedType));
            match t {
                None => (None, st3),
                Some(declaration_type) => if !not_before(toks, st2, st3) {
                    (None, st3)
                } else {
                    declaration_rest(toks, st3, declaration_type, use_let)
                },
            }
        }
    }
}

pub open spec fn apply_declaration(toks: Seq<Token>, st: PState, use_let: bool, err: Option<ErrMsg>) -> (
    Option<DeclarationExpr>,
    PState,
)
    decreases rem(toks, st), 102nat,
{
    let st1 = begin_range(toks, st);
    if declaration_check(toks, st.ptr, use_let) {
        parse_declaration(toks, st1, use_let)
    } else {
        (None, no_match(toks, st1, err))
    }
}

impl DeclarationRule {
    pub fn name(&self) -> (s: String)
        ensures
            s@ == "Declaration"@,
    {
        String::from_str("Declaration")
    }

    pub fn check_match(&self, cursor: ParserCursor) -> (b: bool)
        requires
            cursor.ptr < cursor.tokens@.len(),
        ensures
            b == declaration_check(cursor.tokens@, cursor.ptr as int, self.use_let),
    {
        let mut cursor = cursor;
        !self.use_let || cursor.try_consume(TokenKind::Let)
    }

    pub fn parse(&self, parser: &mut ExprParser) -> (r: Option<DeclarationExpr>)
        requires
            old(parser).wf(),
        ensures
            final(parser).wf(),
            final(parser).toks() == old(parser).toks(),
            extends_parse(old(parser)@, final(parser)@),
            old(parser)@.ptr <= final(parser)@.ptr,
            r is Some ==> old(parser)@.ptr < final(parser)@.ptr,
            (r, final(parser)@) == parse_declaration(old(parser).toks(), old(parser)@, self.use_let),
        decreases rem(old(parser).toks(), old(parser)@), 100nat,
    {
        parser.begin_range();
        if self.use_let {
            if !parser.at(TokenKind::Let) {
                return None;
            }
            parser.next();
        }
        let declaration_type = match (ParsedTypeRule {}).apply(parser, Some(ErrMsg::ExpectedType)) {
            Some(t) => t,
            None => return None,
        };
        Self::parse_rest(parser, declaration_type, self.use_let)
    }

    fn parse_rest(parser: &mut ExprParser, declaration_type: ParsedType, use_let: bool) -> (r: Option<DeclarationExpr>)
        requires
            old(parser).wf(),
        ensures
            final(parser).wf(),
            final(parser).toks() == old(parser).toks(),
            extends_parse(old(parser)@, final(parser)@),
            old(parser)@.ptr <= final(parser)@.ptr,
            r is Some ==> old(parser)@.ptr < final(parser)@.ptr,
            (r, final(parser)@) == declaration_rest(old(parser).toks(), old(parser)@, declaration_type, use_let),
        decreases rem(old(parser).toks(), old(parser)@), 98nat,
    {
        let name = match parser.consume_or_diagnostic(TokenKind::AnyIdentifier) {
            Some(t) => ident_of(t),
            None => return None,
        };
        let expr = match Self::parse_initializer(parser) {
            Some(e) => e,
            None => return None,
        };
        if use_let {
            parser.consume_or_diagnostic(TokenKind::Semicolon);
        }
        let position = parser.end_range();
        let id = parser.fresh_id();
        Some(DeclarationExpr { identifier: name, declaration_type, expr, position, id })
    }

    fn parse_initializer(parser: &mut ExprParser) -> (r: Option<Option<Box<Expr>>>)
        requires
            old(parser).wf(),
        ensures
            final(parser).wf(),
            final(parser).toks() == old(parser).toks(),
            extends_parse(old(parser)@, final(parser)@),
            old(parser)@.ptr <= final(parser)@.ptr,
            (r, final(parser)@) == initializer(old(parser).toks(), old(parser)@),
        decreases rem(old(parser).toks(), old(parser)@), 403nat,
    {
        if parser.at(TokenKind::Assignment) {
            parser.next();
            match (ExprRule {}).apply(parser, Some(ErrMsg::ExpectedExpression)) {
                Some(e) => Some(Some(Box::new(e))),
                None => None,
            }
        } else {
            Some(None)
        }
    }

    pub(crate) fn apply(&self, parser: &mut ExprParser, err: Option<ErrMsg>) -> (r: Option<DeclarationExpr>)
        requires
            old(parser).wf(),
        ensures
            final(parser).wf(),
            final(parser).toks() == old(parser).toks(),
            extends_parse(old(parser)@, final(parser)@),
            old(parser)@.ptr <= final(parser)@.ptr,
            r is Some ==> old(parser)@.ptr < final(parser)@.ptr,
            (r, final(parser)@) == apply_declaration(old(parser).toks(), old(parser)@, self.use_let, err),
        decreases rem(old(parser).toks(), old(parser)@), 102nat,
    {
        let matched = self.check_match(parser.get_cursor());
        parser.begin_range();
        if matched {
            self.parse(parser)
        } else {
            parser.no_match(err);
            None
        }
    }
}

} // verus!
