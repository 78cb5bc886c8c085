//! `member-access: primary ("." IDENT | "->" IDENT | "[" expr "]" | arguments)*`
use vstd::prelude::*;

use crate::ast::{ArrayAccess, Expr, FunctionAccess, StructAccess};
use crate::diagnostic::ErrMsg;
use crate::parser::rules::arguments::{apply_arguments, ArgumentsRule};
use crate::parser::rules::expr::{apply_expr, ExprRule};
use crate::parser::rules::path::{ident_of, located_ident};
use crate::parser::rules::primary::{apply_primary, PrimaryRule};
use crate::parser::{extends_parse, at, 
    advance, after, begin_range, consume_or_report, cur_kind, end_range, ends_with_eof, no_match,
    not_before, rem, state_wf, ExprParser, PState, ParserCursor,
};
use crate::token::{Token, TokenKind};

verus! {

pub struct MemberAccessRule {}

/// The rule always tries to match.
pub open spec fn member_access_check(toks: Seq<Token>, ptr: int) -> bool {
    true
}

/// Whether the current token starts an access.
pub open spec fn starts_access(k: TokenKind) -> bool {
    k == TokenKind::Dot || k == TokenKind::Arrow || k == TokenKind::LeftSquare || k == TokenKind::LeftParen
}

/// One access applied to `e`: `.IDENT`, `->IDENT`, `[expr]` (its `]` reported if missing)
/// or an argument list.
pub open spec fn access_step(toks: Seq<Token>, e: Expr, st: PState) -> (Option<Expr>, PState)
    decreases rem(toks, st), 318nat,
{
    if !(ends_with_eof(toks) && state_wf(toks, st)) {
        (None, st)
    } else {
        let k = cur_kind(toks, st);
        let st1 = begin_range(toks, st);
        if k == TokenKind::Dot || k == TokenKind::Arrow {
            let (id, st3) = consume_or_report(toks, advance(toks, st1), TokenKind::AnyIdentifier);
            match id {
                None => (None, st3),
                Some(t) => {
                    let (range, st4) = end_range(toks, st3);
                    (
                        Some(
                            Expr::StructAccess(
                                StructAccess { expr: Box::new(e), member: located_ident(t), is_direct: k == TokenKind::Dot, position: range },
                            ),
                        ),
                        st4,
                    )
                },
            }
        } else if k == TokenKind::LeftSquare {
            let (r, st3) = apply_expr(toks, advance(toks, st1), Some(ErrMsg::ExpectedExpression));
            match r {
                None => (None, st3),
                Some(index) => {
                    let st4 = consume_or_report(toks, st3, TokenKind::RightSquare).1;
                    let (range, st5) = end_range(toks, st4);
                    (Some(Expr::ArrayAccess(ArrayAccess { expr: Box::new(e), index: Box::new(index), position: range })), st5)
                },
            }
        } else {
            let (r, st2) = apply_arguments(toks, st1, Some(ErrMsg::ExpectedArguments));
            match r {
                None => (None, st2),
                Some(arguments) => {
                    let (range, st3) = end_range(toks, st2);
                    (Some(Expr::FunctionAccess(FunctionAccess { expr: Box::new(e), arguments, position: range })), st3)
                },
            }
        }
    }
}

/// The accesses after the primary expression, each applied to what came before. An argument
/// list that does not parse ends the accesses; any other access that does not parse makes
/// the rule fail.
pub open spec fn member_access_tail(toks: Seq<Token>, e: Expr, st: PState) -> (Option<Expr>, PState)
    decreases rem(toks, st), 319nat,
{
    if ends_with_eof(toks) && state_wf(toks, st) && starts_access(cur_kind(toks, st)) {
        match access_step(toks, e, st) {
            (None, st1) => if cur_kind(toks, st) == TokenKind::LeftParen {
                (Some(e), st1)
            } else {
                (None, st1)
            },
            (Some(e1), st1) => if after(toks, st, st1) {
                member_access_tail(toks, e1, st1)
            } else {
                (None, st1)
            },
        }
    } else {
        (Some(e), st)
    }
}

/// The member-access rule: a primary expression, then its accesses.
pub open spec fn parse_member_access(toks: Seq<Token>, st: PState) -> (Option<Expr>, PState)
    decreases rem(toks, st), 320nat,
{
    if !(ends_with_eof(toks) && state_wf(toks, st)) {
        (None, st)
    } else {
        let st1 = begin_range(toks, st);
        let (r, st2) = apply_primary(toks, st1, Some(ErrMsg::ExpectedExpression));
        match r {
            None => (None, st2),
            Some(e) => if not_before(toks, st, st2) {
                member_access_tail(toks, e, st2)
            } else {
                (None, st2)
            },
        }
    }
}

pub open spec fn apply_member_access(toks: Seq<Token>, st: PState, err: Option<ErrMsg>) -> (Option<Expr>, PState)
    decreases rem(toks, st), 322nat,
{
    let st1 = begin_range(toks, st);
    if member_access_check(toks, st.ptr) {
        parse_member_access(toks, st1)
    } else {
        (None, no_match(toks, st1, err))
    }
}

impl MemberAccessRule {
    pub fn name(&self) -> (s: String)
        ensures
            s@ == "MemberAccess"@,
    {
        String::from_str("MemberAccess")
    }

    pub fn check_match(&self, cursor: ParserCursor) -> (b: bool)
        requires
            cursor.ptr < cursor.tokens@.len(),
        ensures
            b == member_access_check(cursor.tokens@, cursor.ptr as int),
    {
        true
    }

    #[verifier::loop_isolation(false)]
    pub fn parse(&self, parser: &mut ExprParser) -> (r: Option<Expr>)
        requires
            old(parser).wf(),
        ensures
            final(parser).wf(),
            final(parser).toks() == old(parser).toks(),
            extends_parse(old(parser)@, final(parser)@),
            old(parser)@.ptr <= final(parser)@.ptr,
            r is Some ==> old(parser)@.ptr < final(parser)@.ptr,
            (r, final(parser)@) == parse_member_access(old(parser).toks(), old(parser)@),
        decreases rem(old(parser).toks(), old(parser)@), 320nat,
    {
        let ghost toks = parser.toks();
        parser.begin_range();
        let mut expr = match (PrimaryRule {}).apply(parser, Some(ErrMsg::ExpectedExpression)) {
            Some(e) => e,
            None => return None,
        };
        let ghost st2 = parser@;
        let ghost e2 = expr;
        loop
            invariant
                parser.wf(),
                parser.toks() == toks,
                extends_parse(old(parser)@, parser@),
                st2.ptr <= parser@.ptr,
                member_access_tail(toks, expr, parser@) == member_access_tail(toks, e2, st2),
            decreases rem(toks, parser@),
        {
            let k = match Self::access_start(parser) {
                Some(k) => k,
                None => return Some(expr),
            };
            if k == TokenKind::LeftParen {
                expr = match Self::parse_call_access(parser, expr) {
                    Ok(e) => e,
                    Err(e) => return Some(e),
                };
            } else {
                expr = match Self::parse_access(parser, expr) {
                    Some(e) => e,
                    None => return None,
                };
            }
        }
    }

    /// The kind of the current token, if it starts an access.
    fn access_start(parser: &ExprParser) -> (r: Option<TokenKind>)
        requires
            parser.wf(),
        ensures
            r == (if starts_access(cur_kind(parser.toks(), parser@)) {
                Some(cur_kind(parser.toks(), parser@))
            } else {
                None
            }),
    {
        let kinds = [TokenKind::Dot, TokenKind::Arrow, TokenKind::LeftSquare, TokenKind::LeftParen];
        proof {
            let toks = parser.toks();
            assert(kinds@[0] == TokenKind::Dot && kinds@[1] == TokenKind::Arrow && kinds@[2] == TokenKind::LeftSquare
                && kinds@[3] == TokenKind::LeftParen);
            let k0 = cur_kind(toks, parser@);
            if starts_access(k0) {
                if k0 == TokenKind::Dot {
                    assert(at(toks, parser@, kinds@[0]));
                } else if k0 == TokenKind::Arrow {
                    assert(at(toks, parser@, kinds@[1]));
                } else if k0 == TokenKind::LeftSquare {
                    assert(at(toks, parser@, kinds@[2]));
                } else {
                    assert(at(toks, parser@, kinds@[3]));
                }
            }
        }
        match parser.try_match(&kinds) {
            Some(token) => Some(token.value.kind()),
            None => None,
        }
    }

    /// An argument list applied to `expr`; where it does not parse, `expr` is given back.
    fn parse_call_access(parser: &mut ExprParser, expr: Expr) -> (r: Result<Expr, Expr>)
        requires
            old(parser).wf(),
            cur_kind(old(parser).toks(), old(parser)@) == TokenKind::LeftParen,
        ensures
            final(parser).wf(),
            final(parser).toks() == old(parser).toks(),
            extends_parse(old(parser)@, final(parser)@),
            old(parser)@.ptr <= final(parser)@.ptr,
            final(parser)@ == access_step(old(parser).toks(), expr, old(parser)@).1,
            match r {
                Ok(e) => old(parser)@.ptr < final(parser)@.ptr && access_step(old(parser).toks(), expr, old(parser)@).0
                    == Some(e),
                Err(e) => e == expr && access_step(old(parser).toks(), expr, old(parser)@).0 is None,
            },
        decreases rem(old(parser).toks(), old(parser)@), 318nat,
    {
        parser.begin_range();
        match (ArgumentsRule {}).apply(parser, Some(ErrMsg::ExpectedArguments)) {
            Some(arguments) => {
                let position = parser.end_range();
                Ok(Expr::FunctionAccess(FunctionAccess { expr: Box::new(expr), arguments, position }))
            },
            None => Err(expr),
        }
    }

    fn parse_access(parser: &mut ExprParser, expr: Expr) -> (r: Option<Expr>)
        requires
            old(parser).wf(),
            starts_access(cur_kind(old(parser).toks(), old(parser)@)),
        ensures
            final(parser).wf(),
            final(parser).toks() == old(parser).toks(),
            extends_parse(old(parser)@, final(parser)@),
            old(parser)@.ptr <= final(parser)@.ptr,
            r is Some ==> old(parser)@.ptr < final(parser)@.ptr,
            (r, final(parser)@) == access_step(old(parser).toks(), expr, old(parser)@),
        decreases rem(old(parser).toks(), old(parser)@), 318nat,
    {
        let k = parser.cur_kind();
        parser.begin_range();
        if k == TokenKind::Dot || k == TokenKind::Arrow {
            parser.next();
            let identifier = match parser.consume_or_diagnostic(TokenKind::AnyIdentifier) {
                Some(t) => t,
                None => return None,
            };
            let position = parser.end_range();
            Some(
                Expr::StructAccess(
                    StructAccess {
                        expr: Box::new(expr),
                        member: ident_of(identifier),
                        is_direct: k == TokenKind::Dot,
                        position,
                    },
                ),
            )
        } else if k == TokenKind::LeftSquare {
            parser.next();
            let index = match (ExprRule {}).apply(parser, Some(ErrMsg::ExpectedExpression)) {
                Some(e) => e,
                None => return None,
            };
            parser.consume_or_diagnostic(TokenKind::RightSquare);
            let position = parser.end_range();
            Some(Expr::ArrayAccess(ArrayAccess { expr: Box::new(expr), index: Box::new(index), position }))
        } else {
            let arguments = match (ArgumentsRule {}).apply(parser, Some(ErrMsg::ExpectedArguments)) {
                Some(a) => a,
                None => return None,
            };
            let position = parser.end_range();
            Some(Expr::FunctionAccess(FunctionAccess { expr: Box::new(expr), arguments, position }))
        }
    }

    pub(crate) fn apply(&self, parser: &mut ExprParser, err: Option<ErrMsg>) -> (r: Option<Expr>)
        requires
            old(parser).wf(),
        ensures
            final(parser).wf(),
            final(parser).toks() == old(parser).toks(),
            extends_parse(old(parser)@, final(parser)@),
            old(parser)@.ptr <= final(parser)@.ptr,
            r is Some ==> old(parser)@.ptr < final(parser)@.ptr,
            (r, final(parser)@) == apply_member_access(old(parser).toks(), old(parser)@, err),
        decreases rem(old(parser).toks(), old(parser)@), 322nat,
    {
        let matched = self.check_match(parser.get_cursor());
        parser.begin_range();
        if matched {
            self.parse(parser)
        } else {
            parser.no_match(err);
            None
        }
    }
}

} // verus!
