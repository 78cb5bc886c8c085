//! The binary expressions in one rule, from the loosest operator to the tightest:
//! `or`, `and`, `|`, `^`, `&`, equality, comparison, shifts, `+ -`, `* / %`, over casts.
//! Every level is left-associative.
use vstd::prelude::*;

use crate::ast::{BinaryExpr, Expr};
use crate::diagnostic::ErrMsg;
use crate::parser::rules::cast::{apply_cast, CastRule};
use crate::parser::{extends_parse, 
    advance, begin_range, binary_operator, binop_of, cur_kind, ends_with_eof, no_match, not_before, rem,
    state_wf, ExprParser, PState, ParserCursor,
};
use crate::token::{Token, TokenKind};

verus! {

pub struct BinaryExprRule {}

/// The rule always tries to match.
pub open spec fn binary_expr_check(toks: Seq<Token>, ptr: int) -> bool {
    true
}

/// Whether a token kind is an operator of level `level` (9 is `or`, 0 is `* / %`).
pub open spec fn level_op(level: nat, k: TokenKind) -> bool {
    if level == 9 {
        k == TokenKind::Or
    } else if level == 8 {
        k == TokenKind::And
    } else if level == 7 {
        k == TokenKind::Bar
    } else if level == 6 {
        k == TokenKind::Carat
    } else if level == 5 {
        k == TokenKind::Ampersand
    } else if level == 4 {
        k == TokenKind::Equal || k == TokenKind::NotEqual
    } else if level == 3 {
        k == TokenKind::Greater || k == TokenKind::GreaterEqual || k == TokenKind::Less || k == TokenKind::LessEqual
    } else if level == 2 {
        k == TokenKind::LeftShift || k == TokenKind::RightShift
    } else if level == 1 {
        k == TokenKind::Minus || k == TokenKind::Plus
    } else {
        k == TokenKind::Star || k == TokenKind::Slash || k == TokenKind::Percentage
    }
}

/// An operand of level `level`: an expression of the level below, or a cast at level 0.
pub open spec fn level_operand(toks: Seq<Token>, st: PState, level: nat) -> (Option<Expr>, PState)
    decreases level, 1nat, 0nat,
{
    if level == 0 {
        apply_cast(toks, st, None)
    } else {
        parse_level(toks, st, (level - 1) as nat)
    }
}

/// The operators of level `level` after its first operand, each joining what came before
/// with the next operand.
pub open spec fn level_tail(toks: Seq<Token>, e: Expr, st: PState, level: nat) -> (Option<Expr>, PState)
    decreases level, 3nat, rem(toks, st),
{
    if ends_with_eof(toks) && state_wf(toks, st) && level_op(level, cur_kind(toks, st)) {
        let op = binop_of(cur_kind(toks, st));
        let st1 = advance(toks, st);
        let (r, st2) = level_operand(toks, st1, level);
        match r {
            None => (None, st2),
            Some(right) => if not_before(toks, st1, st2) {
                level_tail(toks, Expr::Binary(BinaryExpr { left: Box::new(e), right: Box::new(right), operator: op }), st2, level)
            } else {
                (None, st2)
            },
        }
    } else {
        (Some(e), st)
    }
}

/// An expression of level `level`: a first operand, then the level's operators.
pub open spec fn parse_level(toks: Seq<Token>, st: PState, level: nat) -> (Option<Expr>, PState)
    decreases level, 4nat, 0nat,
{
    let (r, st1) = level_operand(toks, st, level);
    match r {
        None => (None, st1),
        Some(e) => if not_before(toks, st, st1) {
            level_tail(toks, e, st1, level)
        } else {
            (None, st1)
        },
    }
}

/// The binary-expression rule: an expression of the loosest level.
pub open spec fn parse_binary_expr(toks: Seq<Token>, st: PState) -> (Option<Expr>, PState) {
    parse_level(toks, st, 9)
}

pub open spec fn apply_binary_expr(toks: Seq<Token>, st: PState, err: Option<ErrMsg>) -> (Option<Expr>, PState) {
    let st1 = begin_range(toks, st);
    if binary_expr_check(toks, st.ptr) {
        parse_binary_expr(toks, st1)
    } else {
        (None, no_match(toks, st1, err))
    }
}

impl BinaryExprRule {
    pub fn name(&self) -> (s: String)
        ensures
            s@ == "BinaryExpr"@,
    {
        String::from_str("BinaryExpr")
    }

    pub fn check_match(&self, cursor: ParserCursor) -> (b: bool)
        requires
            cursor.ptr < cursor.tokens@.len(),
        ensures
            b == binary_expr_check(cursor.tokens@, cursor.ptr as int),
    {
        true
    }

    pub fn parse(&self, parser: &mut ExprParser) -> (r: Option<Expr>)
        requires
            old(parser).wf(),
        ensures
            final(parser).wf(),
            final(parser).toks() == old(parser).toks(),
            extends_parse(old(parser)@, final(parser)@),
            old(parser)@.ptr <= final(parser)@.ptr,
            (r, final(parser)@) == parse_binary_expr(old(parser).toks(), old(parser)@),
    {
        self.parse_condition(parser)
    }

    pub(crate) fn apply(&self, parser: &mut ExprParser, err: Option<ErrMsg>) -> (r: Option<Expr>)
        requires
            old(parser).wf(),
        ensures
            final(parser).wf(),
            final(parser).toks() == old(parser).toks(),
            extends_parse(old(parser)@, final(parser)@),
            old(parser)@.ptr <= final(parser)@.ptr,
            (r, final(parser)@) == apply_binary_expr(old(parser).toks(), old(parser)@, err),
    {
        let matched = self.check_match(parser.get_cursor());
        parser.begin_range();
        if matched {
            self.parse(parser)
        } else {
            parser.no_match(err);
            None
        }
    }

    /// `condition: boolean-factor ("or" boolean-factor)*`
    #[verifier::loop_isolation(false)]
    fn parse_condition(&self, parser: &mut ExprParser) -> (r: Option<Expr>)
        requires
            old(parser).wf(),
        ensures
            final(parser).wf(),
            final(parser).toks() == old(parser).toks(),
            extends_parse(old(parser)@, final(parser)@),
            old(parser)@.ptr <= final(parser)@.ptr,
            (r, final(parser)@) == parse_level(old(parser).toks(), old(parser)@, 9),
    {
        let ghost toks = parser.toks();
        reveal_with_fuel(parse_level, 2);
        reveal_with_fuel(level_operand, 2);
        reveal_with_fuel(level_tail, 2);
        let mut expr = match self.parse_boolean_factor(parser) {
            Some(e) => e,
            None => return None,
        };
        let ghost st1 = parser@;
        let ghost e1 = expr;
        loop
            invariant
                parser.wf(),
                parser.toks() == toks,
                extends_parse(old(parser)@, parser@),
                st1.ptr <= parser@.ptr,
                level_tail(toks, expr, parser@, 9) == level_tail(toks, e1, st1, 9),
            decreases rem(toks, parser@),
        {
            let kind = parser.cur_kind();
            if !(kind == TokenKind::Or) {
                return Some(expr);
            }
            let operator = binary_operator(kind);
            parser.next();
            let right = match self.parse_boolean_factor(parser) {
                Some(e) => e,
                None => return None,
            };
            expr = Expr::Binary(BinaryExpr { left: Box::new(expr), right: Box::new(right), operator });
        }
    }

    /// `boolean-factor: bitwise-term ("and" bitwise-term)*`
    #[verifier::loop_isolation(false)]
    fn parse_boolean_factor(&self, parser: &mut ExprParser) -> (r: Option<Expr>)
        requires
            old(parser).wf(),
        ensures
            final(parser).wf(),
            final(parser).toks() == old(parser).toks(),
            extends_parse(old(parser)@, final(parser)@),
            old(parser)@.ptr <= final(parser)@.ptr,
            (r, final(parser)@) == parse_level(old(parser).toks(), old(parser)@, 8),
    {
        let ghost toks = parser.toks();
        reveal_with_fuel(parse_level, 2);
        reveal_with_fuel(level_operand, 2);
        reveal_with_fuel(level_tail, 2);
        let mut expr = match self.parse_bitwise_term(parser) {
            Some(e) => e,
            None => return None,
        };
        let ghost st1 = parser@;
        let ghost e1 = expr;
        loop
            invariant
                parser.wf(),
                parser.toks() == toks,
                extends_parse(old(parser)@, parser@),
                st1.ptr <= parser@.ptr,
                level_tail(toks, expr, parser@, 8) == level_tail(toks, e1, st1, 8),
            decreases rem(toks, parser@),
        {
            let kind = parser.cur_kind();
            if !(kind == TokenKind::And) {
                return Some(expr);
            }
            let operator = binary_operator(kind);
            parser.next();
            let right = match self.parse_bitwise_term(parser) {
                Some(e) => e,
                None => return None,
            };
            expr = Expr::Binary(BinaryExpr { left: Box::new(expr), right: Box::new(right), operator });
        }
    }

    /// `bitwise-term: bitwise-xor ("|" bitwise-xor)*`
    #[verifier::loop_isolation(false)]
    fn parse_bitwise_term(&self, parser: &mut ExprParser) -> (r: Option<Expr>)
        requires
            old(parser).wf(),
        ensures
            final(parser).wf(),
            final(parser).toks() == old(parser).toks(),
            extends_parse(old(parser)@, final(parser)@),
            old(parser)@.ptr <= final(parser)@.ptr,
            (r, final(parser)@) == parse_level(old(parser).toks(), old(parser)@, 7),
    {
        let ghost toks = parser.toks();
        reveal_with_fuel(parse_level, 2);
        reveal_with_fuel(level_operand, 2);
        reveal_with_fuel(level_tail, 2);
        let mut expr = match self.parse_bitwise_xor(parser) {
            Some(e) => e,
            None => return None,
        };
        let ghost st1 = parser@;
        let ghost e1 = expr;
        loop
            invariant
                parser.wf(),
                parser.toks() == toks,
                extends_parse(old(parser)@, parser@),
                st1.ptr <= parser@.ptr,
                level_tail(toks, expr, parser@, 7) == level_tail(toks, e1, st1, 7),
            decreases rem(toks, parser@),
        {
            let kind = parser.cur_kind();
            if !(kind == TokenKind::Bar) {
                return Some(expr);
            }
            let operator = binary_operator(kind);
            parser.next();
            let right = match self.parse_bitwise_xor(parser) {
                Some(e) => e,
                None => return None,
            };
            expr = Expr::Binary(BinaryExpr { left: Box::new(expr), right: Box::new(right), operator });
        }
    }

    /// `bitwise-xor: bitwise-factor ("^" bitwise-factor)*`
    #[verifier::loop_isolation(false)]
    fn parse_bitwise_xor(&self, parser: &mut ExprParser) -> (r: Option<Expr>)
        requires
            old(parser).wf(),
        ensures
            final(parser).wf(),
            final(parser).toks() == old(parser).toks(),
            extends_parse(old(parser)@, final(parser)@),
            old(parser)@.ptr <= final(parser)@.ptr,
            (r, final(parser)@) == parse_level(old(parser).toks(), old(parser)@, 6),
    {
        let ghost toks = parser.toks();
        reveal_with_fuel(parse_level, 2);
        reveal_with_fuel(level_operand, 2);
        reveal_with_fuel(level_tail, 2);
        let mut expr = match self.parse_bitwise_factor(parser) {
            Some(e) => e,
            None => return None,
        };
        let ghost st1 = parser@;
        let ghost e1 = expr;
        loop
            invariant
                parser.wf(),
                parser.toks() == toks,
                extends_parse(old(parser)@, parser@),
                st1.ptr <= parser@.ptr,
                level_tail(toks, expr, parser@, 6) == level_tail(toks, e1, st1, 6),
            decreases rem(toks, parser@),
        {
            let kind = parser.cur_kind();
            if !(kind == TokenKind::Carat) {
                return Some(expr);
            }
            let operator = binary_operator(kind);
            parser.next();
            let right = match self.parse_bitwise_factor(parser) {
                Some(e) => e,
                None => return None,
            };
            expr = Expr::Binary(BinaryExpr { left: Box::new(expr), right: Box::new(right), operator });
        }
    }

    /// `bitwise-factor: equality ("&" equality)*`
    #[verifier::loop_isolation(false)]
    fn parse_bitwise_factor(&self, parser: &mut ExprParser) -> (r: Option<Expr>)
        requires
            old(parser).wf(),
        ensures
            final(parser).wf(),
            final(parser).toks() == old(parser).toks(),
            extends_parse(old(parser)@, final(parser)@),
            old(parser)@.ptr <= final(parser)@.ptr,
            (r, final(parser)@) == parse_level(old(parser).toks(), old(parser)@, 5),
    {
        let ghost toks = parser.toks();
        reveal_with_fuel(parse_level, 2);
        reveal_with_fuel(level_operand, 2);
        reveal_with_fuel(level_tail, 2);
        let mut expr = match self.parse_equality(parser) {
            Some(e) => e,
            None => return None,
        };
        let ghost st1 = parser@;
        let ghost e1 = expr;
        loop
            invariant
                parser.wf(),
                parser.toks() == toks,
                extends_parse(old(parser)@, parser@),
                st1.ptr <= parser@.ptr,
                level_tail(toks, expr, parser@, 5) == level_tail(toks, e1, st1, 5),
            decreases rem(toks, parser@),
        {
            let kind = parser.cur_kind();
            if !(kind == TokenKind::Ampersand) {
                return Some(expr);
            }
            let operator = binary_operator(kind);
            parser.next();
            let right = match self.parse_equality(parser) {
                Some(e) => e,
                None => return None,
            };
            expr = Expr::Binary(BinaryExpr { left: Box::new(expr), right: Box::new(right), operator });
        }
    }

    /// `equality: comparison (("==" | "!=") comparison)*`
    #[verifier::loop_isolation(false)]
    fn parse_equality(&self, parser: &mut ExprParser) -> (r: Option<Expr>)
        requires
            old(parser).wf(),
        ensures
            final(parser).wf(),
            final(parser).toks() == old(parser).toks(),
            extends_parse(old(parser)@, final(parser)@),
            old(parser)@.ptr <= final(parser)@.ptr,
            (r, final(parser)@) == parse_level(old(parser).toks(), old(parser)@, 4),
    {
        let ghost toks = parser.toks();
        reveal_with_fuel(parse_level, 2);
        reveal_with_fuel(level_operand, 2);
        reveal_with_fuel(level_tail, 2);
        let mut expr = match self.parse_comparison(parser) {
            Some(e) => e,
            None => return None,
        };
        let ghost st1 = parser@;
        let ghost e1 = expr;
        loop
            invariant
                parser.wf(),
                parser.toks() == toks,
                extends_parse(old(parser)@, parser@),
                st1.ptr <= parser@.ptr,
                level_tail(toks, expr, parser@, 4) == level_tail(toks, e1, st1, 4),
            decreases rem(toks, parser@),
        {
            let kind = parser.cur_kind();
            if !(kind == TokenKind::Equal || kind == TokenKind::NotEqual) {
                return Some(expr);
            }
            let operator = binary_operator(kind);
            parser.next();
            let right = match self.parse_comparison(parser) {
                Some(e) => e,
                None => return None,
            };
            expr = Expr::Binary(BinaryExpr { left: Box::new(expr), right: Box::new(right), operator });
        }
    }

    /// `comparison: bitwise-shift (("<" | "<=" | ">" | ">=") bitwise-shift)*`
    #[verifier::loop_isolation(false)]
    fn parse_comparison(&self, parser: &mut ExprParser) -> (r: Option<Expr>)
        requires
            old(parser).wf(),
        ensures
            final(parser).wf(),
            final(parser).toks() == old(parser).toks(),
            extends_parse(old(parser)@, final(parser)@),
            old(parser)@.ptr <= final(parser)@.ptr,
            (r, final(parser)@) == parse_level(old(parser).toks(), old(parser)@, 3),
    {
        let ghost toks = parser.toks();
        reveal_with_fuel(parse_level, 2);
        reveal_with_fuel(level_operand, 2);
        reveal_with_fuel(level_tail, 2);
        let mut expr = match self.parse_bitwise_shift(parser) {
            Some(e) => e,
            None => return None,
        };
        let ghost st1 = parser@;
        let ghost e1 = expr;
        loop
            invariant
                parser.wf(),
                parser.toks() == toks,
                extends_parse(old(parser)@, parser@),
                st1.ptr <= parser@.ptr,
                level_tail(toks, expr, parser@, 3) == level_tail(toks, e1, st1, 3),
            decreases rem(toks, parser@),
        {
            let kind = parser.cur_kind();
            if !(kind == TokenKind::Greater || kind == TokenKind::GreaterEqual || kind == TokenKind::Less || kind == TokenKind::LessEqual) {
                return Some(expr);
            }
            let operator = binary_operator(kind);
            parser.next();
            let right = match self.parse_bitwise_shift(parser) {
                Some(e) => e,
                None => return None,
            };
            expr = Expr::Binary(BinaryExpr { left: Box::new(expr), right: Box::new(right), operator });
        }
    }

    /// `bitwise-shift: arithmetic-term (("<<" | ">>") arithmetic-term)*`
    #[verifier::loop_isolation(false)]
    fn parse_bitwise_shift(&self, parser: &mut ExprParser) -> (r: Option<Expr>)
        requires
            old(parser).wf(),
        ensures
            final(parser).wf(),
            final(parser).toks() == old(parser).toks(),
            extends_parse(old(parser)@, final(parser)@),
            old(parser)@.ptr <= final(parser)@.ptr,
            (r, final(parser)@) == parse_level(old(parser).toks(), old(parser)@, 2),
    {
        let ghost toks = parser.toks();
        reveal_with_fuel(parse_level, 2);
        reveal_with_fuel(level_operand, 2);
        reveal_with_fuel(level_tail, 2);
        let mut expr = match self.parse_arithmetic_term(parser) {
            Some(e) => e,
            None => return None,
        };
        let ghost st1 = parser@;
        let ghost e1 = expr;
        loop
            invariant
                parser.wf(),
                parser.toks() == toks,
                extends_parse(old(parser)@, parser@),
                st1.ptr <= parser@.ptr,
                level_tail(toks, expr, parser@, 2) == level_tail(toks, e1, st1, 2),
            decreases rem(toks, parser@),
        {
            let kind = parser.cur_kind();
            if !(kind == TokenKind::LeftShift || kind == TokenKind::RightShift) {
                return Some(expr);
            }
            let operator = binary_operator(kind);
            parser.next();
            let right = match self.parse_arithmetic_term(parser) {
                Some(e) => e,
                None => return None,
            };
            expr = Expr::Binary(BinaryExpr { left: Box::new(expr), right: Box::new(right), operator });
        }
    }

    /// `arithmetic-term: arithmetic-factor (("-" | "+") arithmetic-factor)*`
    #[verifier::loop_isolation(false)]
    fn parse_arithmetic_term(&self, parser: &mut ExprParser) -> (r: Option<Expr>)
        requires
            old(parser).wf(),
        ensures
            final(parser).wf(),
            final(parser).toks() == old(parser).toks(),
            extends_parse(old(parser)@, final(parser)@),
            old(parser)@.ptr <= final(parser)@.ptr,
            (r, final(parser)@) == parse_level(old(parser).toks(), old(parser)@, 1),
    {
        let ghost toks = parser.toks();
        reveal_with_fuel(parse_level, 2);
        reveal_with_fuel(level_operand, 2);
        reveal_with_fuel(level_tail, 2);
        let mut expr = match self.parse_arithmetic_factor(parser) {
            Some(e) => e,
            None => return None,
        };
        let ghost st1 = parser@;
        let ghost e1 = expr;
        loop
            invariant
                parser.wf(),
                parser.toks() == toks,
                extends_parse(old(parser)@, parser@),
                st1.ptr <= parser@.ptr,
                level_tail(toks, expr, parser@, 1) == level_tail(toks, e1, st1, 1),
            decreases rem(toks, parser@),
        {
            let kind = parser.cur_kind();
            if !(kind == TokenKind::Minus || kind == TokenKind::Plus) {
                return Some(expr);
            }
            let operator = binary_operator(kind);
            parser.next();
            let right = match self.parse_arithmetic_factor(parser) {
                Some(e) => e,
                None => return None,
            };
            expr = Expr::Binary(BinaryExpr { left: Box::new(expr), right: Box::new(right), operator });
        }
    }

    /// `arithmetic-factor: cast (("*" | "/" | "%") cast)*`
    #[verifier::loop_isolation(false)]
    fn parse_arithmetic_factor(&self, parser: &mut ExprParser) -> (r: Option<Expr>)
        requires
            old(parser).wf(),
        ensures
            final(parser).wf(),
            final(parser).toks() == old(parser).toks(),
            extends_parse(old(parser)@, final(parser)@),
            old(parser)@.ptr <= final(parser)@.ptr,
            (r, final(parser)@) == parse_level(old(parser).toks(), old(parser)@, 0),
    {
        let ghost toks = parser.toks();
        reveal_with_fuel(parse_level, 2);
        reveal_with_fuel(level_operand, 2);
        reveal_with_fuel(level_tail, 2);
        let mut expr = match (CastRule {}).apply(parser, None) {
            Some(e) => e,
            None => return None,
        };
        let ghost st1 = parser@;
        let ghost e1 = expr;
        loop
            invariant
                parser.wf(),
                parser.toks() == toks,
                extends_parse(old(parser)@, parser@),
                st1.ptr <= parser@.ptr,
                level_tail(toks, expr, parser@, 0) == level_tail(toks, e1, st1, 0),
            decreases rem(toks, parser@),
        {
            let kind = parser.cur_kind();
            if !(kind == TokenKind::Star || kind == TokenKind::Slash || kind == TokenKind::Percentage) {
                return Some(expr);
            }
            let operator = binary_operator(kind);
            parser.next();
            let right = match (CastRule {}).apply(parser, None) {
                Some(e) => e,
                None => return None,
            };
            expr = Expr::Binary(BinaryExpr { left: Box::new(expr), right: Box::new(right), operator });
        }
    }
}

} // verus!
