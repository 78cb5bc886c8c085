//! What the parser promises beyond each rule's own steps: binary operators keep their
//! operands in source order and chain to the left; a for loop keeps its condition and its
//! increment apart; `.` and `->` give direct and indirect struct accesses.
use vstd::prelude::*;

use crate::ast::{BinaryExpr, BinaryOperator, DeclarationExpr, ExitType, Expr, UnaryOperator};
use crate::diagnostic::ErrMsg;
use crate::parser::rules::assignment::{apply_assignment, parse_assignment};
use crate::parser::rules::block::apply_block;
use crate::parser::rules::cast::parse_cast;
use crate::parser::rules::exit_expr::{exit_after_keyword, exit_label, exit_rest, exit_type_of, is_exit_kind, parse_exit};
use crate::parser::rules::if_block::{else_branch, parse_if};
use crate::parser::rules::loop_expr::label_part;
use crate::parser::rules::parsed_type::apply_type;
use crate::parser::rules::while_loop::parse_while;
use crate::parser::rules::binary_expr::{level_op, level_operand, level_tail};
use crate::parser::rules::boolean_factor::{apply_boolean_factor, boolean_factor_tail};
use crate::parser::rules::comparison::{apply_comparison, comparison_tail};
use crate::parser::rules::condition::condition_tail;
use crate::parser::rules::equality::{apply_equality, equality_tail};
use crate::parser::rules::expr::apply_expr;
use crate::parser::rules::factor::{apply_factor, factor_tail};
use crate::parser::rules::for_loop::for_rest;
use crate::parser::rules::member_access::access_step;
use crate::parser::rules::term::{apply_term, parse_term, term_tail};
use crate::parser::rules::unary::{apply_unary, parse_unary};
use crate::parser::{advance, at, binop_of, begin_range, consume_or_report, cur_kind, ends_with_eof, not_before, state_wf, PState};
use crate::token::{Token, TokenKind, TokenType};

verus! {

/// The operator that a binary operator token is written for.
pub open spec fn written_operator(k: TokenKind) -> BinaryOperator {
    if k == TokenKind::Or {
        BinaryOperator::Or
    } else if k == TokenKind::And {
        BinaryOperator::And
    } else if k == TokenKind::Bar {
        BinaryOperator::BitOr
    } else if k == TokenKind::Carat {
        BinaryOperator::BitXor
    } else if k == TokenKind::Ampersand {
        BinaryOperator::BitAnd
    } else if k == TokenKind::Equal {
        BinaryOperator::Equal
    } else if k == TokenKind::NotEqual {
        BinaryOperator::NotEqual
    } else if k == TokenKind::Greater {
        BinaryOperator::Greater
    } else if k == TokenKind::GreaterEqual {
        BinaryOperator::GreaterEqual
    } else if k == TokenKind::Less {
        BinaryOperator::Less
    } else if k == TokenKind::LessEqual {
        BinaryOperator::LessEqual
    } else if k == TokenKind::LeftShift {
        BinaryOperator::LeftShift
    } else if k == TokenKind::RightShift {
        BinaryOperator::RightShift
    } else if k == TokenKind::Plus {
        BinaryOperator::Plus
    } else if k == TokenKind::Minus {
        BinaryOperator::Minus
    } else if k == TokenKind::Star {
        BinaryOperator::Multiply
    } else if k == TokenKind::Slash {
        BinaryOperator::Divide
    } else {
        BinaryOperator::Modulo
    }
}

/// The binary expression `left op right`.
pub open spec fn joined(left: Expr, op: TokenKind, right: Expr) -> Expr {
    Expr::Binary(BinaryExpr { left: Box::new(left), right: Box::new(right), operator: written_operator(op) })
}

/// The operators `or`: with no such operator next, what came before is the result;
/// with one, what came before becomes the left operand and the operand after the operator
/// the right one, and the chain goes on from there, so chains associate to the left.
pub proof fn lemma_condition_operands_in_order(toks: Seq<Token>, e: Expr, st: PState, right: Expr, st2: PState)
    requires
        ends_with_eof(toks),
        state_wf(toks, st),
    ensures
        !(cur_kind(toks, st) == TokenKind::Or) ==> condition_tail(toks, e, st) == (Some(e), st),
        (cur_kind(toks, st) == TokenKind::Or) && apply_boolean_factor(toks, advance(toks, st), None) == (Some(right), st2) && not_before(
            toks,
            advance(toks, st),
            st2,
        ) ==> condition_tail(toks, e, st) == condition_tail(toks, joined(e, cur_kind(toks, st), right), st2),
{
    let k = cur_kind(toks, st);
    assert(binop_of(k) == written_operator(k));
}

/// The operators `and`: with no such operator next, what came before is the result;
/// with one, what came before becomes the left operand and the operand after the operator
/// the right one, and the chain goes on from there, so chains associate to the left.
pub proof fn lemma_boolean_factor_operands_in_order(toks: Seq<Token>, e: Expr, st: PState, right: Expr, st2: PState)
    requires
        ends_with_eof(toks),
        state_wf(toks, st),
    ensures
        !(cur_kind(toks, st) == TokenKind::And) ==> boolean_factor_tail(toks, e, st) == (Some(e), st),
        (cur_kind(toks, st) == TokenKind::And) && apply_equality(toks, advance(toks, st), Some(ErrMsg::ExpectedExpression)) == (Some(right), st2) && not_before(
            toks,
            advance(toks, st),
            st2,
        ) ==> boolean_factor_tail(toks, e, st) == boolean_factor_tail(toks, joined(e, cur_kind(toks, st), right), st2),
{
    let k = cur_kind(toks, st);
    assert(binop_of(k) == written_operator(k));
}

/// The operators `==` and `!=`: with no such operator next, what came before is the result;
/// with one, what came before becomes the left operand and the operand after the operator
/// the right one, and the chain goes on from there, so chains associate to the left.
pub proof fn lemma_equality_operands_in_order(toks: Seq<Token>, e: Expr, st: PState, right: Expr, st2: PState)
    requires
        ends_with_eof(toks),
        state_wf(toks, st),
    ensures
        !(cur_kind(toks, st) == TokenKind::Equal || cur_kind(toks, st) == TokenKind::NotEqual) ==> equality_tail(toks, e, st) == (Some(e), st),
        (cur_kind(toks, st) == TokenKind::Equal || cur_kind(toks, st) == TokenKind::NotEqual) && apply_comparison(toks, advance(toks, st), None) == (Some(right), st2) && not_before(
            toks,
            advance(toks, st),
            st2,
        ) ==> equality_tail(toks, e, st) == equality_tail(toks, joined(e, cur_kind(toks, st), right), st2),
{
    let k = cur_kind(toks, st);
    assert(binop_of(k) == written_operator(k));
}

/// The operators `>`, `>=`, `<` and `<=`: with no such operator next, what came before is the result;
/// with one, what came before becomes the left operand and the operand after the operator
/// the right one, and the chain goes on from there, so chains associate to the left.
pub proof fn lemma_comparison_operands_in_order(toks: Seq<Token>, e: Expr, st: PState, right: Expr, st2: PState)
    requires
        ends_with_eof(toks),
        state_wf(toks, st),
    ensures
        !(cur_kind(toks, st) == TokenKind::Greater || cur_kind(toks, st) == TokenKind::GreaterEqual || cur_kind(toks, st) == TokenKind::Less || cur_kind(toks, st) == TokenKind::LessEqual) ==> comparison_tail(toks, e, st) == (Some(e), st),
        (cur_kind(toks, st) == TokenKind::Greater || cur_kind(toks, st) == TokenKind::GreaterEqual || cur_kind(toks, st) == TokenKind::Less || cur_kind(toks, st) == TokenKind::LessEqual) && apply_term(toks, advance(toks, st), None) == (Some(right), st2) && not_before(
            toks,
            advance(toks, st),
            st2,
        ) ==> comparison_tail(toks, e, st) == comparison_tail(toks, joined(e, cur_kind(toks, st), right), st2),
{
    let k = cur_kind(toks, st);
    assert(binop_of(k) == written_operator(k));
}

/// The operators `+` and `-`: with no such operator next, what came before is the result;
/// with one, what came before becomes the left operand and the operand after the operator
/// the right one, and the chain goes on from there, so chains associate to the left.
pub proof fn lemma_term_operands_in_order(toks: Seq<Token>, e: Expr, st: PState, right: Expr, st2: PState)
    requires
        ends_with_eof(toks),
        state_wf(toks, st),
    ensures
        !(cur_kind(toks, st) == TokenKind::Minus || cur_kind(toks, st) == TokenKind::Plus) ==> term_tail(toks, e, st) == (Some(e), st),
        (cur_kind(toks, st) == TokenKind::Minus || cur_kind(toks, st) == TokenKind::Plus) && apply_factor(toks, advance(toks, st), None) == (Some(right), st2) && not_before(
            toks,
            advance(toks, st),
            st2,
        ) ==> term_tail(toks, e, st) == term_tail(toks, joined(e, cur_kind(toks, st), right), st2),
{
    let k = cur_kind(toks, st);
    assert(binop_of(k) == written_operator(k));
}

/// The operators `*` and `/`: with no such operator next, what came before is the result;
/// with one, what came before becomes the left operand and the operand after the operator
/// the right one, and the chain goes on from there, so chains associate to the left.
pub proof fn lemma_factor_operands_in_order(toks: Seq<Token>, e: Expr, st: PState, right: Expr, st2: PState)
    requires
        ends_with_eof(toks),
        state_wf(toks, st),
    ensures
        !(cur_kind(toks, st) == TokenKind::Slash || cur_kind(toks, st) == TokenKind::Star) ==> factor_tail(toks, e, st) == (Some(e), st),
        (cur_kind(toks, st) == TokenKind::Slash || cur_kind(toks, st) == TokenKind::Star) && apply_unary(toks, advance(toks, st), None) == (Some(right), st2) && not_before(
            toks,
            advance(toks, st),
            st2,
        ) ==> factor_tail(toks, e, st) == factor_tail(toks, joined(e, cur_kind(toks, st), right), st2),
{
    let k = cur_kind(toks, st);
    assert(binop_of(k) == written_operator(k));
}

/// The same for each level of the one-rule binary expression.
pub proof fn lemma_level_operands_in_order(toks: Seq<Token>, e: Expr, st: PState, right: Expr, st2: PState, level: nat)
    requires
        ends_with_eof(toks),
        state_wf(toks, st),
    ensures
        !level_op(level, cur_kind(toks, st)) ==> level_tail(toks, e, st, level) == (Some(e), st),
        level_op(level, cur_kind(toks, st)) && level_operand(toks, advance(toks, st), level) == (Some(right), st2)
            && not_before(toks, advance(toks, st), st2) ==> level_tail(toks, e, st, level) == level_tail(
            toks,
            joined(e, cur_kind(toks, st), right),
            st2,
            level,
        ),
{
}

/// `a - b` (or `a + b`) as a term: `a` is the left operand and `b` the right one.
pub proof fn lemma_term_two_operands(toks: Seq<Token>, st: PState, a: Expr, st1: PState, b: Expr, st2: PState)
    requires
        ends_with_eof(toks),
        state_wf(toks, st),
        apply_factor(toks, st, None) == (Some(a), st1),
        not_before(toks, st, st1),
        cur_kind(toks, st1) == TokenKind::Minus || cur_kind(toks, st1) == TokenKind::Plus,
        apply_factor(toks, advance(toks, st1), None) == (Some(b), st2),
        not_before(toks, advance(toks, st1), st2),
        cur_kind(toks, st2) != TokenKind::Minus && cur_kind(toks, st2) != TokenKind::Plus,
    ensures
        parse_term(toks, st) == (Some(joined(a, cur_kind(toks, st1), b)), st2),
{
    lemma_term_operands_in_order(toks, a, st1, b, st2);
    lemma_term_operands_in_order(toks, joined(a, cur_kind(toks, st1), b), st2, b, st2);
}

/// A for loop keeps its parts apart: when the rest of a for loop parses, the loop's initial
/// declaration is the one given, its condition is the expression parsed right after it,
/// and its increment is the assignment parsed after the `;` that follows the condition.
pub proof fn lemma_for_parts(toks: Seq<Token>, initial: DeclarationExpr, st: PState)
    ensures
        for_rest(toks, initial, st).0 matches Some(l) ==> {
            let (c, st5) = apply_expr(toks, st, Some(ErrMsg::ExpectedExpression));
            let st6 = consume_or_report(toks, st5, TokenKind::Semicolon).1;
            let a = apply_assignment(toks, st6, Some(ErrMsg::ExpectedAssignment)).0;
            &&& l.initial == Some(Box::new(initial))
            &&& c is Some && l.condition == Some(Box::new(c->Some_0))
            &&& a is Some && l.increment == Some(Box::new(a->Some_0))
        },
{
}

/// A struct access written with `.` is direct and one written with `->` is not: when the
/// token after the `.` or `->` is an identifier, the access is to the member of that name,
/// applied to what came before, and it is direct exactly when the token is a `.`.
pub proof fn lemma_struct_access_directness(toks: Seq<Token>, e: Expr, st: PState)
    requires
        ends_with_eof(toks),
        state_wf(toks, st),
        cur_kind(toks, st) == TokenKind::Dot || cur_kind(toks, st) == TokenKind::Arrow,
        st.ptr + 1 < toks.len(),
        toks[st.ptr + 1].value is Identifier,
    ensures
        access_step(toks, e, st).0 matches Some(Expr::StructAccess(a)) && a.expr == Box::new(e)
            && toks[st.ptr + 1].value == TokenType::Identifier(a.member.data) && (a.is_direct <==> cur_kind(
            toks,
            st,
        ) == TokenKind::Dot),
{
    let st1 = begin_range(toks, st);
    assert(advance(toks, st1).ptr == st.ptr + 1);
}

/// The unary operator that a prefix token is written for.
pub open spec fn written_unary(k: TokenKind) -> UnaryOperator {
    if k == TokenKind::Not {
        UnaryOperator::Not
    } else if k == TokenKind::Minus {
        UnaryOperator::Negate
    } else if k == TokenKind::Star {
        UnaryOperator::Deref
    } else if k == TokenKind::Ampersand {
        UnaryOperator::Ref
    } else {
        UnaryOperator::BitNot
    }
}

/// A prefix operator applies to the unary expression after it: when the current token is
/// `!`, `-`, `*`, `&` or `~` and the rule succeeds, the result is that operator applied to
/// the operand parsed after the token.
pub proof fn lemma_unary_operator(toks: Seq<Token>, st: PState)
    requires
        ends_with_eof(toks),
        state_wf(toks, st),
        ({
            let k = cur_kind(toks, st);
            k == TokenKind::Not || k == TokenKind::Minus || k == TokenKind::Star || k == TokenKind::Ampersand || k
                == TokenKind::Tilda
        }),
    ensures
        parse_unary(toks, st).0 is Some ==> (parse_unary(toks, st).0 matches Some(Expr::Unary(u)) && u.operator
            == written_unary(cur_kind(toks, st)) && Some(*u.expr) == apply_unary(
            toks,
            advance(toks, begin_range(toks, st)),
            None,
        ).0),
{
}

/// An `if` keeps its parts apart: its condition is the expression right after `if`, its
/// branch the expression after that, and it has an `else` branch only when `else` follows.
pub proof fn lemma_if_parts(toks: Seq<Token>, st: PState)
    ensures
        parse_if(toks, st).0 matches Some(x) ==> {
            let st2 = advance(toks, begin_range(toks, st));
            let (c, st3) = apply_expr(toks, st2, Some(ErrMsg::ExpectedExpression));
            let (b, st4) = apply_expr(toks, st3, Some(ErrMsg::ExpectedBlock));
            &&& c is Some && x.condition == Box::new(c->Some_0)
            &&& b is Some && x.success == Box::new(b->Some_0)
            &&& !at(toks, st4, TokenKind::Else) ==> x.fail is None
            &&& at(toks, st4, TokenKind::Else) ==> x.fail == else_branch(toks, advance(toks, st4)).0
        },
{
}

/// A `while` loop has the expression after `while` (and its label) as its condition and the
/// block after that as its body, and no initial declaration or increment.
pub proof fn lemma_while_parts(toks: Seq<Token>, st: PState)
    ensures
        parse_while(toks, st).0 matches Some(l) ==> {
            let st2 = advance(toks, begin_range(toks, st));
            let st3 = label_part(toks, st2).1;
            let (c, st4) = apply_expr(toks, st3, Some(ErrMsg::ExpectedExpression));
            let b = apply_block(toks, st4, Some(ErrMsg::ExpectedBlock)).0;
            &&& c is Some && l.condition == Some(Box::new(c->Some_0))
            &&& b is Some && l.body == b->Some_0
            &&& l.initial is None && l.increment is None
        },
{
}

/// An assignment assigns to the expression before `=` the value after it: when `=` follows
/// the first expression, the result assigns to that expression the assignment parsed after
/// the `=`; otherwise the result is the first expression itself.
pub proof fn lemma_assignment_sides(toks: Seq<Token>, st: PState)
    ensures
        parse_assignment(toks, st).0 is Some ==> {
            let (l, st2) = apply_expr(toks, begin_range(toks, st), Some(ErrMsg::ExpectedExpression));
            &&& l is Some
            &&& at(toks, st2, TokenKind::Assignment) ==> (parse_assignment(toks, st).0 matches Some(
                Expr::Assignment(a),
            ) && l == Some(*a.assignee) && apply_assignment(toks, advance(toks, st2), Some(ErrMsg::ExpectedExpression)).0
                == Some(*a.expr))
            &&& !at(toks, st2, TokenKind::Assignment) ==> parse_assignment(toks, st).0 == l
        },
{
    let r = parse_assignment(toks, st);
    if ends_with_eof(toks) && state_wf(toks, st) {
        let st1 = begin_range(toks, st);
        let (l, st2) = apply_expr(toks, st1, Some(ErrMsg::ExpectedExpression));
        if l is Some && at(toks, st2, TokenKind::Assignment) && not_before(toks, st1, st2) {
            let (v, st3) = apply_assignment(toks, advance(toks, st2), Some(ErrMsg::ExpectedExpression));
            assert(r.0 is Some ==> v is Some);
        }
    }
}

/// A cast converts the expression before `as` to the type after it: when `as` follows the
/// operand, the result casts that operand to the type parsed after `as`; otherwise the
/// result is the operand itself.
pub proof fn lemma_cast_parts(toks: Seq<Token>, st: PState)
    ensures
        parse_cast(toks, st).0 is Some ==> {
            let (e, st2) = apply_unary(toks, begin_range(toks, st), Some(ErrMsg::ExpectedExpression));
            &&& e is Some
            &&& at(toks, st2, TokenKind::As) ==> (parse_cast(toks, st).0 matches Some(Expr::Cast(c)) && e == Some(
                *c.expr,
            ) && apply_type(toks, advance(toks, st2), Some(ErrMsg::ExpectedType)).0 == Some(c.cast_type))
            &&& !at(toks, st2, TokenKind::As) ==> parse_cast(toks, st).0 == e
        },
{
}

/// `break`, `return` and `result` give exits of their own kind.
pub proof fn lemma_exit_kind(toks: Seq<Token>, st: PState)
    requires
        ends_with_eof(toks),
        state_wf(toks, st),
    ensures
        parse_exit(toks, st).0 matches Some(x) ==> (x.exit_type == ExitType::Break <==> cur_kind(toks, st)
            == TokenKind::Break) && (x.exit_type == ExitType::Return <==> cur_kind(toks, st) == TokenKind::Return)
            && (x.exit_type == ExitType::Result <==> cur_kind(toks, st) == TokenKind::Result),
{
    let st1 = begin_range(toks, st);
    let k = cur_kind(toks, st1);
    if is_exit_kind(k) {
        let t = exit_type_of(k);
        lemma_exit_keeps_kind(toks, advance(toks, st1), t);
    }
}

/// What follows the keyword keeps the kind of exit it gave.
proof fn lemma_exit_keeps_kind(toks: Seq<Token>, st: PState, t: ExitType)
    ensures
        exit_after_keyword(toks, st, t).0 matches Some(x) ==> x.exit_type == t,
{
    if ends_with_eof(toks) && state_wf(toks, st) {
        let (l, st1) = exit_label(toks, st, t);
        if let Some(label) = l {
            if not_before(toks, st, st1) {
                assert(exit_rest(toks, st1, t, label).0 matches Some(x) ==> x.exit_type == t);
            }
        }
    }
}

/// An index access applies to what came before, with the expression inside the brackets as
/// its index.
pub proof fn lemma_index_access(toks: Seq<Token>, e: Expr, st: PState)
    requires
        ends_with_eof(toks),
        state_wf(toks, st),
        cur_kind(toks, st) == TokenKind::LeftSquare,
    ensures
        access_step(toks, e, st).0 matches Some(r) ==> (r matches Expr::ArrayAccess(a) && a.expr == Box::new(e)
            && apply_expr(toks, advance(toks, begin_range(toks, st)), Some(ErrMsg::ExpectedExpression)).0 == Some(
            *a.index,
        )),
{
}

} // verus!
