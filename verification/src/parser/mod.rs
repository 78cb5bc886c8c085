//! The recursive-descent parser: its state, the operations on the token stream that the
//! rules share, and the rules themselves (in `rules`).
//!
//! Every rule is specified by a spec function from the tokens and a parser state to the
//! rule's result and the state after it; the executable rule returns exactly that.
use vstd::prelude::*;

use crate::ast::{AstId, BinaryOperator};
use crate::diagnostic::{error_at, Diagnostic, DiagnosticView, ErrMsg};
use crate::token::{kind_matches, kinds_match, spec_concat, PositionRange, Token, TokenKind};

pub mod rules;
pub mod laws;

verus! {

/// The state of a parse: the index of the current token, the diagnostics reported so far,
/// the stack of positions at which the spans of the nodes being parsed began (its top
/// is the last element) and the next node id to hand out.
pub struct PState {
    pub ptr: int,
    pub diags: Seq<DiagnosticView>,
    pub ranges: Seq<PositionRange>,
    pub next_id: usize,
}

/// A token stream that the parser accepts: it is not empty and its last token is the end
/// of the file.
pub open spec fn ends_with_eof(toks: Seq<Token>) -> bool {
    toks.len() > 0 && toks.last().value is EOF
}

/// A state whose current token exists.
pub open spec fn state_wf(toks: Seq<Token>, st: PState) -> bool {
    0 <= st.ptr < toks.len()
}

/// The number of tokens from the current one to the end: the measure by which every loop
/// and recursion of the parser makes progress.
pub open spec fn rem(toks: Seq<Token>, st: PState) -> nat {
    if 0 <= st.ptr < toks.len() {
        (toks.len() - st.ptr) as nat
    } else {
        0
    }
}

/// The current token.
pub open spec fn cur_tok(toks: Seq<Token>, st: PState) -> Token {
    toks[st.ptr]
}

/// The kind of the current token.
pub open spec fn cur_kind(toks: Seq<Token>, st: PState) -> TokenKind {
    toks[st.ptr].value.spec_kind()
}

/// Whether the current token is matched by `kind`.
pub open spec fn at(toks: Seq<Token>, st: PState, kind: TokenKind) -> bool {
    kind_matches(cur_kind(toks, st), kind)
}

/// The position of the current token.
pub open spec fn cur_pos(toks: Seq<Token>, st: PState) -> PositionRange {
    toks[st.ptr].position
}

/// Whether one of `kinds` matches the current token.
pub open spec fn at_any(toks: Seq<Token>, st: PState, kinds: Seq<TokenKind>) -> bool {
    exists|i: int| 0 <= i < kinds.len() && at(toks, st, #[trigger] kinds[i])
}

/// Moves to the next token, unless the current one is the last.
pub open spec fn advance(toks: Seq<Token>, st: PState) -> PState {
    if st.ptr + 1 < toks.len() {
        PState { ptr: st.ptr + 1, ..st }
    } else {
        st
    }
}

/// Consumes the current token if `kind` matches it.
pub open spec fn try_consume(toks: Seq<Token>, st: PState, kind: TokenKind) -> (Option<Token>, PState) {
    if at(toks, st, kind) {
        (Some(cur_tok(toks, st)), advance(toks, st))
    } else {
        (None, st)
    }
}

/// Adds a diagnostic.
pub open spec fn push_diag(st: PState, d: DiagnosticView) -> PState {
    PState { diags: st.diags.push(d), ..st }
}

/// Reports `err` at the current token.
pub open spec fn report(toks: Seq<Token>, st: PState, err: ErrMsg) -> PState {
    push_diag(st, error_at(err, cur_pos(toks, st)))
}

/// Consumes the current token if `kind` matches it, and otherwise reports that a token of
/// that kind was expected.
pub open spec fn consume_or_report(toks: Seq<Token>, st: PState, kind: TokenKind) -> (Option<Token>, PState) {
    if at(toks, st, kind) {
        (Some(cur_tok(toks, st)), advance(toks, st))
    } else {
        (None, report(toks, st, ErrMsg::ExpectedToken(kind)))
    }
}

/// Pushes the position of the current token onto the stack of span starts.
pub open spec fn begin_range(toks: Seq<Token>, st: PState) -> PState {
    PState { ranges: st.ranges.push(cur_pos(toks, st)), ..st }
}

/// The position of the token before the current one (of the first token at the start).
pub open spec fn prev_pos(toks: Seq<Token>, st: PState) -> PositionRange {
    toks[if st.ptr == 0 { 0 } else { st.ptr - 1 }].position
}

/// The span from the top of the stack of span starts to the previous token.
pub open spec fn current_range(toks: Seq<Token>, st: PState) -> PositionRange {
    if st.ranges.len() > 0 {
        spec_concat(st.ranges.last(), prev_pos(toks, st))
    } else {
        prev_pos(toks, st)
    }
}

/// Pops the top of the stack of span starts and gives the span from it to the previous
/// token.
pub open spec fn end_range(toks: Seq<Token>, st: PState) -> (PositionRange, PState) {
    if st.ranges.len() > 0 {
        (current_range(toks, st), PState { ranges: st.ranges.drop_last(), ..st })
    } else {
        (current_range(toks, st), st)
    }
}

/// Hands out the next node id. The counter stops at the largest `usize` rather than
/// overflow.
pub open spec fn fresh_id(st: PState) -> (AstId, PState) {
    (AstId(st.next_id), PState { next_id: if st.next_id < usize::MAX { (st.next_id + 1) as usize } else { st.next_id }, ..st })
}

/// What a rule that does not match leaves: the diagnostic `err` at the current token, if
/// one is given.
pub open spec fn no_match(toks: Seq<Token>, st: PState, err: Option<ErrMsg>) -> PState {
    match err {
        Some(e) => report(toks, st, e),
        None => st,
    }
}

/// `b` carries the parse on from `a`: it keeps every diagnostic of `a`, in place, since
/// diagnostics are only ever added; and its next node id is no smaller, since ids are only
/// ever handed out.
pub open spec fn extends_parse(a: PState, b: PState) -> bool {
    &&& a.diags.len() <= b.diags.len()
    &&& forall|i: int| 0 <= i < a.diags.len() ==> #[trigger] b.diags[i] == a.diags[i]
    &&& a.next_id <= b.next_id
}

/// A node id is never handed out twice in one parse: an id handed out at `a` differs from
/// every id handed out at a later state `b`, as long as the counter has not reached its
/// end.
pub proof fn lemma_fresh_ids_distinct(a: PState, b: PState)
    requires
        a.next_id < usize::MAX,
        extends_parse(fresh_id(a).1, b),
    ensures
        fresh_id(a).0 != fresh_id(b).0,
{
}

/// `b` is `a` or a later state of the same parse: it stands no earlier and is still valid.
pub open spec fn not_before(toks: Seq<Token>, a: PState, b: PState) -> bool {
    a.ptr <= b.ptr < toks.len()
}

/// `b` is a strictly later state of the same parse.
pub open spec fn after(toks: Seq<Token>, a: PState, b: PState) -> bool {
    a.ptr < b.ptr < toks.len()
}

/// The binary operator that a token kind stands for.
pub open spec fn binop_of(kind: TokenKind) -> BinaryOperator {
    match kind {
        TokenKind::Or => BinaryOperator::Or,
        TokenKind::And => BinaryOperator::And,
        TokenKind::Bar => BinaryOperator::BitOr,
        TokenKind::Carat => BinaryOperator::BitXor,
        TokenKind::Ampersand => BinaryOperator::BitAnd,
        TokenKind::Equal => BinaryOperator::Equal,
        TokenKind::NotEqual => BinaryOperator::NotEqual,
        TokenKind::Greater => BinaryOperator::Greater,
        TokenKind::GreaterEqual => BinaryOperator::GreaterEqual,
        TokenKind::Less => BinaryOperator::Less,
        TokenKind::LessEqual => BinaryOperator::LessEqual,
        TokenKind::LeftShift => BinaryOperator::LeftShift,
        TokenKind::RightShift => BinaryOperator::RightShift,
        TokenKind::Plus => BinaryOperator::Plus,
        TokenKind::Minus => BinaryOperator::Minus,
        TokenKind::Star => BinaryOperator::Multiply,
        TokenKind::Slash => BinaryOperator::Divide,
        _ => BinaryOperator::Modulo,
    }
}

/// The binary operator that a token kind stands for.
pub fn binary_operator(kind: TokenKind) -> (op: BinaryOperator)
    ensures
        op == binop_of(kind),
{
    match kind {
        TokenKind::Or => BinaryOperator::Or,
        TokenKind::And => BinaryOperator::And,
        TokenKind::Bar => BinaryOperator::BitOr,
        TokenKind::Carat => BinaryOperator::BitXor,
        TokenKind::Ampersand => BinaryOperator::BitAnd,
        TokenKind::Equal => BinaryOperator::Equal,
        TokenKind::NotEqual => BinaryOperator::NotEqual,
        TokenKind::Greater => BinaryOperator::Greater,
        TokenKind::GreaterEqual => BinaryOperator::GreaterEqual,
        TokenKind::Less => BinaryOperator::Less,
        TokenKind::LessEqual => BinaryOperator::LessEqual,
        TokenKind::LeftShift => BinaryOperator::LeftShift,
        TokenKind::RightShift => BinaryOperator::RightShift,
        TokenKind::Plus => BinaryOperator::Plus,
        TokenKind::Minus => BinaryOperator::Minus,
        TokenKind::Star => BinaryOperator::Multiply,
        TokenKind::Slash => BinaryOperator::Divide,
        _ => BinaryOperator::Modulo,
    }
}

/// A cursor over a token slice, used to look ahead without changing the parser.
#[derive(Clone, Copy)]
pub struct ParserCursor<'tok> {
    pub ptr: usize,
    pub tokens: &'tok [Token],
}

impl<'tok> ParserCursor<'tok> {
    /// The kind of the current token.
    pub fn cur_kind(&self) -> (k: TokenKind)
        requires
            self.ptr < self.tokens@.len(),
        ensures
            k == self.tokens@[self.ptr as int].value.spec_kind(),
    {
        self.tokens[self.ptr].value.kind()
    }

    /// Consumes the current token if `kind` matches it, and says whether it did.
    pub fn try_consume(&mut self, kind: TokenKind) -> (b: bool)
        requires
            old(self).ptr < old(self).tokens@.len(),
        ensures
            final(self).tokens == old(self).tokens,
            b == kind_matches(old(self).tokens@[old(self).ptr as int].value.spec_kind(), kind),
            final(self).ptr == (if b && old(self).ptr + 1 < old(self).tokens@.len() {
                old(self).ptr + 1
            } else {
                old(self).ptr as int
            }),
    {
        let k = self.cur_kind();
        if kinds_match(k, kind) {
            if self.ptr < self.tokens.len() - 1 {
                self.ptr = self.ptr + 1;
            }
            true
        } else {
            false
        }
    }
}

impl<'tok> ParserCursor<'tok> {
    /// Consumes the current token if one of `kinds` matches it, and gives it.
    pub fn try_consume_match(&mut self, kinds: &[TokenKind]) -> (r: Option<Token>)
        requires
            old(self).ptr < old(self).tokens@.len(),
        ensures
            final(self).tokens == old(self).tokens,
            r == (if at_any(old(self).tokens@, PState { ptr: old(self).ptr as int, diags: Seq::empty(), ranges: Seq::empty(), next_id: 0 }, kinds@) {
                Some(old(self).tokens@[old(self).ptr as int])
            } else {
                None
            }),
            final(self).ptr == (if r is Some && old(self).ptr + 1 < old(self).tokens@.len() {
                old(self).ptr + 1
            } else {
                old(self).ptr as int
            }),
    {
        let ghost st = PState { ptr: self.ptr as int, diags: Seq::empty(), ranges: Seq::empty(), next_id: 0 };
        let k = self.cur_kind();
        let mut i: usize = 0;
        while i < kinds.len()
            invariant
                i <= kinds@.len(),
                self.tokens == old(self).tokens,
                self.ptr == old(self).ptr,
                self.ptr < self.tokens@.len(),
                st.ptr == self.ptr,
                k == self.tokens@[self.ptr as int].value.spec_kind(),
                forall|j: int| 0 <= j < i ==> !at(self.tokens@, st, #[trigger] kinds@[j]),
            decreases kinds@.len() - i,
        {
            if kinds_match(k, kinds[i]) {
                assert(at(self.tokens@, st, kinds@[i as int]));
                let t = self.tokens[self.ptr].clone();
                if self.ptr < self.tokens.len() - 1 {
                    self.ptr = self.ptr + 1;
                }
                return Some(t);
            }
            i = i + 1;
        }
        None
    }
}

/// The parser: a token stream, the current position in it, the diagnostics reported so far
/// and the stack of span starts.
pub struct ExprParser {
    ptr: usize,
    tokens: Vec<Token>,
    diagnostics: Vec<Diagnostic>,
    position_stack: Vec<PositionRange>,
    next_id: usize,
}

impl View for ExprParser {
    type V = PState;

    closed spec fn view(&self) -> PState {
        PState {
            ptr: self.ptr as int,
            diags: self.diagnostics@.map_values(|d: Diagnostic| d@),
            ranges: self.position_stack@,
            next_id: self.next_id,
        }
    }
}

impl ExprParser {
    /// The token stream.
    pub closed spec fn toks(&self) -> Seq<Token> {
        self.tokens@
    }

    /// The parser is valid: its stream ends with the end of the file and its current token
    /// exists.
    pub open spec fn wf(&self) -> bool {
        ends_with_eof(self.toks()) && state_wf(self.toks(), self@)
    }

    /// A parser at the start of `tokens`, with no diagnostic.
    pub fn new(tokens: Vec<Token>) -> (p: ExprParser)
        requires
            ends_with_eof(tokens@),
        ensures
            p.wf(),
            p.toks() == tokens@,
            p@ == (PState { ptr: 0, diags: Seq::empty(), ranges: Seq::empty(), next_id: 0 }),
    {
        let p = ExprParser { ptr: 0, tokens, diagnostics: Vec::new(), position_stack: Vec::new(), next_id: 0 };
        proof {
            assert(p@.diags =~= Seq::<DiagnosticView>::empty());
        }
        p
    }

    /// The diagnostics reported so far.
    pub fn diagnostics(&self) -> (r: &Vec<Diagnostic>)
        ensures
            r@.map_values(|d: Diagnostic| d@) == self@.diags,
    {
        &self.diagnostics
    }

    /// Gives up the parser, keeping its diagnostics.
    pub fn into_diagnostics(self) -> (r: Vec<Diagnostic>)
        ensures
            r@.map_values(|d: Diagnostic| d@) == self@.diags,
    {
        self.diagnostics
    }

    /// A cursor at the current token.
    pub fn get_cursor(&self) -> (c: ParserCursor<'_>)
        requires
            self.wf(),
        ensures
            c.ptr as int == self@.ptr,
            c.tokens@ == self.toks(),
    {
        ParserCursor { ptr: self.ptr, tokens: self.tokens.as_slice() }
    }

    /// The current token.
    pub fn cur(&self) -> (t: Token)
        requires
            self.wf(),
        ensures
            t == cur_tok(self.toks(), self@),
    {
        self.tokens[self.ptr].clone()
    }

    /// The kind of the current token.
    pub fn cur_kind(&self) -> (k: TokenKind)
        requires
            self.wf(),
        ensures
            k == cur_kind(self.toks(), self@),
    {
        self.tokens[self.ptr].value.kind()
    }

    /// Whether `kind` matches the current token.
    pub fn at(&self, kind: TokenKind) -> (b: bool)
        requires
            self.wf(),
        ensures
            b == at(self.toks(), self@, kind),
    {
        kinds_match(self.tokens[self.ptr].value.kind(), kind)
    }

    /// The position of the current token.
    pub fn cur_position(&self) -> (p: PositionRange)
        requires
            self.wf(),
        ensures
            p == cur_pos(self.toks(), self@),
    {
        self.tokens[self.ptr].position
    }

    /// Gives the current token and moves to the next one, unless it is the last.
    pub fn next(&mut self) -> (t: Token)
        requires
            old(self).wf(),
        ensures
            final(self).wf(),
            final(self).toks() == old(self).toks(),
            extends_parse(old(self)@, final(self)@),
            t == cur_tok(old(self).toks(), old(self)@),
            final(self)@ == advance(old(self).toks(), old(self)@),
    {
        let t = self.tokens[self.ptr].clone();
        if self.ptr < self.tokens.len() - 1 {
            self.ptr = self.ptr + 1;
        }
        t
    }

    /// Consumes the current token if `kind` matches it.
    pub fn try_consume(&mut self, kind: TokenKind) -> (r: Option<Token>)
        requires
            old(self).wf(),
        ensures
            final(self).wf(),
            final(self).toks() == old(self).toks(),
            extends_parse(old(self)@, final(self)@),
            (r, final(self)@) == try_consume(old(self).toks(), old(self)@, kind),
    {
        if self.at(kind) {
            Some(self.next())
        } else {
            None
        }
    }

    /// Hands out the next node id.
    pub fn fresh_id(&mut self) -> (id: AstId)
        requires
            old(self).wf(),
        ensures
            final(self).wf(),
            final(self).toks() == old(self).toks(),
            extends_parse(old(self)@, final(self)@),
            (id, final(self)@) == fresh_id(old(self)@),
    {
        let id = AstId(self.next_id);
        if self.next_id < usize::MAX {
            self.next_id = self.next_id + 1;
        }
        id
    }

    /// Whether the current token is the end of the file.
    pub fn is_at_end(&self) -> (b: bool)
        requires
            self.wf(),
        ensures
            b == (cur_kind(self.toks(), self@) == TokenKind::EOF),
    {
        self.cur_kind() == TokenKind::EOF
    }

    /// The current token, if one of `kinds` matches it.
    pub fn try_match(&self, kinds: &[TokenKind]) -> (r: Option<Token>)
        requires
            self.wf(),
        ensures
            r == (if at_any(self.toks(), self@, kinds@) {
                Some(cur_tok(self.toks(), self@))
            } else {
                None
            }),
    {
        let mut i: usize = 0;
        while i < kinds.len()
            invariant
                self.wf(),
                i <= kinds@.len(),
                forall|j: int| 0 <= j < i ==> !at(self.toks(), self@, #[trigger] kinds@[j]),
            decreases kinds@.len() - i,
        {
            if self.at(kinds[i]) {
                return Some(self.cur());
            }
            i = i + 1;
        }
        None
    }

    /// Consumes the current token if one of `kinds` matches it, and gives it.
    pub fn try_consume_match(&mut self, kinds: &[TokenKind]) -> (r: Option<Token>)
        requires
            old(self).wf(),
        ensures
            final(self).wf(),
            final(self).toks() == old(self).toks(),
            extends_parse(old(self)@, final(self)@),
            r == (if at_any(old(self).toks(), old(self)@, kinds@) {
                Some(cur_tok(old(self).toks(), old(self)@))
            } else {
                None
            }),
            final(self)@ == (if r is Some {
                advance(old(self).toks(), old(self)@)
            } else {
                old(self)@
            }),
    {
        match self.try_match(kinds) {
            Some(_) => Some(self.next()),
            None => None,
        }
    }

    /// Adds a diagnostic.
    pub fn push_diagnostic(&mut self, diagnostic: Diagnostic)
        requires
            old(self).wf(),
        ensures
            final(self).wf(),
            final(self).toks() == old(self).toks(),
            extends_parse(old(self)@, final(self)@),
            final(self)@ == push_diag(old(self)@, diagnostic@),
    {
        let ghost before = self.diagnostics@;
        self.diagnostics.push(diagnostic);
        proof {
            assert(self.diagnostics@.map_values(|d: Diagnostic| d@) =~= before.map_values(
                |d: Diagnostic| d@,
            ).push(diagnostic@));
        }
    }

    /// Reports `err` at the current token.
    pub fn report(&mut self, err: ErrMsg)
        requires
            old(self).wf(),
        ensures
            final(self).wf(),
            final(self).toks() == old(self).toks(),
            extends_parse(old(self)@, final(self)@),
            final(self)@ == report(old(self).toks(), old(self)@, err),
    {
        let position = self.cur_position();
        self.push_diagnostic(err.make_diagnostic(position));
    }

    /// Consumes the current token if `kind` matches it, and otherwise reports that a token
    /// of that kind was expected.
    pub fn consume_or_diagnostic(&mut self, kind: TokenKind) -> (r: Option<Token>)
        requires
            old(self).wf(),
        ensures
            final(self).wf(),
            final(self).toks() == old(self).toks(),
            extends_parse(old(self)@, final(self)@),
            (r, final(self)@) == consume_or_report(old(self).toks(), old(self)@, kind),
    {
        if self.at(kind) {
            Some(self.next())
        } else {
            self.report(ErrMsg::ExpectedToken(kind));
            None
        }
    }

    /// Pushes the position of the current token onto the stack of span starts.
    pub fn begin_range(&mut self)
        requires
            old(self).wf(),
        ensures
            final(self).wf(),
            final(self).toks() == old(self).toks(),
            extends_parse(old(self)@, final(self)@),
            final(self)@ == begin_range(old(self).toks(), old(self)@),
    {
        let p = self.cur_position();
        self.position_stack.push(p);
    }

    fn prev_position(&self) -> (p: PositionRange)
        requires
            self.wf(),
        ensures
            p == prev_pos(self.toks(), self@),
    {
        let i = if self.ptr == 0 { 0 } else { self.ptr - 1 };
        self.tokens[i].position
    }

    /// The span from the top of the stack of span starts to the previous token.
    pub fn current_range(&self) -> (r: PositionRange)
        requires
            self.wf(),
        ensures
            r == current_range(self.toks(), self@),
    {
        let prev = self.prev_position();
        let n = self.position_stack.len();
        if n > 0 {
            PositionRange::concat(&self.position_stack[n - 1], &prev)
        } else {
            prev
        }
    }

    /// Pops the top of the stack of span starts and gives the span from it to the previous
    /// token.
    pub fn end_range(&mut self) -> (r: PositionRange)
        requires
            old(self).wf(),
        ensures
            final(self).wf(),
            final(self).toks() == old(self).toks(),
            extends_parse(old(self)@, final(self)@),
            (r, final(self)@) == end_range(old(self).toks(), old(self)@),
    {
        let r = self.current_range();
        if self.position_stack.len() > 0 {
            self.position_stack.pop();
        }
        r
    }

    /// What a rule that does not match does: reports `err` at the current token, if given.
    pub fn no_match(&mut self, err: Option<ErrMsg>)
        requires
            old(self).wf(),
        ensures
            final(self).wf(),
            final(self).toks() == old(self).toks(),
            extends_parse(old(self)@, final(self)@),
            final(self)@ == no_match(old(self).toks(), old(self)@, err),
    {
        match err {
            Some(e) => self.report(e),
            None => {},
        }
    }
}

} // verus!
