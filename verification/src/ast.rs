//! The syntax tree that the parser builds.
use vstd::prelude::*;

use crate::token::{Located, PositionRange};

verus! {

/// An immutable singly linked list, the sequence type of the syntax tree.
#[derive(Debug)]
pub enum List<T> {
    Nil,
    Cons(Box<T>, Box<List<T>>),
}

impl<T> List<T> {
    /// The elements of the list, in order.
    pub open spec fn to_seq(&self) -> Seq<T>
        decreases self,
    {
        match self {
            List::Nil => Seq::empty(),
            List::Cons(head, tail) => seq![**head] + tail.to_seq(),
        }
    }

    /// The number of elements; `usize::MAX` if there are more.
    pub fn len(&self) -> (n: usize)
        ensures
            n == (if self.to_seq().len() <= usize::MAX { self.to_seq().len() } else { usize::MAX as nat }),
        decreases self,
    {
        match self {
            List::Nil => 0,
            List::Cons(_, tail) => {
                let n = tail.len();
                if n < usize::MAX {
                    n + 1
                } else {
                    n
                }
            },
        }
    }

    /// Whether the list has no element.
    pub fn is_empty(&self) -> (b: bool)
        ensures
            b == (self.to_seq().len() == 0),
    {
        match self {
            List::Nil => true,
            List::Cons(_, _) => false,
        }
    }

    /// The element at index `i`, if there is one.
    pub fn get(&self, i: usize) -> (r: Option<&T>)
        ensures
            match r {
                Some(x) => i < self.to_seq().len() && *x == self.to_seq()[i as int],
                None => i >= self.to_seq().len(),
            },
        decreases self,
    {
        match self {
            List::Nil => None,
            List::Cons(head, tail) => {
                if i == 0 {
                    Some(&**head)
                } else {
                    let r = tail.get(i - 1);
                    proof {
                        assert(self.to_seq() == seq![**head] + tail.to_seq());
                    }
                    r
                }
            },
        }
    }
}

/// The list that holds the elements of `s` in front of `tail`, built from the back.
pub open spec fn build_list<T>(s: Seq<T>, tail: List<T>) -> List<T>
    decreases s.len(),
{
    if s.len() == 0 {
        tail
    } else {
        build_list(s.drop_last(), List::Cons(Box::new(s.last()), Box::new(tail)))
    }
}

/// The list of the elements of `s`, in order.
pub open spec fn list_of<T>(s: Seq<T>) -> List<T> {
    build_list(s, List::Nil)
}

/// The elements of `list_of(s)` are those of `s`.
pub proof fn lemma_list_of_to_seq<T>(s: Seq<T>)
    ensures
        list_of(s).to_seq() == s,
{
    lemma_build_list_to_seq(s, List::Nil);
    assert(s + Seq::<T>::empty() == s);
}

/// The elements of `build_list(s, tail)` are those of `s` followed by those of `tail`.
pub proof fn lemma_build_list_to_seq<T>(s: Seq<T>, tail: List<T>)
    ensures
        build_list(s, tail).to_seq() == s + tail.to_seq(),
    decreases s.len(),
{
    if s.len() > 0 {
        let t2 = List::Cons(Box::new(s.last()), Box::new(tail));
        lemma_build_list_to_seq(s.drop_last(), t2);
        assert(s.drop_last() + (seq![s.last()] + tail.to_seq()) == s + tail.to_seq());
    }
}

/// Turns a vector into a list with the same elements in the same order.
pub fn list_from_vec<T>(v: Vec<T>) -> (l: List<T>)
    ensures
        l == list_of(v@),
{
    let ghost orig = v@;
    let mut v = v;
    let mut l = List::Nil;
    while v.len() > 0
        invariant
            build_list(v@, l) == list_of(orig),
        decreases v.len(),
    {
        let ghost before = v@;
        let x = v.pop().unwrap();
        proof {
            assert(v@ == before.drop_last());
        }
        l = List::Cons(Box::new(x), Box::new(l));
    }
    l
}

/// Moves the elements of a list, in order, to the end of a vector.
pub fn push_all<T>(v: &mut Vec<T>, l: List<T>)
    ensures
        final(v)@ == old(v)@ + l.to_seq(),
{
    let ghost start = v@;
    let ghost all = l.to_seq();
    let mut cur = l;
    loop
        invariant
            start == old(v)@,
            all == l.to_seq(),
            v@ + cur.to_seq() == start + all,
        decreases cur.to_seq().len(),
    {
        match cur {
            List::Nil => {
                assert(v@ + cur.to_seq() == v@);
                return;
            },
            List::Cons(head, tail) => {
                let ghost rest = tail.to_seq();
                assert(cur.to_seq() == seq![*head] + rest);
                v.push(*head);
                assert(v@ + rest == start + all);
                cur = *tail;
            },
        }
    }
}

/// A vector with the elements of a list, in order.
pub fn vec_from_list<T>(l: List<T>) -> (v: Vec<T>)
    ensures
        v@ == l.to_seq(),
{
    let mut v: Vec<T> = Vec::new();
    push_all(&mut v, l);
    assert(Seq::<T>::empty() + l.to_seq() == l.to_seq());
    v
}

/// The value of a literal; a double holds the IEEE-754 bits of its value.
#[derive(Debug)]
pub enum Literal {
    Int(i64),
    Double(u64),
    Bool(bool),
    Char(char),
    String(String),
}

#[derive(Debug)]
pub struct LiteralExpr {
    pub value: Literal,
    pub position: PositionRange,
}

#[derive(Clone, Copy, Debug, PartialEq, Eq, Structural)]
pub enum BinaryOperator {
    Or,
    And,
    BitOr,
    BitXor,
    BitAnd,
    Equal,
    NotEqual,
    Greater,
    GreaterEqual,
    Less,
    LessEqual,
    LeftShift,
    RightShift,
    Plus,
    Minus,
    Multiply,
    Divide,
    Modulo,
}

#[derive(Clone, Copy, Debug, PartialEq, Eq, Structural)]
pub enum UnaryOperator {
    Not,
    Negate,
    Deref,
    Ref,
    BitNot,
}

#[derive(Clone, Copy, Debug, PartialEq, Eq, Structural)]
pub enum ExitType {
    Break,
    Return,
    Result,
}

/// A path of names separated by `::`.
#[derive(Debug)]
pub struct Path {
    pub segments: List<Located<String>>,
}

#[derive(Debug)]
pub enum ParsedTypeEnum {
    Integer,
    Double,
    Boolean,
    Char,
    Void,
    TypeName(String),
    Pointer(Box<ParsedType>),
    Reference(Box<ParsedType>),
    Array(Box<ParsedType>),
}

/// A type as written in the source.
#[derive(Debug)]
pub struct ParsedType {
    pub parsed_type: ParsedTypeEnum,
    pub position: PositionRange,
}

/// The identity of a node of the syntax tree: the parser gives each variable use and each
/// declaration its own, in the order it builds them.
#[derive(Clone, Copy, Debug, PartialEq, Eq, Hash, Structural)]
pub struct AstId(pub usize);

#[derive(Debug)]
pub struct VarExpr {
    pub path: Located<Path>,
    pub id: AstId,
}

#[derive(Debug)]
pub struct BinaryExpr {
    pub left: Box<Expr>,
    pub right: Box<Expr>,
    pub operator: BinaryOperator,
}

#[derive(Debug)]
pub struct UnaryExpr {
    pub expr: Box<Expr>,
    pub operator: UnaryOperator,
    pub position: PositionRange,
}

#[derive(Debug)]
pub struct CastExpr {
    pub expr: Box<Expr>,
    pub cast_type: ParsedType,
    pub position: PositionRange,
}

#[derive(Debug)]
pub struct AssignmentExpr {
    pub assignee: Box<Expr>,
    pub expr: Box<Expr>,
    pub position: PositionRange,
}

#[derive(Debug)]
pub struct DeclarationExpr {
    pub identifier: Located<String>,
    pub declaration_type: ParsedType,
    pub expr: Option<Box<Expr>>,
    pub position: PositionRange,
    pub id: AstId,
}

#[derive(Debug)]
pub struct BlockExpr {
    pub exprs: List<Expr>,
    pub position: PositionRange,
}

#[derive(Debug)]
pub struct IfExpr {
    pub condition: Box<Expr>,
    pub success: Box<Expr>,
    pub fail: Option<Box<Expr>>,
    pub position: PositionRange,
}

/// A `loop`, `while` or `for` loop.
#[derive(Debug)]
pub struct LoopExpr {
    pub initial: Option<Box<DeclarationExpr>>,
    pub condition: Option<Box<Expr>>,
    pub increment: Option<Box<Expr>>,
    pub body: BlockExpr,
    pub label: Option<Located<String>>,
    pub position: PositionRange,
}

#[derive(Debug)]
pub struct ExitExpr {
    pub exit_type: ExitType,
    pub expr: Option<Box<Expr>>,
    pub label: Option<Located<String>>,
    pub position: PositionRange,
}

#[derive(Debug)]
pub struct DeleteExpr {
    pub expr: Box<Expr>,
    pub position: PositionRange,
}

#[derive(Debug)]
pub struct ConstructorCallExpr {
    pub struct_name: Located<String>,
    pub arguments: List<Expr>,
    pub is_heap: bool,
    pub position: PositionRange,
}

#[derive(Debug)]
pub struct NewArrayExpr {
    pub sizes: List<Expr>,
    pub array_type: ParsedType,
    pub position: PositionRange,
}

/// `expr.member` (direct) or `expr->member` (through a pointer).
#[derive(Debug)]
pub struct StructAccess {
    pub expr: Box<Expr>,
    pub member: Located<String>,
    pub is_direct: bool,
    pub position: PositionRange,
}

#[derive(Debug)]
pub struct ArrayAccess {
    pub expr: Box<Expr>,
    pub index: Box<Expr>,
    pub position: PositionRange,
}

#[derive(Debug)]
pub struct FunctionAccess {
    pub expr: Box<Expr>,
    pub arguments: List<Expr>,
    pub position: PositionRange,
}

#[derive(Debug)]
pub struct FunctionCall {
    pub function: Box<Expr>,
    pub arguments: List<Expr>,
    pub position: PositionRange,
}

/// An expression or statement.
#[derive(Debug)]
pub enum Expr {
    Literal(LiteralExpr),
    Var(VarExpr),
    Binary(BinaryExpr),
    Unary(UnaryExpr),
    Cast(CastExpr),
    Assignment(AssignmentExpr),
    Declaration(DeclarationExpr),
    Block(BlockExpr),
    If(IfExpr),
    Loop(LoopExpr),
    Exit(ExitExpr),
    Delete(DeleteExpr),
    ConstructorCall(ConstructorCallExpr),
    NewArray(NewArrayExpr),
    StructAccess(StructAccess),
    ArrayAccess(ArrayAccess),
    FunctionAccess(FunctionAccess),
    FunctionCall(FunctionCall),
}

#[derive(Debug)]
pub struct MainItem {
    pub block: BlockExpr,
    pub position: PositionRange,
}

#[derive(Debug)]
pub struct FunctionItem {
    pub name: Located<String>,
    pub parameters: List<DeclarationExpr>,
    pub return_type: ParsedType,
    pub body: Option<BlockExpr>,
    pub position: PositionRange,
}

#[derive(Debug)]
pub struct ConstructorItem {
    pub parameters: List<DeclarationExpr>,
    pub body: BlockExpr,
    pub position: PositionRange,
}

#[derive(Debug)]
pub struct StructItem {
    pub name: Located<String>,
    pub members: List<(ParsedType, Located<String>)>,
    pub constructors: List<ConstructorItem>,
    pub position: PositionRange,
}

#[derive(Debug)]
pub struct ImplItem {
    pub impl_type: ParsedType,
    pub functions: List<FunctionItem>,
    pub position: PositionRange,
}

/// A top-level item.
#[derive(Debug)]
pub enum Item {
    Main(MainItem),
    Function(FunctionItem),
    Struct(StructItem),
    Impl(ImplItem),
}

/// `require a::b as c`: a path brought into scope, perhaps under another name.
#[derive(Debug)]
pub struct Require {
    pub path: List<Located<String>>,
    pub alias: Option<Located<String>>,
}

/// A whole source file.
#[derive(Debug)]
pub struct Program {
    pub requires: List<Require>,
    pub items: List<Item>,
    pub position: PositionRange,
}

/// The child scopes of a scope, in order.
#[derive(Debug)]
pub enum ScopeList {
    Nil,
    Cons(Box<Scope>, Box<ScopeList>),
}

impl ScopeList {
    /// The scopes of the list, in order.
    pub open spec fn to_seq(&self) -> Seq<Scope>
        decreases self,
    {
        match self {
            ScopeList::Nil => Seq::empty(),
            ScopeList::Cons(head, tail) => seq![**head] + tail.to_seq(),
        }
    }
}

/// `scope a::b { ... }`: a named scope with its requires, items and child scopes.
#[derive(Debug)]
pub struct Scope {
    pub path: Located<Path>,
    pub requires: List<Require>,
    pub child_scopes: ScopeList,
    pub items: List<Item>,
    pub position: PositionRange,
}

/// The list that holds the scopes of `s` in front of `tail`, built from the back.
pub open spec fn build_scopes(s: Seq<Scope>, tail: ScopeList) -> ScopeList
    decreases s.len(),
{
    if s.len() == 0 {
        tail
    } else {
        build_scopes(s.drop_last(), ScopeList::Cons(Box::new(s.last()), Box::new(tail)))
    }
}

/// The list of the scopes of `s`, in order.
pub open spec fn scope_list_of(s: Seq<Scope>) -> ScopeList {
    build_scopes(s, ScopeList::Nil)
}

/// The scopes of `build_scopes(s, tail)` are those of `s` followed by those of `tail`.
pub proof fn lemma_build_scopes_to_seq(s: Seq<Scope>, tail: ScopeList)
    ensures
        build_scopes(s, tail).to_seq() == s + tail.to_seq(),
    decreases s.len(),
{
    if s.len() > 0 {
        let t2 = ScopeList::Cons(Box::new(s.last()), Box::new(tail));
        lemma_build_scopes_to_seq(s.drop_last(), t2);
        assert(s.drop_last() + (seq![s.last()] + tail.to_seq()) == s + tail.to_seq());
    }
}

/// The scopes of `scope_list_of(s)` are those of `s`.
pub proof fn lemma_scope_list_of_to_seq(s: Seq<Scope>)
    ensures
        scope_list_of(s).to_seq() == s,
{
    lemma_build_scopes_to_seq(s, ScopeList::Nil);
    assert(s + Seq::<Scope>::empty() == s);
}

/// Turns a vector of scopes into a list with the same scopes in the same order.
pub fn scope_list_from_vec(v: Vec<Scope>) -> (l: ScopeList)
    ensures
        l == scope_list_of(v@),
{
    let ghost orig = v@;
    let mut v = v;
    let mut l = ScopeList::Nil;
    while v.len() > 0
        invariant
            build_scopes(v@, l) == scope_list_of(orig),
        decreases v.len(),
    {
        let ghost before = v@;
        let x = v.pop().unwrap();
        proof {
            assert(v@ == before.drop_last());
        }
        l = ScopeList::Cons(Box::new(x), Box::new(l));
    }
    l
}

} // verus!
