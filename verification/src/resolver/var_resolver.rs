//! Resolution of the variables that a scope uses.
//!
//! The resolver walks the functions of a scope with a stack of lexical scopes. A declaration
//! resolves its type, records it, and enters the innermost scope, unless a declaration of
//! the same name is there already, which is reported. A variable whose path is a single name
//! refers to the innermost declaration of that name; any other is kept, and at the end it is
//! reported unless it names a function, of this scope or of the scope its path leads to.
use vstd::prelude::*;

use std::collections::VecDeque;
use vstd::hash_map::StringHashMap;

use crate::ast::{AstId, BlockExpr, ConstructorItem, DeclarationExpr, Expr, FunctionItem, Item, List, ParsedType, ParsedTypeEnum, Path, Scope, VarExpr};
use crate::diagnostic::{Diagnostic, DiagnosticSeverity, DiagnosticView, ErrMsg};
use crate::resolver::{spec_resolve_type, GlobalSymbolTable, SymbolTable, TypeArena, TypeArenaView, TypeId};
use crate::token::{Located, PositionRange};

verus! {

/// The state of a variable resolution: the stack of lexical scopes (the innermost last),
/// each mapping a name to the node id of its declaration; the variables that no declaration in scope
/// resolved; the diagnostics; the arena; and what the symbol table records.
pub struct VarState {
    pub scopes: Seq<Map<Seq<char>, AstId>>,
    pub unknown: Seq<Located<Path>>,
    pub diags: Seq<DiagnosticView>,
    pub arena: TypeArenaView,
    pub variables: Map<usize, AstId>,
    pub declaration_types: Map<usize, TypeId>,
    pub function_names: Set<Seq<char>>,
}

/// The names of the segments of a path.
pub open spec fn segment_names(p: Path) -> Seq<Seq<char>> {
    p.segments.to_seq().map_values(|s: Located<String>| s.data@)
}

/// The node id of the innermost declaration of `name`, if any scope declares it.
pub open spec fn lookup(scopes: Seq<Map<Seq<char>, AstId>>, name: Seq<char>) -> Option<AstId>
    decreases scopes.len(),
{
    if scopes.len() == 0 {
        None
    } else if scopes.last().contains_key(name) {
        Some(scopes.last()[name])
    } else {
        lookup(scopes.drop_last(), name)
    }
}

/// Whether every type name in `t` is known.
pub open spec fn type_known(types: Map<Seq<char>, TypeId>, t: ParsedType) -> bool
    decreases t,
{
    match t.parsed_type {
        ParsedTypeEnum::TypeName(name) => types.contains_key(name@),
        ParsedTypeEnum::Pointer(inner) => type_known(types, *inner),
        ParsedTypeEnum::Reference(inner) => type_known(types, *inner),
        ParsedTypeEnum::Array(inner) => type_known(types, *inner),
        _ => true,
    }
}

/// A type whose names are all known resolves.
pub proof fn lemma_known_type_resolves(types: Map<Seq<char>, TypeId>, a: TypeArenaView, t: ParsedType)
    requires
        type_known(types, t),
    ensures
        spec_resolve_type(types, a, t).0 is Some,
    decreases t,
{
    match t.parsed_type {
        ParsedTypeEnum::Pointer(inner) => lemma_known_type_resolves(types, a, *inner),
        ParsedTypeEnum::Reference(inner) => lemma_known_type_resolves(types, a, *inner),
        ParsedTypeEnum::Array(inner) => lemma_known_type_resolves(types, a, *inner),
        _ => {},
    }
}

/// The error that reports a second declaration of `name` in one scope.
pub open spec fn duplicate_at(name: Seq<char>, position: PositionRange) -> DiagnosticView {
    DiagnosticView { severity: DiagnosticSeverity::Error, message: "duplicate variable "@ + name, position }
}

/// A variable use: a single name that a scope declares refers to its innermost
/// declaration; any other path is kept for the end.
pub open spec fn vr_var(s: VarState, v: VarExpr) -> VarState {
    let names = segment_names(v.path.data);
    if names.len() == 1 {
        match lookup(s.scopes, names[0]) {
            Some(decl) => VarState { variables: s.variables.insert(v.id.0, decl), ..s },
            None => VarState { unknown: s.unknown.push(v.path), ..s },
        }
    } else {
        VarState { unknown: s.unknown.push(v.path), ..s }
    }
}

/// A declaration: its initializer, then its type is resolved and recorded, then it enters
/// the innermost scope unless that scope declares its name already.
pub open spec fn vr_decl(types: Map<Seq<char>, TypeId>, s: VarState, d: DeclarationExpr) -> VarState
    decreases d,
{
    let s1 = vr_opt(types, s, d.expr);
    let (t, a) = spec_resolve_type(types, s1.arena, d.declaration_type);
    let s2 = VarState { arena: a, declaration_types: s1.declaration_types.insert(d.id.0, t->Some_0), ..s1 };
    let name = d.identifier.data@;
    if s2.scopes.last().contains_key(name) {
        VarState { diags: s2.diags.push(duplicate_at(name, d.position)), ..s2 }
    } else {
        VarState { scopes: s2.scopes.update(s2.scopes.len() - 1, s2.scopes.last().insert(name, d.id)), ..s2 }
    }
}

/// An optional expression.
pub open spec fn vr_opt(types: Map<Seq<char>, TypeId>, s: VarState, o: Option<Box<Expr>>) -> VarState
    decreases o,
{
    match o {
        Some(e) => vr_expr(types, s, *e),
        None => s,
    }
}

/// Expressions, in order.
pub open spec fn vr_exprs(types: Map<Seq<char>, TypeId>, s: VarState, l: List<Expr>) -> VarState
    decreases l,
{
    match l {
        List::Nil => s,
        List::Cons(head, tail) => vr_exprs(types, vr_expr(types, s, *head), *tail),
    }
}

/// A block opens a scope for its expressions.
pub open spec fn vr_block(types: Map<Seq<char>, TypeId>, s: VarState, b: BlockExpr) -> VarState
    decreases b,
{
    let s1 = vr_exprs(types, VarState { scopes: s.scopes.push(Map::empty()), ..s }, b.exprs);
    VarState { scopes: s1.scopes.drop_last(), ..s1 }
}

/// An expression: its parts, in order; accesses and calls visit their arguments before
/// what they apply to.
pub open spec fn vr_expr(types: Map<Seq<char>, TypeId>, s: VarState, e: Expr) -> VarState
    decreases e,
{
    match e {
        Expr::Literal(_) => s,
        Expr::Var(v) => vr_var(s, v),
        Expr::Binary(b) => vr_expr(types, vr_expr(types, s, *b.left), *b.right),
        Expr::Unary(u) => vr_expr(types, s, *u.expr),
        Expr::Cast(c) => vr_expr(types, s, *c.expr),
        Expr::Assignment(a) => vr_expr(types, vr_expr(types, s, *a.assignee), *a.expr),
        Expr::Declaration(d) => vr_decl(types, s, d),
        Expr::Block(b) => vr_block(types, s, b),
        Expr::If(i) => vr_opt(types, vr_expr(types, vr_expr(types, s, *i.condition), *i.success), i.fail),
        Expr::Loop(l) => {
            let s1 = match l.initial {
                Some(d) => vr_decl(types, s, *d),
                None => s,
            };
            vr_block(types, vr_opt(types, vr_opt(types, s1, l.condition), l.increment), l.body)
        },
        Expr::Exit(x) => vr_opt(types, s, x.expr),
        Expr::Delete(d) => vr_expr(types, s, *d.expr),
        Expr::ConstructorCall(c) => vr_exprs(types, s, c.arguments),
        Expr::NewArray(n) => vr_exprs(types, s, n.sizes),
        Expr::StructAccess(a) => vr_expr(types, s, *a.expr),
        Expr::ArrayAccess(a) => vr_expr(types, vr_expr(types, s, *a.index), *a.expr),
        Expr::FunctionAccess(f) => vr_expr(types, vr_exprs(types, s, f.arguments), *f.expr),
        Expr::FunctionCall(f) => vr_expr(types, vr_exprs(types, s, f.arguments), *f.function),
    }
}

/// Whether the declarations that the resolution visits in `e` all have known types.
pub open spec fn expr_ok(types: Map<Seq<char>, TypeId>, e: Expr) -> bool
    decreases e,
{
    match e {
        Expr::Literal(_) => true,
        Expr::Var(_) => true,
        Expr::Binary(b) => expr_ok(types, *b.left) && expr_ok(types, *b.right),
        Expr::Unary(u) => expr_ok(types, *u.expr),
        Expr::Cast(c) => expr_ok(types, *c.expr),
        Expr::Assignment(a) => expr_ok(types, *a.assignee) && expr_ok(types, *a.expr),
        Expr::Declaration(d) => decl_ok(types, d),
        Expr::Block(b) => block_ok(types, b),
        Expr::If(i) => expr_ok(types, *i.condition) && expr_ok(types, *i.success) && opt_ok(types, i.fail),
        Expr::Loop(l) => (match l.initial {
            Some(d) => decl_ok(types, *d),
            None => true,
        }) && opt_ok(types, l.condition) && opt_ok(types, l.increment) && block_ok(types, l.body),
        Expr::Exit(x) => opt_ok(types, x.expr),
        Expr::Delete(d) => expr_ok(types, *d.expr),
        Expr::ConstructorCall(c) => exprs_ok(types, c.arguments),
        Expr::NewArray(n) => exprs_ok(types, n.sizes),
        Expr::StructAccess(a) => expr_ok(types, *a.expr),
        Expr::ArrayAccess(a) => expr_ok(types, *a.index) && expr_ok(types, *a.expr),
        Expr::FunctionAccess(f) => exprs_ok(types, f.arguments) && expr_ok(types, *f.expr),
        Expr::FunctionCall(f) => exprs_ok(types, f.arguments) && expr_ok(types, *f.function),
    }
}

/// Whether a declaration and its initializer have known types.
pub open spec fn decl_ok(types: Map<Seq<char>, TypeId>, d: DeclarationExpr) -> bool
    decreases d,
{
    opt_ok(types, d.expr) && type_known(types, d.declaration_type)
}

/// Whether an optional expression's declarations have known types.
pub open spec fn opt_ok(types: Map<Seq<char>, TypeId>, o: Option<Box<Expr>>) -> bool
    decreases o,
{
    match o {
        Some(e) => expr_ok(types, *e),
        None => true,
    }
}

/// Whether the declarations in a list of expressions have known types.
pub open spec fn exprs_ok(types: Map<Seq<char>, TypeId>, l: List<Expr>) -> bool
    decreases l,
{
    match l {
        List::Nil => true,
        List::Cons(head, tail) => expr_ok(types, *head) && exprs_ok(types, *tail),
    }
}

/// Whether the declarations in a block have known types.
pub open spec fn block_ok(types: Map<Seq<char>, TypeId>, b: BlockExpr) -> bool
    decreases b,
{
    exprs_ok(types, b.exprs)
}

/// Parameters, in order.
pub open spec fn vr_decls(types: Map<Seq<char>, TypeId>, s: VarState, l: List<DeclarationExpr>) -> VarState
    decreases l,
{
    match l {
        List::Nil => s,
        List::Cons(head, tail) => vr_decls(types, vr_decl(types, s, *head), *tail),
    }
}

/// A function: its name is recorded; a function with a body opens a scope for its
/// parameters, in which its body is resolved.
pub open spec fn vr_function(types: Map<Seq<char>, TypeId>, s: VarState, f: FunctionItem) -> VarState {
    let s1 = VarState { function_names: s.function_names.insert(f.name.data@), ..s };
    match f.body {
        Some(b) => {
            let s2 = vr_decls(types, VarState { scopes: s1.scopes.push(Map::empty()), ..s1 }, f.parameters);
            let s3 = vr_block(types, s2, b);
            VarState { scopes: s3.scopes.drop_last(), ..s3 }
        },
        None => s1,
    }
}

/// Functions, in order.
pub open spec fn vr_functions(types: Map<Seq<char>, TypeId>, s: VarState, l: List<FunctionItem>) -> VarState
    decreases l,
{
    match l {
        List::Nil => s,
        List::Cons(head, tail) => vr_functions(types, vr_function(types, s, *head), *tail),
    }
}

/// The bodies of constructors, in order.
pub open spec fn vr_constructors(types: Map<Seq<char>, TypeId>, s: VarState, l: List<ConstructorItem>) -> VarState
    decreases l,
{
    match l {
        List::Nil => s,
        List::Cons(head, tail) => vr_constructors(types, vr_block(types, s, head.body), *tail),
    }
}

/// An item: the functions of the scope and of its impl blocks, and the constructors of its
/// structs.
pub open spec fn vr_item(types: Map<Seq<char>, TypeId>, s: VarState, item: Item) -> VarState {
    match item {
        Item::Main(_) => s,
        Item::Function(f) => vr_function(types, s, f),
        Item::Struct(st) => vr_constructors(types, s, st.constructors),
        Item::Impl(i) => vr_functions(types, s, i.functions),
    }
}

/// Items, in order.
pub open spec fn vr_items(types: Map<Seq<char>, TypeId>, s: VarState, l: List<Item>) -> VarState
    decreases l,
{
    match l {
        List::Nil => s,
        List::Cons(head, tail) => vr_items(types, vr_item(types, s, *head), *tail),
    }
}

/// Whether parameters have known types.
pub open spec fn decls_ok(types: Map<Seq<char>, TypeId>, l: List<DeclarationExpr>) -> bool
    decreases l,
{
    match l {
        List::Nil => true,
        List::Cons(head, tail) => decl_ok(types, *head) && decls_ok(types, *tail),
    }
}

/// Whether the declarations that the resolution visits in a function have known types.
pub open spec fn function_ok(types: Map<Seq<char>, TypeId>, f: FunctionItem) -> bool {
    match f.body {
        Some(b) => decls_ok(types, f.parameters) && block_ok(types, b),
        None => true,
    }
}

/// Whether the functions' visited declarations have known types.
pub open spec fn functions_ok(types: Map<Seq<char>, TypeId>, l: List<FunctionItem>) -> bool
    decreases l,
{
    match l {
        List::Nil => true,
        List::Cons(head, tail) => function_ok(types, *head) && functions_ok(types, *tail),
    }
}

/// Whether the declarations in the bodies of constructors have known types.
pub open spec fn constructors_ok(types: Map<Seq<char>, TypeId>, l: List<ConstructorItem>) -> bool
    decreases l,
{
    match l {
        List::Nil => true,
        List::Cons(head, tail) => block_ok(types, head.body) && constructors_ok(types, *tail),
    }
}

/// Whether the declarations that the resolution visits in an item have known types.
pub open spec fn item_ok(types: Map<Seq<char>, TypeId>, item: Item) -> bool {
    match item {
        Item::Main(_) => true,
        Item::Function(f) => function_ok(types, f),
        Item::Struct(st) => constructors_ok(types, st.constructors),
        Item::Impl(i) => functions_ok(types, i.functions),
    }
}

/// Whether the declarations that the resolution visits in items have known types.
pub open spec fn items_ok(types: Map<Seq<char>, TypeId>, l: List<Item>) -> bool
    decreases l,
{
    match l {
        List::Nil => true,
        List::Cons(head, tail) => item_ok(types, *head) && items_ok(types, *tail),
    }
}

/// Every path kept for the end has at least one segment.
pub open spec fn unknown_paths_ok(unknown: Seq<Located<Path>>) -> bool {
    forall|i: int| 0 <= i < unknown.len() ==> (#[trigger] unknown[i]).data.segments.to_seq().len() > 0
}

/// Whether every variable path in `e` has at least one segment.
pub open spec fn expr_paths_ok(e: Expr) -> bool
    decreases e,
{
    match e {
        Expr::Literal(_) => true,
        Expr::Var(v) => v.path.data.segments.to_seq().len() > 0,
        Expr::Binary(b) => expr_paths_ok(*b.left) && expr_paths_ok(*b.right),
        Expr::Unary(u) => expr_paths_ok(*u.expr),
        Expr::Cast(c) => expr_paths_ok(*c.expr),
        Expr::Assignment(a) => expr_paths_ok(*a.assignee) && expr_paths_ok(*a.expr),
        Expr::Declaration(d) => opt_paths_ok(d.expr),
        Expr::Block(b) => exprs_paths_ok(b.exprs),
        Expr::If(i) => expr_paths_ok(*i.condition) && expr_paths_ok(*i.success) && opt_paths_ok(i.fail),
        Expr::Loop(l) => (match l.initial {
            Some(d) => opt_paths_ok(d.expr),
            None => true,
        }) && opt_paths_ok(l.condition) && opt_paths_ok(l.increment) && exprs_paths_ok(l.body.exprs),
        Expr::Exit(x) => opt_paths_ok(x.expr),
        Expr::Delete(d) => expr_paths_ok(*d.expr),
        Expr::ConstructorCall(c) => exprs_paths_ok(c.arguments),
        Expr::NewArray(n) => exprs_paths_ok(n.sizes),
        Expr::StructAccess(a) => expr_paths_ok(*a.expr),
        Expr::ArrayAccess(a) => expr_paths_ok(*a.index) && expr_paths_ok(*a.expr),
        Expr::FunctionAccess(f) => exprs_paths_ok(f.arguments) && expr_paths_ok(*f.expr),
        Expr::FunctionCall(f) => exprs_paths_ok(f.arguments) && expr_paths_ok(*f.function),
    }
}

/// Whether every variable path in an optional expression has a segment.
pub open spec fn opt_paths_ok(o: Option<Box<Expr>>) -> bool
    decreases o,
{
    match o {
        Some(e) => expr_paths_ok(*e),
        None => true,
    }
}

/// Whether every variable path in a list of expressions has a segment.
pub open spec fn exprs_paths_ok(l: List<Expr>) -> bool
    decreases l,
{
    match l {
        List::Nil => true,
        List::Cons(head, tail) => expr_paths_ok(*head) && exprs_paths_ok(*tail),
    }
}

/// Whether every variable path in the initializers of parameters has a segment.
pub open spec fn decls_paths_ok(l: List<DeclarationExpr>) -> bool
    decreases l,
{
    match l {
        List::Nil => true,
        List::Cons(head, tail) => opt_paths_ok(head.expr) && decls_paths_ok(*tail),
    }
}

/// Whether every variable path that the resolution visits in a function has a segment.
pub open spec fn function_paths_ok(f: FunctionItem) -> bool {
    match f.body {
        Some(b) => decls_paths_ok(f.parameters) && exprs_paths_ok(b.exprs),
        None => true,
    }
}

/// Whether every variable path that the resolution visits in functions has a segment.
pub open spec fn functions_paths_ok(l: List<FunctionItem>) -> bool
    decreases l,
{
    match l {
        List::Nil => true,
        List::Cons(head, tail) => function_paths_ok(*head) && functions_paths_ok(*tail),
    }
}

/// Whether every variable path in the bodies of constructors has a segment.
pub open spec fn constructors_paths_ok(l: List<ConstructorItem>) -> bool
    decreases l,
{
    match l {
        List::Nil => true,
        List::Cons(head, tail) => exprs_paths_ok(head.body.exprs) && constructors_paths_ok(*tail),
    }
}

/// Whether every variable path that the resolution visits in an item has a segment.
pub open spec fn item_paths_ok(item: Item) -> bool {
    match item {
        Item::Main(_) => true,
        Item::Function(f) => function_paths_ok(f),
        Item::Struct(st) => constructors_paths_ok(st.constructors),
        Item::Impl(i) => functions_paths_ok(i.functions),
    }
}

/// Whether every variable path that the resolution visits in items has a segment.
pub open spec fn items_paths_ok(l: List<Item>) -> bool
    decreases l,
{
    match l {
        List::Nil => true,
        List::Cons(head, tail) => item_paths_ok(*head) && items_paths_ok(*tail),
    }
}

/// Resolving an expression whose variable paths all have a segment keeps only such paths.
pub proof fn lemma_expr_paths(types: Map<Seq<char>, TypeId>, s: VarState, e: Expr)
    requires
        unknown_paths_ok(s.unknown),
        expr_paths_ok(e),
    ensures
        unknown_paths_ok(vr_expr(types, s, e).unknown),
    decreases e,
{
    match e {
        Expr::Literal(_) => {},
        Expr::Var(v) => {
            let r = vr_expr(types, s, e);
            assert forall|i: int| 0 <= i < r.unknown.len() implies (#[trigger] r.unknown[i]).data.segments.to_seq().len() > 0 by {
                if i < s.unknown.len() {
                    assert(r.unknown[i] == s.unknown[i]);
                }
            }
        },
        Expr::Binary(b) => {
            lemma_expr_paths(types, s, *b.left);
            lemma_expr_paths(types, vr_expr(types, s, *b.left), *b.right);
        },
        Expr::Unary(u) => lemma_expr_paths(types, s, *u.expr),
        Expr::Cast(c) => lemma_expr_paths(types, s, *c.expr),
        Expr::Assignment(a) => {
            lemma_expr_paths(types, s, *a.assignee);
            lemma_expr_paths(types, vr_expr(types, s, *a.assignee), *a.expr);
        },
        Expr::Declaration(d) => lemma_decl_paths(types, s, d),
        Expr::Block(b) => lemma_block_paths(types, s, b),
        Expr::If(i) => {
            lemma_expr_paths(types, s, *i.condition);
            let s1 = vr_expr(types, s, *i.condition);
            lemma_expr_paths(types, s1, *i.success);
            lemma_opt_paths(types, vr_expr(types, s1, *i.success), i.fail);
        },
        Expr::Loop(l) => {
            let s1 = match l.initial {
                Some(d) => vr_decl(types, s, *d),
                None => s,
            };
            if let Some(d) = l.initial {
                lemma_decl_paths(types, s, *d);
            }
            lemma_opt_paths(types, s1, l.condition);
            let s2 = vr_opt(types, s1, l.condition);
            lemma_opt_paths(types, s2, l.increment);
            lemma_block_paths(types, vr_opt(types, s2, l.increment), l.body);
        },
        Expr::Exit(x) => lemma_opt_paths(types, s, x.expr),
        Expr::Delete(d) => lemma_expr_paths(types, s, *d.expr),
        Expr::ConstructorCall(c) => lemma_exprs_paths(types, s, c.arguments),
        Expr::NewArray(n) => lemma_exprs_paths(types, s, n.sizes),
        Expr::StructAccess(a) => lemma_expr_paths(types, s, *a.expr),
        Expr::ArrayAccess(a) => {
            lemma_expr_paths(types, s, *a.index);
            lemma_expr_paths(types, vr_expr(types, s, *a.index), *a.expr);
        },
        Expr::FunctionAccess(f) => {
            lemma_exprs_paths(types, s, f.arguments);
            lemma_expr_paths(types, vr_exprs(types, s, f.arguments), *f.expr);
        },
        Expr::FunctionCall(f) => {
            lemma_exprs_paths(types, s, f.arguments);
            lemma_expr_paths(types, vr_exprs(types, s, f.arguments), *f.function);
        },
    }
}

/// The same for an optional expression.
pub proof fn lemma_opt_paths(types: Map<Seq<char>, TypeId>, s: VarState, o: Option<Box<Expr>>)
    requires
        unknown_paths_ok(s.unknown),
        opt_paths_ok(o),
    ensures
        unknown_paths_ok(vr_opt(types, s, o).unknown),
    decreases o,
{
    if let Some(e) = o {
        lemma_expr_paths(types, s, *e);
    }
}

/// The same for a list of expressions.
pub proof fn lemma_exprs_paths(types: Map<Seq<char>, TypeId>, s: VarState, l: List<Expr>)
    requires
        unknown_paths_ok(s.unknown),
        exprs_paths_ok(l),
    ensures
        unknown_paths_ok(vr_exprs(types, s, l).unknown),
    decreases l,
{
    if let List::Cons(head, tail) = l {
        lemma_expr_paths(types, s, *head);
        lemma_exprs_paths(types, vr_expr(types, s, *head), *tail);
    }
}

/// The same for a block.
pub proof fn lemma_block_paths(types: Map<Seq<char>, TypeId>, s: VarState, b: BlockExpr)
    requires
        unknown_paths_ok(s.unknown),
        exprs_paths_ok(b.exprs),
    ensures
        unknown_paths_ok(vr_block(types, s, b).unknown),
    decreases b,
{
    lemma_exprs_paths(types, VarState { scopes: s.scopes.push(Map::empty()), ..s }, b.exprs);
}

/// The same for a declaration.
pub proof fn lemma_decl_paths(types: Map<Seq<char>, TypeId>, s: VarState, d: DeclarationExpr)
    requires
        unknown_paths_ok(s.unknown),
        opt_paths_ok(d.expr),
    ensures
        unknown_paths_ok(vr_decl(types, s, d).unknown),
    decreases d,
{
    lemma_opt_paths(types, s, d.expr);
}

/// The same for parameters.
pub proof fn lemma_decls_paths(types: Map<Seq<char>, TypeId>, s: VarState, l: List<DeclarationExpr>)
    requires
        unknown_paths_ok(s.unknown),
        decls_paths_ok(l),
    ensures
        unknown_paths_ok(vr_decls(types, s, l).unknown),
    decreases l,
{
    if let List::Cons(head, tail) = l {
        lemma_decl_paths(types, s, *head);
        lemma_decls_paths(types, vr_decl(types, s, *head), *tail);
    }
}

/// The same for functions.
pub proof fn lemma_functions_paths(types: Map<Seq<char>, TypeId>, s: VarState, l: List<FunctionItem>)
    requires
        unknown_paths_ok(s.unknown),
        functions_paths_ok(l),
    ensures
        unknown_paths_ok(vr_functions(types, s, l).unknown),
    decreases l,
{
    if let List::Cons(head, tail) = l {
        lemma_function_paths(types, s, *head);
        lemma_functions_paths(types, vr_function(types, s, *head), *tail);
    }
}

/// The same for a function.
pub proof fn lemma_function_paths(types: Map<Seq<char>, TypeId>, s: VarState, f: FunctionItem)
    requires
        unknown_paths_ok(s.unknown),
        function_paths_ok(f),
    ensures
        unknown_paths_ok(vr_function(types, s, f).unknown),
{
    let s1 = VarState { function_names: s.function_names.insert(f.name.data@), ..s };
    if let Some(b) = f.body {
        let s2 = vr_decls(types, VarState { scopes: s1.scopes.push(Map::empty()), ..s1 }, f.parameters);
        lemma_decls_paths(types, VarState { scopes: s1.scopes.push(Map::empty()), ..s1 }, f.parameters);
        lemma_block_paths(types, s2, b);
    }
}

/// The same for the constructors of a struct.
pub proof fn lemma_constructors_paths(types: Map<Seq<char>, TypeId>, s: VarState, l: List<ConstructorItem>)
    requires
        unknown_paths_ok(s.unknown),
        constructors_paths_ok(l),
    ensures
        unknown_paths_ok(vr_constructors(types, s, l).unknown),
    decreases l,
{
    if let List::Cons(head, tail) = l {
        lemma_block_paths(types, s, head.body);
        lemma_constructors_paths(types, vr_block(types, s, head.body), *tail);
    }
}

/// Resolving items whose variable paths all have a segment keeps only such paths for the
/// end, so that `VarResolver::finish_resolving` may be called after `resolve_vars` on such
/// a scope.
pub proof fn lemma_items_paths(types: Map<Seq<char>, TypeId>, s: VarState, l: List<Item>)
    requires
        unknown_paths_ok(s.unknown),
        items_paths_ok(l),
    ensures
        unknown_paths_ok(vr_items(types, s, l).unknown),
    decreases l,
{
    if let List::Cons(head, tail) = l {
        match *head {
            Item::Main(_) => {},
            Item::Function(f) => lemma_function_paths(types, s, f),
            Item::Struct(st) => lemma_constructors_paths(types, s, st.constructors),
            Item::Impl(i) => lemma_functions_paths(types, s, i.functions),
        }
        lemma_items_paths(types, vr_item(types, s, *head), *tail);
    }
}

/// The names of a path's segments joined by `::`.
pub open spec fn path_text(names: Seq<Seq<char>>) -> Seq<char>
    decreases names.len(),
{
    if names.len() == 0 {
        Seq::empty()
    } else if names.len() == 1 {
        names[0]
    } else {
        path_text(names.drop_last()) + "::"@ + names.last()
    }
}

/// The scopes of a global table: each scope's path and the names of its functions.
pub open spec fn global_view(g: GlobalSymbolTable) -> Seq<(Seq<Seq<char>>, Set<Seq<char>>)> {
    g.scopes@.map_values(|e: (Vec<String>, SymbolTable)| (e.0@.map_values(|n: String| n@), e.1.function_names_view()))
}

/// The function names of the first scope whose path is `path`, from index `i` on.
pub open spec fn scope_functions(scopes: Seq<(Seq<Seq<char>>, Set<Seq<char>>)>, path: Seq<Seq<char>>, i: int) -> Option<
    Set<Seq<char>>,
>
    decreases scopes.len() - i,
{
    if i < 0 || i >= scopes.len() {
        None
    } else if scopes[i].0 == path {
        Some(scopes[i].1)
    } else {
        scope_functions(scopes, path, i + 1)
    }
}

/// Whether a path that no declaration resolved names a function: a single name, of this
/// scope; a longer path, of the scope its other segments lead to.
pub open spec fn path_known(own: Set<Seq<char>>, scopes: Seq<(Seq<Seq<char>>, Set<Seq<char>>)>, names: Seq<Seq<char>>) -> bool {
    if names.len() == 1 {
        own.contains(names[0])
    } else {
        match scope_functions(scopes, names.drop_last(), 0) {
            Some(fns) => fns.contains(names.last()),
            None => false,
        }
    }
}

/// The error that reports an unknown variable.
pub open spec fn unknown_variable_at(text: Seq<char>, position: PositionRange) -> DiagnosticView {
    DiagnosticView { severity: DiagnosticSeverity::Error, message: "unknown variable "@ + text, position }
}

/// The errors for the paths that name no function, in order.
pub open spec fn unknown_diags(
    own: Set<Seq<char>>,
    scopes: Seq<(Seq<Seq<char>>, Set<Seq<char>>)>,
    unknown: Seq<Located<Path>>,
) -> Seq<DiagnosticView>
    decreases unknown.len(),
{
    if unknown.len() == 0 {
        Seq::empty()
    } else {
        let names = segment_names(unknown[0].data);
        let rest = unknown_diags(own, scopes, unknown.drop_first());
        if path_known(own, scopes, names) {
            rest
        } else {
            seq![unknown_variable_at(path_text(names), unknown[0].position)] + rest
        }
    }
}

/// The names of a path's segments.
fn segment_strings(path: &Path) -> (r: Vec<String>)
    ensures
        r@.map_values(|n: String| n@) == segment_names(*path),
{
    let mut names: Vec<String> = Vec::new();
    let mut cur = &path.segments;
    let ghost all = segment_names(*path);
    proof {
        assert(names@.map_values(|n: String| n@) + cur.to_seq().map_values(|s: Located<String>| s.data@) =~= all);
    }
    loop
        invariant
            all == segment_names(*path),
            names@.map_values(|n: String| n@) + cur.to_seq().map_values(|s: Located<String>| s.data@) == all,
        decreases cur.to_seq().len(),
    {
        match cur {
            List::Nil => {
                assert(names@.map_values(|n: String| n@) =~= all);
                return names;
            },
            List::Cons(head, tail) => {
                let ghost before = names@.map_values(|n: String| n@);
                let name = head.data.clone();
                names.push(name);
                proof {
                    assert(cur.to_seq() == seq![**head] + tail.to_seq());
                    assert(names@.map_values(|n: String| n@) =~= before.push(head.data@));
                    assert(cur.to_seq().map_values(|s: Located<String>| s.data@) =~= seq![head.data@]
                        + tail.to_seq().map_values(|s: Located<String>| s.data@));
                    assert(names@.map_values(|n: String| n@) + tail.to_seq().map_values(|s: Located<String>| s.data@)
                        =~= before + cur.to_seq().map_values(|s: Located<String>| s.data@));
                }
                cur = tail;
            },
        }
    }
}

/// A path's segment names joined by `::`.
fn path_string(names: &Vec<String>) -> (r: String)
    requires
        names@.len() > 0,
    ensures
        r@ == path_text(names@.map_values(|n: String| n@)),
{
    let ghost all = names@.map_values(|n: String| n@);
    let mut text = names[0].clone();
    let mut i: usize = 1;
    proof {
        assert(all.subrange(0, 1).len() == 1);
        assert(all.subrange(0, 1)[0] == all[0]);
    }
    while i < names.len()
        invariant
            1 <= i <= names@.len(),
            all == names@.map_values(|n: String| n@),
            text@ == path_text(all.subrange(0, i as int)),
        decreases names@.len() - i,
    {
        text.append("::");
        text.append(names[i].as_str());
        proof {
            let sub = all.subrange(0, i + 1);
            assert(sub.drop_last() =~= all.subrange(0, i as int));
            assert(sub.last() == names@[i as int]@);
        }
        i = i + 1;
    }
    proof {
        assert(all.subrange(0, i as int) =~= all);
    }
    text
}

/// Whether two paths have the same segment names.
fn same_path(a: &Vec<String>, b: &Vec<String>) -> (r: bool)
    ensures
        r == (a@.map_values(|n: String| n@) == b@.map_values(|n: String| n@)),
{
    if a.len() != b.len() {
        proof {
            assert(a@.map_values(|n: String| n@).len() != b@.map_values(|n: String| n@).len());
        }
        return false;
    }
    let mut i: usize = 0;
    while i < a.len()
        invariant
            a@.len() == b@.len(),
            i <= a@.len(),
            forall|j: int| 0 <= j < i ==> a@[j]@ == b@[j]@,
        decreases a@.len() - i,
    {
        if a[i] != b[i] {
            proof {
                assert(a@.map_values(|n: String| n@)[i as int] != b@.map_values(|n: String| n@)[i as int]);
            }
            return false;
        }
        i = i + 1;
    }
    assert(a@.map_values(|n: String| n@) =~= b@.map_values(|n: String| n@));
    true
}

/// The index of the first scope of a global table whose path is `path`.
fn find_scope(global_table: &GlobalSymbolTable, path: &Vec<String>) -> (r: Option<usize>)
    ensures
        match r {
            Some(k) => k < global_table.scopes@.len() && scope_functions(
                global_view(*global_table),
                path@.map_values(|n: String| n@),
                0,
            ) == Some(global_table.scopes@[k as int].1.function_names_view()),
            None => scope_functions(global_view(*global_table), path@.map_values(|n: String| n@), 0) is None,
        },
{
    let ghost gv = global_view(*global_table);
    let ghost pv = path@.map_values(|n: String| n@);
    let mut i: usize = 0;
    while i < global_table.scopes.len()
        invariant
            i <= global_table.scopes@.len(),
            gv == global_view(*global_table),
            pv == path@.map_values(|n: String| n@),
            scope_functions(gv, pv, i as int) == scope_functions(gv, pv, 0),
        decreases global_table.scopes@.len() - i,
    {
        if same_path(&global_table.scopes[i].0, path) {
            return Some(i);
        }
        i = i + 1;
    }
    None
}

/// Resolves each variable use of a scope to its declaration.
pub struct VarResolver<'ctx> {
    scopes: VecDeque<StringHashMap<AstId>>,
    unknown_variables: Vec<&'ctx Located<Path>>,
}

impl<'ctx> VarResolver<'ctx> {
    /// The stack of lexical scopes, the innermost last.
    pub closed spec fn scopes_view(&self) -> Seq<Map<Seq<char>, AstId>> {
        self.scopes@.map_values(|m: StringHashMap<AstId>| m@)
    }

    /// The variables that no declaration in scope resolved, in the order they were met.
    pub closed spec fn unknown_view(&self) -> Seq<Located<Path>> {
        self.unknown_variables@.map_values(|r: &Located<Path>| *r)
    }

    /// The state of the resolution, with the given arena, symbol table and diagnostics.
    pub open spec fn var_state(&self, arena: TypeArenaView, table: SymbolTable, diags: Seq<Diagnostic>) -> VarState {
        VarState {
            scopes: self.scopes_view(),
            unknown: self.unknown_view(),
            diags: diags.map_values(|d: Diagnostic| d@),
            arena,
            variables: table.variables_view(),
            declaration_types: table.declaration_types_view(),
            function_names: table.function_names_view(),
        }
    }

    /// A resolver with one empty scope and no unknown variable.
    pub fn new() -> (r: VarResolver<'ctx>)
        ensures
            r.scopes_view() == seq![Map::<Seq<char>, AstId>::empty()],
            r.unknown_view() == Seq::<Located<Path>>::empty(),
            unknown_paths_ok(r.unknown_view()),
    {
        let mut scopes: VecDeque<StringHashMap<AstId>> = VecDeque::new();
        scopes.push_back(StringHashMap::new());
        let r = VarResolver { scopes, unknown_variables: Vec::new() };
        proof {
            assert(r.scopes_view() =~= seq![Map::<Seq<char>, AstId>::empty()]);
            assert(r.unknown_view() =~= Seq::<Located<Path>>::empty());
        }
        r
    }

    /// The innermost declaration of `name`.
    fn lookup(&self, name: &String) -> (r: Option<AstId>)
        ensures
            r == lookup(self.scopes_view(), name@),
    {
        let ghost all = self.scopes_view();
        let mut i: usize = self.scopes.len();
        proof {
            assert(all.subrange(0, i as int) =~= all);
        }
        while i > 0
            invariant
                all == self.scopes_view(),
                i <= self.scopes@.len(),
                lookup(all.subrange(0, i as int), name@) == lookup(all, name@),
            decreases i,
        {
            let ghost sub = all.subrange(0, i as int);
            proof {
                assert(sub.last() == self.scopes@[i - 1]@);
                assert(sub.drop_last() =~= all.subrange(0, i - 1));
            }
            match self.scopes[i - 1].get(name.as_str()) {
                Some(p) => {
                    return Some(*p);
                },
                None => {},
            }
            i = i - 1;
        }
        None
    }

    /// A variable use.
    fn visit_var(&mut self, symbol_table: &mut SymbolTable, node: &'ctx VarExpr)
        ensures
            final(self).scopes_view() == old(self).scopes_view(),
            final(symbol_table).types@ == old(symbol_table).types@,
            final(symbol_table).functions@ == old(symbol_table).functions@,
            forall|a: TypeArenaView, d: Seq<Diagnostic>|
                #![trigger final(self).var_state(a, *final(symbol_table), d)]
                final(self).var_state(a, *final(symbol_table), d) == vr_var(old(self).var_state(a, *old(symbol_table), d), *node),
    {
        let ghost names = segment_names(node.path.data);
        let single = match &node.path.data.segments {
            List::Cons(head, tail) => match &**tail {
                List::Nil => Some(&head.data),
                List::Cons(_, _) => None,
            },
            List::Nil => None,
        };
        proof {
            let segs = node.path.data.segments.to_seq();
            match &node.path.data.segments {
                List::Cons(head, tail) => {
                    assert(segs == seq![**head] + tail.to_seq());
                    assert(segs[0] == **head);
                    match &**tail {
                        List::Nil => {
                            assert(tail.to_seq() =~= Seq::<Located<String>>::empty());
                            assert(segs.len() == 1);
                        },
                        List::Cons(h2, t2) => {
                            assert(tail.to_seq() == seq![**h2] + t2.to_seq());
                            assert(segs.len() >= 2);
                        },
                    }
                },
                List::Nil => {},
            }
        }
        match single {
            Some(name) => {
                match self.lookup(name) {
                    Some(decl) => {
                        symbol_table.insert_variable(node.id, decl);
                        return;
                    },
                    None => {},
                }
            },
            None => {},
        }
        let ghost before = self.unknown_view();
        self.unknown_variables.push(&node.path);
        proof {
            assert(self.unknown_view() =~= before.push(node.path));
        }
    }

    fn visit_opt(
        &mut self,
        type_arena: &mut TypeArena,
        symbol_table: &mut SymbolTable,
        diagnostics: &mut Vec<Diagnostic>,
        node: &'ctx Option<Box<Expr>>,
    )
        requires
            old(self).scopes_view().len() > 0,
            opt_ok(old(symbol_table).types@, *node),
        ensures
            final(self).scopes_view().len() == old(self).scopes_view().len(),
            final(self).scopes_view().drop_last() == old(self).scopes_view().drop_last(),
            final(symbol_table).types@ == old(symbol_table).types@,
            final(symbol_table).functions@ == old(symbol_table).functions@,
            final(self).var_state(final(type_arena)@, *final(symbol_table), final(diagnostics)@) == vr_opt(
                old(symbol_table).types@,
                old(self).var_state(old(type_arena)@, *old(symbol_table), old(diagnostics)@),
                *node,
            ),
        decreases node,
    {
        match node {
            Some(e) => self.visit_expr(type_arena, symbol_table, diagnostics, e),
            None => {},
        }
    }

    fn visit_exprs(
        &mut self,
        type_arena: &mut TypeArena,
        symbol_table: &mut SymbolTable,
        diagnostics: &mut Vec<Diagnostic>,
        node: &'ctx List<Expr>,
    )
        requires
            old(self).scopes_view().len() > 0,
            exprs_ok(old(symbol_table).types@, *node),
        ensures
            final(self).scopes_view().len() == old(self).scopes_view().len(),
            final(self).scopes_view().drop_last() == old(self).scopes_view().drop_last(),
            final(symbol_table).types@ == old(symbol_table).types@,
            final(symbol_table).functions@ == old(symbol_table).functions@,
            final(self).var_state(final(type_arena)@, *final(symbol_table), final(diagnostics)@) == vr_exprs(
                old(symbol_table).types@,
                old(self).var_state(old(type_arena)@, *old(symbol_table), old(diagnostics)@),
                *node,
            ),
        decreases node,
    {
        match node {
            List::Nil => {},
            List::Cons(head, tail) => {
                self.visit_expr(type_arena, symbol_table, diagnostics, head);
                self.visit_exprs(type_arena, symbol_table, diagnostics, tail);
            },
        }
    }

    fn visit_block(
        &mut self,
        type_arena: &mut TypeArena,
        symbol_table: &mut SymbolTable,
        diagnostics: &mut Vec<Diagnostic>,
        node: &'ctx BlockExpr,
    )
        requires
            old(self).scopes_view().len() > 0,
            block_ok(old(symbol_table).types@, *node),
        ensures
            final(self).scopes_view().len() == old(self).scopes_view().len(),
            final(self).scopes_view() == old(self).scopes_view(),
            final(symbol_table).types@ == old(symbol_table).types@,
            final(symbol_table).functions@ == old(symbol_table).functions@,
            final(self).var_state(final(type_arena)@, *final(symbol_table), final(diagnostics)@) == vr_block(
                old(symbol_table).types@,
                old(self).var_state(old(type_arena)@, *old(symbol_table), old(diagnostics)@),
                *node,
            ),
        decreases node,
    {
        let ghost before = self.scopes_view();
        self.scopes.push_back(StringHashMap::new());
        proof {
            assert(self.scopes_view() =~= before.push(Map::empty()));
        }
        self.visit_exprs(type_arena, symbol_table, diagnostics, &node.exprs);
        let ghost inner = self.scopes_view();
        self.scopes.pop_back();
        proof {
            assert(self.scopes_view() =~= inner.drop_last());
        }
    }

    fn visit_decl(
        &mut self,
        type_arena: &mut TypeArena,
        symbol_table: &mut SymbolTable,
        diagnostics: &mut Vec<Diagnostic>,
        node: &'ctx DeclarationExpr,
    )
        requires
            old(self).scopes_view().len() > 0,
            decl_ok(old(symbol_table).types@, *node),
        ensures
            final(self).scopes_view().len() == old(self).scopes_view().len(),
            final(self).scopes_view().drop_last() == old(self).scopes_view().drop_last(),
            final(symbol_table).types@ == old(symbol_table).types@,
            final(symbol_table).functions@ == old(symbol_table).functions@,
            final(self).var_state(final(type_arena)@, *final(symbol_table), final(diagnostics)@) == vr_decl(
                old(symbol_table).types@,
                old(self).var_state(old(type_arena)@, *old(symbol_table), old(diagnostics)@),
                *node,
            ),
        decreases node,
    {
        self.visit_opt(type_arena, symbol_table, diagnostics, &node.expr);
        let ghost types = symbol_table.types@;
        let ghost arena = type_arena@;
        let resolved = symbol_table.resolve_type(type_arena, &node.declaration_type);
        let type_id = match resolved {
            Some(t) => t,
            None => {
                proof {
                    lemma_known_type_resolves(types, arena, node.declaration_type);
                }
                return;
            },
        };
        symbol_table.insert_declaration_type(node.id, type_id);
        let ghost before = self.scopes_view();
        let mut innermost = self.scopes.pop_back().unwrap();
        proof {
            assert(innermost@ == before.last());
        }
        if innermost.contains_key(node.identifier.data.as_str()) {
            self.scopes.push_back(innermost);
            proof {
                assert(self.scopes_view() =~= before);
            }
            let ghost ds = diagnostics@;
            diagnostics.push(ErrMsg::DuplicateVariable(node.identifier.data.clone()).make_diagnostic(node.position));
            proof {
                assert(diagnostics@.map_values(|d: Diagnostic| d@) =~= ds.map_values(|d: Diagnostic| d@).push(
                    duplicate_at(node.identifier.data@, node.position),
                ));
            }
        } else {
            innermost.insert(node.identifier.data.clone(), node.id);
            self.scopes.push_back(innermost);
            proof {
                assert(self.scopes_view() =~= before.update(
                    before.len() - 1,
                    before.last().insert(node.identifier.data@, node.id),
                ));
            }
        }
    }

    fn visit_expr(
        &mut self,
        type_arena: &mut TypeArena,
        symbol_table: &mut SymbolTable,
        diagnostics: &mut Vec<Diagnostic>,
        node: &'ctx Expr,
    )
        requires
            old(self).scopes_view().len() > 0,
            expr_ok(old(symbol_table).types@, *node),
        ensures
            final(self).scopes_view().len() == old(self).scopes_view().len(),
            final(self).scopes_view().drop_last() == old(self).scopes_view().drop_last(),
            final(symbol_table).types@ == old(symbol_table).types@,
            final(symbol_table).functions@ == old(symbol_table).functions@,
            final(self).var_state(final(type_arena)@, *final(symbol_table), final(diagnostics)@) == vr_expr(
                old(symbol_table).types@,
                old(self).var_state(old(type_arena)@, *old(symbol_table), old(diagnostics)@),
                *node,
            ),
        decreases node,
    {
        match node {
            Expr::Literal(_) => {},
            Expr::Var(v) => self.visit_var(symbol_table, v),
            Expr::Binary(b) => {
                self.visit_expr(type_arena, symbol_table, diagnostics, &b.left);
                self.visit_expr(type_arena, symbol_table, diagnostics, &b.right);
            },
            Expr::Unary(u) => self.visit_expr(type_arena, symbol_table, diagnostics, &u.expr),
            Expr::Cast(c) => self.visit_expr(type_arena, symbol_table, diagnostics, &c.expr),
            Expr::Assignment(a) => {
                self.visit_expr(type_arena, symbol_table, diagnostics, &a.assignee);
                self.visit_expr(type_arena, symbol_table, diagnostics, &a.expr);
            },
            Expr::Declaration(d) => self.visit_decl(type_arena, symbol_table, diagnostics, d),
            Expr::Block(b) => self.visit_block(type_arena, symbol_table, diagnostics, b),
            Expr::If(i) => {
                self.visit_expr(type_arena, symbol_table, diagnostics, &i.condition);
                self.visit_expr(type_arena, symbol_table, diagnostics, &i.success);
                self.visit_opt(type_arena, symbol_table, diagnostics, &i.fail);
            },
            Expr::Loop(l) => {
                match &l.initial {
                    Some(d) => self.visit_decl(type_arena, symbol_table, diagnostics, d),
                    None => {},
                }
                self.visit_opt(type_arena, symbol_table, diagnostics, &l.condition);
                self.visit_opt(type_arena, symbol_table, diagnostics, &l.increment);
                self.visit_block(type_arena, symbol_table, diagnostics, &l.body);
            },
            Expr::Exit(x) => self.visit_opt(type_arena, symbol_table, diagnostics, &x.expr),
            Expr::Delete(d) => self.visit_expr(type_arena, symbol_table, diagnostics, &d.expr),
            Expr::ConstructorCall(c) => self.visit_exprs(type_arena, symbol_table, diagnostics, &c.arguments),
            Expr::NewArray(n) => self.visit_exprs(type_arena, symbol_table, diagnostics, &n.sizes),
            Expr::StructAccess(a) => self.visit_expr(type_arena, symbol_table, diagnostics, &a.expr),
            Expr::ArrayAccess(a) => {
                self.visit_expr(type_arena, symbol_table, diagnostics, &a.index);
                self.visit_expr(type_arena, symbol_table, diagnostics, &a.expr);
            },
            Expr::FunctionAccess(f) => {
                self.visit_exprs(type_arena, symbol_table, diagnostics, &f.arguments);
                self.visit_expr(type_arena, symbol_table, diagnostics, &f.expr);
            },
            Expr::FunctionCall(f) => {
                self.visit_exprs(type_arena, symbol_table, diagnostics, &f.arguments);
                self.visit_expr(type_arena, symbol_table, diagnostics, &f.function);
            },
        }
    }

    fn visit_decls(
        &mut self,
        type_arena: &mut TypeArena,
        symbol_table: &mut SymbolTable,
        diagnostics: &mut Vec<Diagnostic>,
        node: &'ctx List<DeclarationExpr>,
    )
        requires
            old(self).scopes_view().len() > 0,
            decls_ok(old(symbol_table).types@, *node),
        ensures
            final(self).scopes_view().len() == old(self).scopes_view().len(),
            final(self).scopes_view().drop_last() == old(self).scopes_view().drop_last(),
            final(symbol_table).types@ == old(symbol_table).types@,
            final(symbol_table).functions@ == old(symbol_table).functions@,
            final(self).var_state(final(type_arena)@, *final(symbol_table), final(diagnostics)@) == vr_decls(
                old(symbol_table).types@,
                old(self).var_state(old(type_arena)@, *old(symbol_table), old(diagnostics)@),
                *node,
            ),
        decreases node,
    {
        match node {
            List::Nil => {},
            List::Cons(head, tail) => {
                self.visit_decl(type_arena, symbol_table, diagnostics, head);
                self.visit_decls(type_arena, symbol_table, diagnostics, tail);
            },
        }
    }

    fn visit_function(
        &mut self,
        type_arena: &mut TypeArena,
        symbol_table: &mut SymbolTable,
        diagnostics: &mut Vec<Diagnostic>,
        node: &'ctx FunctionItem,
    )
        requires
            old(self).scopes_view().len() > 0,
            function_ok(old(symbol_table).types@, *node),
        ensures
            final(self).scopes_view().len() == old(self).scopes_view().len(),
            final(self).scopes_view() == old(self).scopes_view(),
            final(symbol_table).types@ == old(symbol_table).types@,
            final(symbol_table).functions@ == old(symbol_table).functions@,
            final(self).var_state(final(type_arena)@, *final(symbol_table), final(diagnostics)@) == vr_function(
                old(symbol_table).types@,
                old(self).var_state(old(type_arena)@, *old(symbol_table), old(diagnostics)@),
                *node,
            ),
    {
        symbol_table.insert_function_name(node.name.data.clone());
        match &node.body {
            Some(body) => {
                let ghost before = self.scopes_view();
                self.scopes.push_back(StringHashMap::new());
                proof {
                    assert(self.scopes_view() =~= before.push(Map::empty()));
                }
                self.visit_decls(type_arena, symbol_table, diagnostics, &node.parameters);
                self.visit_block(type_arena, symbol_table, diagnostics, body);
                let ghost inner = self.scopes_view();
                self.scopes.pop_back();
                proof {
                    assert(self.scopes_view() =~= inner.drop_last());
                }
            },
            None => {},
        }
    }

    fn visit_functions(
        &mut self,
        type_arena: &mut TypeArena,
        symbol_table: &mut SymbolTable,
        diagnostics: &mut Vec<Diagnostic>,
        node: &'ctx List<FunctionItem>,
    )
        requires
            old(self).scopes_view().len() > 0,
            functions_ok(old(symbol_table).types@, *node),
        ensures
            final(self).scopes_view().len() == old(self).scopes_view().len(),
            final(self).scopes_view() == old(self).scopes_view(),
            final(symbol_table).types@ == old(symbol_table).types@,
            final(symbol_table).functions@ == old(symbol_table).functions@,
            final(self).var_state(final(type_arena)@, *final(symbol_table), final(diagnostics)@) == vr_functions(
                old(symbol_table).types@,
                old(self).var_state(old(type_arena)@, *old(symbol_table), old(diagnostics)@),
                *node,
            ),
        decreases node,
    {
        match node {
            List::Nil => {},
            List::Cons(head, tail) => {
                self.visit_function(type_arena, symbol_table, diagnostics, head);
                self.visit_functions(type_arena, symbol_table, diagnostics, tail);
            },
        }
    }

    fn visit_constructors(
        &mut self,
        type_arena: &mut TypeArena,
        symbol_table: &mut SymbolTable,
        diagnostics: &mut Vec<Diagnostic>,
        node: &'ctx List<ConstructorItem>,
    )
        requires
            old(self).scopes_view().len() > 0,
            constructors_ok(old(symbol_table).types@, *node),
        ensures
            final(self).scopes_view().len() == old(self).scopes_view().len(),
            final(self).scopes_view() == old(self).scopes_view(),
            final(symbol_table).types@ == old(symbol_table).types@,
            final(symbol_table).functions@ == old(symbol_table).functions@,
            final(self).var_state(final(type_arena)@, *final(symbol_table), final(diagnostics)@) == vr_constructors(
                old(symbol_table).types@,
                old(self).var_state(old(type_arena)@, *old(symbol_table), old(diagnostics)@),
                *node,
            ),
        decreases node,
    {
        match node {
            List::Nil => {},
            List::Cons(head, tail) => {
                self.visit_block(type_arena, symbol_table, diagnostics, &head.body);
                self.visit_constructors(type_arena, symbol_table, diagnostics, tail);
            },
        }
    }

    fn visit_items(
        &mut self,
        type_arena: &mut TypeArena,
        symbol_table: &mut SymbolTable,
        diagnostics: &mut Vec<Diagnostic>,
        node: &'ctx List<Item>,
    )
        requires
            old(self).scopes_view().len() > 0,
            items_ok(old(symbol_table).types@, *node),
        ensures
            final(self).scopes_view().len() == old(self).scopes_view().len(),
            final(self).scopes_view() == old(self).scopes_view(),
            final(symbol_table).types@ == old(symbol_table).types@,
            final(symbol_table).functions@ == old(symbol_table).functions@,
            final(self).var_state(final(type_arena)@, *final(symbol_table), final(diagnostics)@) == vr_items(
                old(symbol_table).types@,
                old(self).var_state(old(type_arena)@, *old(symbol_table), old(diagnostics)@),
                *node,
            ),
        decreases node,
    {
        match node {
            List::Nil => {},
            List::Cons(head, tail) => {
                match &**head {
                    Item::Main(_) => {},
                    Item::Function(f) => self.visit_function(type_arena, symbol_table, diagnostics, f),
                    Item::Struct(st) => self.visit_constructors(type_arena, symbol_table, diagnostics, &st.constructors),
                    Item::Impl(i) => self.visit_functions(type_arena, symbol_table, diagnostics, &i.functions),
                }
                self.visit_items(type_arena, symbol_table, diagnostics, tail);
            },
        }
    }

    /// Resolves the variables of the items of `scope`: each use that a declaration in scope
    /// resolves is recorded in the symbol table, each declaration's type too, and a second
    /// declaration of a name in one scope is reported; the other uses are kept for
    /// `finish_resolving`. The types of the declarations it visits must be known: an unknown
    /// one cannot be recorded. Every scope that it opens it closes again, so no declaration
    /// outlives its block or function, and the stack of scopes is left as it was.
    pub fn resolve_vars(
        &mut self,
        type_arena: &mut TypeArena,
        symbol_table: &mut SymbolTable,
        diagnostics: &mut Vec<Diagnostic>,
        scope: &'ctx Scope,
    )
        requires
            old(self).scopes_view().len() > 0,
            items_ok(old(symbol_table).types@, scope.items),
        ensures
            final(self).scopes_view().len() == old(self).scopes_view().len(),
            final(self).scopes_view() == old(self).scopes_view(),
            final(symbol_table).types@ == old(symbol_table).types@,
            final(symbol_table).functions@ == old(symbol_table).functions@,
            final(self).var_state(final(type_arena)@, *final(symbol_table), final(diagnostics)@) == vr_items(
                old(symbol_table).types@,
                old(self).var_state(old(type_arena)@, *old(symbol_table), old(diagnostics)@),
                scope.items,
            ),
            unknown_paths_ok(old(self).unknown_view()) && items_paths_ok(scope.items) ==> unknown_paths_ok(
                final(self).unknown_view(),
            ),
    {
        self.visit_items(type_arena, symbol_table, diagnostics, &scope.items);
        proof {
            if unknown_paths_ok(old(self).unknown_view()) && items_paths_ok(scope.items) {
                lemma_items_paths(
                    old(symbol_table).types@,
                    old(self).var_state(old(type_arena)@, *old(symbol_table), old(diagnostics)@),
                    scope.items,
                );
            }
        }
    }

    /// Reports each kept variable whose path names no function: a single name must name a
    /// function of this scope; a longer path, a function of the scope its other segments
    /// lead to in the global table.
    pub fn finish_resolving(self, symbol_table: &SymbolTable, global_table: &GlobalSymbolTable, diagnostics: &mut Vec<Diagnostic>)
        requires
            unknown_paths_ok(self.unknown_view()),
        ensures
            final(diagnostics)@.map_values(|d: Diagnostic| d@) == old(diagnostics)@.map_values(|d: Diagnostic| d@)
                + unknown_diags(symbol_table.function_names_view(), global_view(*global_table), self.unknown_view()),
    {
        let ghost own = symbol_table.function_names_view();
        let ghost gv = global_view(*global_table);
        let ghost unknown = self.unknown_view();
        let ghost start = diagnostics@.map_values(|d: Diagnostic| d@);
        let mut j: usize = 0;
        proof {
            assert(unknown.subrange(0, unknown.len() as int) =~= unknown);
        }
        while j < self.unknown_variables.len()
            invariant
                j <= self.unknown_variables@.len(),
                unknown == self.unknown_view(),
                unknown.len() == self.unknown_variables@.len(),
                own == symbol_table.function_names_view(),
                gv == global_view(*global_table),
                forall|i: int| 0 <= i < unknown.len() ==> (#[trigger] unknown[i]).data.segments.to_seq().len() > 0,
                diagnostics@.map_values(|d: Diagnostic| d@) + unknown_diags(own, gv, unknown.subrange(j as int, unknown.len() as int))
                    == start + unknown_diags(own, gv, unknown),
            decreases self.unknown_variables@.len() - j,
        {
            let path: &Located<Path> = self.unknown_variables[j];
            let ghost rest = unknown.subrange(j as int, unknown.len() as int);
            proof {
                assert(rest[0] == *path);
                assert(rest.drop_first() =~= unknown.subrange(j + 1, unknown.len() as int));
                assert(unknown[j as int] == *path);
            }
            let names = segment_strings(&path.data);
            let ghost nv = names@.map_values(|n: String| n@);
            let known = if names.len() == 1 {
                symbol_table.has_function_name(&names[0])
            } else {
                let mut parent: Vec<String> = Vec::new();
                let mut i: usize = 0;
                let last = names.len() - 1;
                while i < last
                    invariant
                        last == names@.len() - 1,
                        i <= last,
                        nv == names@.map_values(|n: String| n@),
                        parent@.map_values(|n: String| n@) == nv.subrange(0, i as int),
                    decreases names@.len() - i,
                {
                    let ghost before = parent@.map_values(|n: String| n@);
                    let name = names[i].clone();
                    parent.push(name);
                    proof {
                        assert(parent@.map_values(|n: String| n@) =~= before.push(nv[i as int]));
                        assert(nv.subrange(0, i + 1) =~= nv.subrange(0, i as int).push(nv[i as int]));
                    }
                    i = i + 1;
                }
                proof {
                    assert(nv.subrange(0, i as int) =~= nv.drop_last());
                }
                match find_scope(global_table, &parent) {
                    Some(k) => global_table.scopes[k].1.has_function_name(&names[last]),
                    None => false,
                }
            };
            if !known {
                let text = path_string(&names);
                let ghost before = diagnostics@.map_values(|d: Diagnostic| d@);
                let d = ErrMsg::UnknownVariable(text).make_diagnostic(path.position);
                diagnostics.push(d);
                proof {
                    assert(diagnostics@.map_values(|d: Diagnostic| d@) =~= before.push(d@));
                    assert(before.push(d@) + unknown_diags(own, gv, rest.drop_first()) =~= before + (seq![d@]
                        + unknown_diags(own, gv, rest.drop_first())));
                }
            }
            j = j + 1;
        }
        proof {
            assert(unknown.subrange(j as int, unknown.len() as int) =~= Seq::<Located<Path>>::empty());
            assert(start + Seq::<DiagnosticView>::empty() =~= start);
        }
    }
}

} // verus!
