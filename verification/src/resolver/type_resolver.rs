//! Resolution of the types that a scope declares.
//!
//! The resolver visits the items of a scope. A function gets its function type, interned in
//! the arena and entered in the symbol table. A struct gets a reserved slot; its members and
//! constructors are resolved at once, and it is finished once all items are seen: the
//! functions of the impl blocks for its name join its members, its type fills its slot and
//! its name enters the symbol table. A type name that is not in the symbol table when it is
//! met gets a reserved slot of its own; those that no struct of the scope declares are
//! reported at the end.
use vstd::prelude::*;

use std::collections::HashSet;

use vstd::hash_map::StringHashMap;

use crate::ast::{List, ConstructorItem, DeclarationExpr, FunctionItem, ImplItem, Item, ParsedType, ParsedTypeEnum, Scope, StructItem};
use crate::diagnostic::{Diagnostic, DiagnosticSeverity, DiagnosticView, ErrMsg};
use crate::resolver::{
    records_unchanged,
    next_id, spec_bool, spec_char, spec_double, spec_int, spec_make_array, spec_make_function, spec_make_ptr,
    spec_make_ref, spec_void, with_slot, FunctionType, FunctionTypeView, ResolvedType, ResolvedTypeView,
    StructType, StructTypeView, SymbolTable, TypeArena, TypeArenaView, TypeId,
};
use crate::token::PositionRange;

verus! {

/// The index of the first key equal to `k` among `keys`, from index `i` on.
pub open spec fn find_key(keys: Seq<Seq<char>>, k: Seq<char>, i: int) -> Option<int>
    decreases keys.len() - i,
{
    if i < 0 || i >= keys.len() {
        None
    } else if keys[i] == k {
        Some(i)
    } else {
        find_key(keys, k, i + 1)
    }
}

/// The keys of a sequence of entries.
pub open spec fn keys_of<A>(s: Seq<(Seq<char>, A)>) -> Seq<Seq<char>> {
    s.map_values(|e: (Seq<char>, A)| e.0)
}

/// The state of a type resolution: the type names met before their struct, with their
/// reserved ids and where they were met; the structs seen, with their type so far and their
/// reserved ids; the impl blocks seen; and the arena and the symbol table.
pub struct Resolution {
    pub unresolved: Seq<(Seq<char>, (TypeId, PositionRange))>,
    pub partial: Seq<(Seq<char>, (StructTypeView, TypeId))>,
    pub impls: Seq<ImplItem>,
    pub arena: TypeArenaView,
    pub types: Map<Seq<char>, TypeId>,
    pub functions: Map<Seq<char>, TypeId>,
}

/// The state with the arena `a`.
pub open spec fn with_arena(s: Resolution, a: TypeArenaView) -> Resolution {
    Resolution { arena: a, ..s }
}

/// The name of the type that an impl block is for, if it is a type name.
pub open spec fn impl_name(i: ImplItem) -> Option<Seq<char>> {
    match i.impl_type.parsed_type {
        ParsedTypeEnum::TypeName(name) => Some(name@),
        _ => None,
    }
}

/// Resolves a parsed type; a type name that is neither in the symbol table nor met before
/// gets a reserved slot.
pub open spec fn tr_resolve_type(s: Resolution, t: ParsedType) -> (TypeId, Resolution)
    decreases t,
{
    match t.parsed_type {
        ParsedTypeEnum::Void => (spec_void(s.arena).0, with_arena(s, spec_void(s.arena).1)),
        ParsedTypeEnum::Integer => (spec_int(s.arena).0, with_arena(s, spec_int(s.arena).1)),
        ParsedTypeEnum::Double => (spec_double(s.arena).0, with_arena(s, spec_double(s.arena).1)),
        ParsedTypeEnum::Boolean => (spec_bool(s.arena).0, with_arena(s, spec_bool(s.arena).1)),
        ParsedTypeEnum::Char => (spec_char(s.arena).0, with_arena(s, spec_char(s.arena).1)),
        ParsedTypeEnum::TypeName(name) => if s.types.contains_key(name@) {
            (s.types[name@], s)
        } else {
            match find_key(keys_of(s.unresolved), name@, 0) {
                Some(k) => (s.unresolved[k].1.0, s),
                None => (
                    next_id(s.arena),
                    Resolution {
                        unresolved: s.unresolved.push((name@, (next_id(s.arena), t.position))),
                        arena: with_slot(s.arena, None),
                        ..s
                    },
                ),
            }
        },
        ParsedTypeEnum::Pointer(inner) => {
            let (b, s1) = tr_resolve_type(s, *inner);
            (spec_make_ptr(s1.arena, b).0, with_arena(s1, spec_make_ptr(s1.arena, b).1))
        },
        ParsedTypeEnum::Reference(inner) => {
            let (b, s1) = tr_resolve_type(s, *inner);
            (spec_make_ref(s1.arena, b).0, with_arena(s1, spec_make_ref(s1.arena, b).1))
        },
        ParsedTypeEnum::Array(inner) => {
            let (b, s1) = tr_resolve_type(s, *inner);
            (spec_make_array(s1.arena, b).0, with_arena(s1, spec_make_array(s1.arena, b).1))
        },
    }
}

/// Resolves the types of parameters, in order, after those in `acc`.
pub open spec fn tr_param_types(s: Resolution, params: Seq<DeclarationExpr>, acc: Seq<TypeId>) -> (
    Seq<TypeId>,
    Resolution,
)
    decreases params.len(),
{
    if params.len() == 0 {
        (acc, s)
    } else {
        let (id, s1) = tr_resolve_type(s, params[0].declaration_type);
        tr_param_types(s1, params.drop_first(), acc.push(id))
    }
}

/// The type of a function: its parameter types, then its return type.
pub open spec fn tr_fn_type(s: Resolution, f: FunctionItem) -> (FunctionTypeView, Resolution) {
    let (params, s1) = tr_param_types(s, f.parameters.to_seq(), Seq::empty());
    let (ret, s2) = tr_resolve_type(s1, f.return_type);
    (FunctionTypeView { param_types: params, return_type: ret }, s2)
}

/// A function enters the symbol table with its interned type.
pub open spec fn tr_function(s: Resolution, f: FunctionItem) -> Resolution {
    let (ft, s1) = tr_fn_type(s, f);
    let (id, a) = spec_make_function(s1.arena, ft);
    Resolution { arena: a, functions: s1.functions.insert(f.name.data@, id), ..s1 }
}

/// Resolves the member types of a struct, adding them to `members`.
pub open spec fn tr_members(
    s: Resolution,
    ms: Seq<(ParsedType, crate::token::Located<String>)>,
    members: Map<Seq<char>, TypeId>,
) -> (Map<Seq<char>, TypeId>, Resolution)
    decreases ms.len(),
{
    if ms.len() == 0 {
        (members, s)
    } else {
        let (id, s1) = tr_resolve_type(s, ms[0].0);
        tr_members(s1, ms.drop_first(), members.insert(ms[0].1.data@, id))
    }
}

/// Interns the types of the constructors of the struct with id `struct_id`, adding them to
/// `ctors`.
pub open spec fn tr_constructors(s: Resolution, cs: Seq<ConstructorItem>, struct_id: TypeId, ctors: Set<usize>) -> (
    Set<usize>,
    Resolution,
)
    decreases cs.len(),
{
    if cs.len() == 0 {
        (ctors, s)
    } else {
        let (params, s1) = tr_param_types(s, cs[0].parameters.to_seq(), Seq::empty());
        let (id, a) = spec_make_function(s1.arena, FunctionTypeView { param_types: params, return_type: struct_id });
        tr_constructors(with_arena(s1, a), cs.drop_first(), struct_id, ctors.insert(id.0))
    }
}

/// A struct: its members are resolved, a slot is reserved for it, its constructors are
/// resolved, and it is kept, in place of any earlier struct of the same name, until the
/// end.
pub open spec fn tr_struct(s: Resolution, st: StructItem) -> Resolution {
    let (members, s1) = tr_members(s, st.members.to_seq(), Map::empty());
    let id = next_id(s1.arena);
    let s2 = with_arena(s1, with_slot(s1.arena, None));
    let (ctors, s3) = tr_constructors(s2, st.constructors.to_seq(), id, Set::empty());
    let name = st.name.data@;
    let entry = (name, (StructTypeView { name, members, constructors: ctors }, id));
    match find_key(keys_of(s3.partial), name, 0) {
        Some(k) => Resolution { partial: s3.partial.update(k, entry), ..s3 },
        None => Resolution { partial: s3.partial.push(entry), ..s3 },
    }
}

/// One item of the scope.
pub open spec fn tr_item(s: Resolution, item: Item) -> Resolution {
    match item {
        Item::Main(_) => s,
        Item::Function(f) => tr_function(s, f),
        Item::Struct(st) => tr_struct(s, st),
        Item::Impl(i) => Resolution { impls: s.impls.push(i), ..s },
    }
}

/// The items of the scope, in order.
pub open spec fn tr_items(s: Resolution, items: Seq<Item>) -> Resolution
    decreases items.len(),
{
    if items.len() == 0 {
        s
    } else {
        tr_items(tr_item(s, items[0]), items.drop_first())
    }
}

/// The functions of an impl block join the members of a struct, with their interned types.
pub open spec fn tr_impl_functions(s: Resolution, fs: Seq<FunctionItem>, members: Map<Seq<char>, TypeId>) -> (
    Map<Seq<char>, TypeId>,
    Resolution,
)
    decreases fs.len(),
{
    if fs.len() == 0 {
        (members, s)
    } else {
        let (ft, s1) = tr_fn_type(s, fs[0]);
        let (id, a) = spec_make_function(s1.arena, ft);
        tr_impl_functions(with_arena(s1, a), fs.drop_first(), members.insert(fs[0].name.data@, id))
    }
}

/// The functions of the impl blocks for `name`, in the order of the blocks.
pub open spec fn tr_impl_blocks(s: Resolution, blocks: Seq<ImplItem>, name: Seq<char>, members: Map<Seq<char>, TypeId>) -> (
    Map<Seq<char>, TypeId>,
    Resolution,
)
    decreases blocks.len(),
{
    if blocks.len() == 0 {
        (members, s)
    } else if impl_name(blocks[0]) == Some(name) {
        let (m1, s1) = tr_impl_functions(s, blocks[0].functions.to_seq(), members);
        tr_impl_blocks(s1, blocks.drop_first(), name, m1)
    } else {
        tr_impl_blocks(s, blocks.drop_first(), name, members)
    }
}

/// Finishes the structs in order: each gets the functions of its impl blocks, fills its
/// slot and enters the symbol table.
pub open spec fn tr_finish(s: Resolution, structs: Seq<(Seq<char>, (StructTypeView, TypeId))>) -> Resolution
    decreases structs.len(),
{
    if structs.len() == 0 {
        s
    } else {
        let (name, (st, id)) = structs[0];
        let (members, s1) = tr_impl_blocks(s, s.impls, name, st.members);
        let filled = StructTypeView { members, ..st };
        let a = TypeArenaView {
            types: s1.arena.types.update(id.0 as int, Some(ResolvedTypeView::Struct(filled))),
            ..s1.arena
        };
        tr_finish(Resolution { arena: a, types: s1.types.insert(name, id), ..s1 }, structs.drop_first())
    }
}

/// The unknown type names: those met before any struct of their name and that no struct of
/// the scope declares, in the order they were met.
pub open spec fn unknown_types(unresolved: Seq<(Seq<char>, (TypeId, PositionRange))>, declared: Seq<Seq<char>>) -> Seq<
    DiagnosticView,
>
    decreases unresolved.len(),
{
    if unresolved.len() == 0 {
        Seq::empty()
    } else {
        let (name, (_, position)) = unresolved[0];
        let rest = unknown_types(unresolved.drop_first(), declared);
        if declared.contains(name) {
            rest
        } else {
            seq![unknown_type_at(name, position)] + rest
        }
    }
}

/// The error that reports the unknown type name `name` at `position`.
pub open spec fn unknown_type_at(name: Seq<char>, position: PositionRange) -> DiagnosticView {
    DiagnosticView { severity: DiagnosticSeverity::Error, message: "unknown type name "@ + name, position }
}

/// Whether every struct kept so far has its reserved slot in the arena.
pub open spec fn partial_ids_bounded(s: Resolution) -> bool {
    forall|k: int| 0 <= k < s.partial.len() ==> (#[trigger] s.partial[k]).1.1.0 < s.arena.types.len()
}

/// What resolving the items of a scope makes of the state `s`: the items are visited in
/// order, then the structs are finished in the order they were first seen.
pub open spec fn tr_scope(s: Resolution, items: Seq<Item>) -> Resolution {
    let s1 = tr_items(s, items);
    tr_finish(Resolution { partial: Seq::empty(), ..s1 }, s1.partial)
}

/// The index of the first entry whose key is `name`.
fn position_of<A>(entries: &Vec<(String, A)>, name: &String) -> (r: Option<usize>)
    ensures
        match r {
            Some(k) => k < entries@.len() && find_key(entries@.map_values(|e: (String, A)| e.0@), name@, 0) == Some(
                k as int,
            ),
            None => find_key(entries@.map_values(|e: (String, A)| e.0@), name@, 0) is None,
        },
{
    let ghost keys = entries@.map_values(|e: (String, A)| e.0@);
    let mut i: usize = 0;
    while i < entries.len()
        invariant
            i <= entries@.len(),
            keys == entries@.map_values(|e: (String, A)| e.0@),
            find_key(keys, name@, i as int) == find_key(keys, name@, 0),
        decreases entries@.len() - i,
    {
        if entries[i].0 == *name {
            return Some(i);
        }
        i = i + 1;
    }
    None
}

/// Whether `names` holds `name`.
fn contains_name(names: &Vec<String>, name: &String) -> (r: bool)
    ensures
        r == names@.map_values(|n: String| n@).contains(name@),
{
    let ghost keys = names@.map_values(|n: String| n@);
    let mut i: usize = 0;
    while i < names.len()
        invariant
            i <= names@.len(),
            keys == names@.map_values(|n: String| n@),
            forall|j: int| 0 <= j < i ==> keys[j] != name@,
        decreases names@.len() - i,
    {
        if names[i] == *name {
            assert(keys[i as int] == name@);
            return true;
        }
        i = i + 1;
    }
    false
}

/// Resolves the struct and function types of a scope.
pub struct TypeResolver<'ctx> {
    unresolved_types: Vec<(String, (TypeId, PositionRange))>,
    partial_structs: Vec<(String, (StructType, TypeId))>,
    impl_blocks: Vec<&'ctx ImplItem>,
}

impl<'ctx> TypeResolver<'ctx> {
    /// The type names met before their struct, with their reserved ids and positions.
    pub closed spec fn unresolved_view(&self) -> Seq<(Seq<char>, (TypeId, PositionRange))> {
        self.unresolved_types@.map_values(|e: (String, (TypeId, PositionRange))| (e.0@, e.1))
    }

    /// The structs seen so far, with their types so far and their reserved ids.
    pub closed spec fn partial_view(&self) -> Seq<(Seq<char>, (StructTypeView, TypeId))> {
        self.partial_structs@.map_values(|e: (String, (StructType, TypeId))| (e.0@, (e.1.0@, e.1.1)))
    }

    /// The impl blocks seen so far.
    pub closed spec fn impls_view(&self) -> Seq<ImplItem> {
        self.impl_blocks@.map_values(|r: &ImplItem| *r)
    }

    /// The state of the resolution, with the given arena and symbol table.
    pub open spec fn resolution(&self, arena: TypeArenaView, table: SymbolTable) -> Resolution {
        Resolution {
            unresolved: self.unresolved_view(),
            partial: self.partial_view(),
            impls: self.impls_view(),
            arena,
            types: table.types@,
            functions: table.functions@,
        }
    }

    /// A resolver that has seen nothing yet.
    pub fn new() -> (r: TypeResolver<'ctx>)
        ensures
            r.unresolved_view() == Seq::<(Seq<char>, (TypeId, PositionRange))>::empty(),
            r.partial_view() == Seq::<(Seq<char>, (StructTypeView, TypeId))>::empty(),
            r.impls_view() == Seq::<ImplItem>::empty(),
    {
        let r = TypeResolver { unresolved_types: Vec::new(), partial_structs: Vec::new(), impl_blocks: Vec::new() };
        proof {
            assert(r.unresolved_view() =~= Seq::<(Seq<char>, (TypeId, PositionRange))>::empty());
            assert(r.partial_view() =~= Seq::<(Seq<char>, (StructTypeView, TypeId))>::empty());
            assert(r.impls_view() =~= Seq::<ImplItem>::empty());
        }
        r
    }

    /// Resolves a parsed type; a type name that is neither in the symbol table nor met
    /// before gets a reserved slot, and is remembered with where it was met.
    pub fn resolve_type(&mut self, type_arena: &mut TypeArena, symbol_table: &SymbolTable, parsed_type: &ParsedType) -> (id: TypeId)
        ensures
            (id, final(self).resolution(final(type_arena)@, *symbol_table)) == tr_resolve_type(
                old(self).resolution(old(type_arena)@, *symbol_table),
                *parsed_type,
            ),
            old(type_arena)@.types.len() <= final(type_arena)@.types.len(),
            final(self).partial_view() == old(self).partial_view(),
            final(self).impls_view() == old(self).impls_view(),
        decreases parsed_type,
    {
        match &parsed_type.parsed_type {
            ParsedTypeEnum::Void => type_arena.void(),
            ParsedTypeEnum::Integer => type_arena.integer(),
            ParsedTypeEnum::Double => type_arena.double(),
            ParsedTypeEnum::Boolean => type_arena.bool(),
            ParsedTypeEnum::Char => type_arena.char(),
            ParsedTypeEnum::TypeName(name) => match symbol_table.types.get(name.as_str()) {
                Some(id) => *id,
                None => {
                    proof {
                        assert(keys_of(self.unresolved_view()) =~= self.unresolved_types@.map_values(
                            |e: (String, (TypeId, PositionRange))| e.0@,
                        ));
                    }
                    match position_of(&self.unresolved_types, name) {
                        Some(k) => self.unresolved_types[k].1.0,
                        None => {
                            let id = type_arena.reserve();
                            let ghost before = self.unresolved_types@;
                            self.unresolved_types.push((name.clone(), (id, parsed_type.position)));
                            proof {
                                assert(self.unresolved_view() =~= old(self).unresolved_view().push(
                                    (name@, (id, parsed_type.position)),
                                ));
                            }
                            id
                        },
                    }
                },
            },
            ParsedTypeEnum::Pointer(inner) => {
                let base = self.resolve_type(type_arena, symbol_table, inner);
                type_arena.make_ptr(base)
            },
            ParsedTypeEnum::Reference(inner) => {
                let base = self.resolve_type(type_arena, symbol_table, inner);
                type_arena.make_ref(base)
            },
            ParsedTypeEnum::Array(inner) => {
                let base = self.resolve_type(type_arena, symbol_table, inner);
                type_arena.make_array(base)
            },
        }
    }

    /// Resolves the types of parameters, in order.
    fn param_types(&mut self, type_arena: &mut TypeArena, symbol_table: &SymbolTable, params: &List<DeclarationExpr>) -> (r: Vec<TypeId>)
        ensures
            (r@, final(self).resolution(final(type_arena)@, *symbol_table)) == tr_param_types(
                old(self).resolution(old(type_arena)@, *symbol_table),
                params.to_seq(),
                Seq::empty(),
            ),
            old(type_arena)@.types.len() <= final(type_arena)@.types.len(),
            final(self).partial_view() == old(self).partial_view(),
            final(self).impls_view() == old(self).impls_view(),
    {
        let mut types: Vec<TypeId> = Vec::new();
        let mut cur = params;
        loop
            invariant
                tr_param_types(self.resolution(type_arena@, *symbol_table), cur.to_seq(), types@) == tr_param_types(
                    old(self).resolution(old(type_arena)@, *symbol_table),
                    params.to_seq(),
                    Seq::empty(),
                ),
                old(type_arena)@.types.len() <= type_arena@.types.len(),
                self.partial_view() == old(self).partial_view(),
                self.impls_view() == old(self).impls_view(),
            decreases cur.to_seq().len(),
        {
            match cur {
                List::Nil => {
                    return types;
                },
                List::Cons(head, tail) => {
                    proof {
                        assert(cur.to_seq().drop_first() =~= tail.to_seq());
                    }
                    let id = self.resolve_type(type_arena, symbol_table, &head.declaration_type);
                    types.push(id);
                    cur = tail;
                },
            }
        }
    }

    /// The type of a function: its parameter types, then its return type.
    fn fn_type(&mut self, type_arena: &mut TypeArena, symbol_table: &SymbolTable, function: &FunctionItem) -> (r: FunctionType)
        ensures
            (r@, final(self).resolution(final(type_arena)@, *symbol_table)) == tr_fn_type(
                old(self).resolution(old(type_arena)@, *symbol_table),
                *function,
            ),
            old(type_arena)@.types.len() <= final(type_arena)@.types.len(),
            final(self).partial_view() == old(self).partial_view(),
            final(self).impls_view() == old(self).impls_view(),
    {
        let param_types = self.param_types(type_arena, symbol_table, &function.parameters);
        let return_type = self.resolve_type(type_arena, symbol_table, &function.return_type);
        FunctionType { param_types, return_type }
    }

    /// A function enters the symbol table with its interned type.
    fn visit_function(&mut self, type_arena: &mut TypeArena, symbol_table: &mut SymbolTable, function: &FunctionItem)
        ensures
            final(self).resolution(final(type_arena)@, *final(symbol_table)) == tr_function(
                old(self).resolution(old(type_arena)@, *old(symbol_table)),
                *function,
            ),
            old(type_arena)@.types.len() <= final(type_arena)@.types.len(),
            final(self).partial_view() == old(self).partial_view(),
            final(self).impls_view() == old(self).impls_view(),
            records_unchanged(*old(symbol_table), *final(symbol_table)),
    {
        let function_type = self.fn_type(type_arena, symbol_table, function);
        let id = type_arena.make_function(function_type);
        symbol_table.insert_function(function.name.data.clone(), id);
    }

    /// Resolves the member types of a struct.
    fn struct_members(&mut self, type_arena: &mut TypeArena, symbol_table: &SymbolTable, item: &StructItem) -> (r: StringHashMap<TypeId>)
        ensures
            (r@, final(self).resolution(final(type_arena)@, *symbol_table)) == tr_members(
                old(self).resolution(old(type_arena)@, *symbol_table),
                item.members.to_seq(),
                Map::empty(),
            ),
            old(type_arena)@.types.len() <= final(type_arena)@.types.len(),
            final(self).partial_view() == old(self).partial_view(),
            final(self).impls_view() == old(self).impls_view(),
    {
        let mut members: StringHashMap<TypeId> = StringHashMap::new();
        let mut cur = &item.members;
        loop
            invariant
                tr_members(self.resolution(type_arena@, *symbol_table), cur.to_seq(), members@) == tr_members(
                    old(self).resolution(old(type_arena)@, *symbol_table),
                    item.members.to_seq(),
                    Map::empty(),
                ),
                old(type_arena)@.types.len() <= type_arena@.types.len(),
                self.partial_view() == old(self).partial_view(),
                self.impls_view() == old(self).impls_view(),
            decreases cur.to_seq().len(),
        {
            match cur {
                List::Nil => {
                    return members;
                },
                List::Cons(head, tail) => {
                    proof {
                        assert(cur.to_seq().drop_first() =~= tail.to_seq());
                    }
                    let id = self.resolve_type(type_arena, symbol_table, &head.0);
                    members.insert(head.1.data.clone(), id);
                    cur = tail;
                },
            }
        }
    }

    /// Interns the types of the constructors of the struct with id `struct_id`.
    fn struct_constructors(
        &mut self,
        type_arena: &mut TypeArena,
        symbol_table: &SymbolTable,
        item: &StructItem,
        struct_id: TypeId,
    ) -> (r: HashSet<usize>)
        ensures
            (r@, final(self).resolution(final(type_arena)@, *symbol_table)) == tr_constructors(
                old(self).resolution(old(type_arena)@, *symbol_table),
                item.constructors.to_seq(),
                struct_id,
                Set::empty(),
            ),
            old(type_arena)@.types.len() <= final(type_arena)@.types.len(),
            final(self).partial_view() == old(self).partial_view(),
            final(self).impls_view() == old(self).impls_view(),
    {
        let mut ctors: HashSet<usize> = HashSet::new();
        let mut cur = &item.constructors;
        loop
            invariant
                tr_constructors(self.resolution(type_arena@, *symbol_table), cur.to_seq(), struct_id, ctors@)
                    == tr_constructors(
                    old(self).resolution(old(type_arena)@, *symbol_table),
                    item.constructors.to_seq(),
                    struct_id,
                    Set::empty(),
                ),
                old(type_arena)@.types.len() <= type_arena@.types.len(),
                self.partial_view() == old(self).partial_view(),
                self.impls_view() == old(self).impls_view(),
            decreases cur.to_seq().len(),
        {
            match cur {
                List::Nil => {
                    return ctors;
                },
                List::Cons(head, tail) => {
                    proof {
                        assert(cur.to_seq().drop_first() =~= tail.to_seq());
                    }
                    let param_types = self.param_types(type_arena, symbol_table, &head.parameters);
                    let id = type_arena.make_function(FunctionType { param_types, return_type: struct_id });
                    ctors.insert(id.0);
                    cur = tail;
                },
            }
        }
    }

    /// A struct is resolved as far as it can be before all items are seen, and kept.
    fn visit_struct(&mut self, type_arena: &mut TypeArena, symbol_table: &SymbolTable, item: &StructItem)
        ensures
            final(self).resolution(final(type_arena)@, *symbol_table) == tr_struct(
                old(self).resolution(old(type_arena)@, *symbol_table),
                *item,
            ),
            old(type_arena)@.types.len() <= final(type_arena)@.types.len(),
            partial_ids_bounded(old(self).resolution(old(type_arena)@, *symbol_table)) ==> partial_ids_bounded(
                final(self).resolution(final(type_arena)@, *symbol_table),
            ),
            final(self).impls_view() == old(self).impls_view(),
    {
        let members = self.struct_members(type_arena, symbol_table, item);
        let ghost s1 = self.resolution(type_arena@, *symbol_table);
        let struct_id = type_arena.reserve();
        let constructors = self.struct_constructors(type_arena, symbol_table, item, struct_id);
        let ghost ctor_set = constructors@;
        let ghost members_map = members@;
        let entry = (
            item.name.data.clone(),
            (StructType { name: item.name.data.clone(), members, constructors }, struct_id),
        );
        proof {
            assert(keys_of(self.partial_view()) =~= self.partial_structs@.map_values(
                |e: (String, (StructType, TypeId))| e.0@,
            ));
        }
        match position_of(&self.partial_structs, &item.name.data) {
            Some(k) => {
                let ghost before = self.partial_view();
                self.partial_structs.set(k, entry);
                proof {
                    assert(self.partial_view() =~= before.update(
                        k as int,
                        (
                            item.name.data@,
                            (
                                StructTypeView {
                                    name: item.name.data@,
                                    members: members_map,
                                    constructors: ctor_set,
                                },
                                struct_id,
                            ),
                        ),
                    ));
                }
            },
            None => {
                let ghost before = self.partial_view();
                self.partial_structs.push(entry);
                proof {
                    assert(self.partial_view() =~= before.push(
                        (
                            item.name.data@,
                            (
                                StructTypeView {
                                    name: item.name.data@,
                                    members: members_map,
                                    constructors: ctor_set,
                                },
                                struct_id,
                            ),
                        ),
                    ));
                }
            },
        }
    }

    /// Visits the items of a scope, in order.
    fn visit_items(&mut self, type_arena: &mut TypeArena, symbol_table: &mut SymbolTable, items: &'ctx List<Item>)
        requires
            partial_ids_bounded(old(self).resolution(old(type_arena)@, *old(symbol_table))),
        ensures
            final(self).resolution(final(type_arena)@, *final(symbol_table)) == tr_items(
                old(self).resolution(old(type_arena)@, *old(symbol_table)),
                items.to_seq(),
            ),
            partial_ids_bounded(final(self).resolution(final(type_arena)@, *final(symbol_table))),
            records_unchanged(*old(symbol_table), *final(symbol_table)),
    {
        let mut cur = items;
        loop
            invariant
                tr_items(self.resolution(type_arena@, *symbol_table), cur.to_seq()) == tr_items(
                    old(self).resolution(old(type_arena)@, *old(symbol_table)),
                    items.to_seq(),
                ),
                partial_ids_bounded(self.resolution(type_arena@, *symbol_table)),
                records_unchanged(*old(symbol_table), *symbol_table),
            decreases cur.to_seq().len(),
        {
            match cur {
                List::Nil => {
                    return;
                },
                List::Cons(head, tail) => {
                    proof {
                        assert(cur.to_seq().drop_first() =~= tail.to_seq());
                    }
                    let item: &'ctx Item = head;
                    match item {
                        Item::Main(_) => {},
                        Item::Function(f) => self.visit_function(type_arena, symbol_table, f),
                        Item::Struct(st) => self.visit_struct(type_arena, symbol_table, st),
                        Item::Impl(i) => {
                            let ghost before = self.impls_view();
                            self.impl_blocks.push(i);
                            proof {
                                assert(self.impls_view() =~= before.push(*i));
                            }
                        },
                    }
                    cur = tail;
                },
            }
        }
    }

    /// The functions of an impl block join `members`, with their interned types.
    fn impl_functions(
        &mut self,
        type_arena: &mut TypeArena,
        symbol_table: &SymbolTable,
        block: &ImplItem,
        members: &mut StringHashMap<TypeId>,
    )
        ensures
            (final(members)@, final(self).resolution(final(type_arena)@, *symbol_table)) == tr_impl_functions(
                old(self).resolution(old(type_arena)@, *symbol_table),
                block.functions.to_seq(),
                old(members)@,
            ),
            old(type_arena)@.types.len() <= final(type_arena)@.types.len(),
            final(self).partial_view() == old(self).partial_view(),
            final(self).impls_view() == old(self).impls_view(),
    {
        let mut cur = &block.functions;
        loop
            invariant
                tr_impl_functions(self.resolution(type_arena@, *symbol_table), cur.to_seq(), members@)
                    == tr_impl_functions(
                    old(self).resolution(old(type_arena)@, *symbol_table),
                    block.functions.to_seq(),
                    old(members)@,
                ),
                old(type_arena)@.types.len() <= type_arena@.types.len(),
                self.partial_view() == old(self).partial_view(),
                self.impls_view() == old(self).impls_view(),
            decreases cur.to_seq().len(),
        {
            match cur {
                List::Nil => {
                    return;
                },
                List::Cons(head, tail) => {
                    proof {
                        assert(cur.to_seq().drop_first() =~= tail.to_seq());
                    }
                    let function_type = self.fn_type(type_arena, symbol_table, head);
                    let id = type_arena.make_function(function_type);
                    members.insert(head.name.data.clone(), id);
                    cur = tail;
                },
            }
        }
    }

    /// The functions of the impl blocks for `name` join `members`, in the order of the
    /// blocks.
    fn impl_members(
        &mut self,
        type_arena: &mut TypeArena,
        symbol_table: &SymbolTable,
        name: &String,
        initial: StringHashMap<TypeId>,
    ) -> (r: StringHashMap<TypeId>)
        ensures
            (r@, final(self).resolution(final(type_arena)@, *symbol_table)) == tr_impl_blocks(
                old(self).resolution(old(type_arena)@, *symbol_table),
                old(self).impls_view(),
                name@,
                initial@,
            ),
            old(type_arena)@.types.len() <= final(type_arena)@.types.len(),
            final(self).partial_view() == old(self).partial_view(),
            final(self).impls_view() == old(self).impls_view(),
    {
        let ghost m0 = initial@;
        let mut members = initial;
        let ghost blocks = self.impls_view();
        let mut i: usize = 0;
        proof {
            assert(blocks.subrange(0, blocks.len() as int) =~= blocks);
        }
        while i < self.impl_blocks.len()
            invariant
                blocks == old(self).impls_view(),
                self.impls_view() == blocks,
                i <= blocks.len(),
                blocks.len() == self.impl_blocks@.len(),
                tr_impl_blocks(self.resolution(type_arena@, *symbol_table), blocks.subrange(i as int, blocks.len() as int), name@, members@)
                    == tr_impl_blocks(old(self).resolution(old(type_arena)@, *symbol_table), blocks, name@, m0),
                old(type_arena)@.types.len() <= type_arena@.types.len(),
                self.partial_view() == old(self).partial_view(),
            decreases blocks.len() - i,
        {
            let block: &'ctx ImplItem = self.impl_blocks[i];
            proof {
                assert(blocks[i as int] == *block);
                assert(blocks.subrange(i as int, blocks.len() as int)[0] == *block);
                assert(blocks.subrange(i as int, blocks.len() as int).drop_first() =~= blocks.subrange(
                    i + 1,
                    blocks.len() as int,
                ));
            }
            let matches = match &block.impl_type.parsed_type {
                ParsedTypeEnum::TypeName(n) => *n == *name,
                _ => false,
            };
            if matches {
                self.impl_functions(type_arena, symbol_table, block, &mut members);
            }
            i = i + 1;
        }
        proof {
            assert(blocks.subrange(i as int, blocks.len() as int) =~= Seq::<ImplItem>::empty());
        }
        members
    }

    /// Finishes the structs in order: each gets the functions of its impl blocks, fills its
    /// slot and enters the symbol table.
    fn finish(
        &mut self,
        type_arena: &mut TypeArena,
        symbol_table: &mut SymbolTable,
        entries: Vec<(String, (StructType, TypeId))>,
    )
        requires
            forall|k: int| 0 <= k < entries@.len() ==> (#[trigger] entries@[k]).1.1.0 < old(type_arena)@.types.len(),
        ensures
            final(self).resolution(final(type_arena)@, *final(symbol_table)) == tr_finish(
                old(self).resolution(old(type_arena)@, *old(symbol_table)),
                structs_view(entries@),
            ),
            records_unchanged(*old(symbol_table), *final(symbol_table)),
    {
        let ghost all = structs_view(entries@);
        let mut structs = entries;
        loop
            invariant
                all == structs_view(entries@),
                tr_finish(self.resolution(type_arena@, *symbol_table), structs_view(structs@)) == tr_finish(
                    old(self).resolution(old(type_arena)@, *old(symbol_table)),
                    all,
                ),
                forall|k: int| 0 <= k < structs@.len() ==> (#[trigger] structs@[k]).1.1.0 < type_arena@.types.len(),
                records_unchanged(*old(symbol_table), *symbol_table),
            decreases structs@.len(),
        {
            if structs.len() == 0 {
                return;
            }
            let ghost before = structs@;
            let (name, (st, id)) = structs.remove(0);
            proof {
                assert(structs_view(structs@) =~= structs_view(before).drop_first());
                assert(before[0].1.1.0 < type_arena@.types.len());
            }
            let StructType { name: struct_name, members, constructors } = st;
            let members = self.impl_members(type_arena, symbol_table, &name, members);
            type_arena.set_type(&id, ResolvedType::Struct(StructType { name: struct_name, members, constructors }));
            symbol_table.insert_type(name, id);
        }
    }

    /// Resolves the types that the items of `scope` declare: the arena gets the types, the
    /// symbol table the struct and function names, and each type name that no struct of the
    /// scope declares is reported where it was first met.
    pub fn resolve(
        self,
        type_arena: &mut TypeArena,
        symbol_table: &mut SymbolTable,
        diagnostics: &mut Vec<Diagnostic>,
        scope: &'ctx Scope,
    )
        requires
            partial_ids_bounded(self.resolution(old(type_arena)@, *old(symbol_table))),
        ensures
            final(type_arena)@ == tr_scope(self.resolution(old(type_arena)@, *old(symbol_table)), scope.items.to_seq()).arena,
            final(symbol_table).types@ == tr_scope(
                self.resolution(old(type_arena)@, *old(symbol_table)),
                scope.items.to_seq(),
            ).types,
            final(symbol_table).functions@ == tr_scope(
                self.resolution(old(type_arena)@, *old(symbol_table)),
                scope.items.to_seq(),
            ).functions,
            final(diagnostics)@.map_values(|d: Diagnostic| d@) == old(diagnostics)@.map_values(|d: Diagnostic| d@)
                + unknown_types(
                tr_scope(self.resolution(old(type_arena)@, *old(symbol_table)), scope.items.to_seq()).unresolved,
                keys_of(tr_items(self.resolution(old(type_arena)@, *old(symbol_table)), scope.items.to_seq()).partial),
            ),
            records_unchanged(*old(symbol_table), *final(symbol_table)),
    {
        let mut resolver = self;
        resolver.visit_items(type_arena, symbol_table, &scope.items);
        let ghost s1 = resolver.resolution(type_arena@, *symbol_table);
        let mut structs: Vec<(String, (StructType, TypeId))> = Vec::new();
        std::mem::swap(&mut structs, &mut resolver.partial_structs);
        proof {
            assert(resolver.partial_view() =~= Seq::<(Seq<char>, (StructTypeView, TypeId))>::empty());
            assert(structs_view(structs@) =~= s1.partial);
            assert forall|k: int| 0 <= k < structs@.len() implies (#[trigger] structs@[k]).1.1.0
                < type_arena@.types.len() by {
                assert(s1.partial[k].1.1 == structs@[k].1.1);
            }
        }
        let mut declared: Vec<String> = Vec::new();
        let mut i: usize = 0;
        while i < structs.len()
            invariant
                i <= structs@.len(),
                structs_view(structs@) == s1.partial,
                declared@.map_values(|n: String| n@) == keys_of(s1.partial).subrange(0, i as int),
            decreases structs@.len() - i,
        {
            let ghost before = declared@;
            proof {
                assert(keys_of(s1.partial)[i as int] == structs@[i as int].0@);
            }
            let name = structs[i].0.clone();
            declared.push(name);
            proof {
                assert(declared@ == before.push(name));
                assert(declared@.map_values(|n: String| n@) =~= before.map_values(|n: String| n@).push(name@));
                assert(declared@.map_values(|n: String| n@) =~= keys_of(s1.partial).subrange(0, i + 1));
            }
            i = i + 1;
        }
        proof {
            assert(keys_of(s1.partial).subrange(0, i as int) =~= keys_of(s1.partial));
        }
        resolver.finish(type_arena, symbol_table, structs);
        let ghost unresolved = resolver.unresolved_view();
        let ghost decl = keys_of(s1.partial);
        let ghost start = diagnostics@.map_values(|d: Diagnostic| d@);
        let mut j: usize = 0;
        proof {
            assert(unresolved.subrange(0, unresolved.len() as int) =~= unresolved);
        }
        while j < resolver.unresolved_types.len()
            invariant
                j <= resolver.unresolved_types@.len(),
                unresolved == resolver.unresolved_view(),
                unresolved.len() == resolver.unresolved_types@.len(),
                declared@.map_values(|n: String| n@) == decl,
                diagnostics@.map_values(|d: Diagnostic| d@) + unknown_types(
                    unresolved.subrange(j as int, unresolved.len() as int),
                    decl,
                ) == start + unknown_types(unresolved, decl),
            decreases resolver.unresolved_types@.len() - j,
        {
            let entry = &resolver.unresolved_types[j];
            let ghost rest = unresolved.subrange(j as int, unresolved.len() as int);
            proof {
                assert(rest[0] == (entry.0@, entry.1));
                assert(rest.drop_first() =~= unresolved.subrange(j + 1, unresolved.len() as int));
            }
            if !contains_name(&declared, &entry.0) {
                let ghost before = diagnostics@.map_values(|d: Diagnostic| d@);
                let d = ErrMsg::UnknownTypeName(entry.0.clone()).make_diagnostic(entry.1.1);
                diagnostics.push(d);
                proof {
                    assert(diagnostics@.map_values(|d: Diagnostic| d@) =~= before.push(d@));
                    assert(d@ == unknown_type_at(entry.0@, entry.1.1));
                    assert(before.push(d@) + unknown_types(rest.drop_first(), decl) =~= before + (seq![d@] + unknown_types(rest.drop_first(), decl)));
                }
            }
            j = j + 1;
        }
        proof {
            assert(unresolved.subrange(j as int, unresolved.len() as int) =~= Seq::<(Seq<char>, (TypeId, PositionRange))>::empty());
            assert(start + Seq::<DiagnosticView>::empty() =~= start);
        }
    }
}

/// The mathematical value of the structs taken out of a resolver.
pub open spec fn structs_view(s: Seq<(String, (StructType, TypeId))>) -> Seq<(Seq<char>, (StructTypeView, TypeId))> {
    s.map_values(|e: (String, (StructType, TypeId))| (e.0@, (e.1.0@, e.1.1)))
}

} // verus!
