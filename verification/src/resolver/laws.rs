//! What the type arena and the resolvers promise across calls: a type is interned once, so
//! asking for it again gives the same id and changes nothing; different types get different
//! ids; in a consistent arena every interned id names a slot that holds the type it was
//! interned for; and resolving a parsed type a second time changes nothing.
use vstd::prelude::*;

use crate::ast::{AstId, VarExpr, ConstructorItem, DeclarationExpr, FunctionItem, ImplItem, Item, ParsedType, ParsedTypeEnum};
use crate::resolver::type_resolver::{
    find_key, keys_of, tr_constructors, tr_finish, tr_fn_type, tr_function, tr_impl_blocks, tr_impl_functions, tr_item,
    tr_items, tr_members, tr_param_types, tr_resolve_type, tr_scope, unknown_type_at, unknown_types,
    Resolution,
};
use crate::resolver::StructTypeView;
use crate::resolver::var_resolver::{duplicate_at, lookup, segment_names, vr_decl, vr_opt, vr_var, VarState};
use crate::token::{Located, PositionRange};
use crate::resolver::{
    consistent, empty_arena, find_function, holds, ids_distinct, interned, InternKey, next_id, spec_bool, spec_char, spec_double, spec_insert,
    spec_get_resolved_type, spec_int, spec_make_array, spec_make_function, spec_make_ptr, spec_make_ref,
    spec_resolve_type, spec_void,
    with_slot, FunctionTypeView, ResolvedTypeView, TypeArenaView, TypeId,
};

verus! {

/// An entry found for a function type is one of the arena's entries for it.
pub proof fn lemma_find_function_found(fs: Seq<(FunctionTypeView, TypeId)>, f: FunctionTypeView, i: int)
    requires
        find_function(fs, f, i) is Some,
    ensures
        exists|j: int| 0 <= j < fs.len() && fs[j].0 == f && fs[j].1 == find_function(fs, f, i)->Some_0,
    decreases fs.len() - i,
{
    if fs[i].0 != f {
        lemma_find_function_found(fs, f, i + 1);
    }
}

/// Adding an entry for a function type that has none makes it found, and leaves what is
/// found for the others unchanged.
pub proof fn lemma_find_function_push(
    fs: Seq<(FunctionTypeView, TypeId)>,
    f: FunctionTypeView,
    id: TypeId,
    g: FunctionTypeView,
    i: int,
)
    requires
        0 <= i <= fs.len(),
        find_function(fs, f, i) is None,
    ensures
        find_function(fs.push((f, id)), g, i) == (if g == f {
            Some(id)
        } else {
            find_function(fs, g, i)
        }),
    decreases fs.len() - i,
{
    let fs2 = fs.push((f, id));
    if i < fs.len() {
        assert(fs2[i] == fs[i]);
        assert(fs[i].0 != f);
        if fs[i].0 != g {
            lemma_find_function_push(fs, f, id, g, i + 1);
        } else {
            assert(g != f);
        }
    } else {
        assert(fs2[i] == (f, id));
        assert(find_function(fs2, g, i + 1) is None);
    }
}

/// A new slot at the end keeps every interned id valid.
pub proof fn lemma_with_slot_consistent(v: TypeArenaView, t: Option<ResolvedTypeView>)
    requires
        consistent(v),
    ensures
        consistent(with_slot(v, t)),
{
    let w = with_slot(v, t);
    assert forall|k: usize| #[trigger] w.refs.contains_key(k) implies holds(
        w,
        w.refs[k],
        ResolvedTypeView::Reference(TypeId(k)),
    ) by {
        assert(holds(v, v.refs[k], ResolvedTypeView::Reference(TypeId(k))));
    }
    assert forall|k: usize| #[trigger] w.ptrs.contains_key(k) implies holds(
        w,
        w.ptrs[k],
        ResolvedTypeView::Pointer(TypeId(k)),
    ) by {
        assert(holds(v, v.ptrs[k], ResolvedTypeView::Pointer(TypeId(k))));
    }
    assert forall|k: usize| #[trigger] w.arrays.contains_key(k) implies holds(
        w,
        w.arrays[k],
        ResolvedTypeView::Array(TypeId(k)),
    ) by {
        assert(holds(v, v.arrays[k], ResolvedTypeView::Array(TypeId(k))));
    }
    assert forall|i: int| 0 <= i < w.functions.len() implies holds(
        w,
        #[trigger] w.functions[i].1,
        ResolvedTypeView::Function(w.functions[i].0),
    ) by {
        assert(holds(v, v.functions[i].1, ResolvedTypeView::Function(v.functions[i].0)));
    }
}

/// The empty arena is consistent.
pub proof fn lemma_empty_arena_consistent()
    ensures
        consistent(empty_arena()),
{
}

/// Inserting a type gives the id of a new slot that holds it, and keeps the arena
/// consistent.
pub proof fn lemma_insert(v: TypeArenaView, t: ResolvedTypeView)
    requires
        consistent(v),
        v.types.len() < usize::MAX,
    ensures
        consistent(spec_insert(v, t).1),
        holds(spec_insert(v, t).1, spec_insert(v, t).0, t),
        spec_insert(v, t).0 == next_id(v),
{
    lemma_with_slot_consistent(v, Some(t));
}

/// Filling a reserved slot keeps the arena consistent, since no interned id names it.
pub proof fn lemma_fill_reserved(v: TypeArenaView, id: TypeId, t: ResolvedTypeView)
    requires
        consistent(v),
        id.0 < v.types.len(),
        v.types[id.0 as int] is None,
    ensures
        consistent(TypeArenaView { types: v.types.update(id.0 as int, Some(t)), ..v }),
{
    let w = TypeArenaView { types: v.types.update(id.0 as int, Some(t)), ..v };
    assert forall|k: usize| #[trigger] w.refs.contains_key(k) implies holds(
        w,
        w.refs[k],
        ResolvedTypeView::Reference(TypeId(k)),
    ) by {
        assert(holds(v, v.refs[k], ResolvedTypeView::Reference(TypeId(k))));
    }
    assert forall|k: usize| #[trigger] w.ptrs.contains_key(k) implies holds(
        w,
        w.ptrs[k],
        ResolvedTypeView::Pointer(TypeId(k)),
    ) by {
        assert(holds(v, v.ptrs[k], ResolvedTypeView::Pointer(TypeId(k))));
    }
    assert forall|k: usize| #[trigger] w.arrays.contains_key(k) implies holds(
        w,
        w.arrays[k],
        ResolvedTypeView::Array(TypeId(k)),
    ) by {
        assert(holds(v, v.arrays[k], ResolvedTypeView::Array(TypeId(k))));
    }
    assert forall|i: int| 0 <= i < w.functions.len() implies holds(
        w,
        #[trigger] w.functions[i].1,
        ResolvedTypeView::Function(w.functions[i].0),
    ) by {
        assert(holds(v, v.functions[i].1, ResolvedTypeView::Function(v.functions[i].0)));
    }
}

/// The basic types are interned: asking twice gives the same id and the second request
/// changes nothing; in a consistent arena the id names a slot that holds the type, and the
/// arena stays consistent.
pub proof fn lemma_basic_types_interned(v: TypeArenaView)
    requires
        v.types.len() < usize::MAX,
    ensures
        spec_int(spec_int(v).1).0 == spec_int(v).0,
        spec_int(spec_int(v).1).1 == spec_int(v).1,
        spec_double(spec_double(v).1).0 == spec_double(v).0,
        spec_double(spec_double(v).1).1 == spec_double(v).1,
        spec_bool(spec_bool(v).1).0 == spec_bool(v).0,
        spec_bool(spec_bool(v).1).1 == spec_bool(v).1,
        spec_char(spec_char(v).1).0 == spec_char(v).0,
        spec_char(spec_char(v).1).1 == spec_char(v).1,
        spec_void(spec_void(v).1).0 == spec_void(v).0,
        spec_void(spec_void(v).1).1 == spec_void(v).1,
        consistent(v) ==> consistent(spec_int(v).1) && holds(spec_int(v).1, spec_int(v).0, ResolvedTypeView::Integer),
        consistent(v) ==> consistent(spec_double(v).1) && holds(
            spec_double(v).1,
            spec_double(v).0,
            ResolvedTypeView::Double,
        ),
        consistent(v) ==> consistent(spec_bool(v).1) && holds(spec_bool(v).1, spec_bool(v).0, ResolvedTypeView::Boolean),
        consistent(v) ==> consistent(spec_char(v).1) && holds(spec_char(v).1, spec_char(v).0, ResolvedTypeView::Char),
        consistent(v) ==> consistent(spec_void(v).1) && holds(spec_void(v).1, spec_void(v).0, ResolvedTypeView::Void),
{
    if consistent(v) {
        lemma_with_slot_consistent(v, Some(ResolvedTypeView::Integer));
        lemma_with_slot_consistent(v, Some(ResolvedTypeView::Double));
        lemma_with_slot_consistent(v, Some(ResolvedTypeView::Boolean));
        lemma_with_slot_consistent(v, Some(ResolvedTypeView::Char));
        lemma_with_slot_consistent(v, Some(ResolvedTypeView::Void));
    }
}

/// Reference, pointer and array types are interned: asking twice for the same base type
/// gives the same id and the second request changes nothing; in a consistent arena the id
/// names a slot that holds the type, and the arena stays consistent.
pub proof fn lemma_derived_types_interned(v: TypeArenaView, t: TypeId)
    requires
        v.types.len() < usize::MAX,
    ensures
        spec_make_ref(spec_make_ref(v, t).1, t) == spec_make_ref(v, t),
        spec_make_ptr(spec_make_ptr(v, t).1, t) == spec_make_ptr(v, t),
        spec_make_array(spec_make_array(v, t).1, t) == spec_make_array(v, t),
        consistent(v) ==> consistent(spec_make_ref(v, t).1) && holds(
            spec_make_ref(v, t).1,
            spec_make_ref(v, t).0,
            ResolvedTypeView::Reference(t),
        ),
        consistent(v) ==> consistent(spec_make_ptr(v, t).1) && holds(
            spec_make_ptr(v, t).1,
            spec_make_ptr(v, t).0,
            ResolvedTypeView::Pointer(t),
        ),
        consistent(v) ==> consistent(spec_make_array(v, t).1) && holds(
            spec_make_array(v, t).1,
            spec_make_array(v, t).0,
            ResolvedTypeView::Array(t),
        ),
{
    if consistent(v) {
        if !v.refs.contains_key(t.0) {
            let w = spec_make_ref(v, t).1;
            lemma_with_slot_consistent(v, Some(ResolvedTypeView::Reference(t)));
            assert forall|k: usize| #[trigger] w.refs.contains_key(k) implies holds(
                w,
                w.refs[k],
                ResolvedTypeView::Reference(TypeId(k)),
            ) by {
                if k != t.0 {
                    assert(holds(v, v.refs[k], ResolvedTypeView::Reference(TypeId(k))));
                }
            }
        } else {
            assert(holds(v, v.refs[t.0], ResolvedTypeView::Reference(TypeId(t.0))));
        }
        if !v.ptrs.contains_key(t.0) {
            let w = spec_make_ptr(v, t).1;
            lemma_with_slot_consistent(v, Some(ResolvedTypeView::Pointer(t)));
            assert forall|k: usize| #[trigger] w.ptrs.contains_key(k) implies holds(
                w,
                w.ptrs[k],
                ResolvedTypeView::Pointer(TypeId(k)),
            ) by {
                if k != t.0 {
                    assert(holds(v, v.ptrs[k], ResolvedTypeView::Pointer(TypeId(k))));
                }
            }
        } else {
            assert(holds(v, v.ptrs[t.0], ResolvedTypeView::Pointer(TypeId(t.0))));
        }
        if !v.arrays.contains_key(t.0) {
            let w = spec_make_array(v, t).1;
            lemma_with_slot_consistent(v, Some(ResolvedTypeView::Array(t)));
            assert forall|k: usize| #[trigger] w.arrays.contains_key(k) implies holds(
                w,
                w.arrays[k],
                ResolvedTypeView::Array(TypeId(k)),
            ) by {
                if k != t.0 {
                    assert(holds(v, v.arrays[k], ResolvedTypeView::Array(TypeId(k))));
                }
            }
        } else {
            assert(holds(v, v.arrays[t.0], ResolvedTypeView::Array(TypeId(t.0))));
        }
    }
}

/// Function types are interned: asking twice for the same function type gives the same id
/// and the second request changes nothing; in a consistent arena the id names a slot that
/// holds the type, and the arena stays consistent.
pub proof fn lemma_function_types_interned(v: TypeArenaView, f: FunctionTypeView)
    requires
        v.types.len() < usize::MAX,
    ensures
        spec_make_function(spec_make_function(v, f).1, f) == spec_make_function(v, f),
        consistent(v) ==> consistent(spec_make_function(v, f).1) && holds(
            spec_make_function(v, f).1,
            spec_make_function(v, f).0,
            ResolvedTypeView::Function(f),
        ),
{
    let (id, w) = spec_make_function(v, f);
    match find_function(v.functions, f, 0) {
        Some(x) => {
            if consistent(v) {
                lemma_find_function_found(v.functions, f, 0);
                let j = choose|j: int| 0 <= j < v.functions.len() && v.functions[j].0 == f && v.functions[j].1 == x;
                assert(holds(v, v.functions[j].1, ResolvedTypeView::Function(v.functions[j].0)));
            }
        },
        None => {
            lemma_find_function_push(v.functions, f, id, f, 0);
            if consistent(v) {
                lemma_with_slot_consistent(v, Some(ResolvedTypeView::Function(f)));
                let u = with_slot(v, Some(ResolvedTypeView::Function(f)));
                assert forall|i: int| 0 <= i < w.functions.len() implies holds(
                    w,
                    #[trigger] w.functions[i].1,
                    ResolvedTypeView::Function(w.functions[i].0),
                ) by {
                    if i < v.functions.len() {
                        assert(w.functions[i] == u.functions[i]);
                    }
                }
            }
        },
    }
}

/// `w` keeps every slot of `v` as it was, and may have more.
pub open spec fn extends(v: TypeArenaView, w: TypeArenaView) -> bool {
    v.types.len() <= w.types.len() && forall|i: int| 0 <= i < v.types.len() ==> #[trigger] w.types[i] == v.types[i]
}

/// The number of type constructors in a parsed type: a bound on the slots that resolving it
/// can add.
pub open spec fn type_depth(t: ParsedType) -> nat
    decreases t,
{
    match t.parsed_type {
        ParsedTypeEnum::Pointer(inner) => 1 + type_depth(*inner),
        ParsedTypeEnum::Reference(inner) => 1 + type_depth(*inner),
        ParsedTypeEnum::Array(inner) => 1 + type_depth(*inner),
        _ => 1,
    }
}

/// Resolving a parsed type with a symbol table whose ids name slots of a consistent arena
/// keeps the arena consistent and every slot it had, adds at most one slot per type
/// constructor, and gives an id that names a slot of the arena.
pub proof fn lemma_resolve_type_consistent(types: Map<Seq<char>, TypeId>, v: TypeArenaView, t: ParsedType)
    requires
        consistent(v),
        forall|n: Seq<char>| #[trigger] types.contains_key(n) ==> types[n].0 < v.types.len(),
        v.types.len() + type_depth(t) < usize::MAX,
    ensures
        consistent(spec_resolve_type(types, v, t).1),
        extends(v, spec_resolve_type(types, v, t).1),
        spec_resolve_type(types, v, t).1.types.len() <= v.types.len() + type_depth(t),
        spec_resolve_type(types, v, t).0 matches Some(id) ==> id.0 < spec_resolve_type(types, v, t).1.types.len(),
    decreases t,
{
    lemma_basic_types_interned(v);
    match t.parsed_type {
        ParsedTypeEnum::Pointer(inner) => {
            lemma_resolve_type_consistent(types, v, *inner);
            let (r, w) = spec_resolve_type(types, v, *inner);
            if let Some(id) = r {
                lemma_derived_types_interned(w, id);
            }
        },
        ParsedTypeEnum::Reference(inner) => {
            lemma_resolve_type_consistent(types, v, *inner);
            let (r, w) = spec_resolve_type(types, v, *inner);
            if let Some(id) = r {
                lemma_derived_types_interned(w, id);
            }
        },
        ParsedTypeEnum::Array(inner) => {
            lemma_resolve_type_consistent(types, v, *inner);
            let (r, w) = spec_resolve_type(types, v, *inner);
            if let Some(id) = r {
                lemma_derived_types_interned(w, id);
            }
        },
        _ => {},
    }
}

/// `u` has interned at least what `w` has, under the same ids.
pub open spec fn caches_extend(w: TypeArenaView, u: TypeArenaView) -> bool {
    &&& (w.int_id is Some ==> u.int_id == w.int_id)
    &&& (w.double_id is Some ==> u.double_id == w.double_id)
    &&& (w.bool_id is Some ==> u.bool_id == w.bool_id)
    &&& (w.char_id is Some ==> u.char_id == w.char_id)
    &&& (w.void_id is Some ==> u.void_id == w.void_id)
    &&& w.refs.submap_of(u.refs)
    &&& w.ptrs.submap_of(u.ptrs)
    &&& w.arrays.submap_of(u.arrays)
}

/// Resolving a type never removes a slot, and a resolution that adds no slot changes
/// nothing.
proof fn lemma_resolve_grows(types: Map<Seq<char>, TypeId>, v: TypeArenaView, t: ParsedType)
    ensures
        spec_resolve_type(types, v, t).1.types.len() >= v.types.len(),
        spec_resolve_type(types, v, t).1.types.len() == v.types.len() ==> spec_resolve_type(types, v, t).1 == v,
    decreases t,
{
    match t.parsed_type {
        ParsedTypeEnum::Pointer(inner) => lemma_resolve_grows(types, v, *inner),
        ParsedTypeEnum::Reference(inner) => lemma_resolve_grows(types, v, *inner),
        ParsedTypeEnum::Array(inner) => lemma_resolve_grows(types, v, *inner),
        _ => {},
    }
}

/// A type that resolves without changing `w` resolves to the same id, without changing it,
/// in any arena that has interned at least what `w` has.
proof fn lemma_resolve_stable(types: Map<Seq<char>, TypeId>, w: TypeArenaView, u: TypeArenaView, t: ParsedType)
    requires
        spec_resolve_type(types, w, t).1 == w,
        caches_extend(w, u),
    ensures
        spec_resolve_type(types, u, t) == (spec_resolve_type(types, w, t).0, u),
    decreases t,
{
    match t.parsed_type {
        ParsedTypeEnum::Pointer(inner) => {
            lemma_resolve_grows(types, w, *inner);
            let (r1, w1) = spec_resolve_type(types, w, *inner);
            if let Some(i1) = r1 {
                assert(w1 == w);
                lemma_resolve_stable(types, w, u, *inner);
            } else {
                lemma_resolve_stable(types, w, u, *inner);
            }
        },
        ParsedTypeEnum::Reference(inner) => {
            lemma_resolve_grows(types, w, *inner);
            let (r1, w1) = spec_resolve_type(types, w, *inner);
            if let Some(i1) = r1 {
                assert(w1 == w);
                lemma_resolve_stable(types, w, u, *inner);
            } else {
                lemma_resolve_stable(types, w, u, *inner);
            }
        },
        ParsedTypeEnum::Array(inner) => {
            lemma_resolve_grows(types, w, *inner);
            let (r1, w1) = spec_resolve_type(types, w, *inner);
            if let Some(i1) = r1 {
                assert(w1 == w);
                lemma_resolve_stable(types, w, u, *inner);
            } else {
                lemma_resolve_stable(types, w, u, *inner);
            }
        },
        _ => {},
    }
}

/// Resolving a parsed type a second time gives the same id and interns nothing new; the
/// first resolution keeps every id the arena had interned.
pub proof fn lemma_resolve_type_idempotent(types: Map<Seq<char>, TypeId>, v: TypeArenaView, t: ParsedType)
    requires
        v.types.len() + type_depth(t) < usize::MAX,
    ensures
        spec_resolve_type(types, spec_resolve_type(types, v, t).1, t) == spec_resolve_type(types, v, t),
        caches_extend(v, spec_resolve_type(types, v, t).1),
    decreases t,
{
    match t.parsed_type {
        ParsedTypeEnum::Pointer(inner) => {
            lemma_resolve_type_idempotent(types, v, *inner);
            lemma_resolve_grows(types, v, *inner);
            let (r1, w1) = spec_resolve_type(types, v, *inner);
            if let Some(i1) = r1 {
                let w = spec_make_ptr(w1, i1).1;
                lemma_resolve_stable(types, w1, w, *inner);
            }
        },
        ParsedTypeEnum::Reference(inner) => {
            lemma_resolve_type_idempotent(types, v, *inner);
            lemma_resolve_grows(types, v, *inner);
            let (r1, w1) = spec_resolve_type(types, v, *inner);
            if let Some(i1) = r1 {
                let w = spec_make_ref(w1, i1).1;
                lemma_resolve_stable(types, w1, w, *inner);
            }
        },
        ParsedTypeEnum::Array(inner) => {
            lemma_resolve_type_idempotent(types, v, *inner);
            lemma_resolve_grows(types, v, *inner);
            let (r1, w1) = spec_resolve_type(types, v, *inner);
            if let Some(i1) = r1 {
                let w = spec_make_array(w1, i1).1;
                lemma_resolve_stable(types, w1, w, *inner);
            }
        },
        _ => {},
    }
}

/// No two entries of `s` have the same key.
pub open spec fn distinct_keys<A>(s: Seq<(Seq<char>, A)>) -> bool {
    forall|i: int, j: int| 0 <= i < j < s.len() ==> s[i].0 != s[j].0
}

/// A key that is not found from index `i` on is not among the keys from there on.
pub proof fn lemma_find_key_none(keys: Seq<Seq<char>>, k: Seq<char>, i: int)
    requires
        0 <= i,
        find_key(keys, k, i) is None,
    ensures
        forall|j: int| i <= j < keys.len() ==> keys[j] != k,
    decreases keys.len() - i,
{
    if i < keys.len() {
        lemma_find_key_none(keys, k, i + 1);
    }
}

/// Resolving a type keeps the unknown type names distinct.
pub proof fn lemma_resolve_type_distinct(s: Resolution, t: ParsedType)
    requires
        distinct_keys(s.unresolved),
    ensures
        distinct_keys(tr_resolve_type(s, t).1.unresolved),
    decreases t,
{
    match t.parsed_type {
        ParsedTypeEnum::TypeName(name) => {
            if !s.types.contains_key(name@) && find_key(keys_of(s.unresolved), name@, 0) is None {
                lemma_find_key_none(keys_of(s.unresolved), name@, 0);
                let u = tr_resolve_type(s, t).1.unresolved;
                assert forall|i: int, j: int| 0 <= i < j < u.len() implies u[i].0 != u[j].0 by {
                    if j == s.unresolved.len() {
                        assert(keys_of(s.unresolved)[i] == s.unresolved[i].0);
                    }
                }
            }
        },
        ParsedTypeEnum::Pointer(inner) => lemma_resolve_type_distinct(s, *inner),
        ParsedTypeEnum::Reference(inner) => lemma_resolve_type_distinct(s, *inner),
        ParsedTypeEnum::Array(inner) => lemma_resolve_type_distinct(s, *inner),
        _ => {},
    }
}

proof fn lemma_param_types_distinct(s: Resolution, params: Seq<DeclarationExpr>, acc: Seq<TypeId>)
    requires
        distinct_keys(s.unresolved),
    ensures
        distinct_keys(tr_param_types(s, params, acc).1.unresolved),
    decreases params.len(),
{
    if params.len() > 0 {
        lemma_resolve_type_distinct(s, params[0].declaration_type);
        let (id, s1) = tr_resolve_type(s, params[0].declaration_type);
        lemma_param_types_distinct(s1, params.drop_first(), acc.push(id));
    }
}

proof fn lemma_fn_type_distinct(s: Resolution, f: FunctionItem)
    requires
        distinct_keys(s.unresolved),
    ensures
        distinct_keys(tr_fn_type(s, f).1.unresolved),
{
    lemma_param_types_distinct(s, f.parameters.to_seq(), Seq::empty());
    let (params, s1) = tr_param_types(s, f.parameters.to_seq(), Seq::empty());
    lemma_resolve_type_distinct(s1, f.return_type);
}

proof fn lemma_members_distinct(s: Resolution, ms: Seq<(ParsedType, Located<String>)>, members: Map<Seq<char>, TypeId>)
    requires
        distinct_keys(s.unresolved),
    ensures
        distinct_keys(tr_members(s, ms, members).1.unresolved),
    decreases ms.len(),
{
    if ms.len() > 0 {
        lemma_resolve_type_distinct(s, ms[0].0);
        let (id, s1) = tr_resolve_type(s, ms[0].0);
        lemma_members_distinct(s1, ms.drop_first(), members.insert(ms[0].1.data@, id));
    }
}

proof fn lemma_constructors_distinct(s: Resolution, cs: Seq<ConstructorItem>, struct_id: TypeId, ctors: Set<usize>)
    requires
        distinct_keys(s.unresolved),
    ensures
        distinct_keys(tr_constructors(s, cs, struct_id, ctors).1.unresolved),
    decreases cs.len(),
{
    if cs.len() > 0 {
        lemma_param_types_distinct(s, cs[0].parameters.to_seq(), Seq::empty());
        let (params, s1) = tr_param_types(s, cs[0].parameters.to_seq(), Seq::empty());
        let (id, a) = spec_make_function(s1.arena, FunctionTypeView { param_types: params, return_type: struct_id });
        lemma_constructors_distinct(Resolution { arena: a, ..s1 }, cs.drop_first(), struct_id, ctors.insert(id.0));
    }
}

proof fn lemma_items_distinct(s: Resolution, items: Seq<Item>)
    requires
        distinct_keys(s.unresolved),
    ensures
        distinct_keys(tr_items(s, items).unresolved),
    decreases items.len(),
{
    if items.len() > 0 {
        match items[0] {
            Item::Function(f) => {
                lemma_fn_type_distinct(s, f);
            },
            Item::Struct(st) => {
                lemma_members_distinct(s, st.members.to_seq(), Map::empty());
                let (members, s1) = tr_members(s, st.members.to_seq(), Map::empty());
                let s2 = Resolution { arena: with_slot(s1.arena, None), ..s1 };
                lemma_constructors_distinct(s2, st.constructors.to_seq(), next_id(s1.arena), Set::empty());
            },
            _ => {},
        }
        lemma_items_distinct(tr_item(s, items[0]), items.drop_first());
    }
}

proof fn lemma_impl_functions_distinct(s: Resolution, fs: Seq<FunctionItem>, members: Map<Seq<char>, TypeId>)
    requires
        distinct_keys(s.unresolved),
    ensures
        distinct_keys(tr_impl_functions(s, fs, members).1.unresolved),
    decreases fs.len(),
{
    if fs.len() > 0 {
        lemma_fn_type_distinct(s, fs[0]);
        let (ft, s1) = tr_fn_type(s, fs[0]);
        let (id, a) = spec_make_function(s1.arena, ft);
        lemma_impl_functions_distinct(Resolution { arena: a, ..s1 }, fs.drop_first(), members.insert(fs[0].name.data@, id));
    }
}

proof fn lemma_impl_blocks_distinct(s: Resolution, blocks: Seq<ImplItem>, name: Seq<char>, members: Map<Seq<char>, TypeId>)
    requires
        distinct_keys(s.unresolved),
    ensures
        distinct_keys(tr_impl_blocks(s, blocks, name, members).1.unresolved),
    decreases blocks.len(),
{
    if blocks.len() > 0 {
        if crate::resolver::type_resolver::impl_name(blocks[0]) == Some(name) {
            lemma_impl_functions_distinct(s, blocks[0].functions.to_seq(), members);
            let (m1, s1) = tr_impl_functions(s, blocks[0].functions.to_seq(), members);
            lemma_impl_blocks_distinct(s1, blocks.drop_first(), name, m1);
        } else {
            lemma_impl_blocks_distinct(s, blocks.drop_first(), name, members);
        }
    }
}

proof fn lemma_finish_distinct(s: Resolution, structs: Seq<(Seq<char>, (StructTypeView, TypeId))>)
    requires
        distinct_keys(s.unresolved),
    ensures
        distinct_keys(tr_finish(s, structs).unresolved),
    decreases structs.len(),
{
    if structs.len() > 0 {
        let (name, (st, id)) = structs[0];
        lemma_impl_blocks_distinct(s, s.impls, name, st.members);
        let (members, s1) = tr_impl_blocks(s, s.impls, name, st.members);
        let filled = StructTypeView { members, ..st };
        let a = TypeArenaView {
            types: s1.arena.types.update(id.0 as int, Some(ResolvedTypeView::Struct(filled))),
            ..s1.arena
        };
        lemma_finish_distinct(Resolution { arena: a, types: s1.types.insert(name, id), ..s1 }, structs.drop_first());
    }
}

/// Every error that the unknown type names give reports one of them, where it was met.
pub proof fn lemma_unknown_types_from(unresolved: Seq<(Seq<char>, (TypeId, PositionRange))>, declared: Seq<Seq<char>>)
    ensures
        forall|k: int|
            0 <= k < unknown_types(unresolved, declared).len() ==> exists|j: int|
                0 <= j < unresolved.len() && #[trigger] unknown_types(unresolved, declared)[k] == unknown_type_at(
                    unresolved[j].0,
                    unresolved[j].1.1,
                ),
    decreases unresolved.len(),
{
    if unresolved.len() > 0 {
        let rest = unresolved.drop_first();
        lemma_unknown_types_from(rest, declared);
        let out = unknown_types(unresolved, declared);
        let tail = unknown_types(rest, declared);
        assert forall|k: int| 0 <= k < out.len() implies exists|j: int|
            0 <= j < unresolved.len() && #[trigger] out[k] == unknown_type_at(unresolved[j].0, unresolved[j].1.1) by {
            if out.len() == tail.len() + 1 {
                if k == 0 {
                    assert(out[0] == unknown_type_at(unresolved[0].0, unresolved[0].1.1));
                } else {
                    assert(out[k] == tail[k - 1]);
                    let j = choose|j: int| 0 <= j < rest.len() && tail[k - 1] == unknown_type_at(rest[j].0, rest[j].1.1);
                    assert(rest[j] == unresolved[j + 1]);
                }
            } else {
                assert(out == tail);
                let j = choose|j: int| 0 <= j < rest.len() && tail[k] == unknown_type_at(rest[j].0, rest[j].1.1);
                assert(rest[j] == unresolved[j + 1]);
            }
        }
    }
}

/// Errors for distinct unknown type names have distinct messages.
pub proof fn lemma_unknown_types_distinct(unresolved: Seq<(Seq<char>, (TypeId, PositionRange))>, declared: Seq<Seq<char>>)
    requires
        distinct_keys(unresolved),
    ensures
        forall|i: int, j: int|
            0 <= i < j < unknown_types(unresolved, declared).len() ==> (#[trigger] unknown_types(unresolved, declared)[i]).message
                != (#[trigger] unknown_types(unresolved, declared)[j]).message,
    decreases unresolved.len(),
{
    if unresolved.len() > 0 {
        let rest = unresolved.drop_first();
        assert(distinct_keys(rest)) by {
            assert forall|i: int, j: int| 0 <= i < j < rest.len() implies rest[i].0 != rest[j].0 by {
                assert(rest[i] == unresolved[i + 1]);
                assert(rest[j] == unresolved[j + 1]);
            }
        }
        lemma_unknown_types_distinct(rest, declared);
        lemma_unknown_types_from(rest, declared);
        let out = unknown_types(unresolved, declared);
        let tail = unknown_types(rest, declared);
        let prefix = "unknown type name "@;
        if out.len() == tail.len() + 1 {
            assert forall|i: int, j: int| 0 <= i < j < out.len() implies (#[trigger] out[i]).message != (#[trigger] out[j]).message by {
                if i == 0 {
                    assert(out[j] == tail[j - 1]);
                    let m = choose|m: int| 0 <= m < rest.len() && tail[j - 1] == unknown_type_at(rest[m].0, rest[m].1.1);
                    assert(rest[m] == unresolved[m + 1]);
                    let a = unresolved[0].0;
                    let b = rest[m].0;
                    assert(a != b);
                    if (prefix + a) == (prefix + b) {
                        assert((prefix + a).subrange(prefix.len() as int, (prefix + a).len() as int) =~= a);
                        assert((prefix + b).subrange(prefix.len() as int, (prefix + b).len() as int) =~= b);
                    }
                } else {
                    assert(out[i] == tail[i - 1]);
                    assert(out[j] == tail[j - 1]);
                }
            }
        } else {
            assert(out == tail);
        }
    }
}

/// Each unknown type name is reported once, however often it is met: resolving the items of
/// a scope keeps the unresolved names distinct, and the errors that the resolution reports
/// for them have distinct messages.
pub proof fn lemma_unknown_types_reported_once(s: Resolution, items: Seq<Item>, declared: Seq<Seq<char>>)
    requires
        distinct_keys(s.unresolved),
    ensures
        distinct_keys(tr_scope(s, items).unresolved),
        forall|i: int, j: int|
            0 <= i < j < unknown_types(tr_scope(s, items).unresolved, declared).len() ==> (#[trigger] unknown_types(
                tr_scope(s, items).unresolved,
                declared,
            )[i]).message != (#[trigger] unknown_types(tr_scope(s, items).unresolved, declared)[j]).message,
{
    lemma_items_distinct(s, items);
    let s1 = tr_items(s, items);
    lemma_finish_distinct(Resolution { partial: Seq::empty(), ..s1 }, s1.partial);
    lemma_unknown_types_distinct(tr_scope(s, items).unresolved, declared);
}

/// What a step of type resolution leaves alone: the symbol table, the structs kept and
/// the impl blocks seen.
pub open spec fn same_tables(s: Resolution, t: Resolution) -> bool {
    t.functions == s.functions && t.types == s.types && t.partial == s.partial && t.impls == s.impls
}

proof fn lemma_resolve_type_frame(s: Resolution, t: ParsedType)
    ensures
        same_tables(s, tr_resolve_type(s, t).1),
    decreases t,
{
    match t.parsed_type {
        ParsedTypeEnum::Pointer(inner) => lemma_resolve_type_frame(s, *inner),
        ParsedTypeEnum::Reference(inner) => lemma_resolve_type_frame(s, *inner),
        ParsedTypeEnum::Array(inner) => lemma_resolve_type_frame(s, *inner),
        _ => {},
    }
}

proof fn lemma_param_types_frame(s: Resolution, params: Seq<DeclarationExpr>, acc: Seq<TypeId>)
    ensures
        same_tables(s, tr_param_types(s, params, acc).1),
    decreases params.len(),
{
    if params.len() > 0 {
        lemma_resolve_type_frame(s, params[0].declaration_type);
        let (id, s1) = tr_resolve_type(s, params[0].declaration_type);
        lemma_param_types_frame(s1, params.drop_first(), acc.push(id));
    }
}

proof fn lemma_fn_type_frame(s: Resolution, f: FunctionItem)
    ensures
        same_tables(s, tr_fn_type(s, f).1),
{
    lemma_param_types_frame(s, f.parameters.to_seq(), Seq::empty());
    let s1 = tr_param_types(s, f.parameters.to_seq(), Seq::empty()).1;
    lemma_resolve_type_frame(s1, f.return_type);
}

proof fn lemma_members_frame(s: Resolution, ms: Seq<(ParsedType, Located<String>)>, members: Map<Seq<char>, TypeId>)
    ensures
        same_tables(s, tr_members(s, ms, members).1),
    decreases ms.len(),
{
    if ms.len() > 0 {
        lemma_resolve_type_frame(s, ms[0].0);
        let (id, s1) = tr_resolve_type(s, ms[0].0);
        lemma_members_frame(s1, ms.drop_first(), members.insert(ms[0].1.data@, id));
    }
}

proof fn lemma_constructors_frame(s: Resolution, cs: Seq<ConstructorItem>, struct_id: TypeId, ctors: Set<usize>)
    ensures
        same_tables(s, tr_constructors(s, cs, struct_id, ctors).1),
    decreases cs.len(),
{
    if cs.len() > 0 {
        lemma_param_types_frame(s, cs[0].parameters.to_seq(), Seq::empty());
        let (params, s1) = tr_param_types(s, cs[0].parameters.to_seq(), Seq::empty());
        let (id, a) = spec_make_function(s1.arena, FunctionTypeView { param_types: params, return_type: struct_id });
        lemma_constructors_frame(Resolution { arena: a, ..s1 }, cs.drop_first(), struct_id, ctors.insert(id.0));
    }
}

proof fn lemma_impl_functions_frame(s: Resolution, fs: Seq<FunctionItem>, members: Map<Seq<char>, TypeId>)
    ensures
        same_tables(s, tr_impl_functions(s, fs, members).1),
    decreases fs.len(),
{
    if fs.len() > 0 {
        lemma_fn_type_frame(s, fs[0]);
        let (ft, s1) = tr_fn_type(s, fs[0]);
        let (id, a) = spec_make_function(s1.arena, ft);
        lemma_impl_functions_frame(Resolution { arena: a, ..s1 }, fs.drop_first(), members.insert(fs[0].name.data@, id));
    }
}

proof fn lemma_impl_blocks_frame(s: Resolution, blocks: Seq<ImplItem>, name: Seq<char>, members: Map<Seq<char>, TypeId>)
    ensures
        same_tables(s, tr_impl_blocks(s, blocks, name, members).1),
    decreases blocks.len(),
{
    if blocks.len() > 0 {
        if crate::resolver::type_resolver::impl_name(blocks[0]) == Some(name) {
            lemma_impl_functions_frame(s, blocks[0].functions.to_seq(), members);
            let (m1, s1) = tr_impl_functions(s, blocks[0].functions.to_seq(), members);
            lemma_impl_blocks_frame(s1, blocks.drop_first(), name, m1);
        } else {
            lemma_impl_blocks_frame(s, blocks.drop_first(), name, members);
        }
    }
}

/// Visiting items keeps every function name and every kept struct name, and adds those of
/// the items visited.
proof fn lemma_items_enter_names(s: Resolution, items: Seq<Item>)
    ensures
        forall|n: Seq<char>| s.functions.contains_key(n) ==> tr_items(s, items).functions.contains_key(n),
        forall|n: Seq<char>| keys_of(s.partial).contains(n) ==> keys_of(tr_items(s, items).partial).contains(n),
        forall|i: int|
            0 <= i < items.len() ==> (#[trigger] items[i] matches Item::Function(f) ==> tr_items(s, items).functions.contains_key(
                f.name.data@,
            )),
        forall|i: int|
            0 <= i < items.len() ==> (#[trigger] items[i] matches Item::Struct(st) ==> keys_of(tr_items(s, items).partial).contains(
                st.name.data@,
            )),
    decreases items.len(),
{
    if items.len() > 0 {
        let s1 = tr_item(s, items[0]);
        match items[0] {
            Item::Function(f) => {
                lemma_fn_type_frame(s, f);
            },
            Item::Struct(st) => {
                lemma_members_frame(s, st.members.to_seq(), Map::empty());
                let (members, sa) = tr_members(s, st.members.to_seq(), Map::empty());
                let sb = Resolution { arena: with_slot(sa.arena, None), ..sa };
                lemma_constructors_frame(sb, st.constructors.to_seq(), next_id(sa.arena), Set::empty());
                let sc = tr_constructors(sb, st.constructors.to_seq(), next_id(sa.arena), Set::empty()).1;
                let name = st.name.data@;
                assert forall|n: Seq<char>| keys_of(s.partial).contains(n) || n == name implies keys_of(
                    s1.partial,
                ).contains(n) by {
                    match find_key(keys_of(sc.partial), name, 0) {
                        Some(k) => {
                            lemma_find_key_some(keys_of(sc.partial), name, 0);
                            if n == name {
                                assert(keys_of(s1.partial)[k] == name);
                            } else {
                                let j = choose|j: int| 0 <= j < keys_of(s.partial).len() && keys_of(s.partial)[j] == n;
                                assert(keys_of(s1.partial)[j] == n);
                            }
                        },
                        None => {
                            if n == name {
                                assert(keys_of(s1.partial)[sc.partial.len() as int] == name);
                            } else {
                                let j = choose|j: int| 0 <= j < keys_of(s.partial).len() && keys_of(s.partial)[j] == n;
                                assert(keys_of(s1.partial)[j] == n);
                            }
                        },
                    }
                }
            },
            _ => {},
        }
        lemma_items_enter_names(s1, items.drop_first());
        let r = tr_items(s, items);
        assert(r == tr_items(s1, items.drop_first()));
        assert forall|n: Seq<char>| s.functions.contains_key(n) implies r.functions.contains_key(n) by {
            assert(s1.functions.contains_key(n));
        }
        assert forall|i: int| 0 <= i < items.len() implies (#[trigger] items[i] matches Item::Function(f)
            ==> r.functions.contains_key(f.name.data@)) by {
            if i > 0 {
                assert(items[i] == items.drop_first()[i - 1]);
            } else if let Item::Function(f) = items[0] {
                assert(s1.functions.contains_key(f.name.data@));
            }
        }
        assert forall|i: int| 0 <= i < items.len() implies (#[trigger] items[i] matches Item::Struct(st)
            ==> keys_of(r.partial).contains(st.name.data@)) by {
            if i > 0 {
                assert(items[i] == items.drop_first()[i - 1]);
            } else if let Item::Struct(st) = items[0] {
                assert(keys_of(s1.partial).contains(st.name.data@));
            }
        }
    }
}

/// A key that is found is at the index found.
proof fn lemma_find_key_some(keys: Seq<Seq<char>>, k: Seq<char>, i: int)
    requires
        find_key(keys, k, i) is Some,
    ensures
        0 <= find_key(keys, k, i)->Some_0 < keys.len(),
        keys[find_key(keys, k, i)->Some_0] == k,
    decreases keys.len() - i,
{
    if keys[i] != k {
        lemma_find_key_some(keys, k, i + 1);
    }
}

/// Finishing the structs enters each of their names in the symbol table and keeps every
/// function name.
proof fn lemma_finish_enters_names(s: Resolution, structs: Seq<(Seq<char>, (StructTypeView, TypeId))>)
    ensures
        tr_finish(s, structs).functions == s.functions,
        forall|n: Seq<char>| s.types.contains_key(n) ==> tr_finish(s, structs).types.contains_key(n),
        forall|i: int| 0 <= i < structs.len() ==> tr_finish(s, structs).types.contains_key(#[trigger] structs[i].0),
    decreases structs.len(),
{
    if structs.len() > 0 {
        let (name, (st, id)) = structs[0];
        lemma_impl_blocks_frame(s, s.impls, name, st.members);
        let (members, s1) = tr_impl_blocks(s, s.impls, name, st.members);
        let filled = StructTypeView { members, ..st };
        let a = TypeArenaView {
            types: s1.arena.types.update(id.0 as int, Some(ResolvedTypeView::Struct(filled))),
            ..s1.arena
        };
        let s2 = Resolution { arena: a, types: s1.types.insert(name, id), ..s1 };
        lemma_finish_enters_names(s2, structs.drop_first());
        let r = tr_finish(s, structs);
        assert(r == tr_finish(s2, structs.drop_first()));
        assert(s2.types.contains_key(name));
        assert forall|n: Seq<char>| s.types.contains_key(n) implies r.types.contains_key(n) by {
            assert(s2.types.contains_key(n));
        }
        assert forall|i: int| 0 <= i < structs.len() implies r.types.contains_key(#[trigger] structs[i].0) by {
            if i > 0 {
                assert(structs[i] == structs.drop_first()[i - 1]);
            }
        }
    }
}

/// Resolving the types of a scope enters the name of each of its functions and each of
/// its structs in the symbol table, and keeps every name that was there.
pub proof fn lemma_declared_names_entered(s: Resolution, items: Seq<Item>)
    ensures
        forall|n: Seq<char>| s.functions.contains_key(n) ==> tr_scope(s, items).functions.contains_key(n),
        forall|n: Seq<char>| s.types.contains_key(n) ==> tr_scope(s, items).types.contains_key(n),
        forall|i: int|
            0 <= i < items.len() ==> (#[trigger] items[i] matches Item::Function(f) ==> tr_scope(s, items).functions.contains_key(
                f.name.data@,
            )),
        forall|i: int|
            0 <= i < items.len() ==> (#[trigger] items[i] matches Item::Struct(st) ==> tr_scope(s, items).types.contains_key(
                st.name.data@,
            )),
{
    lemma_items_enter_names(s, items);
    let s1 = tr_items(s, items);
    lemma_items_types_frame(s, items);
    let s2 = Resolution { partial: Seq::empty(), ..s1 };
    lemma_finish_enters_names(s2, s1.partial);
    assert forall|i: int| 0 <= i < items.len() implies (#[trigger] items[i] matches Item::Struct(st)
        ==> tr_scope(s, items).types.contains_key(st.name.data@)) by {
        if let Item::Struct(st) = items[i] {
            assert(keys_of(s1.partial).contains(st.name.data@));
            let j = choose|j: int| 0 <= j < keys_of(s1.partial).len() && keys_of(s1.partial)[j] == st.name.data@;
            assert(s1.partial[j].0 == st.name.data@);
        }
    }
}

/// Visiting items leaves the type names of the symbol table alone.
proof fn lemma_items_types_frame(s: Resolution, items: Seq<Item>)
    ensures
        tr_items(s, items).types == s.types,
    decreases items.len(),
{
    if items.len() > 0 {
        match items[0] {
            Item::Function(f) => {
                lemma_fn_type_frame(s, f);
            },
            Item::Struct(st) => {
                lemma_members_frame(s, st.members.to_seq(), Map::empty());
                let (members, sa) = tr_members(s, st.members.to_seq(), Map::empty());
                let sb = Resolution { arena: with_slot(sa.arena, None), ..sa };
                lemma_constructors_frame(sb, st.constructors.to_seq(), next_id(sa.arena), Set::empty());
            },
            _ => {},
        }
        lemma_items_types_frame(tr_item(s, items[0]), items.drop_first());
    }
}

/// Pointer, reference and array types are interned by their base type. In an arena whose
/// interned ids are distinct (every well-formed arena: `TypeArena::new` gives one and
/// every operation of the arena keeps it so), the pointer, reference and array types of one base get
/// three different ids; and the pointer (reference, array) type of a second base gets the
/// id of the first exactly when the bases are the same. In a consistent arena each id
/// names a slot that holds its type.
pub proof fn lemma_derived_ids_by_base(v: TypeArenaView, t: TypeId, u: TypeId)
    requires
        ids_distinct(v),
        v.types.len() + 3 < usize::MAX,
    ensures
        ({
            let (p, v1) = spec_make_ptr(v, t);
            let (r, v2) = spec_make_ref(v1, t);
            let (a, v3) = spec_make_array(v2, t);
            &&& p != r && p != a && r != a
            &&& consistent(v) ==> holds(v3, p, ResolvedTypeView::Pointer(t)) && holds(
                v3,
                r,
                ResolvedTypeView::Reference(t),
            ) && holds(v3, a, ResolvedTypeView::Array(t))
        }),
        (spec_make_ptr(spec_make_ptr(v, t).1, u).0 == spec_make_ptr(v, t).0) <==> u == t,
        (spec_make_ref(spec_make_ref(v, t).1, u).0 == spec_make_ref(v, t).0) <==> u == t,
        (spec_make_array(spec_make_array(v, t).1, u).0 == spec_make_array(v, t).0) <==> u == t,
{
    let any_t = ResolvedTypeView::Void;
    let any_f = FunctionTypeView { param_types: Seq::empty(), return_type: t };
    let (p, v1) = spec_make_ptr(v, t);
    lemma_ops_keep_ids_distinct(v, any_t, t, t, any_f);
    let (r, v2) = spec_make_ref(v1, t);
    lemma_ops_keep_ids_distinct(v1, any_t, t, t, any_f);
    let (a, v3) = spec_make_array(v2, t);
    lemma_ops_keep_ids_distinct(v2, any_t, t, t, any_f);
    assert(interned(v3, InternKey::Pointer(t.0)) == Some(p));
    assert(interned(v3, InternKey::Reference(t.0)) == Some(r));
    assert(interned(v3, InternKey::Array(t.0)) == Some(a));
    if consistent(v) {
        lemma_derived_types_interned(v, t);
        lemma_derived_types_interned(v1, t);
        lemma_derived_types_interned(v2, t);
        assert(v2.types[p.0 as int] == v1.types[p.0 as int]);
        assert(v3.types[p.0 as int] == v2.types[p.0 as int]);
        assert(v3.types[r.0 as int] == v2.types[r.0 as int]);
    }
    lemma_ops_keep_ids_distinct(v, any_t, t, u, any_f);
    lemma_ops_keep_ids_distinct(v1, any_t, t, u, any_f);
    let vr = spec_make_ref(v, t).1;
    let va = spec_make_array(v, t).1;
    lemma_ops_keep_ids_distinct(vr, any_t, t, u, any_f);
    lemma_ops_keep_ids_distinct(va, any_t, t, u, any_f);
    let w1 = spec_make_ptr(v1, u).1;
    let w2 = spec_make_ref(vr, u).1;
    let w3 = spec_make_array(va, u).1;
    assert(interned(w1, InternKey::Pointer(t.0)) == Some(p));
    assert(interned(w1, InternKey::Pointer(u.0)) == Some(spec_make_ptr(v1, u).0));
    assert(interned(w2, InternKey::Reference(t.0)) == Some(spec_make_ref(v, t).0));
    assert(interned(w2, InternKey::Reference(u.0)) == Some(spec_make_ref(vr, u).0));
    assert(interned(w3, InternKey::Array(t.0)) == Some(spec_make_array(v, t).0));
    assert(interned(w3, InternKey::Array(u.0)) == Some(spec_make_array(va, u).0));
}

/// An interned pointer, reference or array type keeps its id: any arena that has interned
/// at least what the interning left gives the same id back and changes nothing.
pub proof fn lemma_derived_ids_kept(v: TypeArenaView, w: TypeArenaView, t: TypeId)
    ensures
        caches_extend(spec_make_ptr(v, t).1, w) ==> spec_make_ptr(w, t) == (spec_make_ptr(v, t).0, w),
        caches_extend(spec_make_ref(v, t).1, w) ==> spec_make_ref(w, t) == (spec_make_ref(v, t).0, w),
        caches_extend(spec_make_array(v, t).1, w) ==> spec_make_array(w, t) == (spec_make_array(v, t).0, w),
{
    assert(spec_make_ptr(v, t).1.ptrs.contains_key(t.0));
    assert(spec_make_ref(v, t).1.refs.contains_key(t.0));
    assert(spec_make_array(v, t).1.arrays.contains_key(t.0));
}

/// Function types are interned by their parameter and return types: in an arena whose
/// interned ids are distinct (every well-formed arena), a second function type gets the id
/// of the first exactly when it is the same function type, with the same parameter types
/// in the same order and the same return type; in a consistent arena the id names a slot
/// that holds the type.
pub proof fn lemma_function_ids_by_type(v: TypeArenaView, f: FunctionTypeView, g: FunctionTypeView)
    requires
        ids_distinct(v),
        v.types.len() + 2 < usize::MAX,
    ensures
        consistent(v) ==> holds(spec_make_function(v, f).1, spec_make_function(v, f).0, ResolvedTypeView::Function(f)),
        (spec_make_function(spec_make_function(v, f).1, g).0 == spec_make_function(v, f).0) <==> f == g,
{
    let (idf, w) = spec_make_function(v, f);
    let any_t = ResolvedTypeView::Void;
    lemma_function_types_interned(v, f);
    lemma_ops_keep_ids_distinct(v, any_t, idf, idf, f);
    if find_function(v.functions, f, 0) is None {
        lemma_find_function_push(v.functions, f, next_id(v), f, 0);
    }
    assert(interned(w, InternKey::Function(f)) == Some(idf));
    let (idg, w2) = spec_make_function(w, g);
    lemma_ops_keep_ids_distinct(w, any_t, idf, idf, g);
    if find_function(w.functions, g, 0) is None {
        lemma_find_function_push(w.functions, g, next_id(w), f, 0);
        lemma_find_function_push(w.functions, g, next_id(w), g, 0);
    }
    assert(interned(w2, InternKey::Function(f)) == Some(idf));
    assert(interned(w2, InternKey::Function(g)) == Some(idg));
}

/// `u` is a later state of a type resolution than `s`: the same symbol table, every id
/// the arena interned kept, and the type names met before their struct kept in place.
pub open spec fn resolution_extends(s: Resolution, u: Resolution) -> bool {
    &&& u.types == s.types
    &&& caches_extend(s.arena, u.arena)
    &&& s.unresolved.len() <= u.unresolved.len()
    &&& forall|i: int| 0 <= i < s.unresolved.len() ==> #[trigger] u.unresolved[i] == s.unresolved[i]
}

/// A key found among `keys` is found at the same index among any keys that begin with them.
proof fn lemma_find_key_prefix(keys: Seq<Seq<char>>, more: Seq<Seq<char>>, k: Seq<char>, i: int)
    requires
        0 <= i,
        find_key(keys, k, i) is Some,
        keys.len() <= more.len(),
        forall|j: int| 0 <= j < keys.len() ==> #[trigger] more[j] == keys[j],
    ensures
        find_key(more, k, i) == find_key(keys, k, i),
    decreases keys.len() - i,
{
    if keys[i] != k {
        lemma_find_key_prefix(keys, more, k, i + 1);
    }
}

/// A key not found among `keys` is found at the end once it is added there.
proof fn lemma_find_key_push(keys: Seq<Seq<char>>, k: Seq<char>, i: int)
    requires
        0 <= i <= keys.len(),
        find_key(keys, k, i) is None,
    ensures
        find_key(keys.push(k), k, i) == Some(keys.len() as int),
    decreases keys.len() - i,
{
    if i < keys.len() {
        assert(keys.push(k)[i] == keys[i]);
        lemma_find_key_push(keys, k, i + 1);
    }
}

/// Resolving a type in the type resolver only extends its state, adds at most one slot per
/// type constructor, and changes nothing when it adds no slot.
proof fn lemma_tr_resolve_grows(s: Resolution, t: ParsedType)
    ensures
        resolution_extends(s, tr_resolve_type(s, t).1),
        tr_resolve_type(s, t).1.arena.types.len() >= s.arena.types.len(),
        tr_resolve_type(s, t).1.arena.types.len() <= s.arena.types.len() + type_depth(t),
        tr_resolve_type(s, t).1.arena.types.len() == s.arena.types.len() ==> tr_resolve_type(s, t).1 == s,
    decreases t,
{
    match t.parsed_type {
        ParsedTypeEnum::Pointer(inner) => lemma_tr_resolve_grows(s, *inner),
        ParsedTypeEnum::Reference(inner) => lemma_tr_resolve_grows(s, *inner),
        ParsedTypeEnum::Array(inner) => lemma_tr_resolve_grows(s, *inner),
        _ => {},
    }
}

/// A type that resolves without changing `s` resolves to the same id, without changing
/// anything, in every later state.
proof fn lemma_tr_resolve_stable(s: Resolution, u: Resolution, t: ParsedType)
    requires
        tr_resolve_type(s, t).1 == s,
        resolution_extends(s, u),
    ensures
        tr_resolve_type(u, t) == (tr_resolve_type(s, t).0, u),
    decreases t,
{
    match t.parsed_type {
        ParsedTypeEnum::TypeName(name) => {
            if !s.types.contains_key(name@) {
                match find_key(keys_of(s.unresolved), name@, 0) {
                    Some(k) => {
                        let ks = keys_of(s.unresolved);
                        let ku = keys_of(u.unresolved);
                        assert forall|j: int| 0 <= j < ks.len() implies #[trigger] ku[j] == ks[j] by {
                            assert(u.unresolved[j] == s.unresolved[j]);
                        }
                        lemma_find_key_prefix(ks, ku, name@, 0);
                        lemma_find_key_some(ks, name@, 0);
                        assert(u.unresolved[k] == s.unresolved[k]);
                    },
                    None => {
                        assert(tr_resolve_type(s, t).1.unresolved.len() == s.unresolved.len() + 1);
                    },
                }
            }
        },
        ParsedTypeEnum::Pointer(inner) => {
            lemma_tr_resolve_grows(s, *inner);
            lemma_tr_resolve_stable(s, u, *inner);
        },
        ParsedTypeEnum::Reference(inner) => {
            lemma_tr_resolve_grows(s, *inner);
            lemma_tr_resolve_stable(s, u, *inner);
        },
        ParsedTypeEnum::Array(inner) => {
            lemma_tr_resolve_grows(s, *inner);
            lemma_tr_resolve_stable(s, u, *inner);
        },
        _ => {
            assert(tr_resolve_type(s, t).1.arena.types.len() == s.arena.types.len());
        },
    }
}

/// The type resolver resolves a parsed type the same way twice: the second call gives the
/// same id and changes nothing, reserving no slot and remembering no name.
pub proof fn lemma_type_resolver_idempotent(s: Resolution, t: ParsedType)
    requires
        s.arena.types.len() + type_depth(t) < usize::MAX,
    ensures
        tr_resolve_type(tr_resolve_type(s, t).1, t) == tr_resolve_type(s, t),
    decreases t,
{
    lemma_basic_types_interned(s.arena);
    match t.parsed_type {
        ParsedTypeEnum::TypeName(name) => {
            if !s.types.contains_key(name@) && find_key(keys_of(s.unresolved), name@, 0) is None {
                let s2 = tr_resolve_type(s, t).1;
                assert(keys_of(s2.unresolved) =~= keys_of(s.unresolved).push(name@));
                lemma_find_key_push(keys_of(s.unresolved), name@, 0);
            }
        },
        ParsedTypeEnum::Pointer(inner) => {
            lemma_type_resolver_idempotent(s, *inner);
            lemma_tr_resolve_grows(s, *inner);
            let (b, s1) = tr_resolve_type(s, *inner);
            let s2 = tr_resolve_type(s, t).1;
            lemma_derived_types_interned(s1.arena, b);
            lemma_tr_resolve_stable(s1, s2, *inner);
        },
        ParsedTypeEnum::Reference(inner) => {
            lemma_type_resolver_idempotent(s, *inner);
            lemma_tr_resolve_grows(s, *inner);
            let (b, s1) = tr_resolve_type(s, *inner);
            let s2 = tr_resolve_type(s, t).1;
            lemma_derived_types_interned(s1.arena, b);
            lemma_tr_resolve_stable(s1, s2, *inner);
        },
        ParsedTypeEnum::Array(inner) => {
            lemma_type_resolver_idempotent(s, *inner);
            lemma_tr_resolve_grows(s, *inner);
            let (b, s1) = tr_resolve_type(s, *inner);
            let s2 = tr_resolve_type(s, t).1;
            lemma_derived_types_interned(s1.arena, b);
            lemma_tr_resolve_stable(s1, s2, *inner);
        },
        _ => {},
    }
}

/// Resolving with error reporting agrees with resolving without: the same arena, and an id
/// exactly where the other gives one.
pub proof fn lemma_get_resolved_type_agrees(types: Map<Seq<char>, TypeId>, v: TypeArenaView, t: ParsedType)
    ensures
        spec_get_resolved_type(types, v, t).1 == spec_resolve_type(types, v, t).1,
        spec_get_resolved_type(types, v, t).0 is Ok <==> spec_resolve_type(types, v, t).0 is Some,
        spec_get_resolved_type(types, v, t).0 is Ok ==> spec_get_resolved_type(types, v, t).0->Ok_0
            == spec_resolve_type(types, v, t).0->Some_0,
    decreases t,
{
    match t.parsed_type {
        ParsedTypeEnum::Pointer(inner) => lemma_get_resolved_type_agrees(types, v, *inner),
        ParsedTypeEnum::Reference(inner) => lemma_get_resolved_type_agrees(types, v, *inner),
        ParsedTypeEnum::Array(inner) => lemma_get_resolved_type_agrees(types, v, *inner),
        _ => {},
    }
}

/// An arena that interns what another did, under the same ids, and has as many slots or
/// more, keeps ids distinct.
proof fn lemma_same_interned(v: TypeArenaView, w: TypeArenaView)
    requires
        ids_distinct(v),
        v.types.len() <= w.types.len(),
        forall|k: InternKey| #[trigger] interned(w, k) == interned(v, k),
    ensures
        ids_distinct(w),
{
    assert forall|k1: InternKey, k2: InternKey|
        #[trigger] interned(w, k1) is Some && interned(w, k1) == #[trigger] interned(w, k2) implies k1 == k2 by {
        assert(interned(v, k1) == interned(w, k1));
        assert(interned(v, k2) == interned(w, k2));
    }
    assert forall|k: InternKey| #[trigger] interned(w, k) is Some implies interned(w, k)->Some_0.0 < w.types.len() by {
        assert(interned(v, k) == interned(w, k));
    }
}

/// Interning one more key under the id of a new slot keeps ids distinct.
proof fn lemma_fresh_intern(v: TypeArenaView, w: TypeArenaView, key: InternKey)
    requires
        ids_distinct(v),
        v.types.len() <= usize::MAX,
        w.types.len() == v.types.len() + 1,
        interned(v, key) is None,
        interned(w, key) == Some(next_id(v)),
        forall|k: InternKey| k != key ==> #[trigger] interned(w, k) == interned(v, k),
    ensures
        ids_distinct(w),
{
    assert forall|k: InternKey| #[trigger] interned(w, k) is Some implies interned(w, k)->Some_0.0 < w.types.len() by {
        if k != key {
            assert(interned(v, k) == interned(w, k));
        }
    }
    assert forall|k1: InternKey, k2: InternKey|
        #[trigger] interned(w, k1) is Some && interned(w, k1) == #[trigger] interned(w, k2) implies k1 == k2 by {
        if k1 != key {
            assert(interned(v, k1) == interned(w, k1));
        }
        if k2 != key {
            assert(interned(v, k2) == interned(w, k2));
        }
    }
}

/// The empty arena has no interned ids, so they are distinct.
pub proof fn lemma_empty_arena_ids_distinct()
    ensures
        ids_distinct(empty_arena()),
{
    assert forall|k: InternKey| #[trigger] interned(empty_arena(), k) is None by {}
}

/// Every operation of the arena keeps its interned ids distinct: adding, reserving or
/// filling a slot, and interning any type. So every arena built by these operations from an
/// empty one has distinct ids: `TypeArena::wf`.
pub proof fn lemma_ops_keep_ids_distinct(
    v: TypeArenaView,
    t: ResolvedTypeView,
    slot: TypeId,
    b: TypeId,
    f: FunctionTypeView,
)
    requires
        ids_distinct(v),
        v.types.len() <= usize::MAX,
    ensures
        ids_distinct(spec_insert(v, t).1),
        ids_distinct(with_slot(v, None)),
        slot.0 < v.types.len() ==> ids_distinct(TypeArenaView { types: v.types.update(slot.0 as int, Some(t)), ..v }),
        ids_distinct(spec_int(v).1),
        ids_distinct(spec_double(v).1),
        ids_distinct(spec_bool(v).1),
        ids_distinct(spec_char(v).1),
        ids_distinct(spec_void(v).1),
        ids_distinct(spec_make_ref(v, b).1),
        ids_distinct(spec_make_ptr(v, b).1),
        ids_distinct(spec_make_array(v, b).1),
        ids_distinct(spec_make_function(v, f).1),
{
    lemma_same_interned(v, spec_insert(v, t).1);
    lemma_same_interned(v, with_slot(v, None));
    if slot.0 < v.types.len() {
        lemma_same_interned(v, TypeArenaView { types: v.types.update(slot.0 as int, Some(t)), ..v });
    }
    if v.int_id is None {
        lemma_fresh_intern(v, spec_int(v).1, InternKey::Integer);
    }
    if v.double_id is None {
        lemma_fresh_intern(v, spec_double(v).1, InternKey::Double);
    }
    if v.bool_id is None {
        lemma_fresh_intern(v, spec_bool(v).1, InternKey::Boolean);
    }
    if v.char_id is None {
        lemma_fresh_intern(v, spec_char(v).1, InternKey::Char);
    }
    if v.void_id is None {
        lemma_fresh_intern(v, spec_void(v).1, InternKey::Void);
    }
    if !v.refs.contains_key(b.0) {
        lemma_fresh_intern(v, spec_make_ref(v, b).1, InternKey::Reference(b.0));
    }
    if !v.ptrs.contains_key(b.0) {
        lemma_fresh_intern(v, spec_make_ptr(v, b).1, InternKey::Pointer(b.0));
    }
    if !v.arrays.contains_key(b.0) {
        lemma_fresh_intern(v, spec_make_array(v, b).1, InternKey::Array(b.0));
    }
    if find_function(v.functions, f, 0) is None {
        let w = spec_make_function(v, f).1;
        assert forall|k: InternKey| k != InternKey::Function(f) implies #[trigger] interned(w, k) == interned(v, k) by {
            if let InternKey::Function(g) = k {
                lemma_find_function_push(v.functions, f, next_id(v), g, 0);
            }
        }
        lemma_find_function_push(v.functions, f, next_id(v), f, 0);
        lemma_fresh_intern(v, w, InternKey::Function(f));
    }
}

/// No operation of the arena forgets an interned id: each leaves an arena that has
/// interned at least what the one before had, under the same ids; and that relation is
/// transitive, so what is interned once is given back by every later arena.
pub proof fn lemma_ops_keep_interned(
    v: TypeArenaView,
    t: ResolvedTypeView,
    slot: TypeId,
    b: TypeId,
    f: FunctionTypeView,
    w: TypeArenaView,
    u: TypeArenaView,
)
    ensures
        caches_extend(v, spec_insert(v, t).1),
        caches_extend(v, with_slot(v, None)),
        slot.0 < v.types.len() ==> caches_extend(v, TypeArenaView { types: v.types.update(slot.0 as int, Some(t)), ..v }),
        caches_extend(v, spec_int(v).1),
        caches_extend(v, spec_double(v).1),
        caches_extend(v, spec_bool(v).1),
        caches_extend(v, spec_char(v).1),
        caches_extend(v, spec_void(v).1),
        caches_extend(v, spec_make_ref(v, b).1),
        caches_extend(v, spec_make_ptr(v, b).1),
        caches_extend(v, spec_make_array(v, b).1),
        caches_extend(v, spec_make_function(v, f).1),
        caches_extend(v, w) && caches_extend(w, u) ==> caches_extend(v, u),
{
    if caches_extend(v, w) && caches_extend(w, u) {
        assert forall|k: usize| #[trigger] v.refs.contains_key(k) implies u.refs.contains_key(k) && u.refs[k] == v.refs[k] by {
            assert(w.refs.contains_key(k));
        }
        assert forall|k: usize| #[trigger] v.ptrs.contains_key(k) implies u.ptrs.contains_key(k) && u.ptrs[k] == v.ptrs[k] by {
            assert(w.ptrs.contains_key(k));
        }
        assert forall|k: usize| #[trigger] v.arrays.contains_key(k) implies u.arrays.contains_key(k) && u.arrays[k] == v.arrays[k] by {
            assert(w.arrays.contains_key(k));
        }
    }
}

/// A name resolves to its innermost declaration: when scope `j` declares `name` and no
/// scope inside it (with a larger index) does, the lookup gives scope `j`'s declaration,
/// even when outer scopes declare the name too; when no scope declares it, nothing.
pub proof fn lemma_lookup_innermost(scopes: Seq<Map<Seq<char>, AstId>>, name: Seq<char>, j: int)
    ensures
        0 <= j < scopes.len() && scopes[j].contains_key(name) && (forall|k: int|
            j < k < scopes.len() ==> !(#[trigger] scopes[k]).contains_key(name)) ==> lookup(scopes, name) == Some(
            scopes[j][name],
        ),
        (forall|k: int| 0 <= k < scopes.len() ==> !(#[trigger] scopes[k]).contains_key(name)) ==> lookup(scopes, name)
            is None,
    decreases scopes.len(),
{
    if scopes.len() > 0 {
        let inner = scopes.drop_last();
        lemma_lookup_innermost(inner, name, j);
        if 0 <= j < scopes.len() && scopes[j].contains_key(name) && (forall|k: int|
            j < k < scopes.len() ==> !(#[trigger] scopes[k]).contains_key(name)) {
            if j < scopes.len() - 1 {
                assert(!scopes[scopes.len() - 1].contains_key(name));
                assert forall|k: int| j < k < inner.len() implies !(#[trigger] inner[k]).contains_key(name) by {
                    assert(inner[k] == scopes[k]);
                }
                assert(inner[j] == scopes[j]);
            }
        }
        if forall|k: int| 0 <= k < scopes.len() ==> !(#[trigger] scopes[k]).contains_key(name) {
            assert(!scopes[scopes.len() - 1].contains_key(name));
            assert forall|k: int| 0 <= k < inner.len() implies !(#[trigger] inner[k]).contains_key(name) by {
                assert(inner[k] == scopes[k]);
            }
        }
    }
}

/// A use of a single name records, for the use's node id, the declaration of the innermost
/// scope that declares the name, and keeps nothing for the end; a use whose name no scope
/// declares records nothing and is kept for the end.
pub proof fn lemma_var_use_innermost(s: VarState, v: VarExpr, j: int)
    requires
        segment_names(v.path.data).len() == 1,
    ensures
        ({
            let name = segment_names(v.path.data)[0];
            0 <= j < s.scopes.len() && s.scopes[j].contains_key(name) && (forall|k: int|
                j < k < s.scopes.len() ==> !(#[trigger] s.scopes[k]).contains_key(name)) ==> vr_var(s, v) == VarState {
                variables: s.variables.insert(v.id.0, s.scopes[j][name]),
                ..s
            }
        }),
        ({
            let name = segment_names(v.path.data)[0];
            (forall|k: int| 0 <= k < s.scopes.len() ==> !(#[trigger] s.scopes[k]).contains_key(name)) ==> vr_var(s, v)
                == VarState { unknown: s.unknown.push(v.path), ..s }
        }),
{
    lemma_lookup_innermost(s.scopes, segment_names(v.path.data)[0], j);
}

/// The parameter types of a function come in parameter order, after those already
/// gathered: one per parameter, the `i`-th being the resolution of the `i`-th parameter's
/// declared type, in the state that resolving the parameters before it left.
pub proof fn lemma_param_types_in_order(s: Resolution, params: Seq<DeclarationExpr>, acc: Seq<TypeId>)
    ensures
        tr_param_types(s, params, acc).0.len() == acc.len() + params.len(),
        forall|i: int| 0 <= i < acc.len() ==> #[trigger] tr_param_types(s, params, acc).0[i] == acc[i],
        forall|i: int|
            0 <= i < params.len() ==> #[trigger] tr_param_types(s, params, acc).0[acc.len() + i] == tr_resolve_type(
                tr_param_types(s, params.take(i), acc).1,
                params[i].declaration_type,
            ).0,
    decreases params.len(),
{
    if params.len() > 0 {
        let (id, s1) = tr_resolve_type(s, params[0].declaration_type);
        let rest = params.drop_first();
        lemma_param_types_in_order(s1, rest, acc.push(id));
        let r = tr_param_types(s, params, acc).0;
        assert(r == tr_param_types(s1, rest, acc.push(id)).0);
        assert forall|i: int| 0 <= i < acc.len() implies #[trigger] r[i] == acc[i] by {
            assert(r[i] == acc.push(id)[i]);
        }
        assert forall|i: int| 0 <= i < params.len() implies #[trigger] r[acc.len() + i] == tr_resolve_type(
            tr_param_types(s, params.take(i), acc).1,
            params[i].declaration_type,
        ).0 by {
            if i == 0 {
                assert(params.take(0).len() == 0);
                assert(r[acc.len() as int] == acc.push(id)[acc.len() as int]);
            } else {
                let i1 = i - 1;
                assert(params.take(i).drop_first() =~= rest.take(i1));
                assert(params.take(i)[0] == params[0]);
                assert(tr_param_types(s, params.take(i), acc) == tr_param_types(s1, rest.take(i1), acc.push(id)));
                assert(rest[i1] == params[i]);
                assert(r[acc.push(id).len() + i1] == r[acc.len() + i]);
            }
        }
    }
}

/// A function's type has one parameter type per parameter, in parameter order: the `i`-th
/// is the resolution of the `i`-th parameter's declared type.
pub proof fn lemma_function_type_params(s: Resolution, f: FunctionItem)
    ensures
        tr_fn_type(s, f).0.param_types.len() == f.parameters.to_seq().len(),
        forall|i: int|
            0 <= i < f.parameters.to_seq().len() ==> #[trigger] tr_fn_type(s, f).0.param_types[i] == tr_resolve_type(
                tr_param_types(s, f.parameters.to_seq().take(i), Seq::empty()).1,
                f.parameters.to_seq()[i].declaration_type,
            ).0,
{
    let params = f.parameters.to_seq();
    lemma_param_types_in_order(s, params, Seq::empty());
    assert forall|i: int| 0 <= i < params.len() implies #[trigger] tr_fn_type(s, f).0.param_types[i] == tr_resolve_type(
        tr_param_types(s, params.take(i), Seq::empty()).1,
        params[i].declaration_type,
    ).0 by {
        assert(tr_fn_type(s, f).0.param_types[i] == tr_param_types(s, params, Seq::empty()).0[0 + i]);
    }
}

/// A declaration enters the innermost scope, after its initializer is resolved: if that
/// scope does not declare the name yet, the name then refers to this declaration (whatever
/// outer scopes declare) and nothing is reported; if it does, the scopes stay as they were
/// and a duplicate is reported where the declaration stands. Either way the declaration's
/// resolved type is recorded under its node id.
pub proof fn lemma_declaration_enters_innermost(types: Map<Seq<char>, TypeId>, s: VarState, d: DeclarationExpr)
    ensures
        ({
            let s1 = vr_opt(types, s, d.expr);
            let r = vr_decl(types, s, d);
            let name = d.identifier.data@;
            s1.scopes.len() > 0 ==> {
                &&& !s1.scopes.last().contains_key(name) ==> lookup(r.scopes, name) == Some(d.id) && r.scopes.len()
                    == s1.scopes.len() && r.diags == s1.diags
                &&& s1.scopes.last().contains_key(name) ==> r.scopes == s1.scopes && r.diags == s1.diags.push(
                    duplicate_at(name, d.position),
                )
                &&& r.declaration_types.contains_key(d.id.0)
                &&& spec_resolve_type(types, s1.arena, d.declaration_type).0 is Some ==> spec_resolve_type(
                    types,
                    s1.arena,
                    d.declaration_type,
                ).0 == Some(r.declaration_types[d.id.0])
            }
        }),
{
    let s1 = vr_opt(types, s, d.expr);
    let r = vr_decl(types, s, d);
    let name = d.identifier.data@;
    if s1.scopes.len() > 0 && !s1.scopes.last().contains_key(name) {
        assert(r.scopes.last() == s1.scopes.last().insert(name, d.id));
        lemma_lookup_innermost(r.scopes, name, r.scopes.len() - 1);
    }
}

/// Each member of a struct is recorded under its name with the resolution of its own
/// declared type (in the state the members before it left); where a name is written twice
/// the later member wins; names of no member keep what they had.
pub proof fn lemma_members_by_name(
    s: Resolution,
    ms: Seq<(ParsedType, Located<String>)>,
    members: Map<Seq<char>, TypeId>,
)
    ensures
        forall|n: Seq<char>| #![trigger tr_members(s, ms, members).0.contains_key(n)]
            (forall|j: int| 0 <= j < ms.len() ==> (#[trigger] ms[j]).1.data@ != n) ==> (tr_members(s, ms, members).0.contains_key(n)
                == members.contains_key(n) && (members.contains_key(n) ==> tr_members(s, ms, members).0[n] == members[n])),
        forall|i: int|
            0 <= i < ms.len() && (forall|j: int| i < j < ms.len() ==> (#[trigger] ms[j]).1.data@ != ms[i].1.data@) ==> {
                &&& tr_members(s, ms, members).0.contains_key(#[trigger] ms[i].1.data@)
                &&& tr_members(s, ms, members).0[ms[i].1.data@] == tr_resolve_type(
                    tr_members(s, ms.take(i), members).1,
                    ms[i].0,
                ).0
            },
    decreases ms.len(),
{
    if ms.len() > 0 {
        let (id, s1) = tr_resolve_type(s, ms[0].0);
        let rest = ms.drop_first();
        let m1 = members.insert(ms[0].1.data@, id);
        lemma_members_by_name(s1, rest, m1);
        let r = tr_members(s, ms, members).0;
        assert(r == tr_members(s1, rest, m1).0);
        assert forall|n: Seq<char>|
            (forall|j: int| 0 <= j < ms.len() ==> (#[trigger] ms[j]).1.data@ != n) implies (r.contains_key(n)
                == members.contains_key(n) && (members.contains_key(n) ==> r[n] == members[n])) by {
            assert(ms[0].1.data@ != n);
            assert forall|j: int| 0 <= j < rest.len() implies (#[trigger] rest[j]).1.data@ != n by {
                assert(rest[j] == ms[j + 1]);
            }
            assert(tr_members(s1, rest, m1).0.contains_key(n) == m1.contains_key(n));
            assert(m1.contains_key(n) ==> tr_members(s1, rest, m1).0[n] == m1[n]);
        }
        assert forall|i: int|
            0 <= i < ms.len() && (forall|j: int| i < j < ms.len() ==> (#[trigger] ms[j]).1.data@ != ms[i].1.data@) implies {
                &&& r.contains_key(#[trigger] ms[i].1.data@)
                &&& r[ms[i].1.data@] == tr_resolve_type(tr_members(s, ms.take(i), members).1, ms[i].0).0
            } by {
            if i == 0 {
                let n = ms[0].1.data@;
                assert forall|j: int| 0 <= j < rest.len() implies (#[trigger] rest[j]).1.data@ != n by {
                    assert(rest[j] == ms[j + 1]);
                }
                assert(tr_members(s1, rest, m1).0.contains_key(n) == m1.contains_key(n));
                assert(tr_members(s1, rest, m1).0[n] == m1[n]);
                assert(ms.take(0) =~= Seq::<(ParsedType, Located<String>)>::empty());
                assert(tr_members(s, ms.take(0), members) == (members, s));
            } else {
                let i1 = i - 1;
                assert(rest[i1] == ms[i]);
                assert forall|j: int| i1 < j < rest.len() implies (#[trigger] rest[j]).1.data@ != rest[i1].1.data@ by {
                    assert(rest[j] == ms[j + 1]);
                }
                assert(ms.take(i).drop_first() =~= rest.take(i1));
                assert(ms.take(i)[0] == ms[0]);
                assert(tr_members(s, ms.take(i), members) == tr_members(s1, rest.take(i1), m1));
                assert(tr_members(s1, rest, m1).0.contains_key(rest[i1].1.data@));
                assert(tr_members(s1, rest, m1).0[rest[i1].1.data@] == tr_resolve_type(
                    tr_members(s1, rest.take(i1), m1).1,
                    rest[i1].0,
                ).0);
            }
        }
    }
}

/// A function enters the symbol table under its own name, with the id of its function
/// type; that type returns the resolution of the declared return type; the other names of
/// functions keep what they had.
pub proof fn lemma_function_entry(s: Resolution, f: FunctionItem)
    ensures
        ({
            let (ft, s1) = tr_fn_type(s, f);
            let r = tr_function(s, f);
            &&& r.functions.contains_key(f.name.data@)
            &&& r.functions[f.name.data@] == spec_make_function(s1.arena, ft).0
            &&& ft.return_type == tr_resolve_type(
                tr_param_types(s, f.parameters.to_seq(), Seq::empty()).1,
                f.return_type,
            ).0
            &&& forall|n: Seq<char>| n != f.name.data@ ==> (#[trigger] r.functions.contains_key(n) == s1.functions.contains_key(n)
                && (s1.functions.contains_key(n) ==> r.functions[n] == s1.functions[n]))
        }),
{
}

} // verus!
