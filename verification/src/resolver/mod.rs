//! Resolved types: the arena that interns them, and the symbol table of a scope that maps
//! names to them.
use vstd::prelude::*;

use std::collections::{HashMap, HashSet};
use vstd::hash_map::StringHashMap;
use vstd::hash_set::StringHashSet;

use crate::ast::{AstId, ParsedType, ParsedTypeEnum};
use crate::diagnostic::{debug_quoted, debug_str_text, unknown_type_name_at, unknown_type_name_error, Diagnostic, DiagnosticView};
use crate::token::PositionRange;

pub mod type_resolver;
pub mod var_resolver;
pub mod laws;

use laws::{lemma_empty_arena_ids_distinct, lemma_ops_keep_ids_distinct};

pub use type_resolver::TypeResolver;
pub use var_resolver::VarResolver;

verus! {

/// The index of a type in a type arena.
#[derive(Clone, Copy, Debug, PartialEq, Eq, Structural, Hash)]
pub struct TypeId(pub usize);

/// The type of a function: its parameter types and its return type.
pub struct FunctionType {
    pub param_types: Vec<TypeId>,
    pub return_type: TypeId,
}

/// The mathematical value of a function type.
pub struct FunctionTypeView {
    pub param_types: Seq<TypeId>,
    pub return_type: TypeId,
}

impl View for FunctionType {
    type V = FunctionTypeView;

    open spec fn view(&self) -> FunctionTypeView {
        FunctionTypeView { param_types: self.param_types@, return_type: self.return_type }
    }
}

impl Clone for FunctionType {
    fn clone(&self) -> (r: FunctionType)
        ensures
            r@ == self@,
    {
        let mut param_types: Vec<TypeId> = Vec::new();
        let mut i: usize = 0;
        while i < self.param_types.len()
            invariant
                i <= self.param_types@.len(),
                param_types@ == self.param_types@.subrange(0, i as int),
            decreases self.param_types@.len() - i,
        {
            param_types.push(self.param_types[i]);
            i = i + 1;
        }
        assert(param_types@ =~= self.param_types@);
        FunctionType { param_types, return_type: self.return_type }
    }
}

/// Whether two function types are the same.
pub fn same_function_type(a: &FunctionType, b: &FunctionType) -> (r: bool)
    ensures
        r == (a@ == b@),
{
    if a.return_type.0 != b.return_type.0 || a.param_types.len() != b.param_types.len() {
        return false;
    }
    let mut i: usize = 0;
    while i < a.param_types.len()
        invariant
            a.param_types@.len() == b.param_types@.len(),
            i <= a.param_types@.len(),
            a.return_type == b.return_type,
            forall|j: int| 0 <= j < i ==> a.param_types@[j] == b.param_types@[j],
        decreases a.param_types@.len() - i,
    {
        if a.param_types[i].0 != b.param_types[i].0 {
            return false;
        }
        i = i + 1;
    }
    assert(a.param_types@ =~= b.param_types@);
    true
}

/// A struct type: its name, its members (fields and methods) by name, and the set of the
/// types of its constructors, each by the number of its id.
pub struct StructType {
    pub name: String,
    pub members: StringHashMap<TypeId>,
    pub constructors: HashSet<usize>,
}

/// The mathematical value of a struct type.
pub struct StructTypeView {
    pub name: Seq<char>,
    pub members: Map<Seq<char>, TypeId>,
    pub constructors: Set<usize>,
}

impl View for StructType {
    type V = StructTypeView;

    open spec fn view(&self) -> StructTypeView {
        StructTypeView { name: self.name@, members: self.members@, constructors: self.constructors@ }
    }
}

/// A type after resolution; composite types refer to their parts by their ids.
pub enum ResolvedType {
    Integer,
    Double,
    Boolean,
    Char,
    Void,
    Struct(StructType),
    Pointer(TypeId),
    Reference(TypeId),
    Array(TypeId),
    Function(FunctionType),
}

/// The mathematical value of a resolved type.
pub enum ResolvedTypeView {
    Integer,
    Double,
    Boolean,
    Char,
    Void,
    Struct(StructTypeView),
    Pointer(TypeId),
    Reference(TypeId),
    Array(TypeId),
    Function(FunctionTypeView),
}

impl View for ResolvedType {
    type V = ResolvedTypeView;

    open spec fn view(&self) -> ResolvedTypeView {
        match self {
            ResolvedType::Integer => ResolvedTypeView::Integer,
            ResolvedType::Double => ResolvedTypeView::Double,
            ResolvedType::Boolean => ResolvedTypeView::Boolean,
            ResolvedType::Char => ResolvedTypeView::Char,
            ResolvedType::Void => ResolvedTypeView::Void,
            ResolvedType::Struct(s) => ResolvedTypeView::Struct(s@),
            ResolvedType::Pointer(t) => ResolvedTypeView::Pointer(*t),
            ResolvedType::Reference(t) => ResolvedTypeView::Reference(*t),
            ResolvedType::Array(t) => ResolvedTypeView::Array(*t),
            ResolvedType::Function(f) => ResolvedTypeView::Function(f@),
        }
    }
}

/// The mathematical value of a type arena: its slots (a reserved slot holds no type yet),
/// the ids interned for the reference, pointer and array types of each type id, the
/// interned function types, and the ids of the basic types once they exist.
pub struct TypeArenaView {
    pub types: Seq<Option<ResolvedTypeView>>,
    pub refs: Map<usize, TypeId>,
    pub ptrs: Map<usize, TypeId>,
    pub arrays: Map<usize, TypeId>,
    pub functions: Seq<(FunctionTypeView, TypeId)>,
    pub int_id: Option<TypeId>,
    pub double_id: Option<TypeId>,
    pub bool_id: Option<TypeId>,
    pub char_id: Option<TypeId>,
    pub void_id: Option<TypeId>,
}

/// The id that the next slot of an arena gets.
pub open spec fn next_id(v: TypeArenaView) -> TypeId {
    TypeId(v.types.len() as usize)
}

/// An arena with one more slot, holding `t`.
pub open spec fn with_slot(v: TypeArenaView, t: Option<ResolvedTypeView>) -> TypeArenaView {
    TypeArenaView { types: v.types.push(t), ..v }
}

/// `insert`: the type goes into a new slot.
pub open spec fn spec_insert(v: TypeArenaView, t: ResolvedTypeView) -> (TypeId, TypeArenaView) {
    (next_id(v), with_slot(v, Some(t)))
}

/// `integer`: the id of the integer type, made on first use.
pub open spec fn spec_int(v: TypeArenaView) -> (TypeId, TypeArenaView) {
    match v.int_id {
        Some(id) => (id, v),
        None => (next_id(v), TypeArenaView { int_id: Some(next_id(v)), ..with_slot(v, Some(ResolvedTypeView::Integer)) }),
    }
}

/// `double`: the id of the double type, made on first use.
pub open spec fn spec_double(v: TypeArenaView) -> (TypeId, TypeArenaView) {
    match v.double_id {
        Some(id) => (id, v),
        None => (next_id(v), TypeArenaView { double_id: Some(next_id(v)), ..with_slot(v, Some(ResolvedTypeView::Double)) }),
    }
}

/// `bool`: the id of the boolean type, made on first use.
pub open spec fn spec_bool(v: TypeArenaView) -> (TypeId, TypeArenaView) {
    match v.bool_id {
        Some(id) => (id, v),
        None => (next_id(v), TypeArenaView { bool_id: Some(next_id(v)), ..with_slot(v, Some(ResolvedTypeView::Boolean)) }),
    }
}

/// `char`: the id of the char type, made on first use.
pub open spec fn spec_char(v: TypeArenaView) -> (TypeId, TypeArenaView) {
    match v.char_id {
        Some(id) => (id, v),
        None => (next_id(v), TypeArenaView { char_id: Some(next_id(v)), ..with_slot(v, Some(ResolvedTypeView::Char)) }),
    }
}

/// `void`: the id of the void type, made on first use.
pub open spec fn spec_void(v: TypeArenaView) -> (TypeId, TypeArenaView) {
    match v.void_id {
        Some(id) => (id, v),
        None => (next_id(v), TypeArenaView { void_id: Some(next_id(v)), ..with_slot(v, Some(ResolvedTypeView::Void)) }),
    }
}

/// `make_ref`: the id of the reference type to `t`, made on first use.
pub open spec fn spec_make_ref(v: TypeArenaView, t: TypeId) -> (TypeId, TypeArenaView) {
    if v.refs.contains_key(t.0) {
        (v.refs[t.0], v)
    } else {
        (next_id(v), TypeArenaView { refs: v.refs.insert(t.0, next_id(v)), ..with_slot(v, Some(ResolvedTypeView::Reference(t))) })
    }
}

/// `make_ptr`: the id of the pointer type to `t`, made on first use.
pub open spec fn spec_make_ptr(v: TypeArenaView, t: TypeId) -> (TypeId, TypeArenaView) {
    if v.ptrs.contains_key(t.0) {
        (v.ptrs[t.0], v)
    } else {
        (next_id(v), TypeArenaView { ptrs: v.ptrs.insert(t.0, next_id(v)), ..with_slot(v, Some(ResolvedTypeView::Pointer(t))) })
    }
}

/// `make_array`: the id of the array type of `t`, made on first use.
pub open spec fn spec_make_array(v: TypeArenaView, t: TypeId) -> (TypeId, TypeArenaView) {
    if v.arrays.contains_key(t.0) {
        (v.arrays[t.0], v)
    } else {
        (next_id(v), TypeArenaView { arrays: v.arrays.insert(t.0, next_id(v)), ..with_slot(v, Some(ResolvedTypeView::Array(t))) })
    }
}

/// The id interned for the function type `f` among the entries of `fs` from index `i` on,
/// the first that matches.
pub open spec fn find_function(fs: Seq<(FunctionTypeView, TypeId)>, f: FunctionTypeView, i: int) -> Option<TypeId>
    decreases fs.len() - i,
{
    if i < 0 || i >= fs.len() {
        None
    } else if fs[i].0 == f {
        Some(fs[i].1)
    } else {
        find_function(fs, f, i + 1)
    }
}

/// `make_function`: the id of the function type `f`, made on first use.
pub open spec fn spec_make_function(v: TypeArenaView, f: FunctionTypeView) -> (TypeId, TypeArenaView) {
    match find_function(v.functions, f, 0) {
        Some(id) => (id, v),
        None => (
            next_id(v),
            TypeArenaView {
                functions: v.functions.push((f, next_id(v))),
                ..with_slot(v, Some(ResolvedTypeView::Function(f)))
            },
        ),
    }
}

/// Whether the id `id` names a slot of the arena that holds `t`.
pub open spec fn holds(v: TypeArenaView, id: TypeId, t: ResolvedTypeView) -> bool {
    id.0 < v.types.len() && v.types[id.0 as int] == Some(t)
}

/// Whether every id that the arena has interned names a slot that holds the type it was
/// interned for.
pub open spec fn consistent(v: TypeArenaView) -> bool {
    &&& (v.int_id matches Some(id) ==> holds(v, id, ResolvedTypeView::Integer))
    &&& (v.double_id matches Some(id) ==> holds(v, id, ResolvedTypeView::Double))
    &&& (v.bool_id matches Some(id) ==> holds(v, id, ResolvedTypeView::Boolean))
    &&& (v.char_id matches Some(id) ==> holds(v, id, ResolvedTypeView::Char))
    &&& (v.void_id matches Some(id) ==> holds(v, id, ResolvedTypeView::Void))
    &&& forall|k: usize| #[trigger]
        v.refs.contains_key(k) ==> holds(v, v.refs[k], ResolvedTypeView::Reference(TypeId(k)))
    &&& forall|k: usize| #[trigger]
        v.ptrs.contains_key(k) ==> holds(v, v.ptrs[k], ResolvedTypeView::Pointer(TypeId(k)))
    &&& forall|k: usize| #[trigger]
        v.arrays.contains_key(k) ==> holds(v, v.arrays[k], ResolvedTypeView::Array(TypeId(k)))
    &&& forall|i: int|
        0 <= i < v.functions.len() ==> holds(
            v,
            #[trigger] v.functions[i].1,
            ResolvedTypeView::Function(v.functions[i].0),
        )
}

/// What an arena interns a type by: one of the basic types, the base type of a reference,
/// pointer or array type (by the number of its id), or a function type.
pub enum InternKey {
    Integer,
    Double,
    Boolean,
    Char,
    Void,
    Reference(usize),
    Pointer(usize),
    Array(usize),
    Function(FunctionTypeView),
}

/// The id under which the arena has interned the type of key `k`, if it has.
pub open spec fn interned(v: TypeArenaView, k: InternKey) -> Option<TypeId> {
    match k {
        InternKey::Integer => v.int_id,
        InternKey::Double => v.double_id,
        InternKey::Boolean => v.bool_id,
        InternKey::Char => v.char_id,
        InternKey::Void => v.void_id,
        InternKey::Reference(b) => if v.refs.contains_key(b) { Some(v.refs[b]) } else { None },
        InternKey::Pointer(b) => if v.ptrs.contains_key(b) { Some(v.ptrs[b]) } else { None },
        InternKey::Array(b) => if v.arrays.contains_key(b) { Some(v.arrays[b]) } else { None },
        InternKey::Function(f) => find_function(v.functions, f, 0),
    }
}

/// Every id the arena has interned names one of its slots, and no two keys share an id.
pub open spec fn ids_distinct(v: TypeArenaView) -> bool {
    &&& forall|k: InternKey| #[trigger] interned(v, k) is Some ==> interned(v, k)->Some_0.0 < v.types.len()
    &&& forall|k1: InternKey, k2: InternKey|
        #[trigger] interned(v, k1) is Some && interned(v, k1) == #[trigger] interned(v, k2) ==> k1 == k2
}

/// The arena with no slot and nothing interned.
pub open spec fn empty_arena() -> TypeArenaView {
    TypeArenaView {
        types: Seq::empty(),
        refs: Map::empty(),
        ptrs: Map::empty(),
        arrays: Map::empty(),
        functions: Seq::empty(),
        int_id: None,
        double_id: None,
        bool_id: None,
        char_id: None,
        void_id: None,
    }
}

/// The arena in which every type is stored once and referred to by its id.
pub struct TypeArena {
    types: Vec<Option<ResolvedType>>,
    ref_ids: HashMap<usize, TypeId>,
    ptr_ids: HashMap<usize, TypeId>,
    array_ids: HashMap<usize, TypeId>,
    function_ids: Vec<(FunctionType, TypeId)>,
    int_type_id: Option<TypeId>,
    double_type_id: Option<TypeId>,
    bool_type_id: Option<TypeId>,
    char_type_id: Option<TypeId>,
    void_type_id: Option<TypeId>,
}

/// The mathematical value of an arena slot.
pub open spec fn slot_view(o: Option<ResolvedType>) -> Option<ResolvedTypeView> {
    match o {
        Some(t) => Some(t@),
        None => None,
    }
}

/// The mathematical value of an interned function type.
pub open spec fn entry_view(e: (FunctionType, TypeId)) -> (FunctionTypeView, TypeId) {
    (e.0@, e.1)
}

impl View for TypeArena {
    type V = TypeArenaView;

    closed spec fn view(&self) -> TypeArenaView {
        TypeArenaView {
            types: self.types@.map_values(|o: Option<ResolvedType>| slot_view(o)),
            refs: self.ref_ids@,
            ptrs: self.ptr_ids@,
            arrays: self.array_ids@,
            functions: self.function_ids@.map_values(|e: (FunctionType, TypeId)| entry_view(e)),
            int_id: self.int_type_id,
            double_id: self.double_type_id,
            bool_id: self.bool_type_id,
            char_id: self.char_type_id,
            void_id: self.void_type_id,
        }
    }
}

impl TypeArena {
    /// The arena is well formed: no two interned types share an id, and every interned id
    /// names a slot. A new arena is, and every operation keeps it so.
    pub open spec fn wf(&self) -> bool {
        ids_distinct(self@)
    }

    /// An empty arena.
    pub fn new() -> (a: TypeArena)
        ensures
            a@ == empty_arena(),
            a.wf(),
    {
        let a = TypeArena {
            types: Vec::new(),
            ref_ids: HashMap::new(),
            ptr_ids: HashMap::new(),
            array_ids: HashMap::new(),
            function_ids: Vec::new(),
            int_type_id: None,
            double_type_id: None,
            bool_type_id: None,
            char_type_id: None,
            void_type_id: None,
        };
        proof {
            assert(a@.types =~= Seq::<Option<ResolvedTypeView>>::empty());
            assert(a@.functions =~= Seq::<(FunctionTypeView, TypeId)>::empty());
            lemma_empty_arena_ids_distinct();
        }
        a
    }

    /// Puts a type into a new slot and gives its id.
    pub fn insert(&mut self, resolved_type: ResolvedType) -> (id: TypeId)
        ensures
            (id, final(self)@) == spec_insert(old(self)@, resolved_type@),
            old(self).wf() ==> final(self).wf(),
    {
        proof {
            assert(self@.types.len() == self.types.len());
            if self.wf() {
                lemma_ops_keep_ids_distinct(self@, resolved_type@, TypeId(0), TypeId(0), FunctionTypeView { param_types: Seq::empty(), return_type: TypeId(0) });
            }
        }
        let ghost t = resolved_type@;
        let type_id = TypeId(self.types.len());
        self.types.push(Some(resolved_type));
        proof {
            assert(self@.types =~= old(self)@.types.push(Some(t)));
        }
        type_id
    }

    /// Adds an empty slot, to be filled later by `set_type`, and gives its id.
    pub fn reserve(&mut self) -> (id: TypeId)
        ensures
            id == next_id(old(self)@),
            final(self)@ == with_slot(old(self)@, None),
            old(self).wf() ==> final(self).wf(),
    {
        proof {
            assert(self@.types.len() == self.types.len());
            if self.wf() {
                lemma_ops_keep_ids_distinct(self@, ResolvedTypeView::Void, TypeId(0), TypeId(0), FunctionTypeView { param_types: Seq::empty(), return_type: TypeId(0) });
            }
        }
        let type_id = TypeId(self.types.len());
        self.types.push(None);
        proof {
            assert(self@.types =~= old(self)@.types.push(None));
        }
        type_id
    }

    /// Puts a type into the slot with the given id.
    pub fn set_type(&mut self, type_id: &TypeId, resolved_type: ResolvedType)
        requires
            type_id.0 < old(self)@.types.len(),
        ensures
            final(self)@ == (TypeArenaView {
                types: old(self)@.types.update(type_id.0 as int, Some(resolved_type@)),
                ..old(self)@
            }),
            old(self).wf() ==> final(self).wf(),
    {
        proof {
            assert(self@.types.len() == self.types.len());
            if self.wf() {
                lemma_ops_keep_ids_distinct(self@, resolved_type@, *type_id, TypeId(0), FunctionTypeView { param_types: Seq::empty(), return_type: TypeId(0) });
            }
        }
        let ghost t = resolved_type@;
        self.types.set(type_id.0, Some(resolved_type));
        proof {
            assert(self@.types =~= old(self)@.types.update(type_id.0 as int, Some(t)));
        }
    }

    /// The type in the slot with the given id.
    pub fn get(&self, type_id: &TypeId) -> (t: &ResolvedType)
        requires
            type_id.0 < self@.types.len(),
            self@.types[type_id.0 as int] is Some,
        ensures
            Some(t@) == self@.types[type_id.0 as int],
    {
        self.types[type_id.0].as_ref().unwrap()
    }

    /// The id of the integer type.
    pub fn integer(&mut self) -> (id: TypeId)
        ensures
            (id, final(self)@) == spec_int(old(self)@),
            old(self).wf() ==> final(self).wf(),
    {
        proof {
            assert(self@.types.len() == self.types.len());
            if self.wf() {
                lemma_ops_keep_ids_distinct(self@, ResolvedTypeView::Void, TypeId(0), TypeId(0), FunctionTypeView { param_types: Seq::empty(), return_type: TypeId(0) });
            }
        }
        match self.int_type_id {
            Some(id) => id,
            None => {
                let id = self.insert(ResolvedType::Integer);
                self.int_type_id = Some(id);
                id
            },
        }
    }

    /// The id of the double type.
    pub fn double(&mut self) -> (id: TypeId)
        ensures
            (id, final(self)@) == spec_double(old(self)@),
            old(self).wf() ==> final(self).wf(),
    {
        proof {
            assert(self@.types.len() == self.types.len());
            if self.wf() {
                lemma_ops_keep_ids_distinct(self@, ResolvedTypeView::Void, TypeId(0), TypeId(0), FunctionTypeView { param_types: Seq::empty(), return_type: TypeId(0) });
            }
        }
        match self.double_type_id {
            Some(id) => id,
            None => {
                let id = self.insert(ResolvedType::Double);
                self.double_type_id = Some(id);
                id
            },
        }
    }

    /// The id of the boolean type.
    pub fn bool(&mut self) -> (id: TypeId)
        ensures
            (id, final(self)@) == spec_bool(old(self)@),
            old(self).wf() ==> final(self).wf(),
    {
        proof {
            assert(self@.types.len() == self.types.len());
            if self.wf() {
                lemma_ops_keep_ids_distinct(self@, ResolvedTypeView::Void, TypeId(0), TypeId(0), FunctionTypeView { param_types: Seq::empty(), return_type: TypeId(0) });
            }
        }
        match self.bool_type_id {
            Some(id) => id,
            None => {
                let id = self.insert(ResolvedType::Boolean);
                self.bool_type_id = Some(id);
                id
            },
        }
    }

    /// The id of the char type.
    pub fn char(&mut self) -> (id: TypeId)
        ensures
            (id, final(self)@) == spec_char(old(self)@),
            old(self).wf() ==> final(self).wf(),
    {
        proof {
            assert(self@.types.len() == self.types.len());
            if self.wf() {
                lemma_ops_keep_ids_distinct(self@, ResolvedTypeView::Void, TypeId(0), TypeId(0), FunctionTypeView { param_types: Seq::empty(), return_type: TypeId(0) });
            }
        }
        match self.char_type_id {
            Some(id) => id,
            None => {
                let id = self.insert(ResolvedType::Char);
                self.char_type_id = Some(id);
                id
            },
        }
    }

    /// The id of the void type.
    pub fn void(&mut self) -> (id: TypeId)
        ensures
            (id, final(self)@) == spec_void(old(self)@),
            old(self).wf() ==> final(self).wf(),
    {
        proof {
            assert(self@.types.len() == self.types.len());
            if self.wf() {
                lemma_ops_keep_ids_distinct(self@, ResolvedTypeView::Void, TypeId(0), TypeId(0), FunctionTypeView { param_types: Seq::empty(), return_type: TypeId(0) });
            }
        }
        match self.void_type_id {
            Some(id) => id,
            None => {
                let id = self.insert(ResolvedType::Void);
                self.void_type_id = Some(id);
                id
            },
        }
    }

    /// The id of the reference type to the type `type_id`.
    pub fn make_ref(&mut self, type_id: TypeId) -> (id: TypeId)
        ensures
            (id, final(self)@) == spec_make_ref(old(self)@, type_id),
            old(self).wf() ==> final(self).wf(),
    {
        proof {
            assert(self@.types.len() == self.types.len());
            if self.wf() {
                lemma_ops_keep_ids_distinct(self@, ResolvedTypeView::Void, TypeId(0), type_id, FunctionTypeView { param_types: Seq::empty(), return_type: TypeId(0) });
            }
        }
        match self.ref_ids.get(&type_id.0) {
            Some(ref_id) => {
                return *ref_id;
            },
            None => {},
        }
        let ref_id = self.insert(ResolvedType::Reference(type_id));
        self.ref_ids.insert(type_id.0, ref_id);
        ref_id
    }

    /// The id of the pointer type to the type `type_id`.
    pub fn make_ptr(&mut self, type_id: TypeId) -> (id: TypeId)
        ensures
            (id, final(self)@) == spec_make_ptr(old(self)@, type_id),
            old(self).wf() ==> final(self).wf(),
    {
        proof {
            assert(self@.types.len() == self.types.len());
            if self.wf() {
                lemma_ops_keep_ids_distinct(self@, ResolvedTypeView::Void, TypeId(0), type_id, FunctionTypeView { param_types: Seq::empty(), return_type: TypeId(0) });
            }
        }
        match self.ptr_ids.get(&type_id.0) {
            Some(ptr_id) => {
                return *ptr_id;
            },
            None => {},
        }
        let ptr_id = self.insert(ResolvedType::Pointer(type_id));
        self.ptr_ids.insert(type_id.0, ptr_id);
        ptr_id
    }

    /// The id of the array type of the type `type_id`.
    pub fn make_array(&mut self, type_id: TypeId) -> (id: TypeId)
        ensures
            (id, final(self)@) == spec_make_array(old(self)@, type_id),
            old(self).wf() ==> final(self).wf(),
    {
        proof {
            assert(self@.types.len() == self.types.len());
            if self.wf() {
                lemma_ops_keep_ids_distinct(self@, ResolvedTypeView::Void, TypeId(0), type_id, FunctionTypeView { param_types: Seq::empty(), return_type: TypeId(0) });
            }
        }
        match self.array_ids.get(&type_id.0) {
            Some(array_id) => {
                return *array_id;
            },
            None => {},
        }
        let array_id = self.insert(ResolvedType::Array(type_id));
        self.array_ids.insert(type_id.0, array_id);
        array_id
    }

    /// The id of the function type `function_type`.
    pub fn make_function(&mut self, function_type: FunctionType) -> (id: TypeId)
        ensures
            (id, final(self)@) == spec_make_function(old(self)@, function_type@),
            old(self).wf() ==> final(self).wf(),
    {
        proof {
            assert(self@.types.len() == self.types.len());
            if self.wf() {
                lemma_ops_keep_ids_distinct(self@, ResolvedTypeView::Void, TypeId(0), TypeId(0), function_type@);
            }
        }
        let mut i: usize = 0;
        while i < self.function_ids.len()
            invariant
                i <= self.function_ids@.len(),
                self@ == old(self)@,
                find_function(self@.functions, function_type@, i as int) == find_function(
                    self@.functions,
                    function_type@,
                    0,
                ),
            decreases self.function_ids@.len() - i,
        {
            if same_function_type(&self.function_ids[i].0, &function_type) {
                return self.function_ids[i].1;
            }
            i = i + 1;
        }
        let ghost f = function_type@;
        let function_id = self.insert(ResolvedType::Function(function_type.clone()));
        let ghost before = self.function_ids@;
        self.function_ids.push((function_type, function_id));
        proof {
            assert(self.function_ids@ == before.push((function_type, function_id)));
            assert(self@.functions =~= old(self)@.functions.push((f, function_id)));
        }
        function_id
    }
}

/// The symbol tables of all scopes, each under the path of its scope, and the arena that
/// they share.
pub struct GlobalSymbolTable {
    pub scopes: Vec<(Vec<String>, SymbolTable)>,
    pub type_arena: TypeArena,
}

/// Arenas built apart from each other.
pub struct GlobalTypeArena {
    pub partial_arenas: Vec<TypeArena>,
}

/// The symbol table of a scope: the types and functions it declares, by name; the names of
/// its functions; for each variable use the declaration it refers to; and the type of each
/// declaration. The last two are keyed by the number of the node id of the use or the
/// declaration.
pub struct SymbolTable {
    pub types: StringHashMap<TypeId>,
    pub functions: StringHashMap<TypeId>,
    pub function_names: StringHashSet,
    pub variables: HashMap<usize, AstId>,
    pub declaration_types: HashMap<usize, TypeId>,
}

/// What resolving a parsed type gives, with the type names of a scope: the id of the
/// resolved type and the arena after any type it needed was interned, or `None` (and the
/// arena as far as it got) where a type name is not known.
pub open spec fn spec_resolve_type(types: Map<Seq<char>, TypeId>, v: TypeArenaView, t: ParsedType) -> (
    Option<TypeId>,
    TypeArenaView,
)
    decreases t,
{
    match t.parsed_type {
        ParsedTypeEnum::Void => (Some(spec_void(v).0), spec_void(v).1),
        ParsedTypeEnum::Boolean => (Some(spec_bool(v).0), spec_bool(v).1),
        ParsedTypeEnum::Char => (Some(spec_char(v).0), spec_char(v).1),
        ParsedTypeEnum::Integer => (Some(spec_int(v).0), spec_int(v).1),
        ParsedTypeEnum::Double => (Some(spec_double(v).0), spec_double(v).1),
        ParsedTypeEnum::Array(inner) => match spec_resolve_type(types, v, *inner) {
            (Some(id), w) => (Some(spec_make_array(w, id).0), spec_make_array(w, id).1),
            (None, w) => (None, w),
        },
        ParsedTypeEnum::Pointer(inner) => match spec_resolve_type(types, v, *inner) {
            (Some(id), w) => (Some(spec_make_ptr(w, id).0), spec_make_ptr(w, id).1),
            (None, w) => (None, w),
        },
        ParsedTypeEnum::Reference(inner) => match spec_resolve_type(types, v, *inner) {
            (Some(id), w) => (Some(spec_make_ref(w, id).0), spec_make_ref(w, id).1),
            (None, w) => (None, w),
        },
        ParsedTypeEnum::TypeName(name) => if types.contains_key(name@) {
            (Some(types[name@]), v)
        } else {
            (None, v)
        },
    }
}

/// `b` has the function names, variable uses and declaration types of `a`: the parts of
/// a symbol table that the type resolution does not touch.
pub open spec fn records_unchanged(a: SymbolTable, b: SymbolTable) -> bool {
    &&& b.function_names_view() == a.function_names_view()
    &&& b.variables_view() == a.variables_view()
    &&& b.declaration_types_view() == a.declaration_types_view()
}

/// What resolving a parsed type with error reporting gives: the id of the resolved type, or
/// the error for the first type name (from the outside in) that the scope does not declare,
/// at that name's position; and the arena as far as it got.
pub open spec fn spec_get_resolved_type(types: Map<Seq<char>, TypeId>, v: TypeArenaView, t: ParsedType) -> (
    Result<TypeId, DiagnosticView>,
    TypeArenaView,
)
    decreases t,
{
    match t.parsed_type {
        ParsedTypeEnum::Void => (Ok(spec_void(v).0), spec_void(v).1),
        ParsedTypeEnum::Boolean => (Ok(spec_bool(v).0), spec_bool(v).1),
        ParsedTypeEnum::Char => (Ok(spec_char(v).0), spec_char(v).1),
        ParsedTypeEnum::Integer => (Ok(spec_int(v).0), spec_int(v).1),
        ParsedTypeEnum::Double => (Ok(spec_double(v).0), spec_double(v).1),
        ParsedTypeEnum::Array(inner) => match spec_get_resolved_type(types, v, *inner) {
            (Ok(id), w) => (Ok(spec_make_array(w, id).0), spec_make_array(w, id).1),
            (Err(d), w) => (Err(d), w),
        },
        ParsedTypeEnum::Pointer(inner) => match spec_get_resolved_type(types, v, *inner) {
            (Ok(id), w) => (Ok(spec_make_ptr(w, id).0), spec_make_ptr(w, id).1),
            (Err(d), w) => (Err(d), w),
        },
        ParsedTypeEnum::Reference(inner) => match spec_get_resolved_type(types, v, *inner) {
            (Ok(id), w) => (Ok(spec_make_ref(w, id).0), spec_make_ref(w, id).1),
            (Err(d), w) => (Err(d), w),
        },
        ParsedTypeEnum::TypeName(name) => if types.contains_key(name@) {
            (Ok(types[name@]), v)
        } else {
            (Err(unknown_type_name_at(debug_str_text(name@), t.position)), v)
        },
    }
}

impl SymbolTable {
    /// The names of the functions of the scope.
    pub open spec fn function_names_view(&self) -> Set<Seq<char>> {
        self.function_names@
    }

    /// For each variable use, by the number of its node id, the declaration it refers to.
    pub open spec fn variables_view(&self) -> Map<usize, AstId> {
        self.variables@
    }

    /// The type of each declaration, by the number of its node id.
    pub open spec fn declaration_types_view(&self) -> Map<usize, TypeId> {
        self.declaration_types@
    }

    /// An empty symbol table.
    pub fn new() -> (t: SymbolTable)
        ensures
            t.types@ == Map::<Seq<char>, TypeId>::empty(),
            t.functions@ == Map::<Seq<char>, TypeId>::empty(),
            t.function_names_view() == Set::<Seq<char>>::empty(),
            t.variables_view() == Map::<usize, AstId>::empty(),
            t.declaration_types_view() == Map::<usize, TypeId>::empty(),
    {
        let t = SymbolTable {
            types: StringHashMap::new(),
            functions: StringHashMap::new(),
            function_names: StringHashSet::new(),
            variables: HashMap::new(),
            declaration_types: HashMap::new(),
        };
        t
    }

    /// Enters a type under its name, in place of any type of that name.
    pub fn insert_type(&mut self, name: String, type_id: TypeId)
        ensures
            final(self).types@ == old(self).types@.insert(name@, type_id),
            final(self).functions@ == old(self).functions@,
            final(self).function_names_view() == old(self).function_names_view(),
            final(self).variables_view() == old(self).variables_view(),
            final(self).declaration_types_view() == old(self).declaration_types_view(),
    {
        self.types.insert(name, type_id);
    }

    /// Enters a function's type under its name, in place of any function of that name.
    pub fn insert_function(&mut self, name: String, type_id: TypeId)
        ensures
            final(self).functions@ == old(self).functions@.insert(name@, type_id),
            final(self).types@ == old(self).types@,
            final(self).function_names_view() == old(self).function_names_view(),
            final(self).variables_view() == old(self).variables_view(),
            final(self).declaration_types_view() == old(self).declaration_types_view(),
    {
        self.functions.insert(name, type_id);
    }

    /// Whether a type of this name is entered.
    pub fn has_type_name(&self, name: &str) -> (b: bool)
        ensures
            b == self.types@.contains_key(name@),
    {
        self.types.contains_key(name)
    }

    /// The type of the function of this name, which must be entered.
    pub fn get_function(&self, name: &str) -> (t: TypeId)
        requires
            self.functions@.contains_key(name@),
        ensures
            t == self.functions@[name@],
    {
        *self.functions.get(name).unwrap()
    }

    /// Adds the name of a function of the scope.
    pub fn insert_function_name(&mut self, name: String)
        ensures
            final(self).function_names_view() == old(self).function_names_view().insert(name@),
            final(self).types@ == old(self).types@,
            final(self).functions@ == old(self).functions@,
            final(self).variables_view() == old(self).variables_view(),
            final(self).declaration_types_view() == old(self).declaration_types_view(),
    {
        self.function_names.insert(name);
    }

    /// Whether `name` is the name of a function of the scope.
    pub fn has_function_name(&self, name: &String) -> (b: bool)
        ensures
            b == self.function_names_view().contains(name@),
    {
        self.function_names.contains(name.as_str())
    }

    /// Records that the variable use `use_id` refers to the declaration `declaration`.
    pub fn insert_variable(&mut self, use_id: AstId, declaration: AstId)
        ensures
            final(self).variables_view() == old(self).variables_view().insert(use_id.0, declaration),
            final(self).types@ == old(self).types@,
            final(self).functions@ == old(self).functions@,
            final(self).function_names_view() == old(self).function_names_view(),
            final(self).declaration_types_view() == old(self).declaration_types_view(),
    {
        self.variables.insert(use_id.0, declaration);
    }

    /// The declaration that the variable use `use_id` refers to; the use must have been
    /// recorded.
    pub fn get_variable(&self, use_id: &AstId) -> (r: AstId)
        requires
            self.variables_view().contains_key(use_id.0),
        ensures
            r == self.variables_view()[use_id.0],
    {
        *self.variables.get(&use_id.0).unwrap()
    }

    /// Records the type of the declaration `declaration`.
    pub fn insert_declaration_type(&mut self, declaration: AstId, type_id: TypeId)
        ensures
            final(self).declaration_types_view() == old(self).declaration_types_view().insert(declaration.0, type_id),
            final(self).types@ == old(self).types@,
            final(self).functions@ == old(self).functions@,
            final(self).function_names_view() == old(self).function_names_view(),
            final(self).variables_view() == old(self).variables_view(),
    {
        self.declaration_types.insert(declaration.0, type_id);
    }

    /// The type of the declaration `declaration`, if it was recorded.
    pub fn get_declaration_type(&self, declaration: &AstId) -> (r: Option<TypeId>)
        ensures
            r == (if self.declaration_types_view().contains_key(declaration.0) {
                Some(self.declaration_types_view()[declaration.0])
            } else {
                None
            }),
    {
        match self.declaration_types.get(&declaration.0) {
            Some(t) => Some(*t),
            None => None,
        }
    }

    /// Resolves a parsed type to the id of a type in the arena, interning the types it
    /// needs; `None` where a type name is not declared in this table.
    pub fn resolve_type(&mut self, type_arena: &mut TypeArena, parsed_type: &ParsedType) -> (r: Option<TypeId>)
        ensures
            *final(self) == *old(self),
            (r, final(type_arena)@) == spec_resolve_type(old(self).types@, old(type_arena)@, *parsed_type),
        decreases parsed_type,
    {
        match &parsed_type.parsed_type {
            ParsedTypeEnum::Void => Some(type_arena.void()),
            ParsedTypeEnum::Boolean => Some(type_arena.bool()),
            ParsedTypeEnum::Char => Some(type_arena.char()),
            ParsedTypeEnum::Integer => Some(type_arena.integer()),
            ParsedTypeEnum::Double => Some(type_arena.double()),
            ParsedTypeEnum::Array(array_type) => {
                let array_type_id = match self.resolve_type(type_arena, array_type) {
                    Some(id) => id,
                    None => return None,
                };
                Some(type_arena.make_array(array_type_id))
            },
            ParsedTypeEnum::Pointer(ptr_type) => {
                let ptr_type_id = match self.resolve_type(type_arena, ptr_type) {
                    Some(id) => id,
                    None => return None,
                };
                Some(type_arena.make_ptr(ptr_type_id))
            },
            ParsedTypeEnum::Reference(ref_type) => {
                let ref_type_id = match self.resolve_type(type_arena, ref_type) {
                    Some(id) => id,
                    None => return None,
                };
                Some(type_arena.make_ref(ref_type_id))
            },
            ParsedTypeEnum::TypeName(name) => match self.types.get(name.as_str()) {
                Some(id) => Some(*id),
                None => None,
            },
        }
    }

    /// Resolves a parsed type as `resolve_type` does, but reports a type name that this
    /// table does not declare: the error names it and stands where it was written.
    pub fn get_resolved_type(&self, type_arena: &mut TypeArena, parsed_type: &ParsedType) -> (r: Result<TypeId, Diagnostic>)
        ensures
            final(type_arena)@ == spec_get_resolved_type(self.types@, old(type_arena)@, *parsed_type).1,
            match r {
                Ok(id) => spec_get_resolved_type(self.types@, old(type_arena)@, *parsed_type).0 == Ok::<TypeId, DiagnosticView>(id),
                Err(d) => spec_get_resolved_type(self.types@, old(type_arena)@, *parsed_type).0 == Err::<TypeId, DiagnosticView>(d@),
            },
        decreases parsed_type,
    {
        match &parsed_type.parsed_type {
            ParsedTypeEnum::Void => Ok(type_arena.void()),
            ParsedTypeEnum::Boolean => Ok(type_arena.bool()),
            ParsedTypeEnum::Char => Ok(type_arena.char()),
            ParsedTypeEnum::Integer => Ok(type_arena.integer()),
            ParsedTypeEnum::Double => Ok(type_arena.double()),
            ParsedTypeEnum::Array(array_type) => {
                let array_type_id = match self.get_resolved_type(type_arena, array_type) {
                    Ok(id) => id,
                    Err(d) => return Err(d),
                };
                Ok(type_arena.make_array(array_type_id))
            },
            ParsedTypeEnum::Pointer(ptr_type) => {
                let ptr_type_id = match self.get_resolved_type(type_arena, ptr_type) {
                    Ok(id) => id,
                    Err(d) => return Err(d),
                };
                Ok(type_arena.make_ptr(ptr_type_id))
            },
            ParsedTypeEnum::Reference(ref_type) => {
                let ref_type_id = match self.get_resolved_type(type_arena, ref_type) {
                    Ok(id) => id,
                    Err(d) => return Err(d),
                };
                Ok(type_arena.make_ref(ref_type_id))
            },
            ParsedTypeEnum::TypeName(name) => match self.types.get(name.as_str()) {
                Some(id) => Ok(*id),
                None => Err(unknown_type_name_error(debug_quoted(name.as_str()), parsed_type.position)),
            },
        }
    }
}

} // verus!
