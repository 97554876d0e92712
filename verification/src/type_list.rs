//! The store of the types that modules define.
//!
//! Types are kept in the order in which they were added, and a type never
//! changes once it is in the list. The identifier of a type is its position.

use vstd::prelude::*;
use crate::error::{BinaryReaderError, Reason};
use crate::intern::{
    absolute_group, absolute_sub, absolutize_sub, composite_canonical, composite_is_canonical,
    is_same_kind, lemma_append_keeps_order, lemma_find_group, sub_types_equal,
};
use crate::limits::{MAX_WASM_FUNCTION_PARAMS, MAX_WASM_FUNCTION_RETURNS, MAX_WASM_STRUCT_FIELDS};
use crate::types::{
    AbstractHeapType, CompositeInnerType, CompositeView, CoreTypeId, HeapType, RefType, RecGroup,
    StorageType, SubType, SubTypeView, UnpackedIndex, ValType, sub_type_views,
};

verus! {

/// The type a heap type names: the stored type at its identifier, where the
/// heap type holds one that is in the list.
pub open spec fn defined_type(types: Seq<SubTypeView>, index: UnpackedIndex) -> Option<
    SubTypeView,
> {
    match index {
        UnpackedIndex::Id(id) => if id.index < types.len() {
            Some(types[id.index as int])
        } else {
            None
        },
        _ => None,
    }
}

/// Whether a heap type refers to nothing outside the list.
pub open spec fn heap_type_closed(len: nat, ty: HeapType) -> bool {
    match ty {
        HeapType::Abstract { .. } => true,
        HeapType::Concrete(UnpackedIndex::Id(id)) => id.index < len,
        HeapType::Concrete(_) => false,
    }
}

pub open spec fn val_type_closed(len: nat, ty: ValType) -> bool {
    match ty {
        ValType::Ref(r) => heap_type_closed(len, r.heap_type),
        _ => true,
    }
}

pub open spec fn storage_type_closed(len: nat, ty: StorageType) -> bool {
    match ty {
        StorageType::Val(v) => val_type_closed(len, v),
        _ => true,
    }
}

/// Whether every type that a composite type mentions is in the list.
pub open spec fn composite_closed(len: nat, ty: CompositeView) -> bool {
    match ty {
        CompositeView::Func { params, results } => {
            &&& forall|i: int| 0 <= i < params.len() ==> val_type_closed(len, #[trigger] params[i])
            &&& forall|i: int|
                0 <= i < results.len() ==> val_type_closed(len, #[trigger] results[i])
        },
        CompositeView::Array(field) => storage_type_closed(len, field.element_type),
        CompositeView::Struct { fields } => forall|i: int|
            0 <= i < fields.len() ==> storage_type_closed(len, (#[trigger] fields[i]).element_type),
    }
}

/// Whether a composite type has no more parameters, results or fields than a
/// type may have.
pub open spec fn composite_bounded(ty: CompositeView) -> bool {
    match ty {
        CompositeView::Func { params, results } => params.len() <= MAX_WASM_FUNCTION_PARAMS
            && results.len() <= MAX_WASM_FUNCTION_RETURNS,
        CompositeView::Array(_) => true,
        CompositeView::Struct { fields } => fields.len() <= MAX_WASM_STRUCT_FIELDS,
    }
}

/// Whether the type stored at `id` is in order: what it mentions is in the
/// list, and its supertype, if it has one, stands before it and is not final.
pub open spec fn stored_type_ok(types: Seq<SubTypeView>, id: int) -> bool {
    &&& composite_closed(types.len(), types[id].inner)
    &&& composite_bounded(types[id].inner)
    &&& match types[id].supertype_idx {
        None => true,
        Some(UnpackedIndex::Id(p)) => p.index < id && !types[p.index as int].is_final
            && same_kind(types[p.index as int], types[id]),
        Some(_) => false,
    }
}

/// Whether two types are composite types of the same kind and are both
/// shared or both not.
pub open spec fn same_kind(a: SubTypeView, b: SubTypeView) -> bool {
    a.shared == b.shared && match a.inner {
        CompositeView::Func { .. } => b.inner is Func,
        CompositeView::Array(_) => b.inner is Array,
        CompositeView::Struct { .. } => b.inner is Struct,
    }
}

/// Whether `a` is `b` or reaches `b` through declared supertypes.
pub open spec fn id_is_subtype(types: Seq<SubTypeView>, a: int, b: int) -> bool
    decreases a,
{
    a == b || (0 <= a < types.len() && match types[a].supertype_idx {
        Some(UnpackedIndex::Id(p)) => p.index < a && id_is_subtype(types, p.index as int, b),
        _ => false,
    })
}

/// Whether a defined type belongs under the abstract heap type `ty`.
pub open spec fn defined_matches_abstract(def: SubTypeView, shared: bool, ty: AbstractHeapType)
    -> bool {
    def.shared == shared && match ty {
        AbstractHeapType::Any | AbstractHeapType::Eq => def.inner is Array || def.inner is Struct,
        AbstractHeapType::Struct => def.inner is Struct,
        AbstractHeapType::Array => def.inner is Array,
        AbstractHeapType::Func => def.inner is Func,
        _ => false,
    }
}

/// Whether the bottom type `ty` belongs under a defined type.
pub open spec fn abstract_matches_defined(shared: bool, ty: AbstractHeapType, def: SubTypeView)
    -> bool {
    def.shared == shared && match ty {
        AbstractHeapType::NoAny => def.inner is Array || def.inner is Struct,
        AbstractHeapType::NoFunc => def.inner is Func,
        _ => false,
    }
}

/// Subtyping of heap types. A heap type that names a type outside the list is
/// a subtype of itself only.
pub open spec fn heap_is_subtype(types: Seq<SubTypeView>, a: HeapType, b: HeapType) -> bool {
    a == b || match (a, b) {
        (
            HeapType::Abstract { shared: a_shared, ty: a_ty },
            HeapType::Abstract { shared: b_shared, ty: b_ty },
        ) => a_shared == b_shared && a_ty.spec_is_subtype_of(b_ty),
        (HeapType::Concrete(a), HeapType::Abstract { shared, ty }) => match defined_type(
            types,
            a,
        ) {
            Some(def) => defined_matches_abstract(def, shared, ty),
            None => false,
        },
        (HeapType::Abstract { shared, ty }, HeapType::Concrete(b)) => match defined_type(
            types,
            b,
        ) {
            Some(def) => abstract_matches_defined(shared, ty, def),
            None => false,
        },
        (HeapType::Concrete(a), HeapType::Concrete(b)) => match (a, b) {
            (UnpackedIndex::Id(x), UnpackedIndex::Id(y)) => x.index < types.len() && y.index
                < types.len() && id_is_subtype(types, x.index as int, y.index as int),
            _ => false,
        },
    }
}

/// Subtyping of reference types: a nullable reference is no subtype of a
/// non-nullable one, and otherwise the heap types decide.
pub open spec fn ref_is_subtype(types: Seq<SubTypeView>, a: RefType, b: RefType) -> bool {
    a == b || ((!a.nullable || b.nullable) && heap_is_subtype(types, a.heap_type, b.heap_type))
}

/// Subtyping of value types: numbers and vectors only match themselves.
pub open spec fn val_is_subtype(types: Seq<SubTypeView>, a: ValType, b: ValType) -> bool {
    a == b || match (a, b) {
        (ValType::Ref(x), ValType::Ref(y)) => ref_is_subtype(types, x, y),
        _ => false,
    }
}

/// Whether a reference may cross threads: an abstract heap type says so
/// itself, a defined type where it was declared shared.
pub open spec fn ref_is_shared(types: Seq<SubTypeView>, ty: RefType) -> bool {
    match ty.heap_type {
        HeapType::Abstract { shared, .. } => shared,
        HeapType::Concrete(index) => match defined_type(types, index) {
            Some(def) => def.shared,
            None => false,
        },
    }
}

/// Whether a value may cross threads: numbers and vectors always may.
pub open spec fn val_is_shared(types: Seq<SubTypeView>, ty: ValType) -> bool {
    match ty {
        ValType::Ref(r) => ref_is_shared(types, r),
        _ => true,
    }
}

/// The abstract heap type at the top of the hierarchy that holds `ty`, where
/// `ty` names a type in the list or is abstract.
pub open spec fn top_heap_type(types: Seq<SubTypeView>, ty: HeapType) -> Option<HeapType> {
    match ty {
        HeapType::Abstract { shared, ty } => Some(HeapType::Abstract { shared, ty: ty.spec_top() }),
        HeapType::Concrete(index) => match defined_type(types, index) {
            Some(def) => Some(
                HeapType::Abstract {
                    shared: def.shared,
                    ty: if def.inner is Func {
                        AbstractHeapType::Func
                    } else {
                        AbstractHeapType::Any
                    },
                },
            ),
            None => None,
        },
    }
}

/// The list of defined types.
#[derive(Debug)]
pub struct TypeList {
    types: Vec<SubType>,
    /// The identifier of the first type of each recursion group, ascending.
    starts: Vec<u32>,
}

/// The mathematical value of a [`TypeList`].
pub struct TypeListView {
    pub types: Seq<SubTypeView>,
    /// The identifier of the first type of each recursion group, ascending.
    pub starts: Seq<u32>,
}

impl TypeListView {
    /// The number of types in the group with number `g`.
    pub open spec fn group_len(self, g: int) -> int {
        if g + 1 < self.starts.len() {
            self.starts[g + 1] - self.starts[g]
        } else {
            self.types.len() - self.starts[g]
        }
    }

    /// Whether the list is in order: the groups partition the types into
    /// non-empty runs, and every stored type is in order.
    pub open spec fn wf(self) -> bool {
        &&& self.types.len() <= u32::MAX
        &&& self.starts.len() <= self.types.len()
        &&& (self.types.len() > 0 ==> self.starts.len() > 0 && self.starts[0] == 0)
        &&& forall|g: int|
            0 <= g < self.starts.len() ==> (#[trigger] self.starts[g]) < self.types.len()
        &&& forall|g: int, h: int|
            0 <= g < h < self.starts.len() ==> (#[trigger] self.starts[g]) < (
            #[trigger] self.starts[h])
        &&& forall|id: int| 0 <= id < self.types.len() ==> #[trigger] stored_type_ok(self.types, id)
    }
}

impl View for TypeList {
    type V = TypeListView;

    closed spec fn view(&self) -> TypeListView {
        TypeListView { types: sub_type_views(self.types@), starts: self.starts@ }
    }
}

impl TypeList {
    /// Whether the list is in order.
    pub open spec fn wf(&self) -> bool {
        self@.wf()
    }

    /// The empty list.
    pub fn new() -> (list: TypeList)
        ensures
            list.wf(),
            list@.types.len() == 0,
            list@.starts.len() == 0,
    {
        TypeList { types: Vec::new(), starts: Vec::new() }
    }

    /// The number of types in the list.
    pub fn len(&self) -> (n: usize)
        ensures
            n == self@.types.len(),
    {
        self.types.len()
    }

    /// The type with the identifier `id`, if the list holds one.
    pub fn get(&self, id: CoreTypeId) -> (ty: Option<&SubType>)
        ensures
            match ty {
                Some(t) => id.index < self@.types.len() && t@ == self@.types[id.index as int],
                None => id.index >= self@.types.len(),
            },
    {
        if (id.index as usize) < self.types.len() {
            Some(&self.types[id.index as usize])
        } else {
            None
        }
    }

    /// The type a heap type index names, if it names one in the list.
    pub fn defined(&self, index: UnpackedIndex) -> (ty: Option<&SubType>)
        ensures
            match ty {
                Some(t) => defined_type(self@.types, index) == Some(t@),
                None => defined_type(self@.types, index) is None,
            },
    {
        match index {
            UnpackedIndex::Id(id) => self.get(id),
            _ => None,
        }
    }

    /// The declared supertype of the type at `id`.
    pub fn supertype_of(&self, id: CoreTypeId) -> (sup: Option<CoreTypeId>)
        requires
            self.wf(),
            id.index < self@.types.len(),
        ensures
            match sup {
                Some(p) => self@.types[id.index as int].supertype_idx == Some(
                    UnpackedIndex::Id(p),
                ) && p.index < id.index,
                None => self@.types[id.index as int].supertype_idx is None,
            },
    {
        assert(stored_type_ok(self@.types, id.index as int));
        match self.types[id.index as usize].supertype_idx {
            Some(UnpackedIndex::Id(p)) => Some(p),
            _ => None,
        }
    }

    /// Whether the type at `a` is the type at `b` or one of its declared
    /// subtypes.
    pub fn id_is_subtype(&self, a: CoreTypeId, b: CoreTypeId) -> (r: bool)
        requires
            self.wf(),
            a.index < self@.types.len(),
        ensures
            r == id_is_subtype(self@.types, a.index as int, b.index as int),
    {
        let mut cur: CoreTypeId = a;
        loop
            invariant
                self.wf(),
                cur.index < self@.types.len(),
                id_is_subtype(self@.types, a.index as int, b.index as int) == id_is_subtype(
                    self@.types,
                    cur.index as int,
                    b.index as int,
                ),
            decreases cur.index,
        {
            if cur.index == b.index {
                return true;
            }
            match self.supertype_of(cur) {
                Some(p) => {
                    cur = p;
                },
                None => {
                    return false;
                },
            }
        }
    }

    /// Subtyping of heap types.
    pub fn heap_type_is_subtype(&self, a: HeapType, b: HeapType) -> (r: bool)
        requires
            self.wf(),
        ensures
            r == heap_is_subtype(self@.types, a, b),
    {
        if a == b {
            return true;
        }
        match (a, b) {
            (
                HeapType::Abstract { shared: a_shared, ty: a_ty },
                HeapType::Abstract { shared: b_shared, ty: b_ty },
            ) => a_shared == b_shared && a_ty.is_subtype_of(b_ty),
            (HeapType::Concrete(x), HeapType::Abstract { shared, ty }) => {
                match self.defined(x) {
                    Some(def) => {
                        def.composite_type.shared == shared && match ty {
                            AbstractHeapType::Any | AbstractHeapType::Eq => match def.composite_type.inner {
                                CompositeInnerType::Array(_) | CompositeInnerType::Struct(_) => true,
                                _ => false,
                            },
                            AbstractHeapType::Struct => match def.composite_type.inner {
                                CompositeInnerType::Struct(_) => true,
                                _ => false,
                            },
                            AbstractHeapType::Array => match def.composite_type.inner {
                                CompositeInnerType::Array(_) => true,
                                _ => false,
                            },
                            AbstractHeapType::Func => match def.composite_type.inner {
                                CompositeInnerType::Func(_) => true,
                                _ => false,
                            },
                            _ => false,
                        }
                    },
                    None => false,
                }
            },
            (HeapType::Abstract { shared, ty }, HeapType::Concrete(y)) => {
                match self.defined(y) {
                    Some(def) => {
                        def.composite_type.shared == shared && match ty {
                            AbstractHeapType::NoAny => match def.composite_type.inner {
                                CompositeInnerType::Array(_) | CompositeInnerType::Struct(_) => true,
                                _ => false,
                            },
                            AbstractHeapType::NoFunc => match def.composite_type.inner {
                                CompositeInnerType::Func(_) => true,
                                _ => false,
                            },
                            _ => false,
                        }
                    },
                    None => false,
                }
            },
            (HeapType::Concrete(x), HeapType::Concrete(y)) => {
                match (x, y) {
                    (UnpackedIndex::Id(i), UnpackedIndex::Id(j)) => {
                        (i.index as usize) < self.types.len() && (j.index as usize)
                            < self.types.len() && self.id_is_subtype(i, j)
                    },
                    _ => false,
                }
            },
        }
    }

    /// Subtyping of reference types.
    pub fn reftype_is_subtype(&self, a: RefType, b: RefType) -> (r: bool)
        requires
            self.wf(),
        ensures
            r == ref_is_subtype(self@.types, a, b),
    {
        if a == b {
            return true;
        }
        if a.nullable && !b.nullable {
            return false;
        }
        self.heap_type_is_subtype(a.heap_type, b.heap_type)
    }

    /// Subtyping of value types.
    pub fn valtype_is_subtype(&self, a: ValType, b: ValType) -> (r: bool)
        requires
            self.wf(),
        ensures
            r == val_is_subtype(self@.types, a, b),
    {
        if a == b {
            return true;
        }
        match (a, b) {
            (ValType::Ref(x), ValType::Ref(y)) => self.reftype_is_subtype(x, y),
            _ => false,
        }
    }

    /// Whether a reference of this type may cross threads.
    pub fn reftype_is_shared(&self, ty: RefType) -> (r: bool)
        ensures
            r == ref_is_shared(self@.types, ty),
    {
        match ty.heap_type {
            HeapType::Abstract { shared, .. } => shared,
            HeapType::Concrete(index) => match self.defined(index) {
                Some(def) => def.composite_type.shared,
                None => false,
            },
        }
    }

    /// Whether a value of this type may cross threads.
    pub fn valtype_is_shared(&self, ty: ValType) -> (r: bool)
        ensures
            r == val_is_shared(self@.types, ty),
    {
        match ty {
            ValType::Ref(r) => self.reftype_is_shared(r),
            _ => true,
        }
    }

    /// The abstract heap type at the top of the hierarchy that holds `ty`.
    pub fn top_type(&self, ty: &HeapType) -> (top: Option<HeapType>)
        ensures
            top == top_heap_type(self@.types, *ty),
    {
        match *ty {
            HeapType::Abstract { shared, ty } => Some(HeapType::Abstract { shared, ty: ty.top() }),
            HeapType::Concrete(index) => match self.defined(index) {
                Some(def) => {
                    let top: AbstractHeapType = match def.composite_type.inner {
                        CompositeInnerType::Func(_) => AbstractHeapType::Func,
                        _ => AbstractHeapType::Any,
                    };
                    Some(HeapType::Abstract { shared: def.composite_type.shared, ty: top })
                },
                None => None,
            },
        }
    }
}

impl TypeList {
    /// The number of types in the group with the number `g`.
    fn group_len(&self, g: usize) -> (n: usize)
        requires
            self.wf(),
            g < self@.starts.len(),
        ensures
            n == self@.group_len(g as int),
            self@.starts[g as int] + n <= self@.types.len(),
            n >= 1,
    {
        if g + 1 < self.starts.len() {
            (self.starts[g + 1] - self.starts[g]) as usize
        } else {
            self.types.len() - self.starts[g] as usize
        }
    }

    /// Whether the supertype that the type at position `j` of a group
    /// declares is allowed.
    fn supertype_is_ok(&self, group: &RecGroup, j: usize) -> (r: bool)
        requires
            j < group@.len(),
        ensures
            r == self@.supertype_ok(group@, j as int),
    {
        match group.types[j].supertype_idx {
            None => true,
            Some(UnpackedIndex::Id(p)) => {
                if (p.index as usize) < self.types.len() {
                    let sup = &self.types[p.index as usize];
                    !sup.is_final && is_same_kind(sup, &group.types[j])
                } else {
                    false
                }
            },
            Some(UnpackedIndex::RecGroup(i)) => {
                if (i as usize) < j {
                    let sup = &group.types[i as usize];
                    !sup.is_final && is_same_kind(sup, &group.types[j])
                } else {
                    false
                }
            },
            Some(UnpackedIndex::Module(_)) => false,
        }
    }

    /// Whether a group can be stored.
    fn group_is_ok(&self, group: &RecGroup) -> (r: bool)
        ensures
            r == self@.group_ok(group@),
    {
        let k: usize = group.types.len();
        if k == 0 {
            return false;
        }
        let mut j: usize = 0;
        while j < k
            invariant
                j <= k,
                k == group.types@.len(),
                k == group@.len(),
                forall|i: int|
                    0 <= i < j ==> composite_canonical(
                        self@.types.len(),
                        group@.len(),
                        (#[trigger] group@[i]).inner,
                    ),
                forall|i: int| 0 <= i < j ==> #[trigger] self@.supertype_ok(group@, i),
            decreases k - j,
        {
            if !composite_is_canonical(&group.types[j].composite_type.inner, self.types.len(), k) {
                assert(!composite_canonical(
                    self@.types.len(),
                    group@.len(),
                    group@[j as int].inner,
                ));
                return false;
            }
            if !self.supertype_is_ok(group, j) {
                return false;
            }
            j += 1;
        }
        true
    }

    /// Whether the group with the number `g` is the group `group`.
    fn group_is(&self, g: usize, group: &RecGroup) -> (r: bool)
        requires
            self.wf(),
            g < self@.starts.len(),
            self@.group_ok(group@),
        ensures
            r == self@.group_matches(g as int, group@),
    {
        let k: usize = group.types.len();
        if self.group_len(g) != k {
            return false;
        }
        let base: u32 = self.starts[g];
        let mut j: usize = 0;
        while j < k
            invariant
                j <= k,
                k == group.types@.len(),
                k == group@.len(),
                self.wf(),
                g < self@.starts.len(),
                base == self@.starts[g as int],
                base + k <= self@.types.len(),
                self@.group_ok(group@),
                forall|i: int|
                    0 <= i < j ==> self@.types[base + i] == absolute_sub(
                        #[trigger] group@[i],
                        base as int,
                    ),
            decreases k - j,
        {
            assert(composite_canonical(self@.types.len(), group@.len(), group@[j as int].inner));
            assert(self@.supertype_ok(group@, j as int));
            let candidate = absolutize_sub(
                &group.types[j],
                base,
                Ghost(self@.types.len()),
                Ghost(k as nat),
            );
            if !sub_types_equal(&self.types[base as usize + j], &candidate) {
                return false;
            }
            j += 1;
        }
        true
    }

    /// Adds a recursion group in canonical form, unless the list holds it
    /// already, and returns the identifier of its first type. The types of
    /// the group have consecutive identifiers.
    pub fn intern(&mut self, group: &RecGroup, offset: usize) -> (res: Result<
        CoreTypeId,
        BinaryReaderError,
    >)
        requires
            old(self).wf(),
        ensures
            final(self).wf(),
            match res {
                Ok(start) => old(self)@.intern_reason(group@) is None && start.index
                    == old(self)@.interned_start(group@) && final(self)@ == old(self)@.with_group(
                    group@,
                ),
                Err(e) => Some(e.reason) == old(self)@.intern_reason(group@) && e.offset == offset
                    && final(self)@ == old(self)@,
            },
            old(self)@.types.len() <= final(self)@.types.len(),
            forall|i: int|
                0 <= i < old(self)@.types.len() ==> final(self)@.types[i] == old(self)@.types[i],
            res is Ok ==> res->Ok_0.index + group@.len() <= final(self)@.types.len() && forall|
                j: int,
            |
                0 <= j < group@.len() ==> final(self)@.types[res->Ok_0.index + j] == absolute_sub(
                    #[trigger] group@[j],
                    res->Ok_0.index as int,
                ),
    {
        if !self.group_is_ok(group) {
            return Err(BinaryReaderError::new(Reason::MalformedRecGroup, offset));
        }
        let k: usize = group.types.len();
        let mut g: usize = 0;
        while g < self.starts.len()
            invariant
                g <= self.starts.len(),
                *self == *old(self),
                self.wf(),
                self@.group_ok(group@),
                k == group@.len(),
                self@.find_group(group@, 0) == self@.find_group(group@, g as int),
            decreases self.starts.len() - g,
        {
            if self.group_is(g, group) {
                let start: u32 = self.starts[g];
                proof {
                    lemma_find_group(self@, group@, g as int);
                }
                proof {
                    assert(self@.group_len(g as int) == k);
                }
                return Ok(CoreTypeId { index: start });
            }
            g += 1;
        }
        let len: usize = self.types.len();
        if k > (u32::MAX as usize) - len {
            return Err(BinaryReaderError::new(Reason::TypeListFull, offset));
        }
        let base: u32 = len as u32;
        let ghost before = self@;
        self.starts.push(base);
        let mut j: usize = 0;
        while j < k
            invariant
                j <= k,
                k == group.types@.len(),
                k == group@.len(),
                before == old(self)@,
                before.wf(),
                before.group_ok(group@),
                base == before.types.len(),
                base + k <= u32::MAX,
                self.starts@ == before.starts.push(base),
                self.types@.len() == base + j,
                sub_type_views(self.types@) =~= before.types + absolute_group(group@, base as int).take(
                    j as int,
                ),
            decreases k - j,
        {
            assert(composite_canonical(before.types.len(), group@.len(), group@[j as int].inner));
            assert(before.supertype_ok(group@, j as int));
            let stored = absolutize_sub(
                &group.types[j],
                base,
                Ghost(before.types.len()),
                Ghost(k as nat),
            );
            let ghost earlier = self.types@;
            self.types.push(stored);
            proof {
                let whole = absolute_group(group@, base as int);
                let target = before.types + whole.take(j + 1);
                let reached = before.types + whole.take(j as int);
                assert(sub_type_views(earlier) == reached);
                assert forall|i: int| 0 <= i < target.len() implies sub_type_views(self.types@)[i]
                    == target[i] by {
                    if i < base + j {
                        assert(self.types@[i] == earlier[i]);
                        assert(sub_type_views(earlier)[i] == reached[i]);
                    } else {
                        assert(whole.take(j + 1)[j as int] == whole[j as int]);
                    }
                }
            }
            j += 1;
        }
        assert(absolute_group(group@, base as int).take(k as int) =~= absolute_group(
            group@,
            base as int,
        ));
        proof {
            lemma_append_keeps_order(before, group@);
        }
        Ok(CoreTypeId { index: base })
    }
}


} // verus!
