//! Adding recursion groups to the type list.
//!
//! A group comes in canonical form: a reference to a type of the group itself
//! gives the position in the group, every other reference gives an
//! identifier. A group that is already in the list is not added again, so two
//! groups of the same structure get the same identifiers.

use vstd::prelude::*;
use crate::error::Reason;
use crate::limits::{MAX_WASM_FUNCTION_PARAMS, MAX_WASM_FUNCTION_RETURNS, MAX_WASM_STRUCT_FIELDS};
use crate::type_list::{
    TypeListView, composite_bounded, composite_closed, same_kind, stored_type_ok,
};
use crate::types::{
    CompositeInnerType, CompositeType, CompositeView, CoreTypeId, FieldType, FuncType, HeapType,
    RecGroup, RefType, StorageType, StructType, SubType, SubTypeView, UnpackedIndex, ValType,
};

verus! {

/// A reference in canonical form made absolute, for a group that begins at
/// the identifier `base`.
pub open spec fn absolute_index(idx: UnpackedIndex, base: int) -> UnpackedIndex {
    match idx {
        UnpackedIndex::RecGroup(i) => UnpackedIndex::Id(CoreTypeId { index: (base + i) as u32 }),
        _ => idx,
    }
}

pub open spec fn absolute_heap(ty: HeapType, base: int) -> HeapType {
    match ty {
        HeapType::Concrete(idx) => HeapType::Concrete(absolute_index(idx, base)),
        _ => ty,
    }
}

pub open spec fn absolute_val(ty: ValType, base: int) -> ValType {
    match ty {
        ValType::Ref(r) => ValType::Ref(
            RefType { nullable: r.nullable, heap_type: absolute_heap(r.heap_type, base) },
        ),
        _ => ty,
    }
}

pub open spec fn absolute_field(field: FieldType, base: int) -> FieldType {
    FieldType {
        element_type: match field.element_type {
            StorageType::Val(v) => StorageType::Val(absolute_val(v, base)),
            other => other,
        },
        mutable: field.mutable,
    }
}

pub open spec fn absolute_vals(tys: Seq<ValType>, base: int) -> Seq<ValType> {
    Seq::new(tys.len(), |i: int| absolute_val(tys[i], base))
}

pub open spec fn absolute_fields(fields: Seq<FieldType>, base: int) -> Seq<FieldType> {
    Seq::new(fields.len(), |i: int| absolute_field(fields[i], base))
}

pub open spec fn absolute_composite(ty: CompositeView, base: int) -> CompositeView {
    match ty {
        CompositeView::Func { params, results } => CompositeView::Func {
            params: absolute_vals(params, base),
            results: absolute_vals(results, base),
        },
        CompositeView::Array(field) => CompositeView::Array(absolute_field(field, base)),
        CompositeView::Struct { fields } => CompositeView::Struct {
            fields: absolute_fields(fields, base),
        },
    }
}

/// A type in canonical form as it is stored when its group begins at `base`.
pub open spec fn absolute_sub(ty: SubTypeView, base: int) -> SubTypeView {
    SubTypeView {
        is_final: ty.is_final,
        supertype_idx: match ty.supertype_idx {
            Some(idx) => Some(absolute_index(idx, base)),
            None => None,
        },
        shared: ty.shared,
        inner: absolute_composite(ty.inner, base),
    }
}

pub open spec fn absolute_group(group: Seq<SubTypeView>, base: int) -> Seq<SubTypeView> {
    Seq::new(group.len(), |i: int| absolute_sub(group[i], base))
}

/// Whether a reference is in canonical form, for a group of `k` types and a
/// list of `len` types.
pub open spec fn index_canonical(len: nat, k: nat, idx: UnpackedIndex) -> bool {
    match idx {
        UnpackedIndex::Id(id) => id.index < len,
        UnpackedIndex::RecGroup(i) => i < k,
        UnpackedIndex::Module(_) => false,
    }
}

pub open spec fn val_canonical(len: nat, k: nat, ty: ValType) -> bool {
    match ty {
        ValType::Ref(r) => match r.heap_type {
            HeapType::Concrete(idx) => index_canonical(len, k, idx),
            _ => true,
        },
        _ => true,
    }
}

pub open spec fn field_canonical(len: nat, k: nat, field: FieldType) -> bool {
    match field.element_type {
        StorageType::Val(v) => val_canonical(len, k, v),
        _ => true,
    }
}

pub open spec fn vals_canonical(len: nat, k: nat, tys: Seq<ValType>) -> bool {
    forall|i: int| 0 <= i < tys.len() ==> val_canonical(len, k, #[trigger] tys[i])
}

pub open spec fn fields_canonical(len: nat, k: nat, fields: Seq<FieldType>) -> bool {
    forall|i: int| 0 <= i < fields.len() ==> field_canonical(len, k, #[trigger] fields[i])
}

/// Whether every reference of a composite type is in canonical form, and the
/// type has no more parameters, results or fields than it may.
pub open spec fn composite_canonical(len: nat, k: nat, ty: CompositeView) -> bool {
    composite_bounded(ty) && match ty {
        CompositeView::Func { params, results } => vals_canonical(len, k, params)
            && vals_canonical(len, k, results),
        CompositeView::Array(field) => field_canonical(len, k, field),
        CompositeView::Struct { fields } => fields_canonical(len, k, fields),
    }
}

impl TypeListView {
    /// Whether the supertype that the type at position `j` of a group
    /// declares is allowed: it is in the list or stands earlier in the group,
    /// it is not final, and it is of the same kind.
    pub open spec fn supertype_ok(self, group: Seq<SubTypeView>, j: int) -> bool {
        match group[j].supertype_idx {
            None => true,
            Some(UnpackedIndex::Id(p)) => p.index < self.types.len()
                && !self.types[p.index as int].is_final && same_kind(
                self.types[p.index as int],
                group[j],
            ),
            Some(UnpackedIndex::RecGroup(i)) => i < j && !group[i as int].is_final && same_kind(
                group[i as int],
                group[j],
            ),
            Some(UnpackedIndex::Module(_)) => false,
        }
    }

    /// Whether a group can be stored: it has a type, every reference in it is
    /// in canonical form and in range, and every declared supertype is
    /// allowed.
    pub open spec fn group_ok(self, group: Seq<SubTypeView>) -> bool {
        &&& group.len() >= 1
        &&& forall|j: int|
            0 <= j < group.len() ==> composite_canonical(
                self.types.len(),
                group.len(),
                (#[trigger] group[j]).inner,
            )
        &&& forall|j: int| 0 <= j < group.len() ==> #[trigger] self.supertype_ok(group, j)
    }

    /// Whether the group with the number `g` is the group `group`.
    pub open spec fn group_matches(self, g: int, group: Seq<SubTypeView>) -> bool {
        &&& self.group_len(g) == group.len()
        &&& forall|j: int|
            0 <= j < group.len() ==> self.types[self.starts[g] + j] == absolute_sub(
                #[trigger] group[j],
                self.starts[g] as int,
            )
    }

    /// The number of the first group from the number `g` on that is the
    /// group `group`.
    pub open spec fn find_group(self, group: Seq<SubTypeView>, g: int) -> Option<int>
        decreases self.starts.len() - g,
    {
        if g < 0 || g >= self.starts.len() {
            None
        } else if self.group_matches(g, group) {
            Some(g)
        } else {
            self.find_group(group, g + 1)
        }
    }

    /// Why a group is refused, if it is: it cannot be stored, or it is new
    /// and the list is full.
    pub open spec fn intern_reason(self, group: Seq<SubTypeView>) -> Option<Reason> {
        if !self.group_ok(group) {
            Some(Reason::MalformedRecGroup)
        } else if self.find_group(group, 0) is None && self.types.len() + group.len()
            > u32::MAX {
            Some(Reason::TypeListFull)
        } else {
            None
        }
    }

    /// The identifier that the first type of an accepted group gets: that of
    /// the group in the list, or else the next free one.
    pub open spec fn interned_start(self, group: Seq<SubTypeView>) -> int {
        match self.find_group(group, 0) {
            Some(g) => self.starts[g] as int,
            None => self.types.len() as int,
        }
    }

    /// The list after an accepted group: as it was where the group is in it,
    /// and with the group at its end otherwise.
    pub open spec fn with_group(self, group: Seq<SubTypeView>) -> TypeListView {
        match self.find_group(group, 0) {
            Some(_) => self,
            None => TypeListView {
                types: self.types + absolute_group(group, self.types.len() as int),
                starts: self.starts.push(self.types.len() as u32),
            },
        }
    }
}

/// A group that is found in the list stands at a group of the list.
pub proof fn lemma_find_group(list: TypeListView, group: Seq<SubTypeView>, g: int)
    requires
        0 <= g,
    ensures
        match list.find_group(group, g) {
            Some(h) => g <= h < list.starts.len() && list.group_matches(h, group),
            None => forall|h: int| g <= h < list.starts.len() ==> !list.group_matches(h, group),
        },
    decreases list.starts.len() - g,
{
    if g < list.starts.len() && !list.group_matches(g, group) {
        lemma_find_group(list, group, g + 1);
    }
}

pub(crate) fn absolutize_index(idx: UnpackedIndex, base: u32) -> (r: UnpackedIndex)
    requires
        idx is RecGroup ==> base + idx->RecGroup_0 <= u32::MAX,
    ensures
        r == absolute_index(idx, base as int),
{
    match idx {
        UnpackedIndex::RecGroup(i) => UnpackedIndex::Id(CoreTypeId { index: base + i }),
        other => other,
    }
}

pub(crate) fn absolutize_val(ty: ValType, base: u32, Ghost(len): Ghost<nat>, Ghost(k): Ghost<nat>) -> (r:
    ValType)
    requires
        val_canonical(len, k, ty),
        base + k <= u32::MAX,
    ensures
        r == absolute_val(ty, base as int),
{
    match ty {
        ValType::Ref(r) => match r.heap_type {
            HeapType::Concrete(idx) => ValType::Ref(
                RefType {
                    nullable: r.nullable,
                    heap_type: HeapType::Concrete(absolutize_index(idx, base)),
                },
            ),
            _ => ty,
        },
        _ => ty,
    }
}

pub(crate) fn absolutize_field(field: FieldType, base: u32, Ghost(len): Ghost<nat>, Ghost(k): Ghost<nat>)
    -> (r: FieldType)
    requires
        field_canonical(len, k, field),
        base + k <= u32::MAX,
    ensures
        r == absolute_field(field, base as int),
{
    match field.element_type {
        StorageType::Val(v) => FieldType {
            element_type: StorageType::Val(absolutize_val(v, base, Ghost(len), Ghost(k))),
            mutable: field.mutable,
        },
        _ => field,
    }
}

pub(crate) fn absolutize_vals(tys: &Vec<ValType>, base: u32, Ghost(len): Ghost<nat>, Ghost(k): Ghost<nat>)
    -> (r: Vec<ValType>)
    requires
        vals_canonical(len, k, tys@),
        base + k <= u32::MAX,
    ensures
        r@ == absolute_vals(tys@, base as int),
{
    let mut out: Vec<ValType> = Vec::new();
    let mut i: usize = 0;
    while i < tys.len()
        invariant
            i <= tys.len(),
            vals_canonical(len, k, tys@),
            base + k <= u32::MAX,
            out@.len() == i,
            forall|j: int| 0 <= j < i ==> out@[j] == absolute_val(tys@[j], base as int),
        decreases tys.len() - i,
    {
        out.push(absolutize_val(tys[i], base, Ghost(len), Ghost(k)));
        i += 1;
    }
    assert(out@ =~= absolute_vals(tys@, base as int));
    out
}

pub(crate) fn absolutize_fields(
    fields: &Vec<FieldType>,
    base: u32,
    Ghost(len): Ghost<nat>,
    Ghost(k): Ghost<nat>,
) -> (r: Vec<FieldType>)
    requires
        fields_canonical(len, k, fields@),
        base + k <= u32::MAX,
    ensures
        r@ == absolute_fields(fields@, base as int),
{
    let mut out: Vec<FieldType> = Vec::new();
    let mut i: usize = 0;
    while i < fields.len()
        invariant
            i <= fields.len(),
            fields_canonical(len, k, fields@),
            base + k <= u32::MAX,
            out@.len() == i,
            forall|j: int| 0 <= j < i ==> out@[j] == absolute_field(fields@[j], base as int),
        decreases fields.len() - i,
    {
        out.push(absolutize_field(fields[i], base, Ghost(len), Ghost(k)));
        i += 1;
    }
    assert(out@ =~= absolute_fields(fields@, base as int));
    out
}

/// The type as it is stored when its group begins at `base`.
pub(crate) fn absolutize_sub(ty: &SubType, base: u32, Ghost(len): Ghost<nat>, Ghost(k): Ghost<nat>) -> (r:
    SubType)
    requires
        composite_canonical(len, k, ty@.inner),
        ty@.supertype_idx is Some ==> index_canonical(len, k, ty@.supertype_idx->0),
        base + k <= u32::MAX,
    ensures
        r@ == absolute_sub(ty@, base as int),
{
    let inner = match &ty.composite_type.inner {
        CompositeInnerType::Func(f) => CompositeInnerType::Func(
            FuncType {
                params: absolutize_vals(&f.params, base, Ghost(len), Ghost(k)),
                results: absolutize_vals(&f.results, base, Ghost(len), Ghost(k)),
            },
        ),
        CompositeInnerType::Array(a) => CompositeInnerType::Array(
            absolutize_field(*a, base, Ghost(len), Ghost(k)),
        ),
        CompositeInnerType::Struct(s) => CompositeInnerType::Struct(
            StructType { fields: absolutize_fields(&s.fields, base, Ghost(len), Ghost(k)) },
        ),
    };
    let supertype_idx = match ty.supertype_idx {
        Some(idx) => Some(absolutize_index(idx, base)),
        None => None,
    };
    SubType {
        is_final: ty.is_final,
        supertype_idx,
        composite_type: CompositeType { inner, shared: ty.composite_type.shared },
    }
}

pub(crate) fn index_is_canonical(idx: UnpackedIndex, len: usize, k: usize) -> (r: bool)
    ensures
        r == index_canonical(len as nat, k as nat, idx),
{
    match idx {
        UnpackedIndex::Id(id) => (id.index as usize) < len,
        UnpackedIndex::RecGroup(i) => (i as usize) < k,
        UnpackedIndex::Module(_) => false,
    }
}

pub(crate) fn val_is_canonical(ty: ValType, len: usize, k: usize) -> (r: bool)
    ensures
        r == val_canonical(len as nat, k as nat, ty),
{
    match ty {
        ValType::Ref(r) => match r.heap_type {
            HeapType::Concrete(idx) => index_is_canonical(idx, len, k),
            _ => true,
        },
        _ => true,
    }
}

pub(crate) fn field_is_canonical(field: FieldType, len: usize, k: usize) -> (r: bool)
    ensures
        r == field_canonical(len as nat, k as nat, field),
{
    match field.element_type {
        StorageType::Val(v) => val_is_canonical(v, len, k),
        _ => true,
    }
}

pub(crate) fn vals_are_canonical(tys: &Vec<ValType>, len: usize, k: usize) -> (r: bool)
    ensures
        r == vals_canonical(len as nat, k as nat, tys@),
{
    let mut i: usize = 0;
    while i < tys.len()
        invariant
            i <= tys.len(),
            forall|j: int| 0 <= j < i ==> val_canonical(len as nat, k as nat, #[trigger] tys@[j]),
        decreases tys.len() - i,
    {
        if !val_is_canonical(tys[i], len, k) {
            return false;
        }
        i += 1;
    }
    true
}

pub(crate) fn fields_are_canonical(fields: &Vec<FieldType>, len: usize, k: usize) -> (r: bool)
    ensures
        r == fields_canonical(len as nat, k as nat, fields@),
{
    let mut i: usize = 0;
    while i < fields.len()
        invariant
            i <= fields.len(),
            forall|j: int|
                0 <= j < i ==> field_canonical(len as nat, k as nat, #[trigger] fields@[j]),
        decreases fields.len() - i,
    {
        if !field_is_canonical(fields[i], len, k) {
            return false;
        }
        i += 1;
    }
    true
}

pub(crate) fn composite_is_canonical(ty: &CompositeInnerType, len: usize, k: usize) -> (r: bool)
    ensures
        r == composite_canonical(len as nat, k as nat, ty@),
{
    match ty {
        CompositeInnerType::Func(f) => f.params.len() <= MAX_WASM_FUNCTION_PARAMS
            && f.results.len() <= MAX_WASM_FUNCTION_RETURNS && vals_are_canonical(
            &f.params,
            len,
            k,
        ) && vals_are_canonical(&f.results, len, k),
        CompositeInnerType::Array(a) => field_is_canonical(*a, len, k),
        CompositeInnerType::Struct(s) => s.fields.len() <= MAX_WASM_STRUCT_FIELDS
            && fields_are_canonical(&s.fields, len, k),
    }
}

/// Whether two types are of the same kind and both shared or both not.
pub(crate) fn is_same_kind(a: &SubType, b: &SubType) -> (r: bool)
    ensures
        r == same_kind(a@, b@),
{
    a.composite_type.shared == b.composite_type.shared && match (
        &a.composite_type.inner,
        &b.composite_type.inner,
    ) {
        (CompositeInnerType::Func(_), CompositeInnerType::Func(_)) => true,
        (CompositeInnerType::Array(_), CompositeInnerType::Array(_)) => true,
        (CompositeInnerType::Struct(_), CompositeInnerType::Struct(_)) => true,
        _ => false,
    }
}

pub(crate) fn vals_equal(a: &Vec<ValType>, b: &Vec<ValType>) -> (r: bool)
    ensures
        r == (a@ == b@),
{
    if a.len() != b.len() {
        return false;
    }
    let mut i: usize = 0;
    while i < a.len()
        invariant
            i <= a.len(),
            a.len() == b.len(),
            forall|j: int| 0 <= j < i ==> a@[j] == b@[j],
        decreases a.len() - i,
    {
        if a[i] != b[i] {
            return false;
        }
        i += 1;
    }
    assert(a@ =~= b@);
    true
}

pub(crate) fn fields_equal(a: &Vec<FieldType>, b: &Vec<FieldType>) -> (r: bool)
    ensures
        r == (a@ == b@),
{
    if a.len() != b.len() {
        return false;
    }
    let mut i: usize = 0;
    while i < a.len()
        invariant
            i <= a.len(),
            a.len() == b.len(),
            forall|j: int| 0 <= j < i ==> a@[j] == b@[j],
        decreases a.len() - i,
    {
        if a[i] != b[i] {
            return false;
        }
        i += 1;
    }
    assert(a@ =~= b@);
    true
}

/// Whether two types have the same value.
pub(crate) fn sub_types_equal(a: &SubType, b: &SubType) -> (r: bool)
    ensures
        r == (a@ == b@),
{
    if a.is_final != b.is_final || a.supertype_idx != b.supertype_idx || a.composite_type.shared
        != b.composite_type.shared {
        return false;
    }
    match (&a.composite_type.inner, &b.composite_type.inner) {
        (CompositeInnerType::Func(f), CompositeInnerType::Func(g)) => vals_equal(
            &f.params,
            &g.params,
        ) && vals_equal(&f.results, &g.results),
        (CompositeInnerType::Array(x), CompositeInnerType::Array(y)) => *x == *y,
        (CompositeInnerType::Struct(s), CompositeInnerType::Struct(t)) => fields_equal(
            &s.fields,
            &t.fields,
        ),
        _ => false,
    }
}

/// References in canonical form are in range once they are absolute.
pub proof fn lemma_absolute_closed(len: nat, k: nat, ty: CompositeView)
    requires
        composite_canonical(len, k, ty),
        len + k <= u32::MAX,
    ensures
        composite_closed(len + k, absolute_composite(ty, len as int)),
        composite_bounded(absolute_composite(ty, len as int)),
{
    match ty {
        CompositeView::Func { params, results } => {
            assert forall|i: int| 0 <= i < params.len() implies crate::type_list::val_type_closed(
                len + k,
                #[trigger] absolute_vals(params, len as int)[i],
            ) by {
                assert(val_canonical(len, k, params[i]));
            }
            assert forall|i: int| 0 <= i < results.len() implies crate::type_list::val_type_closed(
                len + k,
                #[trigger] absolute_vals(results, len as int)[i],
            ) by {
                assert(val_canonical(len, k, results[i]));
            }
        },
        CompositeView::Array(field) => {},
        CompositeView::Struct { fields } => {
            assert forall|i: int|
                0 <= i < fields.len() implies crate::type_list::storage_type_closed(
                len + k,
                (#[trigger] absolute_fields(fields, len as int)[i]).element_type,
            ) by {
                assert(field_canonical(len, k, fields[i]));
            }
        },
    }
}

/// A type that is closed in a list is closed in every longer list.
pub proof fn lemma_closed_grows(len: nat, longer: nat, ty: CompositeView)
    requires
        composite_closed(len, ty),
        len <= longer,
    ensures
        composite_closed(longer, ty),
{
    match ty {
        CompositeView::Func { params, results } => {
            assert forall|i: int| 0 <= i < params.len() implies crate::type_list::val_type_closed(
                longer,
                #[trigger] params[i],
            ) by {
                assert(crate::type_list::val_type_closed(len, params[i]));
            }
            assert forall|i: int| 0 <= i < results.len() implies crate::type_list::val_type_closed(
                longer,
                #[trigger] results[i],
            ) by {
                assert(crate::type_list::val_type_closed(len, results[i]));
            }
        },
        CompositeView::Array(field) => {},
        CompositeView::Struct { fields } => {
            assert forall|i: int|
                0 <= i < fields.len() implies crate::type_list::storage_type_closed(
                longer,
                (#[trigger] fields[i]).element_type,
            ) by {
                assert(crate::type_list::storage_type_closed(len, fields[i].element_type));
            }
        },
    }
}

/// A list stays in order when a group that can be stored is put at its end.
pub proof fn lemma_append_keeps_order(list: TypeListView, group: Seq<SubTypeView>)
    requires
        list.wf(),
        list.group_ok(group),
        list.types.len() + group.len() <= u32::MAX,
    ensures
        (TypeListView {
            types: list.types + absolute_group(group, list.types.len() as int),
            starts: list.starts.push(list.types.len() as u32),
        }).wf(),
{
    let len = list.types.len();
    let k = group.len();
    let after = TypeListView {
        types: list.types + absolute_group(group, len as int),
        starts: list.starts.push(len as u32),
    };
    assert forall|id: int| 0 <= id < after.types.len() implies #[trigger] stored_type_ok(
        after.types,
        id,
    ) by {
        if id < len {
            assert(stored_type_ok(list.types, id));
            assert(after.types[id] == list.types[id]);
            lemma_closed_grows(len, len + k, list.types[id].inner);
            match list.types[id].supertype_idx {
                Some(UnpackedIndex::Id(p)) => {
                    assert(after.types[p.index as int] == list.types[p.index as int]);
                },
                _ => {},
            }
        } else {
            let j = id - len;
            assert(after.types[id] == absolute_sub(group[j], len as int));
            assert(composite_canonical(len, k, group[j].inner));
            assert(list.supertype_ok(group, j));
            lemma_absolute_closed(len, k, group[j].inner);
            match group[j].supertype_idx {
                Some(UnpackedIndex::Id(p)) => {
                    assert(after.types[p.index as int] == list.types[p.index as int]);
                },
                Some(UnpackedIndex::RecGroup(i)) => {
                    assert(after.types[len + i] == absolute_sub(group[i as int], len as int));
                },
                _ => {},
            }
        }
    }
    assert forall|g: int, h: int| 0 <= g < h < after.starts.len() implies (
    #[trigger] after.starts[g]) < (#[trigger] after.starts[h]) by {
        if h < list.starts.len() {
            assert(list.starts[g] < list.starts[h]);
        } else {
            assert(list.starts[g] < len);
        }
    }
}

} // verus!
