//! The type section: bringing a recursion group of the input into canonical
//! form and adding it to the module.

use vstd::prelude::*;
use crate::error::{BinaryReaderError, IndexSpace, Reason};
use crate::features::Feature;
use crate::limits::{
    MAX_WASM_FUNCTION_PARAMS, MAX_WASM_FUNCTION_RETURNS, MAX_WASM_STRUCT_FIELDS, MAX_WASM_TYPES,
    fits,
};
use crate::module::{Module, ModuleView, lemma_wf_store_grows, verdict};
use crate::sequence::{first_some, lemma_first_some_found, lemma_first_some_none};
use crate::type_list::{TypeList, TypeListView};
use crate::types::{
    CompositeInnerType, CompositeType, CompositeView, CoreTypeId, FieldType, FuncType, HeapType,
    RecGroup, RefType, StorageType, StructType, SubType, SubTypeView, UnpackedIndex, ValType,
};

verus! {

impl ModuleView {
    /// Why a reference in a group of `k` types is refused, if it is: it must
    /// be a type index of the module, and name a type that is declared
    /// before the group or in it.
    pub open spec fn group_index_reason(self, k: nat, idx: UnpackedIndex) -> Option<Reason> {
        match idx {
            UnpackedIndex::Module(i) => if i < self.types.len() + k {
                None
            } else {
                Some(Reason::Unknown { space: IndexSpace::Types, index: i })
            },
            _ => Some(Reason::ResolvedIndexInInput),
        }
    }

    /// A reference in a group in canonical form: the identifier of a type
    /// that was declared before the group, and the position in the group of
    /// one of its own types.
    pub open spec fn canon_index(self, idx: UnpackedIndex) -> UnpackedIndex {
        match idx {
            UnpackedIndex::Module(i) => if i < self.types.len() {
                UnpackedIndex::Id(self.types[i as int])
            } else {
                UnpackedIndex::RecGroup((i - self.types.len()) as u32)
            },
            _ => idx,
        }
    }

    /// Why a value type in a group of `k` types is refused, if it is: a
    /// proposal is missing, or it refers to a type out of range.
    pub open spec fn group_val_reason(self, k: nat, ty: ValType) -> Option<Reason> {
        match self.features.missing_for_value_type(ty) {
            Some(f) => Some(Reason::Disabled(f)),
            None => match ty {
                ValType::Ref(r) => match r.heap_type {
                    HeapType::Concrete(idx) => self.group_index_reason(k, idx),
                    _ => None,
                },
                _ => None,
            },
        }
    }

    pub open spec fn canon_val(self, ty: ValType) -> ValType {
        match ty {
            ValType::Ref(r) => match r.heap_type {
                HeapType::Concrete(idx) => ValType::Ref(
                    RefType {
                        nullable: r.nullable,
                        heap_type: HeapType::Concrete(self.canon_index(idx)),
                    },
                ),
                _ => ty,
            },
            _ => ty,
        }
    }

    pub open spec fn group_field_reason(self, k: nat, field: FieldType) -> Option<Reason> {
        match field.element_type {
            StorageType::Val(v) => self.group_val_reason(k, v),
            _ => None,
        }
    }

    pub open spec fn canon_field(self, field: FieldType) -> FieldType {
        match field.element_type {
            StorageType::Val(v) => FieldType {
                element_type: StorageType::Val(self.canon_val(v)),
                mutable: field.mutable,
            },
            _ => field,
        }
    }

    /// The first value type of a list that is refused.
    pub open spec fn group_vals_reason(self, k: nat, tys: Seq<ValType>) -> Option<Reason> {
        first_some(Seq::new(tys.len(), |i: int| self.group_val_reason(k, tys[i])))
    }

    pub open spec fn canon_vals(self, tys: Seq<ValType>) -> Seq<ValType> {
        Seq::new(tys.len(), |i: int| self.canon_val(tys[i]))
    }

    /// The first field of a list that is refused.
    pub open spec fn group_fields_reason(self, k: nat, fields: Seq<FieldType>) -> Option<Reason> {
        first_some(Seq::new(fields.len(), |i: int| self.group_field_reason(k, fields[i])))
    }

    pub open spec fn canon_fields(self, fields: Seq<FieldType>) -> Seq<FieldType> {
        Seq::new(fields.len(), |i: int| self.canon_field(fields[i]))
    }

    /// Why a composite type in a group of `k` types is refused, if it is. A
    /// function type may not have too many parameters or results, needs
    /// multiple values for more than one result, and its parameters and then
    /// its results must be allowed. Arrays and structs need garbage
    /// collection; a struct may not have too many fields.
    pub open spec fn composite_reason(self, k: nat, ty: CompositeView) -> Option<Reason> {
        match ty {
            CompositeView::Func { params, results } => if params.len() > MAX_WASM_FUNCTION_PARAMS
                || results.len() > MAX_WASM_FUNCTION_RETURNS {
                Some(Reason::FunctionSignatureTooLong)
            } else if results.len() > 1 && !self.features.has(Feature::MultiValue) {
                Some(Reason::Disabled(Feature::MultiValue))
            } else if self.group_vals_reason(k, params) is Some {
                self.group_vals_reason(k, params)
            } else {
                self.group_vals_reason(k, results)
            },
            CompositeView::Array(field) => if !self.features.has(Feature::Gc) {
                Some(Reason::Disabled(Feature::Gc))
            } else {
                self.group_field_reason(k, field)
            },
            CompositeView::Struct { fields } => if !self.features.has(Feature::Gc) {
                Some(Reason::Disabled(Feature::Gc))
            } else if fields.len() > MAX_WASM_STRUCT_FIELDS {
                Some(Reason::TooManyStructFields)
            } else {
                self.group_fields_reason(k, fields)
            },
        }
    }

    pub open spec fn canon_composite(self, ty: CompositeView) -> CompositeView {
        match ty {
            CompositeView::Func { params, results } => CompositeView::Func {
                params: self.canon_vals(params),
                results: self.canon_vals(results),
            },
            CompositeView::Array(field) => CompositeView::Array(self.canon_field(field)),
            CompositeView::Struct { fields } => CompositeView::Struct {
                fields: self.canon_fields(fields),
            },
        }
    }

    /// Why a type definition in a group of `k` types is refused, if it is. In
    /// this order: it declares a supertype or is not final, and garbage
    /// collection is off; its supertype is out of range; it is shared, and
    /// shared-everything threads are off; its composite type is refused.
    pub open spec fn sub_type_reason(self, k: nat, ty: SubTypeView) -> Option<Reason> {
        if (ty.supertype_idx is Some || !ty.is_final) && !self.features.has(Feature::Gc) {
            Some(Reason::Disabled(Feature::Gc))
        } else if ty.supertype_idx is Some && self.group_index_reason(k, ty.supertype_idx->0)
            is Some {
            self.group_index_reason(k, ty.supertype_idx->0)
        } else if ty.shared && !self.features.has(Feature::SharedEverythingThreads) {
            Some(Reason::Disabled(Feature::SharedEverythingThreads))
        } else {
            self.composite_reason(k, ty.inner)
        }
    }

    pub open spec fn canon_sub(self, ty: SubTypeView) -> SubTypeView {
        SubTypeView {
            is_final: ty.is_final,
            supertype_idx: match ty.supertype_idx {
                Some(idx) => Some(self.canon_index(idx)),
                None => None,
            },
            shared: ty.shared,
            inner: self.canon_composite(ty.inner),
        }
    }

    /// A group of the input in canonical form.
    pub open spec fn canon_group(self, group: Seq<SubTypeView>) -> Seq<SubTypeView> {
        Seq::new(group.len(), |i: int| self.canon_sub(group[i]))
    }

    /// The first type definition of a group that is refused.
    pub open spec fn group_reason(self, group: Seq<SubTypeView>) -> Option<Reason> {
        first_some(Seq::new(group.len(), |i: int| self.sub_type_reason(group.len(), group[i])))
    }

    /// Why a recursion group is refused, if it is. In this order: the module
    /// would have too many types, where the limit applies; the group has
    /// more than one type, and garbage collection is off; a type definition
    /// is refused; the type list refuses the group.
    pub open spec fn add_types_reason(
        self,
        list: TypeListView,
        group: Seq<SubTypeView>,
        check_limit: bool,
    ) -> Option<Reason> {
        if check_limit && !fits(self.types.len() as int, group.len() as int, MAX_WASM_TYPES as int) {
            Some(Reason::TooMany(IndexSpace::Types))
        } else if group.len() > 1 && !self.features.has(Feature::Gc) {
            Some(Reason::Disabled(Feature::Gc))
        } else if self.group_reason(group) is Some {
            self.group_reason(group)
        } else {
            list.intern_reason(self.canon_group(group))
        }
    }

    /// The module after an accepted recursion group: its types get the next
    /// type indices.
    pub open spec fn with_types(self, list: TypeListView, group: Seq<SubTypeView>) -> ModuleView {
        let start = list.interned_start(self.canon_group(group));
        ModuleView {
            types: self.types + Seq::new(
                group.len(),
                |j: int| CoreTypeId { index: (start + j) as u32 },
            ),
            ..self
        }
    }
}

impl Module {
    fn canon_index(&self, idx: UnpackedIndex, k: usize, offset: usize) -> (res: Result<
        UnpackedIndex,
        BinaryReaderError,
    >)
        ensures
            match res {
                Ok(c) => self@.group_index_reason(k as nat, idx) is None && c == self@.canon_index(
                    idx,
                ),
                Err(e) => Some(e.reason) == self@.group_index_reason(k as nat, idx) && e.offset
                    == offset,
            },
    {
        match idx {
            UnpackedIndex::Module(i) => {
                let n: usize = self.types.len();
                if (i as usize) < n {
                    Ok(UnpackedIndex::Id(self.types[i as usize]))
                } else if (i as usize) - n < k {
                    Ok(UnpackedIndex::RecGroup(((i as usize) - n) as u32))
                } else {
                    Err(
                        BinaryReaderError::new(
                            Reason::Unknown { space: IndexSpace::Types, index: i },
                            offset,
                        ),
                    )
                }
            },
            _ => Err(BinaryReaderError::new(Reason::ResolvedIndexInInput, offset)),
        }
    }

    fn canon_val(&self, ty: ValType, k: usize, offset: usize) -> (res: Result<
        ValType,
        BinaryReaderError,
    >)
        ensures
            match res {
                Ok(c) => self@.group_val_reason(k as nat, ty) is None && c == self@.canon_val(ty),
                Err(e) => Some(e.reason) == self@.group_val_reason(k as nat, ty) && e.offset
                    == offset,
            },
    {
        if let Err(f) = self.features.check_value_type(ty) {
            return Err(BinaryReaderError::new(Reason::Disabled(f), offset));
        }
        match ty {
            ValType::Ref(r) => match r.heap_type {
                HeapType::Concrete(idx) => {
                    let c = self.canon_index(idx, k, offset)?;
                    Ok(ValType::Ref(RefType { nullable: r.nullable, heap_type: HeapType::Concrete(c) }))
                },
                _ => Ok(ty),
            },
            _ => Ok(ty),
        }
    }

    fn canon_field(&self, field: FieldType, k: usize, offset: usize) -> (res: Result<
        FieldType,
        BinaryReaderError,
    >)
        ensures
            match res {
                Ok(c) => self@.group_field_reason(k as nat, field) is None && c
                    == self@.canon_field(field),
                Err(e) => Some(e.reason) == self@.group_field_reason(k as nat, field) && e.offset
                    == offset,
            },
    {
        match field.element_type {
            StorageType::Val(v) => {
                let c = self.canon_val(v, k, offset)?;
                Ok(FieldType { element_type: StorageType::Val(c), mutable: field.mutable })
            },
            _ => Ok(field),
        }
    }

    fn canon_vals(&self, tys: &Vec<ValType>, k: usize, offset: usize) -> (res: Result<
        Vec<ValType>,
        BinaryReaderError,
    >)
        ensures
            match res {
                Ok(c) => self@.group_vals_reason(k as nat, tys@) is None && c@
                    == self@.canon_vals(tys@),
                Err(e) => Some(e.reason) == self@.group_vals_reason(k as nat, tys@) && e.offset
                    == offset,
            },
    {
        let ghost checks = Seq::new(tys@.len(), |i: int| self@.group_val_reason(k as nat, tys@[i]));
        let mut out: Vec<ValType> = Vec::new();
        let mut i: usize = 0;
        while i < tys.len()
            invariant
                i <= tys.len(),
                checks == Seq::new(tys@.len(), |i: int| self@.group_val_reason(k as nat, tys@[i])),
                forall|j: int| 0 <= j < i ==> (#[trigger] checks[j]) is None,
                out@.len() == i,
                forall|j: int| 0 <= j < i ==> out@[j] == self@.canon_val(tys@[j]),
            decreases tys.len() - i,
        {
            match self.canon_val(tys[i], k, offset) {
                Ok(c) => {
                    out.push(c);
                },
                Err(e) => {
                    proof {
                        lemma_first_some_found(checks, i as int);
                    }
                    return Err(e);
                },
            }
            i += 1;
        }
        proof {
            lemma_first_some_none(checks);
        }
        assert(out@ =~= self@.canon_vals(tys@));
        Ok(out)
    }

    fn canon_fields(&self, fields: &Vec<FieldType>, k: usize, offset: usize) -> (res: Result<
        Vec<FieldType>,
        BinaryReaderError,
    >)
        ensures
            match res {
                Ok(c) => self@.group_fields_reason(k as nat, fields@) is None && c@
                    == self@.canon_fields(fields@),
                Err(e) => Some(e.reason) == self@.group_fields_reason(k as nat, fields@)
                    && e.offset == offset,
            },
    {
        let ghost checks = Seq::new(
            fields@.len(),
            |i: int| self@.group_field_reason(k as nat, fields@[i]),
        );
        let mut out: Vec<FieldType> = Vec::new();
        let mut i: usize = 0;
        while i < fields.len()
            invariant
                i <= fields.len(),
                checks == Seq::new(
                    fields@.len(),
                    |i: int| self@.group_field_reason(k as nat, fields@[i]),
                ),
                forall|j: int| 0 <= j < i ==> (#[trigger] checks[j]) is None,
                out@.len() == i,
                forall|j: int| 0 <= j < i ==> out@[j] == self@.canon_field(fields@[j]),
            decreases fields.len() - i,
        {
            match self.canon_field(fields[i], k, offset) {
                Ok(c) => {
                    out.push(c);
                },
                Err(e) => {
                    proof {
                        lemma_first_some_found(checks, i as int);
                    }
                    return Err(e);
                },
            }
            i += 1;
        }
        proof {
            lemma_first_some_none(checks);
        }
        assert(out@ =~= self@.canon_fields(fields@));
        Ok(out)
    }

    fn canon_composite(&self, ty: &CompositeInnerType, k: usize, offset: usize) -> (res: Result<
        CompositeInnerType,
        BinaryReaderError,
    >)
        ensures
            match res {
                Ok(c) => self@.composite_reason(k as nat, ty@) is None && c@
                    == self@.canon_composite(ty@),
                Err(e) => Some(e.reason) == self@.composite_reason(k as nat, ty@) && e.offset
                    == offset,
            },
    {
        match ty {
            CompositeInnerType::Func(f) => {
                if f.params.len() > MAX_WASM_FUNCTION_PARAMS || f.results.len()
                    > MAX_WASM_FUNCTION_RETURNS {
                    return Err(BinaryReaderError::new(Reason::FunctionSignatureTooLong, offset));
                }
                if f.results.len() > 1 && !self.features.contains(Feature::MultiValue) {
                    return Err(
                        BinaryReaderError::new(Reason::Disabled(Feature::MultiValue), offset),
                    );
                }
                let params = self.canon_vals(&f.params, k, offset)?;
                let results = self.canon_vals(&f.results, k, offset)?;
                Ok(CompositeInnerType::Func(FuncType { params, results }))
            },
            CompositeInnerType::Array(a) => {
                if !self.features.gc() {
                    return Err(BinaryReaderError::new(Reason::Disabled(Feature::Gc), offset));
                }
                let field = self.canon_field(*a, k, offset)?;
                Ok(CompositeInnerType::Array(field))
            },
            CompositeInnerType::Struct(s) => {
                if !self.features.gc() {
                    return Err(BinaryReaderError::new(Reason::Disabled(Feature::Gc), offset));
                }
                if s.fields.len() > MAX_WASM_STRUCT_FIELDS {
                    return Err(BinaryReaderError::new(Reason::TooManyStructFields, offset));
                }
                let fields = self.canon_fields(&s.fields, k, offset)?;
                Ok(CompositeInnerType::Struct(StructType { fields }))
            },
        }
    }

    fn canon_sub(&self, ty: &SubType, k: usize, offset: usize) -> (res: Result<
        SubType,
        BinaryReaderError,
    >)
        ensures
            match res {
                Ok(c) => self@.sub_type_reason(k as nat, ty@) is None && c@ == self@.canon_sub(
                    ty@,
                ),
                Err(e) => Some(e.reason) == self@.sub_type_reason(k as nat, ty@) && e.offset
                    == offset,
            },
    {
        if (ty.supertype_idx.is_some() || !ty.is_final) && !self.features.gc() {
            return Err(BinaryReaderError::new(Reason::Disabled(Feature::Gc), offset));
        }
        let supertype_idx = match ty.supertype_idx {
            Some(idx) => Some(self.canon_index(idx, k, offset)?),
            None => None,
        };
        if ty.composite_type.shared && !self.features.shared_everything_threads() {
            return Err(
                BinaryReaderError::new(Reason::Disabled(Feature::SharedEverythingThreads), offset),
            );
        }
        let inner = self.canon_composite(&ty.composite_type.inner, k, offset)?;
        Ok(
            SubType {
                is_final: ty.is_final,
                supertype_idx,
                composite_type: CompositeType { inner, shared: ty.composite_type.shared },
            },
        )
    }

    /// Brings a recursion group of the input into canonical form.
    fn canon_group(&self, group: &RecGroup, offset: usize) -> (res: Result<
        RecGroup,
        BinaryReaderError,
    >)
        ensures
            match res {
                Ok(c) => self@.group_reason(group@) is None && c@ == self@.canon_group(group@),
                Err(e) => Some(e.reason) == self@.group_reason(group@) && e.offset == offset,
            },
    {
        let k: usize = group.types.len();
        let ghost checks = Seq::new(
            group@.len(),
            |i: int| self@.sub_type_reason(group@.len(), group@[i]),
        );
        let mut out: Vec<SubType> = Vec::new();
        let mut i: usize = 0;
        while i < k
            invariant
                i <= k,
                k == group.types@.len(),
                k == group@.len(),
                checks == Seq::new(
                    group@.len(),
                    |i: int| self@.sub_type_reason(group@.len(), group@[i]),
                ),
                forall|j: int| 0 <= j < i ==> (#[trigger] checks[j]) is None,
                out@.len() == i,
                forall|j: int| 0 <= j < i ==> out@[j]@ == self@.canon_sub(group@[j]),
            decreases k - i,
        {
            match self.canon_sub(&group.types[i], k, offset) {
                Ok(c) => {
                    out.push(c);
                },
                Err(e) => {
                    proof {
                        lemma_first_some_found(checks, i as int);
                    }
                    return Err(e);
                },
            }
            i += 1;
        }
        proof {
            lemma_first_some_none(checks);
        }
        let canonical = RecGroup { types: out };
        assert(canonical@ =~= self@.canon_group(group@));
        Ok(canonical)
    }

    /// Adds the types of a recursion group to the module: the group is
    /// brought into canonical form and stored in the type list, and its types
    /// get the next type indices of the module. `check_limit` says whether
    /// the limit on the number of types applies.
    pub fn add_types(
        &mut self,
        rec_group: RecGroup,
        types: &mut TypeList,
        offset: usize,
        check_limit: bool,
    ) -> (res: Result<(), BinaryReaderError>)
        requires
            old(self).wf(old(types)),
            old(types).wf(),
        ensures
            res == verdict(
                old(self)@.add_types_reason(old(types)@, rec_group@, check_limit),
                offset,
            ),
            final(types)@ == if res is Ok {
                old(types)@.with_group(old(self)@.canon_group(rec_group@))
            } else {
                old(types)@
            },
            final(self)@ == if res is Ok {
                old(self)@.with_types(old(types)@, rec_group@)
            } else {
                old(self)@
            },
            final(types).wf(),
            final(self).wf(final(types)),
            old(types)@.types.len() <= final(types)@.types.len(),
            forall|i: int|
                0 <= i < old(types)@.types.len() ==> final(types)@.types[i] == old(types)@.types[i],
    {
        let n: usize = self.types.len();
        let k: usize = rec_group.types.len();
        if check_limit && !(n <= MAX_WASM_TYPES && k <= MAX_WASM_TYPES - n) {
            return Err(BinaryReaderError::new(Reason::TooMany(IndexSpace::Types), offset));
        }
        if k > 1 && !self.features.gc() {
            return Err(BinaryReaderError::new(Reason::Disabled(Feature::Gc), offset));
        }
        let canonical = self.canon_group(&rec_group, offset)?;
        let ghost before = self@;
        let ghost store = types@.types;
        let start = types.intern(&canonical, offset)?;
        proof {
            lemma_wf_store_grows(before, store, types@.types);
        }
        let mut j: usize = 0;
        while j < k
            invariant
                j <= k,
                k == rec_group@.len(),
                start.index + k <= types@.types.len(),
                types@.types.len() <= u32::MAX,
                before.wf(types@.types),
                self@ == (ModuleView {
                    types: before.types + Seq::new(
                        j as nat,
                        |i: int| CoreTypeId { index: (start.index + i) as u32 },
                    ),
                    ..before
                }),
            decreases k - j,
        {
            self.types.push(CoreTypeId { index: start.index + j as u32 });
            assert(self@.types =~= before.types + Seq::new(
                (j + 1) as nat,
                |i: int| CoreTypeId { index: (start.index + i) as u32 },
            ));
            j += 1;
        }
        Ok(())
    }
}

} // verus!
