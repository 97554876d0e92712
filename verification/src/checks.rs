//! The rules for the types of tables, memories, globals and tags.

use vstd::prelude::*;
use crate::error::{BinaryReaderError, IndexSpace, Reason};
use crate::features::Feature;
use crate::limits::{
    max_wasm_memory32_pages, max_wasm_memory64_pages, memory32_pages, memory64_pages,
};
use crate::module::{Module, ModuleView, entity_closed, verdict};
use crate::type_list::{TypeList, heap_type_closed, ref_is_shared, val_is_shared, val_type_closed};
use crate::types::{
    EntityType, GlobalType, HeapType, MemoryType, RefType, SubTypeView, TableType, TagType,
    TypeRef, UnpackedIndex, ValType,
};

verus! {

/// Why limits are not allowed, if they are not: the initial size is greater
/// than the maximum.
pub open spec fn limits_reason(initial: u64, maximum: Option<u64>) -> Option<Reason> {
    match maximum {
        Some(max) => if initial > max {
            Some(Reason::MinimumExceedsMaximum)
        } else {
            None
        },
        None => None,
    }
}

/// The binary logarithm of the page size of a memory.
pub open spec fn page_size_log2(ty: MemoryType) -> u32 {
    match ty.page_size_log2 {
        Some(p) => p,
        None => 16,
    }
}

/// The largest number of pages that a memory of this type may have.
pub open spec fn page_ceiling(ty: MemoryType) -> u64 {
    if ty.memory64 {
        memory64_pages(page_size_log2(ty))
    } else {
        memory32_pages(page_size_log2(ty))
    }
}

/// The largest number of elements that a table of this type may have.
pub open spec fn entry_ceiling(ty: TableType) -> u64 {
    if ty.table64 {
        u64::MAX
    } else {
        0xffff_ffff
    }
}

impl ModuleView {
    /// Why a heap type in the input cannot be resolved, if it cannot: it
    /// names a type that the module has not declared, or it is resolved
    /// already.
    pub open spec fn heap_type_reason(self, ty: HeapType) -> Option<Reason> {
        match ty {
            HeapType::Abstract { .. } => None,
            HeapType::Concrete(UnpackedIndex::Module(idx)) => if idx < self.types.len() {
                None
            } else {
                Some(Reason::Unknown { space: IndexSpace::Types, index: idx })
            },
            HeapType::Concrete(_) => Some(Reason::ResolvedIndexInInput),
        }
    }

    /// A heap type with the module's index for a type replaced by the
    /// identifier of that type.
    pub open spec fn resolve_heap_type(self, ty: HeapType) -> HeapType {
        match ty {
            HeapType::Concrete(UnpackedIndex::Module(idx)) => if idx < self.types.len() {
                HeapType::Concrete(UnpackedIndex::Id(self.types[idx as int]))
            } else {
                ty
            },
            _ => ty,
        }
    }

    /// Why a reference type is refused, if it is: a proposal is missing, or
    /// its heap type cannot be resolved.
    pub open spec fn ref_type_reason(self, ty: RefType) -> Option<Reason> {
        match self.features.missing_for_ref_type(ty) {
            Some(f) => Some(Reason::Disabled(f)),
            None => self.heap_type_reason(ty.heap_type),
        }
    }

    pub open spec fn resolve_ref_type(self, ty: RefType) -> RefType {
        RefType { nullable: ty.nullable, heap_type: self.resolve_heap_type(ty.heap_type) }
    }

    /// Why a value type is refused, if it is.
    pub open spec fn value_type_reason(self, ty: ValType) -> Option<Reason> {
        match ty {
            ValType::Ref(r) => self.ref_type_reason(r),
            _ => match self.features.missing_for_value_type(ty) {
                Some(f) => Some(Reason::Disabled(f)),
                None => None,
            },
        }
    }

    pub open spec fn resolve_value_type(self, ty: ValType) -> ValType {
        match ty {
            ValType::Ref(r) => ValType::Ref(self.resolve_ref_type(r)),
            _ => ty,
        }
    }

    /// Why a memory type is refused, if it is. In this order: the initial
    /// size is over the maximum; a 64-bit memory without that proposal; a
    /// shared memory without threads; a page size without that proposal, or
    /// one that is neither one byte nor 64 KiB; more pages than the index
    /// type can address; a shared memory without a maximum.
    pub open spec fn memory_type_reason(self, ty: MemoryType) -> Option<Reason> {
        if limits_reason(ty.initial, ty.maximum) is Some {
            limits_reason(ty.initial, ty.maximum)
        } else if ty.memory64 && !self.features.has(Feature::Memory64) {
            Some(Reason::Disabled(Feature::Memory64))
        } else if ty.shared && !self.features.has(Feature::Threads) {
            Some(Reason::Disabled(Feature::Threads))
        } else if ty.page_size_log2 is Some && !self.features.has(Feature::CustomPageSizes) {
            Some(Reason::Disabled(Feature::CustomPageSizes))
        } else if page_size_log2(ty) != 0 && page_size_log2(ty) != 16 {
            Some(Reason::InvalidPageSize)
        } else if ty.initial > page_ceiling(ty) {
            Some(Reason::MemoryTooLarge)
        } else if ty.maximum is Some && ty.maximum->0 > page_ceiling(ty) {
            Some(Reason::MemoryTooLarge)
        } else if ty.shared && ty.maximum is None {
            Some(Reason::SharedMemoryWithoutMaximum)
        } else {
            None
        }
    }

    /// Why the element type of a table is refused, if it is. `funcref` is
    /// always allowed.
    pub open spec fn element_type_reason(self, ty: RefType) -> Option<Reason> {
        if ty == RefType::spec_funcref() {
            None
        } else {
            self.ref_type_reason(ty)
        }
    }

    /// Why a table type is refused, if it is. In this order: the element
    /// type is refused; the initial size is over the maximum; a 64-bit table
    /// without 64-bit memories; a shared table without shared-everything
    /// threads; more elements than the index type can address; a shared table
    /// of elements that are not shared.
    pub open spec fn table_type_reason(self, store: Seq<SubTypeView>, ty: TableType) -> Option<
        Reason,
    > {
        if self.element_type_reason(ty.element_type) is Some {
            self.element_type_reason(ty.element_type)
        } else if limits_reason(ty.initial, ty.maximum) is Some {
            limits_reason(ty.initial, ty.maximum)
        } else if ty.table64 && !self.features.has(Feature::Memory64) {
            Some(Reason::Disabled(Feature::Memory64))
        } else if ty.shared && !self.features.has(Feature::SharedEverythingThreads) {
            Some(Reason::Disabled(Feature::SharedEverythingThreads))
        } else if ty.initial > entry_ceiling(ty) {
            Some(Reason::TableTooLarge)
        } else if ty.maximum is Some && ty.maximum->0 > entry_ceiling(ty) {
            Some(Reason::TableTooLarge)
        } else if ty.shared && !ref_is_shared(store, self.resolve_ref_type(ty.element_type)) {
            Some(Reason::SharedTableElement)
        } else {
            None
        }
    }

    pub open spec fn resolve_table_type(self, ty: TableType) -> TableType {
        TableType {
            element_type: self.resolve_ref_type(ty.element_type),
            table64: ty.table64,
            initial: ty.initial,
            maximum: ty.maximum,
            shared: ty.shared,
        }
    }

    /// Why a global type is refused, if it is. In this order: the content
    /// type is refused; a shared global without shared-everything threads; a
    /// shared global of a type that is not shared.
    pub open spec fn global_type_reason(self, store: Seq<SubTypeView>, ty: GlobalType) -> Option<
        Reason,
    > {
        if self.value_type_reason(ty.content_type) is Some {
            self.value_type_reason(ty.content_type)
        } else if ty.shared && !self.features.has(Feature::SharedEverythingThreads) {
            Some(Reason::Disabled(Feature::SharedEverythingThreads))
        } else if ty.shared && !val_is_shared(store, self.resolve_value_type(ty.content_type)) {
            Some(Reason::SharedGlobalContent)
        } else {
            None
        }
    }

    pub open spec fn resolve_global_type(self, ty: GlobalType) -> GlobalType {
        GlobalType {
            content_type: self.resolve_value_type(ty.content_type),
            mutable: ty.mutable,
            shared: ty.shared,
        }
    }

    /// Why a tag type is refused, if it is. In this order: exceptions are
    /// off; its type is no function type; the function type has results and
    /// stack switching is off.
    pub open spec fn tag_type_reason(self, store: Seq<SubTypeView>, ty: TagType) -> Option<Reason> {
        if !self.features.has(Feature::Exceptions) {
            Some(Reason::Disabled(Feature::Exceptions))
        } else if self.func_type_reason(store, ty.func_type_idx) is Some {
            self.func_type_reason(store, ty.func_type_idx)
        } else if store[self.types[ty.func_type_idx as int].index as int].inner->results.len() > 0
            && !self.features.has(Feature::StackSwitching) {
            Some(Reason::Disabled(Feature::StackSwitching))
        } else {
            None
        }
    }

    /// Why the type of an import is refused, if it is.
    pub open spec fn type_ref_reason(self, store: Seq<SubTypeView>, ty: TypeRef) -> Option<Reason> {
        match ty {
            TypeRef::Func(idx) => self.func_type_reason(store, idx),
            TypeRef::Table(t) => self.table_type_reason(store, t),
            TypeRef::Memory(m) => self.memory_type_reason(m),
            TypeRef::Tag(t) => self.tag_type_reason(store, t),
            TypeRef::Global(g) => self.global_type_reason(store, g),
        }
    }

    /// The type of an import with its type indices resolved.
    pub open spec fn resolve_type_ref(self, ty: TypeRef) -> TypeRef {
        match ty {
            TypeRef::Table(t) => TypeRef::Table(self.resolve_table_type(t)),
            TypeRef::Global(g) => TypeRef::Global(self.resolve_global_type(g)),
            _ => ty,
        }
    }

    /// The type of the entity that an import brings.
    pub open spec fn entity_of(self, ty: TypeRef) -> EntityType {
        match ty {
            TypeRef::Func(idx) => EntityType::Func(self.types[idx as int]),
            TypeRef::Table(t) => EntityType::Table(self.resolve_table_type(t)),
            TypeRef::Memory(m) => EntityType::Memory(m),
            TypeRef::Tag(t) => EntityType::Tag(self.types[t.func_type_idx as int]),
            TypeRef::Global(g) => EntityType::Global(self.resolve_global_type(g)),
        }
    }
}

/// A heap type that the module accepts refers, once resolved, to a type in
/// the list.
pub proof fn lemma_resolved_heap_closed(m: ModuleView, store: Seq<SubTypeView>, ty: HeapType)
    requires
        m.wf(store),
        m.heap_type_reason(ty) is None,
    ensures
        heap_type_closed(store.len(), m.resolve_heap_type(ty)),
{
}

/// A value type that the module accepts refers, once resolved, to nothing
/// outside the list.
pub proof fn lemma_resolved_value_closed(m: ModuleView, store: Seq<SubTypeView>, ty: ValType)
    requires
        m.wf(store),
        m.value_type_reason(ty) is None,
    ensures
        val_type_closed(store.len(), m.resolve_value_type(ty)),
{
}

/// The entity that an accepted import brings refers to nothing outside the
/// list.
pub proof fn lemma_entity_of_closed(m: ModuleView, store: Seq<SubTypeView>, ty: TypeRef)
    requires
        m.wf(store),
        m.type_ref_reason(store, ty) is None,
    ensures
        entity_closed(store, m.entity_of(ty)),
{
}

impl Module {
    /// Checks that the initial size is not over the maximum.
    pub fn check_limits(&self, initial: u64, maximum: Option<u64>, offset: usize) -> (res: Result<
        (),
        BinaryReaderError,
    >)
        ensures
            res == verdict(limits_reason(initial, maximum), offset),
    {
        if let Some(max) = maximum {
            if initial > max {
                return Err(BinaryReaderError::new(Reason::MinimumExceedsMaximum, offset));
            }
        }
        Ok(())
    }

    /// Checks a heap type of the input and replaces the module's index for a
    /// type by the identifier of that type.
    pub fn check_heap_type(&self, ty: &mut HeapType, offset: usize) -> (res: Result<
        (),
        BinaryReaderError,
    >)
        ensures
            res == verdict(self@.heap_type_reason(*old(ty)), offset),
            *final(ty) == if res is Ok {
                self@.resolve_heap_type(*old(ty))
            } else {
                *old(ty)
            },
    {
        match *ty {
            HeapType::Abstract { .. } => Ok(()),
            HeapType::Concrete(UnpackedIndex::Module(idx)) => {
                let id = self.type_id_at(idx, offset)?;
                *ty = HeapType::Concrete(UnpackedIndex::Id(id));
                Ok(())
            },
            HeapType::Concrete(_) => Err(
                BinaryReaderError::new(Reason::ResolvedIndexInInput, offset),
            ),
        }
    }

    /// Checks a reference type of the input against the proposals and
    /// resolves its heap type.
    pub fn check_ref_type(&self, ty: &mut RefType, offset: usize) -> (res: Result<
        (),
        BinaryReaderError,
    >)
        ensures
            res == verdict(self@.ref_type_reason(*old(ty)), offset),
            *final(ty) == if res is Ok {
                self@.resolve_ref_type(*old(ty))
            } else {
                *old(ty)
            },
    {
        if let Err(f) = self.features.check_ref_type(*ty) {
            return Err(BinaryReaderError::new(Reason::Disabled(f), offset));
        }
        let mut hty: HeapType = ty.heap_type;
        self.check_heap_type(&mut hty, offset)?;
        *ty = RefType { nullable: ty.nullable, heap_type: hty };
        Ok(())
    }

    /// Checks a value type of the input against the proposals and resolves
    /// the heap type of a reference.
    pub fn check_value_type(&self, ty: &mut ValType, offset: usize) -> (res: Result<
        (),
        BinaryReaderError,
    >)
        ensures
            res == verdict(self@.value_type_reason(*old(ty)), offset),
            *final(ty) == if res is Ok {
                self@.resolve_value_type(*old(ty))
            } else {
                *old(ty)
            },
    {
        match *ty {
            ValType::Ref(r) => {
                let mut rt: RefType = r;
                self.check_ref_type(&mut rt, offset)?;
                *ty = ValType::Ref(rt);
                Ok(())
            },
            _ => match self.features.check_value_type(*ty) {
                Ok(()) => Ok(()),
                Err(f) => Err(BinaryReaderError::new(Reason::Disabled(f), offset)),
            },
        }
    }

    /// Checks a memory type.
    pub fn check_memory_type(&self, ty: &MemoryType, offset: usize) -> (res: Result<
        (),
        BinaryReaderError,
    >)
        ensures
            res == verdict(self@.memory_type_reason(*ty), offset),
    {
        self.check_limits(ty.initial, ty.maximum, offset)?;
        if ty.memory64 && !self.features.memory64() {
            return Err(BinaryReaderError::new(Reason::Disabled(Feature::Memory64), offset));
        }
        if ty.shared && !self.features.threads() {
            return Err(BinaryReaderError::new(Reason::Disabled(Feature::Threads), offset));
        }
        let log2: u32 = match ty.page_size_log2 {
            Some(p) => {
                if !self.features.custom_page_sizes() {
                    return Err(
                        BinaryReaderError::new(Reason::Disabled(Feature::CustomPageSizes), offset),
                    );
                }
                if p != 0 && p != 16 {
                    return Err(BinaryReaderError::new(Reason::InvalidPageSize, offset));
                }
                p
            },
            None => 16,
        };
        let true_maximum: u64 = if ty.memory64 {
            max_wasm_memory64_pages(log2)
        } else {
            max_wasm_memory32_pages(log2)
        };
        if ty.initial > true_maximum {
            return Err(BinaryReaderError::new(Reason::MemoryTooLarge, offset));
        }
        if let Some(maximum) = ty.maximum {
            if maximum > true_maximum {
                return Err(BinaryReaderError::new(Reason::MemoryTooLarge, offset));
            }
        }
        if ty.shared && ty.maximum.is_none() {
            return Err(BinaryReaderError::new(Reason::SharedMemoryWithoutMaximum, offset));
        }
        Ok(())
    }

    /// Checks a table type and resolves its element type.
    pub fn check_table_type(&self, ty: &mut TableType, types: &TypeList, offset: usize) -> (res:
        Result<(), BinaryReaderError>)
        ensures
            res == verdict(self@.table_type_reason(types@.types, *old(ty)), offset),
            *final(ty) == if res is Ok {
                self@.resolve_table_type(*old(ty))
            } else {
                *old(ty)
            },
    {
        let mut element: RefType = ty.element_type;
        if element != RefType::funcref() {
            self.check_ref_type(&mut element, offset)?;
        }
        self.check_limits(ty.initial, ty.maximum, offset)?;
        if ty.table64 && !self.features.memory64() {
            return Err(BinaryReaderError::new(Reason::Disabled(Feature::Memory64), offset));
        }
        if ty.shared && !self.features.shared_everything_threads() {
            return Err(
                BinaryReaderError::new(Reason::Disabled(Feature::SharedEverythingThreads), offset),
            );
        }
        let true_maximum: u64 = if ty.table64 {
            u64::MAX
        } else {
            0xffff_ffff
        };
        if ty.initial > true_maximum {
            return Err(BinaryReaderError::new(Reason::TableTooLarge, offset));
        }
        if let Some(maximum) = ty.maximum {
            if maximum > true_maximum {
                return Err(BinaryReaderError::new(Reason::TableTooLarge, offset));
            }
        }
        if ty.shared && !types.reftype_is_shared(element) {
            return Err(BinaryReaderError::new(Reason::SharedTableElement, offset));
        }
        ty.element_type = element;
        Ok(())
    }

    /// Checks a global type and resolves its content type.
    pub fn check_global_type(&self, ty: &mut GlobalType, types: &TypeList, offset: usize) -> (res:
        Result<(), BinaryReaderError>)
        ensures
            res == verdict(self@.global_type_reason(types@.types, *old(ty)), offset),
            *final(ty) == if res is Ok {
                self@.resolve_global_type(*old(ty))
            } else {
                *old(ty)
            },
    {
        let mut content: ValType = ty.content_type;
        self.check_value_type(&mut content, offset)?;
        if ty.shared && !self.features.shared_everything_threads() {
            return Err(
                BinaryReaderError::new(Reason::Disabled(Feature::SharedEverythingThreads), offset),
            );
        }
        if ty.shared && !types.valtype_is_shared(content) {
            return Err(BinaryReaderError::new(Reason::SharedGlobalContent, offset));
        }
        ty.content_type = content;
        Ok(())
    }

    /// Checks a tag type.
    pub fn check_tag_type(&self, ty: &TagType, types: &TypeList, offset: usize) -> (res: Result<
        (),
        BinaryReaderError,
    >)
        requires
            self.wf(types),
        ensures
            res == verdict(self@.tag_type_reason(types@.types, *ty), offset),
    {
        if !self.features.exceptions() {
            return Err(BinaryReaderError::new(Reason::Disabled(Feature::Exceptions), offset));
        }
        let func = self.func_type_at(ty.func_type_idx, types, offset)?;
        if func.results.len() > 0 && !self.features.stack_switching() {
            return Err(BinaryReaderError::new(Reason::Disabled(Feature::StackSwitching), offset));
        }
        Ok(())
    }

    /// Checks the type of an import, resolves it, and returns the type of the
    /// entity it brings.
    pub fn check_type_ref(&self, type_ref: &mut TypeRef, types: &TypeList, offset: usize) -> (res:
        Result<EntityType, BinaryReaderError>)
        requires
            self.wf(types),
        ensures
            match res {
                Ok(entity) => self@.type_ref_reason(types@.types, *old(type_ref)) is None && entity
                    == self@.entity_of(*old(type_ref)) && *final(type_ref)
                    == self@.resolve_type_ref(*old(type_ref)),
                Err(e) => Some(e.reason) == self@.type_ref_reason(types@.types, *old(type_ref))
                    && e.offset == offset && *final(type_ref) == *old(type_ref),
            },
    {
        match *type_ref {
            TypeRef::Func(type_index) => {
                self.func_type_at(type_index, types, offset)?;
                Ok(EntityType::Func(self.types[type_index as usize]))
            },
            TypeRef::Table(t) => {
                let mut table: TableType = t;
                self.check_table_type(&mut table, types, offset)?;
                *type_ref = TypeRef::Table(table);
                Ok(EntityType::Table(table))
            },
            TypeRef::Memory(m) => {
                self.check_memory_type(&m, offset)?;
                Ok(EntityType::Memory(m))
            },
            TypeRef::Tag(t) => {
                self.check_tag_type(&t, types, offset)?;
                Ok(EntityType::Tag(self.types[t.func_type_idx as usize]))
            },
            TypeRef::Global(g) => {
                let mut global: GlobalType = g;
                self.check_global_type(&mut global, types, offset)?;
                *type_ref = TypeRef::Global(global);
                Ok(EntityType::Global(global))
            },
        }
    }
}

} // verus!
