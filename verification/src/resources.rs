//! What the check of a function body can ask about its module.

use vstd::prelude::*;
use std::sync::Arc;
use crate::error::BinaryReaderError;
use crate::module::{Module, ModuleView, verdict};
use crate::type_list::{TypeList, ref_is_shared, top_heap_type, val_is_subtype};
use crate::types::{
    CompositeInnerType, CompositeView, CoreTypeId, FuncType, GlobalType, HeapType, MemoryType,
    RefType, SubType, TableType, ValType,
};

verus! {

/// Another handle to a shared value.
///
/// Wraps `Arc::clone`, which returns a pointer to the same allocation: the
/// result points to the value that the argument points to.
#[verifier::external_body]
pub(crate) fn share<T>(handle: &Arc<T>) -> (other: Arc<T>)
    ensures
        other == *handle,
{
    Arc::clone(handle)
}

/// The frozen module, as the checks of function bodies see it. Nothing that
/// can be done with it changes the module.
#[derive(Debug)]
pub struct ValidatorResources(pub Arc<Module>);

impl View for ValidatorResources {
    type V = ModuleView;

    open spec fn view(&self) -> ModuleView {
        (*self.0)@
    }
}

impl ValidatorResources {
    /// Whether the module is frozen and in order: it holds the type list as
    /// it was at the start of the code section, and every index in it is in
    /// range.
    pub open spec fn wf(&self) -> bool {
        &&& self@.snapshot is Some
        &&& self@.snapshot->0.wf()
        &&& self@.wf(self.types())
    }

    /// The types in the type list of the frozen module.
    pub open spec fn types(&self) -> Seq<crate::types::SubTypeView> {
        self@.snapshot->0.types
    }

    /// Resources for a frozen module.
    pub fn new(module: Arc<Module>) -> (r: ValidatorResources)
        ensures
            r.0 == module,
    {
        ValidatorResources(module)
    }

    /// Another handle to the same module.
    pub fn duplicate(&self) -> (r: ValidatorResources)
        ensures
            r@ == self@,
            r.0 == self.0,
    {
        ValidatorResources(share(&self.0))
    }

    fn snapshot(&self) -> (list: &TypeList)
        requires
            self.wf(),
        ensures
            list@ == self@.snapshot->0,
            list.wf(),
    {
        match &self.0.snapshot {
            Some(list) => list,
            None => vstd::pervasive::unreached(),
        }
    }

    /// The type of the table `at`.
    pub fn table_at(&self, at: u32) -> (r: Option<TableType>)
        ensures
            r == if at < self@.tables.len() {
                Some(self@.tables[at as int])
            } else {
                None
            },
    {
        if (at as usize) < self.0.tables.len() {
            Some(self.0.tables[at as usize])
        } else {
            None
        }
    }

    /// The type of the memory `at`.
    pub fn memory_at(&self, at: u32) -> (r: Option<MemoryType>)
        ensures
            r == if at < self@.memories.len() {
                Some(self@.memories[at as int])
            } else {
                None
            },
    {
        if (at as usize) < self.0.memories.len() {
            Some(self.0.memories[at as usize])
        } else {
            None
        }
    }

    /// The type of the global `at`.
    pub fn global_at(&self, at: u32) -> (r: Option<GlobalType>)
        ensures
            r == if at < self@.globals.len() {
                Some(self@.globals[at as int])
            } else {
                None
            },
    {
        if (at as usize) < self.0.globals.len() {
            Some(self.0.globals[at as usize])
        } else {
            None
        }
    }

    /// The function type of the tag `at`.
    pub fn tag_at(&self, at: u32) -> (r: Option<&FuncType>)
        requires
            self.wf(),
        ensures
            match r {
                Some(f) => at < self@.tags.len() && self.types()[self@.tags[at as int].index as int].inner
                    == (CompositeView::Func { params: f.params@, results: f.results@ }),
                None => at >= self@.tags.len(),
            },
    {
        if (at as usize) >= self.0.tags.len() {
            return None;
        }
        let id = self.0.tags[at as usize];
        match self.snapshot().get(id) {
            Some(ty) => match &ty.composite_type.inner {
                CompositeInnerType::Func(f) => Some(f),
                _ => vstd::pervasive::unreached(),
            },
            None => vstd::pervasive::unreached(),
        }
    }

    /// The type with the module index `at`.
    pub fn sub_type_at(&self, at: u32) -> (r: Option<&SubType>)
        requires
            self.wf(),
        ensures
            match r {
                Some(ty) => at < self@.types.len() && ty@ == self.types()[self@.types[at as int].index as int],
                None => at >= self@.types.len(),
            },
    {
        if (at as usize) >= self.0.types.len() {
            return None;
        }
        let id = self.0.types[at as usize];
        self.snapshot().get(id)
    }

    /// The type with the identifier `at`.
    pub fn sub_type_at_id(&self, at: CoreTypeId) -> (r: Option<&SubType>)
        requires
            self.wf(),
        ensures
            match r {
                Some(ty) => at.index < self.types().len() && ty@ == self.types()[at.index as int],
                None => at.index >= self.types().len(),
            },
    {
        self.snapshot().get(at)
    }

    /// The module type index of the function `at`.
    pub fn type_index_of_function(&self, at: u32) -> (r: Option<u32>)
        ensures
            r == if at < self@.functions.len() {
                Some(self@.functions[at as int])
            } else {
                None
            },
    {
        if (at as usize) < self.0.functions.len() {
            Some(self.0.functions[at as usize])
        } else {
            None
        }
    }

    /// The identifier of the type of the function `at`.
    pub fn type_id_of_function(&self, at: u32) -> (r: Option<CoreTypeId>)
        requires
            self.wf(),
        ensures
            r == if at < self@.functions.len() {
                Some(self@.types[self@.functions[at as int] as int])
            } else {
                None
            },
    {
        if (at as usize) < self.0.functions.len() {
            let index: u32 = self.0.functions[at as usize];
            Some(self.0.types[index as usize])
        } else {
            None
        }
    }

    /// Checks a heap type of a function body and replaces the module's index
    /// for a type by the identifier of that type.
    pub fn check_heap_type(&self, t: &mut HeapType, offset: usize) -> (res: Result<
        (),
        BinaryReaderError,
    >)
        ensures
            res == verdict(self@.heap_type_reason(*old(t)), offset),
            *final(t) == if res is Ok {
                self@.resolve_heap_type(*old(t))
            } else {
                *old(t)
            },
    {
        self.0.check_heap_type(t, offset)
    }

    /// The abstract heap type at the top of the hierarchy that holds
    /// `heap_type`.
    pub fn top_type(&self, heap_type: &HeapType) -> (top: Option<HeapType>)
        requires
            self.wf(),
        ensures
            top == top_heap_type(self.types(), *heap_type),
    {
        self.snapshot().top_type(heap_type)
    }

    /// The element type of the element segment `at`.
    pub fn element_type_at(&self, at: u32) -> (r: Option<RefType>)
        ensures
            r == if at < self@.element_types.len() {
                Some(self@.element_types[at as int])
            } else {
                None
            },
    {
        if (at as usize) < self.0.element_types.len() {
            Some(self.0.element_types[at as usize])
        } else {
            None
        }
    }

    /// Whether `a` is a subtype of `b`.
    pub fn is_subtype(&self, a: ValType, b: ValType) -> (r: bool)
        requires
            self.wf(),
        ensures
            r == val_is_subtype(self.types(), a, b),
    {
        self.snapshot().valtype_is_subtype(a, b)
    }

    /// Whether a reference of the type `ty` may cross threads.
    pub fn is_shared(&self, ty: RefType) -> (r: bool)
        requires
            self.wf(),
        ensures
            r == ref_is_shared(self.types(), ty),
    {
        self.snapshot().reftype_is_shared(ty)
    }

    /// The number of element segments, as far as a `u32` can hold it.
    pub fn element_count(&self) -> (n: u32)
        ensures
            n == if self@.element_types.len() <= u32::MAX {
                self@.element_types.len() as u32
            } else {
                u32::MAX
            },
    {
        let len: usize = self.0.element_types.len();
        if len > u32::MAX as usize {
            u32::MAX
        } else {
            len as u32
        }
    }

    /// The number of data segments that the data count section announces.
    pub fn data_count(&self) -> (n: Option<u32>)
        ensures
            n == self@.data_count,
    {
        self.0.data_count
    }

    /// Whether a body may take a reference to the function `idx`.
    pub fn is_function_referenced(&self, idx: u32) -> (r: bool)
        ensures
            r == self@.function_references.contains(idx),
    {
        self.0.function_references.contains(&idx)
    }
}

} // verus!
