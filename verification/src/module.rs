//! The index spaces of the module being validated.

use vstd::prelude::*;
use std::collections::HashSet;
use std::sync::Arc;
use crate::error::{BinaryReaderError, IndexSpace, Reason};
use crate::features::{Feature, WasmFeatures};
use crate::limits::{MAX_TYPE_SIZE, MAX_WASM_MEMORIES, MAX_WASM_TABLES};
use crate::type_list::{TypeList, TypeListView, heap_type_closed, val_type_closed};
use crate::types::{
    CompositeInnerType, CompositeView, CoreTypeId, EntityType, FuncType, GlobalType, MemoryType,
    RefType, SubType, SubTypeView, TableType,
};

verus! {

/// The types under which one name was imported, in the order of the imports.
#[derive(Debug)]
pub struct ImportEntry {
    pub module: String,
    pub name: String,
    pub types: Vec<EntityType>,
}

/// An export: its name and what it exports.
#[derive(Debug)]
pub struct ExportEntry {
    pub name: String,
    pub ty: EntityType,
}

/// The mathematical value of an [`ImportEntry`].
pub struct ImportView {
    pub module: Seq<char>,
    pub name: Seq<char>,
    pub types: Seq<EntityType>,
}

/// The mathematical value of an [`ExportEntry`].
pub struct ExportView {
    pub name: Seq<char>,
    pub ty: EntityType,
}

impl View for ImportEntry {
    type V = ImportView;

    open spec fn view(&self) -> ImportView {
        ImportView { module: self.module@, name: self.name@, types: self.types@ }
    }
}

impl View for ExportEntry {
    type V = ExportView;

    open spec fn view(&self) -> ExportView {
        ExportView { name: self.name@, ty: self.ty }
    }
}

/// What is known of a module: its index spaces, and what else later sections
/// and function bodies depend on.
#[derive(Debug)]
pub struct Module {
    /// The type list as it was when the code section began.
    pub snapshot: Option<Arc<TypeList>>,
    /// For each type index of the module, the identifier in the type list.
    pub types: Vec<CoreTypeId>,
    pub tables: Vec<TableType>,
    pub memories: Vec<MemoryType>,
    pub globals: Vec<GlobalType>,
    /// The element type of each element segment.
    pub element_types: Vec<RefType>,
    /// The number of data segments that the data count section announces.
    pub data_count: Option<u32>,
    /// For each function, the module index of its type.
    pub functions: Vec<u32>,
    /// For each tag, the identifier of its function type.
    pub tags: Vec<CoreTypeId>,
    /// The functions that an export, an element segment or an initializer
    /// refers to. Only these may be the operand of `ref.func` in a body.
    pub function_references: HashSet<u32>,
    /// The imports, one entry for each pair of names.
    pub imports: Vec<ImportEntry>,
    pub exports: Vec<ExportEntry>,
    /// The accumulated size of the types that are imported and exported.
    pub type_size: u32,
    pub num_imported_globals: u32,
    pub num_imported_functions: u32,
    pub features: WasmFeatures,
}

/// The mathematical value of a [`Module`].
pub struct ModuleView {
    pub snapshot: Option<TypeListView>,
    pub types: Seq<CoreTypeId>,
    pub tables: Seq<TableType>,
    pub memories: Seq<MemoryType>,
    pub globals: Seq<GlobalType>,
    pub element_types: Seq<RefType>,
    pub data_count: Option<u32>,
    pub functions: Seq<u32>,
    pub tags: Seq<CoreTypeId>,
    pub function_references: Set<u32>,
    pub imports: Seq<ImportView>,
    pub exports: Seq<ExportView>,
    pub type_size: u32,
    pub num_imported_globals: u32,
    pub num_imported_functions: u32,
    pub features: WasmFeatures,
}

/// The values of a sequence of import entries.
pub open spec fn import_views(imports: Seq<ImportEntry>) -> Seq<ImportView> {
    Seq::new(imports.len(), |i: int| imports[i]@)
}

/// The values of a sequence of exports.
pub open spec fn export_views(exports: Seq<ExportEntry>) -> Seq<ExportView> {
    Seq::new(exports.len(), |i: int| exports[i]@)
}

impl View for Module {
    type V = ModuleView;

    open spec fn view(&self) -> ModuleView {
        ModuleView {
            snapshot: match self.snapshot {
                Some(list) => Some((*list)@),
                None => None,
            },
            types: self.types@,
            tables: self.tables@,
            memories: self.memories@,
            globals: self.globals@,
            element_types: self.element_types@,
            data_count: self.data_count,
            functions: self.functions@,
            tags: self.tags@,
            function_references: self.function_references@,
            imports: import_views(self.imports@),
            exports: export_views(self.exports@),
            type_size: self.type_size,
            num_imported_globals: self.num_imported_globals,
            num_imported_functions: self.num_imported_functions,
            features: self.features,
        }
    }
}

/// Whether a stored type is a function type.
pub open spec fn is_func_type(store: Seq<SubTypeView>, id: CoreTypeId) -> bool {
    id.index < store.len() && store[id.index as int].inner is Func
}

/// Whether the type of an entity refers to nothing outside the type list.
pub open spec fn entity_closed(store: Seq<SubTypeView>, ty: EntityType) -> bool {
    match ty {
        EntityType::Func(id) => is_func_type(store, id),
        EntityType::Tag(id) => is_func_type(store, id),
        EntityType::Table(t) => heap_type_closed(store.len(), t.element_type.heap_type),
        EntityType::Global(g) => val_type_closed(store.len(), g.content_type),
        EntityType::Memory(_) => true,
    }
}

/// The size of a stored type, by which the complexity of a module's interface
/// is measured.
pub open spec fn sub_type_size(ty: SubTypeView) -> nat {
    match ty.inner {
        CompositeView::Func { params, results } => 2 + params.len() + results.len(),
        CompositeView::Array(_) => 3,
        CompositeView::Struct { fields } => 2 + 2 * fields.len(),
    }
}

/// The size of the type of an entity: that of its function type for a
/// function or a tag, and 1 otherwise.
pub open spec fn entity_size(store: Seq<SubTypeView>, ty: EntityType) -> nat {
    match ty {
        EntityType::Func(id) => sub_type_size(store[id.index as int]),
        EntityType::Tag(id) => sub_type_size(store[id.index as int]),
        _ => 1,
    }
}

impl ModuleView {
    /// Whether every index that the module holds is in range of the space it
    /// points into, no name is exported twice, and the accumulated type size
    /// is under its ceiling. `store` is what the type list holds.
    pub open spec fn wf(self, store: Seq<SubTypeView>) -> bool {
        &&& forall|i: int| 0 <= i < self.types.len() ==> (#[trigger] self.types[i]).index < store.len()
        &&& forall|i: int|
            0 <= i < self.functions.len() ==> {
                &&& (#[trigger] self.functions[i]) < self.types.len()
                &&& is_func_type(store, self.types[self.functions[i] as int])
            }
        &&& forall|i: int| 0 <= i < self.tags.len() ==> is_func_type(store, #[trigger] self.tags[i])
        &&& forall|i: int|
            0 <= i < self.tables.len() ==> heap_type_closed(
                store.len(),
                (#[trigger] self.tables[i]).element_type.heap_type,
            )
        &&& forall|i: int|
            0 <= i < self.globals.len() ==> val_type_closed(
                store.len(),
                (#[trigger] self.globals[i]).content_type,
            )
        &&& forall|i: int|
            0 <= i < self.element_types.len() ==> heap_type_closed(
                store.len(),
                (#[trigger] self.element_types[i]).heap_type,
            )
        &&& forall|f: u32| #[trigger] self.function_references.contains(f) ==> f < self.functions.len()
        &&& self.names_unique()
        &&& self.imports_unique()
        &&& self.type_size < MAX_TYPE_SIZE
        &&& self.num_imported_functions <= self.functions.len()
        &&& self.num_imported_globals <= self.globals.len()
    }

    /// Whether no two exports have the same name.
    pub open spec fn names_unique(self) -> bool {
        forall|i: int, j: int|
            0 <= i < j < self.exports.len() ==> (#[trigger] self.exports[i]).name != (
            #[trigger] self.exports[j]).name
    }

    /// Whether no two import entries are for the same pair of names.
    pub open spec fn imports_unique(self) -> bool {
        forall|i: int, j: int|
            0 <= i < j < self.imports.len() ==> !((#[trigger] self.imports[i]).module
                == (#[trigger] self.imports[j]).module && self.imports[i].name
                == self.imports[j].name)
    }

    /// Whether an export has the name `name`.
    pub open spec fn exports_name(self, name: Seq<char>) -> bool {
        exists|i: int| 0 <= i < self.exports.len() && (#[trigger] self.exports[i]).name == name
    }

    /// The module without entities, for the proposals `features`.
    pub open spec fn empty(features: WasmFeatures) -> ModuleView {
        ModuleView {
            snapshot: None,
            types: Seq::empty(),
            tables: Seq::empty(),
            memories: Seq::empty(),
            globals: Seq::empty(),
            element_types: Seq::empty(),
            data_count: None,
            functions: Seq::empty(),
            tags: Seq::empty(),
            function_references: Set::empty(),
            imports: Seq::empty(),
            exports: Seq::empty(),
            type_size: 1,
            num_imported_globals: 0,
            num_imported_functions: 0,
            features,
        }
    }

    /// How many tables the module may have: one, unless reference types
    /// are on.
    pub open spec fn max_tables(self) -> usize {
        if self.features.has(Feature::ReferenceTypes) {
            MAX_WASM_TABLES
        } else {
            1
        }
    }

    /// How many memories the module may have: one, unless multiple memories
    /// are on.
    pub open spec fn max_memories(self) -> usize {
        if self.features.has(Feature::MultiMemory) {
            MAX_WASM_MEMORIES
        } else {
            1
        }
    }

    /// Why the module type index `idx` names no function type, if it does
    /// not.
    pub open spec fn func_type_reason(self, store: Seq<SubTypeView>, idx: u32) -> Option<Reason> {
        if idx >= self.types.len() {
            Some(Reason::Unknown { space: IndexSpace::Types, index: idx })
        } else if !(store[self.types[idx as int].index as int].inner is Func) {
            Some(Reason::NotFunctionType(idx))
        } else {
            None
        }
    }
}

/// The result that is `Ok(())` where `reason` is `None`, and otherwise the
/// failure for that reason at `offset`.
pub open spec fn verdict(reason: Option<Reason>, offset: usize) -> Result<(), BinaryReaderError> {
    match reason {
        None => Ok(()),
        Some(r) => Err(BinaryReaderError { reason: r, offset }),
    }
}

/// A module keeps being in order when the type list grows.
pub proof fn lemma_wf_store_grows(m: ModuleView, store: Seq<SubTypeView>, larger: Seq<SubTypeView>)
    requires
        m.wf(store),
        store.len() <= larger.len(),
        forall|i: int| 0 <= i < store.len() ==> store[i] == larger[i],
    ensures
        m.wf(larger),
{
}

impl Module {
    /// Whether every index that the module holds is in range, against what
    /// `types` holds.
    pub open spec fn wf(&self, types: &TypeList) -> bool {
        self@.wf(types@.types)
    }

    /// The module without entities.
    pub fn new(features: WasmFeatures) -> (m: Module)
        ensures
            m@ == ModuleView::empty(features),
            forall|store: Seq<SubTypeView>| m@.wf(store),
    {
        let m = Module {
            snapshot: None,
            types: Vec::new(),
            tables: Vec::new(),
            memories: Vec::new(),
            globals: Vec::new(),
            element_types: Vec::new(),
            data_count: None,
            functions: Vec::new(),
            tags: Vec::new(),
            function_references: HashSet::new(),
            imports: Vec::new(),
            exports: Vec::new(),
            type_size: 1,
            num_imported_globals: 0,
            num_imported_functions: 0,
            features,
        };
        assert(m@.imports =~= Seq::empty());
        assert(m@.exports =~= Seq::empty());
        m
    }

    /// How many tables the module may have.
    pub fn max_tables(&self) -> (max: usize)
        ensures
            max == self@.max_tables(),
    {
        if self.features.reference_types() {
            MAX_WASM_TABLES
        } else {
            1
        }
    }

    /// How many memories the module may have.
    pub fn max_memories(&self) -> (max: usize)
        ensures
            max == self@.max_memories(),
    {
        if self.features.multi_memory() {
            MAX_WASM_MEMORIES
        } else {
            1
        }
    }

    /// The identifier of the type with the module index `idx`.
    pub fn type_id_at(&self, idx: u32, offset: usize) -> (res: Result<CoreTypeId, BinaryReaderError>)
        ensures
            res == if idx < self@.types.len() {
                Ok::<CoreTypeId, BinaryReaderError>(self@.types[idx as int])
            } else {
                Err(
                    BinaryReaderError {
                        reason: Reason::Unknown { space: IndexSpace::Types, index: idx },
                        offset,
                    },
                )
            },
    {
        if (idx as usize) < self.types.len() {
            Ok(self.types[idx as usize])
        } else {
            Err(BinaryReaderError::new(Reason::Unknown { space: IndexSpace::Types, index: idx }, offset))
        }
    }

    /// The number of types the module has declared.
    pub fn types_len(&self) -> (n: usize)
        ensures
            n == self@.types.len(),
    {
        self.types.len()
    }

    /// The type with the module index `idx`.
    pub fn sub_type_at<'a>(&self, types: &'a TypeList, idx: u32, offset: usize) -> (res: Result<
        &'a SubType,
        BinaryReaderError,
    >)
        requires
            self.wf(types),
        ensures
            match res {
                Ok(ty) => idx < self@.types.len() && ty@ == types@.types[self@.types[idx as int].index as int],
                Err(e) => idx >= self@.types.len() && e == (BinaryReaderError {
                    reason: Reason::Unknown { space: IndexSpace::Types, index: idx },
                    offset,
                }),
            },
    {
        let id = self.type_id_at(idx, offset)?;
        match types.get(id) {
            Some(ty) => Ok(ty),
            None => vstd::pervasive::unreached(),
        }
    }

    /// The function type with the module index `type_index`.
    pub fn func_type_at<'a>(&self, type_index: u32, types: &'a TypeList, offset: usize) -> (res:
        Result<&'a FuncType, BinaryReaderError>)
        requires
            self.wf(types),
        ensures
            match res {
                Ok(f) => self@.func_type_reason(types@.types, type_index) is None
                    && types@.types[self@.types[type_index as int].index as int].inner
                    == (CompositeView::Func { params: f.params@, results: f.results@ }),
                Err(e) => Some(e.reason) == self@.func_type_reason(types@.types, type_index)
                    && e.offset == offset,
            },
    {
        let ty = self.sub_type_at(types, type_index, offset)?;
        match &ty.composite_type.inner {
            CompositeInnerType::Func(f) => Ok(f),
            _ => Err(BinaryReaderError::new(Reason::NotFunctionType(type_index), offset)),
        }
    }

    /// The type of the function `func_idx`.
    pub fn get_func_type<'a>(&self, func_idx: u32, types: &'a TypeList, offset: usize) -> (res:
        Result<&'a FuncType, BinaryReaderError>)
        requires
            self.wf(types),
        ensures
            match res {
                Ok(f) => func_idx < self@.functions.len()
                    && types@.types[self@.types[self@.functions[func_idx as int] as int].index as int].inner
                    == (CompositeView::Func { params: f.params@, results: f.results@ }),
                Err(e) => func_idx >= self@.functions.len() && e == (BinaryReaderError {
                    reason: Reason::Unknown { space: IndexSpace::Functions, index: func_idx },
                    offset,
                }),
            },
    {
        if (func_idx as usize) < self.functions.len() {
            let idx: u32 = self.functions[func_idx as usize];
            match self.func_type_at(idx, types, offset) {
                Ok(f) => Ok(f),
                Err(_) => vstd::pervasive::unreached(),
            }
        } else {
            Err(
                BinaryReaderError::new(
                    Reason::Unknown { space: IndexSpace::Functions, index: func_idx },
                    offset,
                ),
            )
        }
    }

    /// The type of the global `idx`.
    pub fn global_at(&self, idx: u32, offset: usize) -> (res: Result<&GlobalType, BinaryReaderError>)
        ensures
            match res {
                Ok(g) => idx < self@.globals.len() && *g == self@.globals[idx as int],
                Err(e) => idx >= self@.globals.len() && e == (BinaryReaderError {
                    reason: Reason::Unknown { space: IndexSpace::Globals, index: idx },
                    offset,
                }),
            },
    {
        if (idx as usize) < self.globals.len() {
            Ok(&self.globals[idx as usize])
        } else {
            Err(BinaryReaderError::new(Reason::Unknown { space: IndexSpace::Globals, index: idx }, offset))
        }
    }

    /// The type of the table `idx`.
    pub fn table_at(&self, idx: u32, offset: usize) -> (res: Result<&TableType, BinaryReaderError>)
        ensures
            match res {
                Ok(t) => idx < self@.tables.len() && *t == self@.tables[idx as int],
                Err(e) => idx >= self@.tables.len() && e == (BinaryReaderError {
                    reason: Reason::Unknown { space: IndexSpace::Tables, index: idx },
                    offset,
                }),
            },
    {
        if (idx as usize) < self.tables.len() {
            Ok(&self.tables[idx as usize])
        } else {
            Err(BinaryReaderError::new(Reason::Unknown { space: IndexSpace::Tables, index: idx }, offset))
        }
    }

    /// The type of the memory `idx`.
    pub fn memory_at(&self, idx: u32, offset: usize) -> (res: Result<&MemoryType, BinaryReaderError>)
        ensures
            match res {
                Ok(m) => idx < self@.memories.len() && *m == self@.memories[idx as int],
                Err(e) => idx >= self@.memories.len() && e == (BinaryReaderError {
                    reason: Reason::Unknown { space: IndexSpace::Memories, index: idx },
                    offset,
                }),
            },
    {
        if (idx as usize) < self.memories.len() {
            Ok(&self.memories[idx as usize])
        } else {
            Err(BinaryReaderError::new(Reason::Unknown { space: IndexSpace::Memories, index: idx }, offset))
        }
    }
}

} // verus!
