//! Adding imports, functions, memories, tags and exports to a module.

use vstd::prelude::*;
use crate::error::{BinaryReaderError, IndexSpace, Reason};
use crate::features::Feature;
use crate::limits::{
    MAX_WASM_EXPORTS, MAX_WASM_FUNCTIONS, MAX_WASM_GLOBALS, MAX_WASM_TAGS, check_max,
    combine_type_sizes, combined_size, fits,
};
use crate::module::{
    ExportEntry, ExportView, ImportEntry, ImportView, Module, ModuleView, entity_closed,
    entity_size, sub_type_size, verdict,
};
use crate::payload::{Export, Import};
use crate::type_list::{TypeList, composite_bounded, stored_type_ok};
use crate::types::{
    CompositeInnerType, EntityType, ExternalKind, MemoryType, SubType, SubTypeView, TagType,
    TypeRef,
};

verus! {

/// The position of the entry for a pair of names, if there is one.
pub open spec fn import_index(imports: Seq<ImportView>, module: Seq<char>, name: Seq<char>)
    -> Option<int> {
    if exists|i: int|
        0 <= i < imports.len() && (#[trigger] imports[i]).module == module && imports[i].name
            == name {
        Some(
            choose|i: int|
                0 <= i < imports.len() && (#[trigger] imports[i]).module == module
                    && imports[i].name == name,
        )
    } else {
        None
    }
}

/// The imports after one more import under the given names: its type joins
/// the entry for these names, or makes a new entry at the end.
pub open spec fn record_import(
    imports: Seq<ImportView>,
    module: Seq<char>,
    name: Seq<char>,
    entity: EntityType,
) -> Seq<ImportView> {
    match import_index(imports, module, name) {
        Some(i) => imports.update(
            i,
            ImportView { module, name, types: imports[i].types.push(entity) },
        ),
        None => imports.push(ImportView { module, name, types: seq![entity] }),
    }
}

/// The index space that an import adds to.
pub open spec fn import_space(ty: TypeRef) -> IndexSpace {
    match ty {
        TypeRef::Func(_) => IndexSpace::Functions,
        TypeRef::Table(_) => IndexSpace::Tables,
        TypeRef::Memory(_) => IndexSpace::Memories,
        TypeRef::Tag(_) => IndexSpace::Tags,
        TypeRef::Global(_) => IndexSpace::Globals,
    }
}

/// The index space that an export takes from.
pub open spec fn export_space(kind: ExternalKind) -> IndexSpace {
    match kind {
        ExternalKind::Func => IndexSpace::Functions,
        ExternalKind::Table => IndexSpace::Tables,
        ExternalKind::Memory => IndexSpace::Memories,
        ExternalKind::Global => IndexSpace::Globals,
        ExternalKind::Tag => IndexSpace::Tags,
    }
}

impl ModuleView {
    /// Whether the type of every function is a type index of the module.
    pub open spec fn functions_in_range(self) -> bool {
        forall|i: int| 0 <= i < self.functions.len() ==> (#[trigger] self.functions[i]) < self.types.len()
    }

    /// The number of entities in an index space.
    pub open spec fn space_len(self, space: IndexSpace) -> nat {
        match space {
            IndexSpace::Types => self.types.len(),
            IndexSpace::Functions => self.functions.len(),
            IndexSpace::Tables => self.tables.len(),
            IndexSpace::Memories => self.memories.len(),
            IndexSpace::Globals => self.globals.len(),
            IndexSpace::Tags => self.tags.len(),
            IndexSpace::Imports => self.imports.len(),
            IndexSpace::Exports => self.exports.len(),
            IndexSpace::ElementSegments => self.element_types.len(),
            IndexSpace::DataSegments => 0,
            IndexSpace::Locals => 0,
        }
    }

    /// The most entities that imports may bring into an index space.
    pub open spec fn import_max(self, ty: TypeRef) -> usize {
        match ty {
            TypeRef::Func(_) => MAX_WASM_FUNCTIONS,
            TypeRef::Table(_) => self.max_tables(),
            TypeRef::Memory(_) => self.max_memories(),
            TypeRef::Tag(_) => MAX_WASM_TAGS,
            TypeRef::Global(_) => MAX_WASM_GLOBALS,
        }
    }

    pub open spec fn with_function(self, type_index: u32) -> ModuleView {
        ModuleView { functions: self.functions.push(type_index), ..self }
    }

    pub open spec fn with_memory(self, ty: MemoryType) -> ModuleView {
        ModuleView { memories: self.memories.push(ty), ..self }
    }

    pub open spec fn with_tag(self, ty: TagType) -> ModuleView {
        ModuleView { tags: self.tags.push(self.types[ty.func_type_idx as int]), ..self }
    }

    pub open spec fn with_reference(self, func: u32) -> ModuleView {
        ModuleView { function_references: self.function_references.insert(func), ..self }
    }

    /// Why an import is refused, if it is. In this order: its type is
    /// refused; it is a mutable global and mutable globals are off; its index
    /// space is full; the accumulated type size reaches the ceiling.
    pub open spec fn import_reason(self, store: Seq<SubTypeView>, ty: TypeRef) -> Option<Reason> {
        if self.type_ref_reason(store, ty) is Some {
            self.type_ref_reason(store, ty)
        } else if ty is Global && ty->Global_0.mutable && !self.features.has(
            Feature::MutableGlobal,
        ) {
            Some(Reason::Disabled(Feature::MutableGlobal))
        } else if !fits(self.space_len(import_space(ty)) as int, 1, self.import_max(ty) as int) {
            Some(Reason::TooMany(import_space(ty)))
        } else if combined_size(self.type_size, entity_size(store, self.entity_of(ty)) as u32)
            is None {
            Some(Reason::TypeSizeExceeded)
        } else {
            None
        }
    }

    /// The module after an accepted import: the entity is added to its index
    /// space and counted as imported, its type size is added, and its type is
    /// recorded under its names.
    pub open spec fn with_import(
        self,
        store: Seq<SubTypeView>,
        module: Seq<char>,
        name: Seq<char>,
        ty: TypeRef,
    ) -> ModuleView {
        let entity = self.entity_of(ty);
        let base = ModuleView {
            type_size: (self.type_size + entity_size(store, entity)) as u32,
            imports: record_import(self.imports, module, name, entity),
            ..self
        };
        match entity {
            EntityType::Func(_) => ModuleView {
                functions: self.functions.push(ty->Func_0),
                num_imported_functions: (self.num_imported_functions + 1) as u32,
                ..base
            },
            EntityType::Table(t) => ModuleView { tables: self.tables.push(t), ..base },
            EntityType::Memory(m) => ModuleView { memories: self.memories.push(m), ..base },
            EntityType::Tag(id) => ModuleView { tags: self.tags.push(id), ..base },
            EntityType::Global(g) => ModuleView {
                globals: self.globals.push(g),
                num_imported_globals: (self.num_imported_globals + 1) as u32,
                ..base
            },
        }
    }

    /// Why an export names no entity, if it names none.
    pub open spec fn export_reason(self, kind: ExternalKind, index: u32) -> Option<Reason> {
        if index >= self.space_len(export_space(kind)) {
            Some(Reason::Unknown { space: export_space(kind), index })
        } else {
            None
        }
    }

    /// The type of the entity that an export names.
    pub open spec fn export_entity(self, kind: ExternalKind, index: u32) -> EntityType {
        match kind {
            ExternalKind::Func => EntityType::Func(
                self.types[self.functions[index as int] as int],
            ),
            ExternalKind::Table => EntityType::Table(self.tables[index as int]),
            ExternalKind::Memory => EntityType::Memory(self.memories[index as int]),
            ExternalKind::Global => EntityType::Global(self.globals[index as int]),
            ExternalKind::Tag => EntityType::Tag(self.tags[index as int]),
        }
    }

    /// The module after the entity of an export was looked up: an exported
    /// function counts as referenced.
    pub open spec fn with_exported(self, kind: ExternalKind, index: u32) -> ModuleView {
        match kind {
            ExternalKind::Func => self.with_reference(index),
            _ => self,
        }
    }

    /// Why an export is refused, if it is. In this order: it is a mutable
    /// global and mutable globals are off; there are too many exports, where
    /// the limit applies; the accumulated type size reaches the ceiling; the
    /// name is taken.
    pub open spec fn add_export_reason(
        self,
        store: Seq<SubTypeView>,
        name: Seq<char>,
        ty: EntityType,
        check_limit: bool,
    ) -> Option<Reason> {
        if !self.features.has(Feature::MutableGlobal) && ty is Global && ty->Global_0.mutable {
            Some(Reason::Disabled(Feature::MutableGlobal))
        } else if check_limit && !fits(self.exports.len() as int, 1, MAX_WASM_EXPORTS as int) {
            Some(Reason::TooMany(IndexSpace::Exports))
        } else if combined_size(self.type_size, entity_size(store, ty) as u32) is None {
            Some(Reason::TypeSizeExceeded)
        } else if self.exports_name(name) {
            Some(Reason::DuplicateExportName)
        } else {
            None
        }
    }

    pub open spec fn with_export(self, store: Seq<SubTypeView>, name: Seq<char>, ty: EntityType)
        -> ModuleView {
        ModuleView {
            type_size: (self.type_size + entity_size(store, ty)) as u32,
            exports: self.exports.push(ExportView { name, ty }),
            ..self
        }
    }
}

/// The size of a type definition.
pub fn type_size(ty: &SubType) -> (n: u32)
    requires
        composite_bounded(ty@.inner),
    ensures
        n == sub_type_size(ty@),
{
    match &ty.composite_type.inner {
        CompositeInnerType::Func(f) => 2 + (f.params.len() as u32) + (f.results.len() as u32),
        CompositeInnerType::Array(_) => 3,
        CompositeInnerType::Struct(s) => 2 + 2 * (s.fields.len() as u32),
    }
}

/// The size of the type of an entity.
pub fn entity_type_size(ty: &EntityType, types: &TypeList) -> (n: u32)
    requires
        types.wf(),
        entity_closed(types@.types, *ty),
    ensures
        n == entity_size(types@.types, *ty),
        n <= 20002,
{
    match ty {
        EntityType::Func(id) | EntityType::Tag(id) => {
            assert(stored_type_ok(types@.types, id.index as int));
            match types.get(*id) {
                Some(t) => type_size(t),
                None => vstd::pervasive::unreached(),
            }
        },
        _ => 1,
    }
}

impl Module {
    /// Adds a function of the type with the module index `type_index`, which
    /// must be a function type.
    pub fn add_function(&mut self, type_index: u32, types: &TypeList, offset: usize) -> (res:
        Result<(), BinaryReaderError>)
        requires
            old(self).wf(types),
        ensures
            res == verdict(old(self)@.func_type_reason(types@.types, type_index), offset),
            final(self)@ == if res is Ok {
                old(self)@.with_function(type_index)
            } else {
                old(self)@
            },
            final(self).wf(types),
    {
        self.func_type_at(type_index, types, offset)?;
        self.functions.push(type_index);
        Ok(())
    }

    /// Adds a memory, if its type is allowed.
    pub fn add_memory(&mut self, ty: MemoryType, offset: usize) -> (res: Result<
        (),
        BinaryReaderError,
    >)
        ensures
            res == verdict(old(self)@.memory_type_reason(ty), offset),
            final(self)@ == if res is Ok {
                old(self)@.with_memory(ty)
            } else {
                old(self)@
            },
            forall|store: Seq<SubTypeView>| old(self)@.wf(store) ==> final(self)@.wf(store),
    {
        self.check_memory_type(&ty, offset)?;
        self.memories.push(ty);
        Ok(())
    }

    /// Adds a tag, if its type is allowed.
    pub fn add_tag(&mut self, ty: TagType, types: &TypeList, offset: usize) -> (res: Result<
        (),
        BinaryReaderError,
    >)
        requires
            old(self).wf(types),
        ensures
            res == verdict(old(self)@.tag_type_reason(types@.types, ty), offset),
            final(self)@ == if res is Ok {
                old(self)@.with_tag(ty)
            } else {
                old(self)@
            },
            final(self).wf(types),
    {
        self.check_tag_type(&ty, types, offset)?;
        let id = self.types[ty.func_type_idx as usize];
        self.tags.push(id);
        Ok(())
    }

    /// Records the type of an import under its names.
    fn record_import(&mut self, module: String, name: String, entity: EntityType)
        requires
            old(self)@.imports_unique(),
        ensures
            final(self)@ == (ModuleView {
                imports: record_import(old(self)@.imports, module@, name@, entity),
                ..old(self)@
            }),
            final(self)@.imports_unique(),
    {
        let ghost before = self@.imports;
        let mut i: usize = 0;
        while i < self.imports.len()
            invariant
                *self == *old(self),
                before == self@.imports,
                self@.imports_unique(),
                i <= self.imports.len(),
                forall|j: int|
                    0 <= j < i ==> !((#[trigger] self@.imports[j]).module == module@
                        && self@.imports[j].name == name@),
            decreases self.imports.len() - i,
        {
            if self.imports[i].module == module && self.imports[i].name == name {
                assert(self@.imports[i as int].module == module@);
                assert(import_index(before, module@, name@) == Some(i as int)) by {
                    assert(before[i as int].module == module@ && before[i as int].name == name@);
                    let k = import_index(before, module@, name@)->0;
                    assert(before[k].module == module@ && before[k].name == name@);
                    if k != i as int {
                        if k < i {
                            assert(before[k].module == before[i as int].module);
                        } else {
                            assert(before[i as int].module == before[k].module);
                        }
                    }
                }
                let mut entry = self.imports.remove(i);
                entry.types.push(entity);
                self.imports.insert(i, entry);
                assert(self@.imports =~= record_import(before, module@, name@, entity));
                assert(self@.imports_unique()) by {
                    assert forall|a: int, b: int| 0 <= a < b < self@.imports.len() implies !((
                    #[trigger] self@.imports[a]).module == (#[trigger] self@.imports[b]).module
                        && self@.imports[a].name == self@.imports[b].name) by {
                        assert(self@.imports[a].module == before[a].module);
                        assert(self@.imports[b].module == before[b].module);
                        assert(self@.imports[a].name == before[a].name);
                        assert(self@.imports[b].name == before[b].name);
                    }
                }
                return ;
            }
            i += 1;
        }
        assert(import_index(before, module@, name@) is None);
        let mut list: Vec<EntityType> = Vec::new();
        list.push(entity);
        self.imports.push(ImportEntry { module, name, types: list });
        assert(self@.imports =~= record_import(before, module@, name@, entity));
        assert(self@.imports_unique()) by {
            assert forall|a: int, b: int| 0 <= a < b < self@.imports.len() implies !((
            #[trigger] self@.imports[a]).module == (#[trigger] self@.imports[b]).module
                && self@.imports[a].name == self@.imports[b].name) by {
                assert(self@.imports[a] == before[a]);
                if b < before.len() {
                    assert(self@.imports[b] == before[b]);
                }
            }
        }
    }

    /// Adds an import: checks its type, adds the entity to its index space
    /// and records its type under its names. A pair of names may be imported
    /// more than once.
    pub fn add_import(&mut self, import: Import, types: &TypeList, offset: usize) -> (res: Result<
        (),
        BinaryReaderError,
    >)
        requires
            old(self).wf(types),
            types.wf(),
        ensures
            res == verdict(old(self)@.import_reason(types@.types, import.ty), offset),
            final(self)@ == if res is Ok {
                old(self)@.with_import(types@.types, import.module@, import.name@, import.ty)
            } else {
                old(self)@
            },
            final(self).wf(types),
    {
        let mut ty: TypeRef = import.ty;
        let entity = self.check_type_ref(&mut ty, types, offset)?;
        proof {
            crate::checks::lemma_entity_of_closed(self@, types@.types, import.ty);
        }
        let (len, max, space): (usize, usize, IndexSpace) = match ty {
            TypeRef::Func(_) => (self.functions.len(), MAX_WASM_FUNCTIONS, IndexSpace::Functions),
            TypeRef::Table(_) => (self.tables.len(), self.max_tables(), IndexSpace::Tables),
            TypeRef::Memory(_) => (self.memories.len(), self.max_memories(), IndexSpace::Memories),
            TypeRef::Tag(_) => (self.tags.len(), MAX_WASM_TAGS, IndexSpace::Tags),
            TypeRef::Global(g) => {
                if !self.features.mutable_global() && g.mutable {
                    return Err(
                        BinaryReaderError::new(Reason::Disabled(Feature::MutableGlobal), offset),
                    );
                }
                (self.globals.len(), MAX_WASM_GLOBALS, IndexSpace::Globals)
            },
        };
        check_max(len, 1, max, space, offset)?;
        let size = combine_type_sizes(self.type_size, entity_type_size(&entity, types), offset)?;
        match entity {
            EntityType::Func(_) => {
                if let TypeRef::Func(type_index) = ty {
                    self.functions.push(type_index);
                }
                self.num_imported_functions += 1;
            },
            EntityType::Table(t) => {
                self.tables.push(t);
            },
            EntityType::Memory(m) => {
                self.memories.push(m);
            },
            EntityType::Tag(id) => {
                self.tags.push(id);
            },
            EntityType::Global(g) => {
                self.globals.push(g);
                self.num_imported_globals += 1;
            },
        }
        self.type_size = size;
        self.record_import(import.module, import.name, entity);
        Ok(())
    }

    /// Looks up the entity that an export names. An exported function counts
    /// as referenced from then on.
    pub fn export_to_entity_type(&mut self, export: &Export, offset: usize) -> (res: Result<
        EntityType,
        BinaryReaderError,
    >)
        requires
            old(self)@.functions_in_range(),
        ensures
            match res {
                Ok(entity) => old(self)@.export_reason(export.kind, export.index) is None && entity
                    == old(self)@.export_entity(export.kind, export.index) && final(self)@
                    == old(self)@.with_exported(export.kind, export.index),
                Err(e) => Some(e.reason) == old(self)@.export_reason(export.kind, export.index)
                    && e.offset == offset && final(self)@ == old(self)@,
            },
            forall|store: Seq<SubTypeView>|
                old(self)@.wf(store) ==> final(self)@.wf(store) && (res is Ok ==> entity_closed(
                    store,
                    res->Ok_0,
                )),
    {
        let index: u32 = export.index;
        let at: usize = index as usize;
        match export.kind {
            ExternalKind::Func => {
                if at >= self.functions.len() {
                    return Err(
                        BinaryReaderError::new(
                            Reason::Unknown { space: IndexSpace::Functions, index },
                            offset,
                        ),
                    );
                }
                self.function_references.insert(index);
                Ok(EntityType::Func(self.types[self.functions[at] as usize]))
            },
            ExternalKind::Table => {
                if at >= self.tables.len() {
                    return Err(
                        BinaryReaderError::new(
                            Reason::Unknown { space: IndexSpace::Tables, index },
                            offset,
                        ),
                    );
                }
                Ok(EntityType::Table(self.tables[at]))
            },
            ExternalKind::Memory => {
                if at >= self.memories.len() {
                    return Err(
                        BinaryReaderError::new(
                            Reason::Unknown { space: IndexSpace::Memories, index },
                            offset,
                        ),
                    );
                }
                Ok(EntityType::Memory(self.memories[at]))
            },
            ExternalKind::Global => {
                if at >= self.globals.len() {
                    return Err(
                        BinaryReaderError::new(
                            Reason::Unknown { space: IndexSpace::Globals, index },
                            offset,
                        ),
                    );
                }
                Ok(EntityType::Global(self.globals[at]))
            },
            ExternalKind::Tag => {
                if at >= self.tags.len() {
                    return Err(
                        BinaryReaderError::new(
                            Reason::Unknown { space: IndexSpace::Tags, index },
                            offset,
                        ),
                    );
                }
                Ok(EntityType::Tag(self.tags[at]))
            },
        }
    }

    /// Whether an export has the name `name`.
    fn has_export(&self, name: &str) -> (r: bool)
        ensures
            r == self@.exports_name(name@),
    {
        let wanted = String::from_str(name);
        let mut i: usize = 0;
        while i < self.exports.len()
            invariant
                wanted@ == name@,
                i <= self.exports.len(),
                forall|j: int| 0 <= j < i ==> (#[trigger] self@.exports[j]).name != name@,
            decreases self.exports.len() - i,
        {
            if self.exports[i].name == wanted {
                assert(self@.exports[i as int].name == name@);
                return true;
            }
            i += 1;
        }
        false
    }

    /// Adds an export of an entity of the type `ty` under the name `name`.
    /// The name must be new. `check_limit` says whether the limit on the
    /// number of exports applies.
    pub fn add_export(
        &mut self,
        name: &str,
        ty: EntityType,
        offset: usize,
        check_limit: bool,
        types: &TypeList,
    ) -> (res: Result<(), BinaryReaderError>)
        requires
            old(self).wf(types),
            types.wf(),
            entity_closed(types@.types, ty),
        ensures
            res == verdict(
                old(self)@.add_export_reason(types@.types, name@, ty, check_limit),
                offset,
            ),
            final(self)@ == if res is Ok {
                old(self)@.with_export(types@.types, name@, ty)
            } else {
                old(self)@
            },
            final(self).wf(types),
    {
        if !self.features.mutable_global() {
            if let EntityType::Global(global_type) = ty {
                if global_type.mutable {
                    return Err(
                        BinaryReaderError::new(Reason::Disabled(Feature::MutableGlobal), offset),
                    );
                }
            }
        }
        if check_limit {
            check_max(self.exports.len(), 1, MAX_WASM_EXPORTS, IndexSpace::Exports, offset)?;
        }
        let size = combine_type_sizes(self.type_size, entity_type_size(&ty, types), offset)?;
        if self.has_export(name) {
            return Err(BinaryReaderError::new(Reason::DuplicateExportName, offset));
        }
        let ghost before = self@.exports;
        self.type_size = size;
        self.exports.push(ExportEntry { name: String::from_str(name), ty });
        assert(self@.exports =~= before.push(ExportView { name: name@, ty }));
        assert(self@.names_unique()) by {
            assert forall|a: int, b: int| 0 <= a < b < self@.exports.len() implies (
            #[trigger] self@.exports[a]).name != (#[trigger] self@.exports[b]).name by {
                assert(self@.exports[a] == before[a]);
                if b < before.len() {
                    assert(self@.exports[b] == before[b]);
                }
            }
        }
        Ok(())
    }

    /// The imports of the module with one type each: for a use of the module
    /// in which a pair of names may be imported once only. Where a pair was
    /// imported more than once the result is a failure.
    pub fn imports_for_module_type(&self, offset: usize) -> (res: Result<
        Vec<(String, String, EntityType)>,
        BinaryReaderError,
    >)
        ensures
            match res {
                Ok(list) => list@.len() == self@.imports.len() && forall|i: int|
                    0 <= i < list@.len() ==> {
                        let entry = #[trigger] self@.imports[i];
                        &&& entry.types.len() == 1
                        &&& list@[i].0@ == entry.module
                        &&& list@[i].1@ == entry.name
                        &&& list@[i].2 == entry.types[0]
                    },
                Err(e) => e == (BinaryReaderError { reason: Reason::DuplicateImportName, offset })
                    && exists|i: int|
                    0 <= i < self@.imports.len() && (#[trigger] self@.imports[i]).types.len() != 1,
            },
    {
        let mut list: Vec<(String, String, EntityType)> = Vec::new();
        let mut i: usize = 0;
        while i < self.imports.len()
            invariant
                i <= self.imports.len(),
                list@.len() == i,
                forall|k: int|
                    0 <= k < i ==> {
                        let entry = #[trigger] self@.imports[k];
                        &&& entry.types.len() == 1
                        &&& list@[k].0@ == entry.module
                        &&& list@[k].1@ == entry.name
                        &&& list@[k].2 == entry.types[0]
                    },
            decreases self.imports.len() - i,
        {
            let entry = &self.imports[i];
            assert(self@.imports[i as int] == entry@);
            if entry.types.len() != 1 {
                return Err(BinaryReaderError::new(Reason::DuplicateImportName, offset));
            }
            list.push((entry.module.clone(), entry.name.clone(), entry.types[0]));
            i += 1;
        }
        Ok(list)
    }
}

} // verus!
