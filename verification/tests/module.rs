use wasm_validator::error::{BinaryReaderError, ErrorKind, IndexSpace, Reason};
use wasm_validator::features::{
    Feature, WasmFeatures, CUSTOM_PAGE_SIZES, DEFAULT, EXCEPTIONS, GC, MEMORY64, MULTI_VALUE, THREADS,
};
use wasm_validator::limits::{
    check_max, combine_type_sizes, max_wasm_memory32_pages, max_wasm_memory64_pages,
    MAX_TYPE_SIZE, MAX_WASM_FUNCTIONS, MAX_WASM_MEMORIES, MAX_WASM_TABLES,
};
use wasm_validator::module::Module;
use wasm_validator::payload::{Export, Import};
use wasm_validator::type_list::TypeList;
use wasm_validator::types::{
    AbstractHeapType, CompositeInnerType, CompositeType, CoreTypeId, EntityType, ExternalKind,
    FieldType, FuncType, GlobalType, HeapType, MemoryType, RecGroup, RefType, StorageType,
    StructType, SubType, TableType, TagType, TypeRef, UnpackedIndex, ValType,
};

fn func(params: Vec<ValType>, results: Vec<ValType>) -> SubType {
    SubType {
        is_final: true,
        supertype_idx: None,
        composite_type: CompositeType {
            inner: CompositeInnerType::Func(FuncType { params, results }),
            shared: false,
        },
    }
}

fn structure(fields: Vec<FieldType>) -> SubType {
    SubType {
        is_final: true,
        supertype_idx: None,
        composite_type: CompositeType {
            inner: CompositeInnerType::Struct(StructType { fields }),
            shared: false,
        },
    }
}

fn group(types: Vec<SubType>) -> RecGroup {
    RecGroup { types }
}

fn fail(reason: Reason, offset: usize) -> Result<(), BinaryReaderError> {
    Err(BinaryReaderError { reason, offset })
}

fn memory(initial: u64, maximum: Option<u64>) -> MemoryType {
    MemoryType { memory64: false, shared: false, initial, maximum, page_size_log2: None }
}

fn table(element_type: RefType) -> TableType {
    TableType { element_type, table64: false, initial: 0, maximum: None, shared: false }
}

fn module_ref(index: u32) -> RefType {
    RefType { nullable: true, heap_type: HeapType::Concrete(UnpackedIndex::Module(index)) }
}

fn with_types(features: WasmFeatures) -> (Module, TypeList) {
    let mut module = Module::new(features);
    let mut types = TypeList::new();
    module.add_types(group(vec![func(vec![], vec![])]), &mut types, 0, true).unwrap();
    module.add_types(group(vec![func(vec![ValType::I32], vec![ValType::I64])]), &mut types, 0, true)
        .unwrap();
    if features.gc() {
        module
            .add_types(
                group(vec![structure(vec![FieldType {
                    element_type: StorageType::I8,
                    mutable: false,
                }])]),
                &mut types,
                0,
                true,
            )
            .unwrap();
    }
    (module, types)
}

fn import(ty: TypeRef) -> Import {
    Import { module: "env".to_string(), name: "x".to_string(), ty }
}

#[test]
fn limits_of_memories() {
    assert_eq!(max_wasm_memory32_pages(16), 65536);
    assert_eq!(max_wasm_memory32_pages(0), 1 << 32);
    assert_eq!(max_wasm_memory64_pages(16), 1 << 48);
    assert_eq!(max_wasm_memory64_pages(0), u64::MAX);
}

#[test]
fn counts_and_sizes() {
    assert_eq!(check_max(3, 2, 5, IndexSpace::Tables, 9), Ok(()));
    assert_eq!(check_max(3, 3, 5, IndexSpace::Tables, 9), fail(Reason::TooMany(IndexSpace::Tables), 9));
    assert_eq!(check_max(6, 0, 5, IndexSpace::Tags, 9), fail(Reason::TooMany(IndexSpace::Tags), 9));
    assert_eq!(check_max(usize::MAX, usize::MAX, usize::MAX, IndexSpace::Types, 0).is_err(), true);
    assert_eq!(combine_type_sizes(1, 2, 0), Ok(3));
    assert_eq!(combine_type_sizes(MAX_TYPE_SIZE - 2, 1, 0), Ok(MAX_TYPE_SIZE - 1));
    assert_eq!(
        combine_type_sizes(MAX_TYPE_SIZE - 1, 1, 4),
        Err(BinaryReaderError { reason: Reason::TypeSizeExceeded, offset: 4 })
    );
    assert_eq!(combine_type_sizes(u32::MAX, u32::MAX, 4).is_err(), true);
}

#[test]
fn new_module_is_empty() {
    let module = Module::new(WasmFeatures::mvp());
    assert_eq!(module.type_size, 1);
    assert_eq!(module.features, WasmFeatures::mvp());
    assert_eq!(module.types_len(), 0);
    assert!(module.snapshot.is_none());
    assert_eq!(module.data_count, None);
    assert_eq!(module.max_tables(), 1);
    assert_eq!(module.max_memories(), 1);
    let module = Module::new(WasmFeatures::default());
    assert_eq!(module.max_tables(), MAX_WASM_TABLES);
    assert_eq!(module.max_memories(), MAX_WASM_MEMORIES);
}

#[test]
fn types_are_added_and_found() {
    let (module, types) = with_types(WasmFeatures::default());
    assert_eq!(module.types, vec![CoreTypeId { index: 0 }, CoreTypeId { index: 1 }, CoreTypeId { index: 2 }]);
    assert_eq!(module.type_id_at(1, 5), Ok(CoreTypeId { index: 1 }));
    assert_eq!(
        module.type_id_at(3, 5),
        Err(BinaryReaderError { reason: Reason::Unknown { space: IndexSpace::Types, index: 3 }, offset: 5 })
    );
    assert_eq!(module.func_type_at(1, &types, 5).unwrap().params, vec![ValType::I32]);
    assert_eq!(module.func_type_at(2, &types, 5).unwrap_err().reason, Reason::NotFunctionType(2));
    assert_eq!(
        module.func_type_at(7, &types, 5).unwrap_err().reason,
        Reason::Unknown { space: IndexSpace::Types, index: 7 }
    );
    assert!(module.sub_type_at(&types, 2, 0).is_ok());
    assert!(module.sub_type_at(&types, 3, 0).is_err());
}

#[test]
fn equal_types_of_a_module_share_an_identifier() {
    let mut module = Module::new(WasmFeatures::default());
    let mut types = TypeList::new();
    module.add_types(group(vec![func(vec![], vec![])]), &mut types, 0, true).unwrap();
    module.add_types(group(vec![func(vec![], vec![])]), &mut types, 0, true).unwrap();
    module
        .add_types(group(vec![func(vec![ValType::Ref(module_ref(0))], vec![])]), &mut types, 0, true)
        .unwrap();
    module
        .add_types(group(vec![func(vec![ValType::Ref(module_ref(1))], vec![])]), &mut types, 0, true)
        .unwrap();
    assert_eq!(
        module.types,
        vec![
            CoreTypeId { index: 0 },
            CoreTypeId { index: 0 },
            CoreTypeId { index: 1 },
            CoreTypeId { index: 1 }
        ]
    );
    assert_eq!(types.len(), 2);
}

#[test]
fn types_that_are_refused() {
    let mut types = TypeList::new();
    let mut mvp = Module::new(WasmFeatures::mvp());
    assert_eq!(
        mvp.add_types(group(vec![func(vec![], vec![ValType::I32, ValType::I32])]), &mut types, 3, true),
        fail(Reason::Disabled(Feature::MultiValue), 3)
    );
    assert_eq!(
        mvp.add_types(group(vec![structure(vec![])]), &mut types, 3, true),
        fail(Reason::Disabled(Feature::Gc), 3)
    );
    assert_eq!(
        mvp.add_types(group(vec![func(vec![], vec![]), func(vec![], vec![])]), &mut types, 3, true),
        fail(Reason::Disabled(Feature::Gc), 3)
    );
    assert_eq!(
        mvp.add_types(group(vec![func(vec![ValType::V128], vec![])]), &mut types, 3, true),
        fail(Reason::Disabled(Feature::Simd), 3)
    );
    let open = SubType { is_final: false, ..func(vec![], vec![]) };
    assert_eq!(
        mvp.add_types(group(vec![open]), &mut types, 3, true),
        fail(Reason::Disabled(Feature::Gc), 3)
    );
    let mut module = Module::new(WasmFeatures::default());
    assert_eq!(
        module.add_types(group(vec![func(vec![ValType::Ref(module_ref(1))], vec![])]), &mut types, 3, true),
        fail(Reason::Unknown { space: IndexSpace::Types, index: 1 }, 3)
    );
    assert_eq!(
        module.add_types(
            group(vec![func(
                vec![ValType::Ref(RefType {
                    nullable: true,
                    heap_type: HeapType::Concrete(UnpackedIndex::Id(CoreTypeId { index: 0 })),
                })],
                vec![]
            )]),
            &mut types,
            3,
            true
        ),
        fail(Reason::ResolvedIndexInInput, 3)
    );
    assert_eq!(
        module.add_types(group(vec![func(vec![ValType::I32; 1001], vec![])]), &mut types, 3, true),
        fail(Reason::FunctionSignatureTooLong, 3)
    );
    let field = FieldType { element_type: StorageType::I16, mutable: true };
    assert_eq!(
        module.add_types(group(vec![structure(vec![field; 10_001])]), &mut types, 3, true),
        fail(Reason::TooManyStructFields, 3)
    );
    assert_eq!(
        module.add_types(group(vec![]), &mut types, 3, true),
        fail(Reason::MalformedRecGroup, 3)
    );
    let shared = SubType {
        composite_type: CompositeType {
            inner: CompositeInnerType::Func(FuncType { params: vec![], results: vec![] }),
            shared: true,
        },
        ..func(vec![], vec![])
    };
    assert_eq!(
        module.add_types(group(vec![shared]), &mut types, 3, true),
        fail(Reason::Disabled(Feature::SharedEverythingThreads), 3)
    );
    assert_eq!(module.types_len(), 0);
    assert_eq!(types.len(), 0);
    assert!(module.add_types(group(vec![func(vec![ValType::Ref(module_ref(0))], vec![])]), &mut types, 3, true).is_ok());
}

#[test]
fn functions_memories_and_tags() {
    let (mut module, types) = with_types(WasmFeatures::default());
    assert_eq!(module.add_function(1, &types, 4), Ok(()));
    assert_eq!(module.add_function(2, &types, 4), fail(Reason::NotFunctionType(2), 4));
    assert_eq!(
        module.add_function(3, &types, 4),
        fail(Reason::Unknown { space: IndexSpace::Types, index: 3 }, 4)
    );
    assert_eq!(module.functions, vec![1]);
    assert_eq!(module.get_func_type(0, &types, 0).unwrap().results, vec![ValType::I64]);
    assert_eq!(
        module.get_func_type(1, &types, 6).unwrap_err(),
        BinaryReaderError { reason: Reason::Unknown { space: IndexSpace::Functions, index: 1 }, offset: 6 }
    );
    assert_eq!(module.add_memory(memory(1, Some(2)), 4), Ok(()));
    assert_eq!(module.add_memory(memory(3, Some(2)), 4), fail(Reason::MinimumExceedsMaximum, 4));
    assert_eq!(module.memories, vec![memory(1, Some(2))]);
    assert_eq!(module.memory_at(0, 0), Ok(&memory(1, Some(2))));
    assert_eq!(
        module.memory_at(1, 2).unwrap_err().reason,
        Reason::Unknown { space: IndexSpace::Memories, index: 1 }
    );
    assert_eq!(module.add_tag(TagType { func_type_idx: 0 }, &types, 4), Ok(()));
    assert_eq!(
        module.add_tag(TagType { func_type_idx: 1 }, &types, 4),
        fail(Reason::Disabled(Feature::StackSwitching), 4)
    );
    assert_eq!(module.add_tag(TagType { func_type_idx: 2 }, &types, 4), fail(Reason::NotFunctionType(2), 4));
    assert_eq!(module.tags, vec![CoreTypeId { index: 0 }]);
    let (mut old, types) = with_types(WasmFeatures::from_bits_truncate(DEFAULT & !EXCEPTIONS));
    assert_eq!(
        old.add_tag(TagType { func_type_idx: 0 }, &types, 4),
        fail(Reason::Disabled(Feature::Exceptions), 4)
    );
    assert_eq!(
        module.global_at(0, 1).unwrap_err().reason,
        Reason::Unknown { space: IndexSpace::Globals, index: 0 }
    );
    assert_eq!(
        module.table_at(0, 1).unwrap_err().reason,
        Reason::Unknown { space: IndexSpace::Tables, index: 0 }
    );
}

#[test]
fn memory_types() {
    let module = Module::new(WasmFeatures::default());
    let narrow = Module::new(WasmFeatures::from_bits_truncate(DEFAULT & !MEMORY64 & !THREADS));
    let pages = Module::new(WasmFeatures::from_bits_truncate(DEFAULT | CUSTOM_PAGE_SIZES));
    let base = memory(1, None);
    assert_eq!(module.check_memory_type(&base, 0), Ok(()));
    assert_eq!(module.check_memory_type(&memory(65536, Some(65536)), 0), Ok(()));
    assert_eq!(module.check_memory_type(&memory(65537, None), 0), fail(Reason::MemoryTooLarge, 0));
    assert_eq!(module.check_memory_type(&memory(0, Some(65537)), 0), fail(Reason::MemoryTooLarge, 0));
    let wide = MemoryType { memory64: true, ..memory(1 << 48, None) };
    assert_eq!(module.check_memory_type(&wide, 0), Ok(()));
    assert_eq!(
        module.check_memory_type(&MemoryType { initial: (1 << 48) + 1, ..wide }, 0),
        fail(Reason::MemoryTooLarge, 0)
    );
    assert_eq!(narrow.check_memory_type(&wide, 0), fail(Reason::Disabled(Feature::Memory64), 0));
    let shared = MemoryType { shared: true, ..memory(1, Some(2)) };
    assert_eq!(module.check_memory_type(&shared, 0), Ok(()));
    assert_eq!(narrow.check_memory_type(&shared, 0), fail(Reason::Disabled(Feature::Threads), 0));
    assert_eq!(
        module.check_memory_type(&MemoryType { maximum: None, ..shared }, 0),
        fail(Reason::SharedMemoryWithoutMaximum, 0)
    );
    let bytes = MemoryType { page_size_log2: Some(0), ..memory(1 << 32, None) };
    assert_eq!(module.check_memory_type(&bytes, 0), fail(Reason::Disabled(Feature::CustomPageSizes), 0));
    assert_eq!(pages.check_memory_type(&bytes, 0), Ok(()));
    assert_eq!(
        pages.check_memory_type(&MemoryType { initial: (1 << 32) + 1, ..bytes }, 0),
        fail(Reason::MemoryTooLarge, 0)
    );
    assert_eq!(
        pages.check_memory_type(&MemoryType { page_size_log2: Some(12), ..base }, 0),
        fail(Reason::InvalidPageSize, 0)
    );
    assert_eq!(pages.check_memory_type(&MemoryType { page_size_log2: Some(16), ..base }, 0), Ok(()));
    assert_eq!(module.check_limits(2, Some(1), 9), fail(Reason::MinimumExceedsMaximum, 9));
    assert_eq!(module.check_limits(2, Some(2), 9), Ok(()));
    assert_eq!(module.check_limits(2, None, 9), Ok(()));
}

#[test]
fn table_types() {
    let (module, types) = with_types(WasmFeatures::default());
    let (mvp, _) = (Module::new(WasmFeatures::mvp()), ());
    let mut plain = table(RefType::funcref());
    assert_eq!(mvp.check_table_type(&mut plain, &types, 0), Ok(()));
    let mut external = table(RefType {
        nullable: true,
        heap_type: HeapType::Abstract { shared: false, ty: AbstractHeapType::Extern },
    });
    assert_eq!(
        mvp.check_table_type(&mut external, &types, 2),
        fail(Reason::Disabled(Feature::ReferenceTypes), 2)
    );
    assert_eq!(module.check_table_type(&mut external, &types, 2), Ok(()));
    let mut typed = table(module_ref(1));
    assert_eq!(module.check_table_type(&mut typed, &types, 2), Ok(()));
    assert_eq!(
        typed.element_type.heap_type,
        HeapType::Concrete(UnpackedIndex::Id(CoreTypeId { index: 1 }))
    );
    assert_eq!(module.check_table_type(&mut typed, &types, 2), fail(Reason::ResolvedIndexInInput, 2));
    let mut unknown = table(module_ref(9));
    assert_eq!(
        module.check_table_type(&mut unknown, &types, 2),
        fail(Reason::Unknown { space: IndexSpace::Types, index: 9 }, 2)
    );
    assert_eq!(unknown, table(module_ref(9)));
    let mut big = TableType { initial: 1 << 32, ..table(RefType::funcref()) };
    assert_eq!(module.check_table_type(&mut big, &types, 2), fail(Reason::TableTooLarge, 2));
    let mut big = TableType { maximum: Some(1 << 32), ..table(RefType::funcref()) };
    assert_eq!(module.check_table_type(&mut big, &types, 2), fail(Reason::TableTooLarge, 2));
    let mut wide = TableType { table64: true, initial: 1 << 32, ..table(RefType::funcref()) };
    assert_eq!(module.check_table_type(&mut wide, &types, 2), Ok(()));
    let narrow = Module::new(WasmFeatures::from_bits_truncate(DEFAULT & !MEMORY64));
    assert_eq!(narrow.check_table_type(&mut wide, &types, 2), fail(Reason::Disabled(Feature::Memory64), 2));
    let mut upside = TableType { initial: 2, maximum: Some(1), ..table(RefType::funcref()) };
    assert_eq!(module.check_table_type(&mut upside, &types, 2), fail(Reason::MinimumExceedsMaximum, 2));
    let mut shared = TableType { shared: true, ..table(RefType::funcref()) };
    assert_eq!(
        module.check_table_type(&mut shared, &types, 2),
        fail(Reason::Disabled(Feature::SharedEverythingThreads), 2)
    );
    let all = Module::new(WasmFeatures::all());
    assert_eq!(all.check_table_type(&mut shared, &types, 2), fail(Reason::SharedTableElement, 2));
    assert_eq!(
        BinaryReaderError { reason: Reason::SharedTableElement, offset: 0 }.kind(),
        ErrorKind::SharedMismatch
    );
    let mut both = TableType {
        shared: true,
        ..table(RefType {
            nullable: true,
            heap_type: HeapType::Abstract { shared: true, ty: AbstractHeapType::Func },
        })
    };
    assert_eq!(all.check_table_type(&mut both, &types, 2), Ok(()));
}

#[test]
fn global_and_value_types() {
    let (module, types) = with_types(WasmFeatures::default());
    let mut global = GlobalType { content_type: ValType::Ref(module_ref(2)), mutable: true, shared: false };
    assert_eq!(module.check_global_type(&mut global, &types, 1), Ok(()));
    assert_eq!(
        global.content_type,
        ValType::Ref(RefType {
            nullable: true,
            heap_type: HeapType::Concrete(UnpackedIndex::Id(CoreTypeId { index: 2 })),
        })
    );
    let mut shared = GlobalType { content_type: ValType::I32, mutable: false, shared: true };
    assert_eq!(
        module.check_global_type(&mut shared, &types, 1),
        fail(Reason::Disabled(Feature::SharedEverythingThreads), 1)
    );
    let all = Module::new(WasmFeatures::all());
    assert_eq!(all.check_global_type(&mut shared, &types, 1), Ok(()));
    let mut unshared = GlobalType { content_type: ValType::Ref(RefType::funcref()), mutable: false, shared: true };
    assert_eq!(all.check_global_type(&mut unshared, &types, 1), fail(Reason::SharedGlobalContent, 1));
    let mut value = ValType::V128;
    assert_eq!(Module::new(WasmFeatures::mvp()).check_value_type(&mut value, 1), fail(Reason::Disabled(Feature::Simd), 1));
    assert_eq!(module.check_value_type(&mut value, 1), Ok(()));
    let mut heap = HeapType::Concrete(UnpackedIndex::Module(0));
    assert_eq!(module.check_heap_type(&mut heap, 1), Ok(()));
    assert_eq!(heap, HeapType::Concrete(UnpackedIndex::Id(CoreTypeId { index: 0 })));
    let mut heap = HeapType::Concrete(UnpackedIndex::RecGroup(0));
    assert_eq!(module.check_heap_type(&mut heap, 1), fail(Reason::ResolvedIndexInInput, 1));
    let mut heap = HeapType::Abstract { shared: false, ty: AbstractHeapType::Any };
    assert_eq!(module.check_heap_type(&mut heap, 1), Ok(()));
    let mut reference = module_ref(3);
    assert_eq!(
        module.check_ref_type(&mut reference, 1),
        fail(Reason::Unknown { space: IndexSpace::Types, index: 3 }, 1)
    );
    assert_eq!(module.check_tag_type(&TagType { func_type_idx: 0 }, &types, 1), Ok(()));
}

#[test]
fn imports_fill_the_index_spaces() {
    let (mut module, types) = with_types(WasmFeatures::default());
    assert_eq!(module.add_import(import(TypeRef::Func(1)), &types, 0), Ok(()));
    assert_eq!(module.add_import(import(TypeRef::Memory(memory(1, None))), &types, 0), Ok(()));
    assert_eq!(module.add_import(import(TypeRef::Table(table(module_ref(0)))), &types, 0), Ok(()));
    assert_eq!(module.add_import(import(TypeRef::Tag(TagType { func_type_idx: 0 })), &types, 0), Ok(()));
    let global = GlobalType { content_type: ValType::I32, mutable: false, shared: false };
    assert_eq!(module.add_import(import(TypeRef::Global(global)), &types, 0), Ok(()));
    let other = Import { module: "env".to_string(), name: "y".to_string(), ty: TypeRef::Func(0) };
    assert_eq!(module.add_import(other, &types, 0), Ok(()));
    assert_eq!(module.functions, vec![1, 0]);
    assert_eq!(module.num_imported_functions, 2);
    assert_eq!(module.num_imported_globals, 1);
    assert_eq!(module.globals, vec![global]);
    assert_eq!(module.tags, vec![CoreTypeId { index: 0 }]);
    assert_eq!(module.tables.len(), 1);
    assert_eq!(
        module.tables[0].element_type.heap_type,
        HeapType::Concrete(UnpackedIndex::Id(CoreTypeId { index: 0 }))
    );
    assert_eq!(module.imports.len(), 2);
    assert_eq!(module.imports[0].module, "env");
    assert_eq!(module.imports[0].name, "x");
    assert_eq!(
        module.imports[0].types,
        vec![
            EntityType::Func(CoreTypeId { index: 1 }),
            EntityType::Memory(memory(1, None)),
            EntityType::Table(module.tables[0]),
            EntityType::Tag(CoreTypeId { index: 0 }),
            EntityType::Global(global),
        ]
    );
    assert_eq!(module.imports[1].types, vec![EntityType::Func(CoreTypeId { index: 0 })]);
    assert_eq!(module.type_size, 1 + 4 + 1 + 1 + 2 + 1 + 2);
    assert_eq!(
        module.add_import(import(TypeRef::Func(2)), &types, 8),
        fail(Reason::NotFunctionType(2), 8)
    );
    assert_eq!(module.functions.len(), 2);
}

#[test]
fn imports_respect_the_limits() {
    let (mut module, types) = with_types(WasmFeatures::mvp());
    assert_eq!(module.add_import(import(TypeRef::Memory(memory(1, None))), &types, 0), Ok(()));
    assert_eq!(
        module.add_import(import(TypeRef::Memory(memory(1, None))), &types, 3),
        fail(Reason::TooMany(IndexSpace::Memories), 3)
    );
    assert_eq!(module.add_import(import(TypeRef::Table(table(RefType::funcref()))), &types, 0), Ok(()));
    assert_eq!(
        module.add_import(import(TypeRef::Table(table(RefType::funcref()))), &types, 3),
        fail(Reason::TooMany(IndexSpace::Tables), 3)
    );
    assert_eq!(module.memories.len(), 1);
    assert_eq!(module.tables.len(), 1);
    assert_eq!(module.imports[0].types.len(), 2);
    module.type_size = MAX_TYPE_SIZE - 2;
    assert_eq!(module.add_import(import(TypeRef::Func(0)), &types, 3), fail(Reason::TypeSizeExceeded, 3));
    module.type_size = MAX_TYPE_SIZE - 3;
    assert_eq!(module.add_import(import(TypeRef::Func(0)), &types, 3), Ok(()));
    assert_eq!(module.type_size, MAX_TYPE_SIZE - 1);
    assert!(MAX_WASM_FUNCTIONS >= 2);
}

#[test]
fn exports_have_new_names() {
    let (mut module, types) = with_types(WasmFeatures::default());
    module.add_function(0, &types, 0).unwrap();
    module.add_memory(memory(1, None), 0).unwrap();
    let export = |kind, index| Export { name: "e".to_string(), kind, index };
    let entity = module.export_to_entity_type(&export(ExternalKind::Func, 0), 3).unwrap();
    assert_eq!(entity, EntityType::Func(CoreTypeId { index: 0 }));
    assert!(module.function_references.contains(&0));
    assert_eq!(module.add_export("f", entity, 3, true, &types), Ok(()));
    assert_eq!(module.type_size, 1 + 2);
    assert_eq!(module.add_export("f", entity, 3, true, &types), fail(Reason::DuplicateExportName, 3));
    assert_eq!(module.type_size, 3);
    let memory_entity = module.export_to_entity_type(&export(ExternalKind::Memory, 0), 3).unwrap();
    assert_eq!(memory_entity, EntityType::Memory(memory(1, None)));
    assert_eq!(module.add_export("m", memory_entity, 3, true, &types), Ok(()));
    assert_eq!(module.exports.len(), 2);
    assert_eq!(module.exports[1].name, "m");
    assert_eq!(module.exports[1].ty, memory_entity);
    for (kind, space) in [
        (ExternalKind::Func, IndexSpace::Functions),
        (ExternalKind::Table, IndexSpace::Tables),
        (ExternalKind::Memory, IndexSpace::Memories),
        (ExternalKind::Global, IndexSpace::Globals),
        (ExternalKind::Tag, IndexSpace::Tags),
    ] {
        let err = module.export_to_entity_type(&export(kind, 5), 3).unwrap_err();
        assert_eq!(err, BinaryReaderError { reason: Reason::Unknown { space, index: 5 }, offset: 3 });
    }
    assert_eq!(module.function_references.len(), 1);
    let mutable = EntityType::Global(GlobalType { content_type: ValType::I32, mutable: true, shared: false });
    assert_eq!(module.add_export("g", mutable, 3, true, &types), Ok(()));
    let (mut mvp, types) = with_types(WasmFeatures::wasm1());
    assert_eq!(
        mvp.add_export("g", mutable, 3, true, &types),
        fail(Reason::Disabled(Feature::MutableGlobal), 3)
    );
    mvp.type_size = MAX_TYPE_SIZE - 1;
    assert_eq!(mvp.add_export("m", memory_entity, 3, true, &types), fail(Reason::TypeSizeExceeded, 3));
}

#[test]
fn proposals_switched_off_by_name() {
    let none = WasmFeatures::from_bits_truncate(DEFAULT & !GC & !MULTI_VALUE);
    assert!(!none.gc());
    assert!(!none.contains(Feature::MultiValue));
}

#[test]
fn imports_with_one_type_each() {
    let (mut module, types) = with_types(WasmFeatures::default());
    module.add_import(import(TypeRef::Func(1)), &types, 0).unwrap();
    let other = Import { module: "env".to_string(), name: "y".to_string(), ty: TypeRef::Func(0) };
    module.add_import(other, &types, 0).unwrap();
    assert_eq!(
        module.imports_for_module_type(9),
        Ok(vec![
            ("env".to_string(), "x".to_string(), EntityType::Func(CoreTypeId { index: 1 })),
            ("env".to_string(), "y".to_string(), EntityType::Func(CoreTypeId { index: 0 })),
        ])
    );
    module.add_import(import(TypeRef::Memory(memory(1, None))), &types, 0).unwrap();
    let err = module.imports_for_module_type(9).unwrap_err();
    assert_eq!(err, BinaryReaderError { reason: Reason::DuplicateImportName, offset: 9 });
    assert_eq!(err.kind(), ErrorKind::Malformed);
}
