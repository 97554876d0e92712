use wasm_validator::error::{ErrorKind, IndexSpace, Reason};
use wasm_validator::features::WasmFeatures;
use wasm_validator::operators::{ConstExpr, ConstOp, Operator};
use wasm_validator::payload::{
    Data, DataKind, Element, ElementItems, ElementKind, Export, Global, Table, TableInit,
};
use wasm_validator::sections::{ValidPayload, Validator};
use wasm_validator::types::{
    AbstractHeapType, CompositeInnerType, CompositeType, ExternalKind, FuncType, GlobalType,
    HeapType, MemoryType, RecGroup, RefType, SubType, TableType, ValType,
};
use wasm_validator::validator::{Located, Payload, State};

fn func_type(params: Vec<ValType>, results: Vec<ValType>) -> RecGroup {
    RecGroup {
        types: vec![SubType {
            is_final: true,
            supertype_idx: None,
            composite_type: CompositeType {
                inner: CompositeInnerType::Func(FuncType { params, results }),
                shared: false,
            },
        }],
    }
}

fn at<T>(offset: usize, item: T) -> Located<T> {
    Located { offset, item }
}

fn expr(offset: usize, ops: Vec<Operator>) -> ConstExpr {
    let mut list = Vec::new();
    let mut position = offset;
    for op in ops {
        list.push(ConstOp { offset: position, op });
        position += 1;
    }
    ConstExpr { offset, ops: list }
}

fn memory(initial: u64) -> MemoryType {
    MemoryType { memory64: false, shared: false, initial, maximum: None, page_size_log2: None }
}

#[test]
fn empty_module_is_accepted() {
    let mut v = Validator::new(WasmFeatures::default());
    assert!(matches!(v.payload(Payload::Version { num: 1, offset: 0 }), Ok(ValidPayload::Accepted)));
    assert!(matches!(v.payload(Payload::End { offset: 8 }), Ok(ValidPayload::End(_))));
    assert_eq!(v.state, State::End);
    let module = v.module.module.get();
    assert!(module.types.is_empty());
    assert!(module.functions.is_empty());
    assert!(module.tables.is_empty());
    assert!(module.memories.is_empty());
    assert!(module.globals.is_empty());
    assert!(module.tags.is_empty());
    assert!(module.exports.is_empty());
    assert!(module.function_references.is_empty());
}

#[test]
fn one_function_add() {
    let mut v = Validator::new(WasmFeatures::default());
    v.payload(Payload::Version { num: 1, offset: 0 }).unwrap();
    v.payload(Payload::TypeSection {
        offset: 8,
        groups: vec![at(10, func_type(vec![ValType::I32, ValType::I32], vec![ValType::I32]))],
    })
    .unwrap();
    v.payload(Payload::FunctionSection { offset: 17, functions: vec![at(19, 0)] }).unwrap();
    v.payload(Payload::CodeSectionStart { count: 1, offset: 20 }).unwrap();
    let body = vec![0x00, 0x20, 0x00, 0x20, 0x01, 0x6a, 0x0b];
    match v.payload(Payload::CodeSectionEntry { body: body.clone(), offset: 23 }).unwrap() {
        ValidPayload::Func(func, bytes) => {
            assert_eq!(func.index, 0);
            assert_eq!(func.ty, 0);
            assert_eq!(bytes, body);
            assert_eq!(func.resources.type_index_of_function(0), Some(0));
            assert!(!func.resources.is_function_referenced(0));
            assert_eq!(func.resources.0.functions, vec![0]);
            assert!(func.resources.0.function_references.is_empty());
        }
        _ => panic!("a code body gives a function to check"),
    }
    assert!(matches!(v.payload(Payload::End { offset: 30 }), Ok(ValidPayload::End(_))));
}

#[test]
fn referenced_function_is_recorded() {
    let mut v = Validator::new(WasmFeatures::default());
    v.payload(Payload::Version { num: 1, offset: 0 }).unwrap();
    v.payload(Payload::TypeSection { offset: 8, groups: vec![at(10, func_type(vec![], vec![]))] })
        .unwrap();
    v.payload(Payload::FunctionSection { offset: 14, functions: vec![at(16, 0), at(17, 0)] })
        .unwrap();
    let funcref = ValType::Ref(RefType {
        nullable: true,
        heap_type: HeapType::Abstract { shared: false, ty: AbstractHeapType::Func },
    });
    v.payload(Payload::GlobalSection {
        offset: 18,
        globals: vec![at(
            20,
            Global {
                ty: GlobalType { content_type: funcref, mutable: false, shared: false },
                init_expr: expr(22, vec![Operator::RefFunc(1), Operator::End]),
            },
        )],
    })
    .unwrap();
    v.payload(Payload::ExportSection {
        offset: 25,
        exports: vec![at(27, Export { name: "g".to_string(), kind: ExternalKind::Global, index: 0 })],
    })
    .unwrap();
    v.payload(Payload::CodeSectionStart { count: 2, offset: 32 }).unwrap();
    v.payload(Payload::CodeSectionEntry { body: vec![0, 0x0b], offset: 34 }).unwrap();
    v.payload(Payload::CodeSectionEntry { body: vec![0, 0x0b], offset: 37 }).unwrap();
    v.payload(Payload::End { offset: 40 }).unwrap();
    let module = v.module.module.get();
    assert_eq!(module.function_references.len(), 1);
    assert!(module.function_references.contains(&1));
}

#[test]
fn duplicate_export_is_rejected() {
    let mut v = Validator::new(WasmFeatures::default());
    v.payload(Payload::Version { num: 1, offset: 0 }).unwrap();
    v.payload(Payload::MemorySection { offset: 8, memories: vec![at(10, memory(1))] }).unwrap();
    let err = v
        .payload(Payload::ExportSection {
            offset: 13,
            exports: vec![
                at(15, Export { name: "a".to_string(), kind: ExternalKind::Memory, index: 0 }),
                at(19, Export { name: "a".to_string(), kind: ExternalKind::Memory, index: 0 }),
            ],
        })
        .unwrap_err();
    assert_eq!(err.kind(), ErrorKind::DuplicateExport);
    assert_eq!(err.reason, Reason::DuplicateExportName);
    assert_eq!(err.offset(), 19);
}

#[test]
fn invalid_limits_are_rejected() {
    let mut v = Validator::new(WasmFeatures::default());
    v.payload(Payload::Version { num: 1, offset: 0 }).unwrap();
    let err = v
        .payload(Payload::MemorySection { offset: 8, memories: vec![at(10, memory(0x20000))] })
        .unwrap_err();
    assert_eq!(err.kind(), ErrorKind::InvalidLimits);
    assert_eq!(err.reason, Reason::MemoryTooLarge);
    assert_eq!(err.offset(), 10);
}

#[test]
fn two_tables_need_reference_types() {
    let table = || Table {
        ty: TableType {
            element_type: RefType::funcref(),
            table64: false,
            initial: 0,
            maximum: None,
            shared: false,
        },
        init: TableInit::RefNull,
    };
    let mut v = Validator::new(WasmFeatures::mvp());
    v.payload(Payload::Version { num: 1, offset: 0 }).unwrap();
    let err = v
        .payload(Payload::TableSection { offset: 8, tables: vec![at(10, table()), at(13, table())] })
        .unwrap_err();
    assert_eq!(err.kind(), ErrorKind::LimitExceeded);
    assert_eq!(err.reason, Reason::TooMany(IndexSpace::Tables));
}

fn start(features: WasmFeatures) -> Validator {
    let mut v = Validator::new(features);
    v.payload(Payload::Version { num: 1, offset: 0 }).unwrap();
    v
}

fn without(feature: u32) -> WasmFeatures {
    WasmFeatures::from_bits_truncate(wasm_validator::features::DEFAULT & !feature)
}

#[test]
fn memory_over_65536_pages_is_rejected() {
    let mut v = start(without(wasm_validator::features::MEMORY64));
    let err = v
        .payload(Payload::MemorySection { offset: 8, memories: vec![at(10, memory(65537))] })
        .unwrap_err();
    assert_eq!(err.kind(), ErrorKind::InvalidLimits);
    let mut v = start(without(wasm_validator::features::MEMORY64));
    assert!(v
        .payload(Payload::MemorySection { offset: 8, memories: vec![at(10, memory(65536))] })
        .is_ok());
}

#[test]
fn mutable_global_import_needs_the_proposal() {
    use_import(
        without(wasm_validator::features::MUTABLE_GLOBAL),
        wasm_validator::types::TypeRef::Global(GlobalType {
            content_type: ValType::I32,
            mutable: true,
            shared: false,
        }),
        Some(Reason::Disabled(wasm_validator::features::Feature::MutableGlobal)),
    );
    use_import(
        WasmFeatures::default(),
        wasm_validator::types::TypeRef::Global(GlobalType {
            content_type: ValType::I32,
            mutable: true,
            shared: false,
        }),
        None,
    );
}

fn use_import(
    features: WasmFeatures,
    ty: wasm_validator::types::TypeRef,
    expected: Option<Reason>,
) {
    let mut v = start(features);
    let res = v.payload(Payload::ImportSection {
        offset: 8,
        imports: vec![at(
            10,
            wasm_validator::payload::Import { module: "m".to_string(), name: "n".to_string(), ty },
        )],
    });
    match expected {
        None => assert!(res.is_ok()),
        Some(reason) => {
            let err = res.unwrap_err();
            assert_eq!(err.reason, reason);
            assert_eq!(err.offset, 10);
            if let Reason::Disabled(_) = reason {
                assert_eq!(err.kind(), ErrorKind::FeatureDisabled);
            }
        }
    }
}

fn externref() -> RefType {
    RefType {
        nullable: true,
        heap_type: HeapType::Abstract { shared: false, ty: AbstractHeapType::Extern },
    }
}

fn table_of(element_type: RefType) -> Table {
    Table {
        ty: TableType { element_type, table64: false, initial: 1, maximum: None, shared: false },
        init: TableInit::RefNull,
    }
}

#[test]
fn element_type_must_fit_the_table() {
    let mut v = start(WasmFeatures::default());
    v.payload(Payload::TableSection { offset: 8, tables: vec![at(10, table_of(externref()))] })
        .unwrap();
    let err = v
        .payload(Payload::ElementSection {
            offset: 14,
            elements: vec![at(
                16,
                Element {
                    kind: ElementKind::Active {
                        table_index: None,
                        offset_expr: expr(17, vec![Operator::I32Const(0), Operator::End]),
                    },
                    items: ElementItems::Functions(vec![]),
                },
            )],
        })
        .unwrap_err();
    assert_eq!(err.kind(), ErrorKind::TypeMismatch);
    assert_eq!(err.reason, Reason::ElementTypeMismatch);
    assert_eq!(err.offset, 16);
}

#[test]
fn ref_func_in_data_offset_is_not_constant() {
    let mut v = start(WasmFeatures::default());
    v.payload(Payload::TypeSection { offset: 8, groups: vec![at(10, func_type(vec![], vec![]))] })
        .unwrap();
    v.payload(Payload::FunctionSection { offset: 14, functions: vec![at(16, 0)] }).unwrap();
    v.payload(Payload::MemorySection { offset: 17, memories: vec![at(19, memory(1))] }).unwrap();
    v.payload(Payload::ExportSection {
        offset: 22,
        exports: vec![at(24, Export { name: "f".to_string(), kind: ExternalKind::Func, index: 0 })],
    })
    .unwrap();
    v.payload(Payload::CodeSectionStart { count: 1, offset: 30 }).unwrap();
    v.payload(Payload::CodeSectionEntry { body: vec![0, 0x0b], offset: 32 }).unwrap();
    let err = v
        .payload(Payload::DataSection {
            offset: 35,
            data: vec![at(
                37,
                Data {
                    kind: DataKind::Active {
                        memory_index: 0,
                        offset_expr: expr(39, vec![Operator::RefFunc(0), Operator::End]),
                    },
                },
            )],
        })
        .unwrap_err();
    assert_eq!(err.kind(), ErrorKind::NonConstantOperator);
    assert_eq!(err.reason, Reason::NonConstant(Operator::RefFunc(0)));
    assert_eq!(err.offset, 39);
}

fn global_i32(init: Vec<Operator>, offset: usize) -> Global {
    Global {
        ty: GlobalType { content_type: ValType::I32, mutable: false, shared: false },
        init_expr: expr(offset, init),
    }
}

#[test]
fn global_get_of_local_global_needs_gc() {
    let globals = || {
        vec![
            at(10, global_i32(vec![Operator::I32Const(1), Operator::End], 12)),
            at(15, global_i32(vec![Operator::GlobalGet(0), Operator::End], 17)),
        ]
    };
    let mut v = start(WasmFeatures::wasm2());
    let err = v.payload(Payload::GlobalSection { offset: 8, globals: globals() }).unwrap_err();
    assert_eq!(err.kind(), ErrorKind::NonConstantOperator);
    assert_eq!(err.reason, Reason::LocalGlobalGet(0));
    assert_eq!(err.offset, 17);
    let mut v = start(WasmFeatures::default());
    assert!(v.payload(Payload::GlobalSection { offset: 8, globals: globals() }).is_ok());
}

#[test]
fn data_offset_must_have_the_index_type_of_the_memory() {
    let mut v = start(WasmFeatures::default());
    let wide = MemoryType {
        memory64: true,
        shared: false,
        initial: 1,
        maximum: None,
        page_size_log2: None,
    };
    v.payload(Payload::MemorySection { offset: 8, memories: vec![at(10, wide)] }).unwrap();
    let err = v
        .payload(Payload::DataSection {
            offset: 14,
            data: vec![at(
                16,
                Data {
                    kind: DataKind::Active {
                        memory_index: 0,
                        offset_expr: expr(18, vec![Operator::I32Const(0), Operator::End]),
                    },
                },
            )],
        })
        .unwrap_err();
    assert_eq!(err.kind(), ErrorKind::TypeMismatch);
    assert_eq!(
        err.reason,
        Reason::OperandMismatch { expected: ValType::I64, actual: ValType::I32 }
    );
    assert_eq!(err.offset, 19);
}

#[test]
fn shared_memory_needs_a_maximum() {
    let mut v = start(WasmFeatures::default());
    let shared = MemoryType {
        memory64: false,
        shared: true,
        initial: 1,
        maximum: None,
        page_size_log2: None,
    };
    let err =
        v.payload(Payload::MemorySection { offset: 8, memories: vec![at(10, shared)] }).unwrap_err();
    assert_eq!(err.kind(), ErrorKind::InvalidLimits);
    assert_eq!(err.reason, Reason::SharedMemoryWithoutMaximum);
}

#[test]
fn sections_must_come_in_order_and_once() {
    let mut v = start(WasmFeatures::default());
    v.payload(Payload::MemorySection { offset: 8, memories: vec![] }).unwrap();
    let err = v.payload(Payload::TableSection { offset: 10, tables: vec![] }).unwrap_err();
    assert_eq!(err.kind(), ErrorKind::MisplacedSection);
    assert_eq!(err.reason, Reason::SectionOutOfOrder);
    let err = v.payload(Payload::MemorySection { offset: 12, memories: vec![] }).unwrap_err();
    assert_eq!(err.reason, Reason::DuplicateSection);
    assert!(v.payload(Payload::CustomSection { offset: 14 }).is_ok());
    v.payload(Payload::End { offset: 20 }).unwrap();
    let err = v.payload(Payload::CustomSection { offset: 20 }).unwrap_err();
    assert_eq!(err.reason, Reason::AfterEnd);
}

#[test]
fn the_header_comes_first() {
    let mut v = Validator::new(WasmFeatures::default());
    let err = v.payload(Payload::TypeSection { offset: 0, groups: vec![] }).unwrap_err();
    assert_eq!(err.reason, Reason::MissingHeader);
    assert_eq!(err.kind(), ErrorKind::MisplacedSection);
    let err = v.payload(Payload::Version { num: 2, offset: 0 }).unwrap_err();
    assert_eq!(err.reason, Reason::UnknownVersion(2));
    assert_eq!(err.kind(), ErrorKind::Malformed);
    v.payload(Payload::Version { num: 1, offset: 0 }).unwrap();
    let err = v.payload(Payload::Version { num: 1, offset: 8 }).unwrap_err();
    assert_eq!(err.reason, Reason::HeaderOutOfOrder);
}

#[test]
fn code_bodies_must_match_the_functions() {
    let mut v = start(WasmFeatures::default());
    v.payload(Payload::TypeSection { offset: 8, groups: vec![at(10, func_type(vec![], vec![]))] })
        .unwrap();
    v.payload(Payload::FunctionSection { offset: 14, functions: vec![at(16, 0)] }).unwrap();
    let err = v.payload(Payload::CodeSectionStart { count: 2, offset: 20 }).unwrap_err();
    assert_eq!(err.reason, Reason::InconsistentCodeCount);

    let mut v = start(WasmFeatures::default());
    v.payload(Payload::TypeSection { offset: 8, groups: vec![at(10, func_type(vec![], vec![]))] })
        .unwrap();
    v.payload(Payload::FunctionSection { offset: 14, functions: vec![at(16, 0)] }).unwrap();
    let err = v.payload(Payload::End { offset: 20 }).unwrap_err();
    assert_eq!(err.reason, Reason::InconsistentCodeCount);

    let mut v = start(WasmFeatures::default());
    let err = v.payload(Payload::CodeSectionEntry { body: vec![], offset: 8 }).unwrap_err();
    assert_eq!(err.reason, Reason::UnexpectedCodeBody);
    v.payload(Payload::CodeSectionStart { count: 0, offset: 8 }).unwrap();
    let err = v.payload(Payload::CodeSectionEntry { body: vec![], offset: 10 }).unwrap_err();
    assert_eq!(err.reason, Reason::UnexpectedCodeBody);
}

#[test]
fn data_count_must_match_the_data_section() {
    let mut v = start(WasmFeatures::default());
    v.payload(Payload::DataCountSection { count: 2, offset: 8 }).unwrap();
    let err = v
        .payload(Payload::DataSection {
            offset: 10,
            data: vec![at(12, Data { kind: DataKind::Passive })],
        })
        .unwrap_err();
    assert_eq!(err.reason, Reason::InconsistentDataCount);
    let mut v = start(WasmFeatures::default());
    v.payload(Payload::DataCountSection { count: 1, offset: 8 }).unwrap();
    let err = v.payload(Payload::End { offset: 10 }).unwrap_err();
    assert_eq!(err.reason, Reason::InconsistentDataCount);
    let mut v = start(WasmFeatures::default());
    let err = v.payload(Payload::DataCountSection { count: 100_001, offset: 8 }).unwrap_err();
    assert_eq!(err.reason, Reason::TooMany(IndexSpace::DataSegments));
    let mut v = start(WasmFeatures::mvp());
    let err = v
        .payload(Payload::DataSection {
            offset: 10,
            data: vec![at(12, Data { kind: DataKind::Passive })],
        })
        .unwrap_err();
    assert_eq!(err.reason, Reason::Disabled(wasm_validator::features::Feature::BulkMemory));
}

fn two_functions() -> Validator {
    let mut v = start(WasmFeatures::default());
    v.payload(Payload::TypeSection {
        offset: 8,
        groups: vec![
            at(10, func_type(vec![], vec![])),
            at(13, func_type(vec![ValType::I32], vec![])),
        ],
    })
    .unwrap();
    v.payload(Payload::FunctionSection { offset: 17, functions: vec![at(19, 0), at(20, 1)] })
        .unwrap();
    v
}

#[test]
fn start_function_takes_and_gives_nothing() {
    let err = two_functions().payload(Payload::StartSection { func: 1, offset: 22 }).unwrap_err();
    assert_eq!(err.reason, Reason::InvalidStartFunction);
    assert_eq!(err.kind(), ErrorKind::TypeMismatch);
    let err = two_functions().payload(Payload::StartSection { func: 2, offset: 22 }).unwrap_err();
    assert_eq!(err.reason, Reason::Unknown { space: IndexSpace::Functions, index: 2 });
    assert_eq!(err.kind(), ErrorKind::OutOfBounds);
    assert!(two_functions().payload(Payload::StartSection { func: 0, offset: 22 }).is_ok());
}

#[test]
fn frozen_module_does_not_change() {
    let mut v = start(WasmFeatures::default());
    v.payload(Payload::TypeSection { offset: 8, groups: vec![at(10, func_type(vec![], vec![]))] })
        .unwrap();
    v.payload(Payload::FunctionSection { offset: 14, functions: vec![at(16, 0)] }).unwrap();
    v.payload(Payload::MemorySection { offset: 17, memories: vec![at(19, memory(1))] }).unwrap();
    v.payload(Payload::CodeSectionStart { count: 1, offset: 30 }).unwrap();
    let resources = match v.payload(Payload::CodeSectionEntry { body: vec![0, 0x0b], offset: 32 }) {
        Ok(ValidPayload::Func(func, _)) => func.resources,
        _ => panic!("a code body gives a function to check"),
    };
    let copy = resources.duplicate();
    v.payload(Payload::DataSection {
        offset: 35,
        data: vec![at(
            37,
            Data {
                kind: DataKind::Active {
                    memory_index: 0,
                    offset_expr: expr(39, vec![Operator::I32Const(0), Operator::End]),
                },
            },
        )],
    })
    .unwrap();
    v.payload(Payload::End { offset: 50 }).unwrap();
    assert_eq!(resources.0.functions, vec![0]);
    assert_eq!(copy.memory_at(0), Some(memory(1)));
    assert_eq!(copy.memory_at(1), None);
    assert_eq!(copy.table_at(0), None);
    assert_eq!(copy.global_at(0), None);
    assert_eq!(copy.element_type_at(0), None);
    assert_eq!(copy.element_count(), 0);
    assert_eq!(copy.data_count(), None);
    assert!(copy.tag_at(0).is_none());
    assert!(copy.sub_type_at(0).is_some());
    assert!(copy.sub_type_at(1).is_none());
    assert!(copy.sub_type_at_id(copy.type_id_of_function(0).unwrap()).is_some());
    assert!(copy.sub_type_at_id(wasm_validator::types::CoreTypeId { index: 7 }).is_none());
    assert!(copy.type_id_of_function(0).is_some());
    assert_eq!(copy.type_index_of_function(0), Some(0));
    assert!(!copy.is_function_referenced(0));
    assert!(copy.is_subtype(ValType::I32, ValType::I32));
    assert!(!copy.is_subtype(ValType::I32, ValType::I64));
    assert!(!copy.is_shared(RefType::funcref()));
    assert_eq!(
        copy.top_type(&HeapType::Abstract { shared: false, ty: AbstractHeapType::NoFunc }),
        Some(HeapType::Abstract { shared: false, ty: AbstractHeapType::Func })
    );
    assert!(std::sync::Arc::ptr_eq(&resources.0, &copy.0));
    assert!(!v.module.module.owned());
}
