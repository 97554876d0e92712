use wasm_validator::const_validator::{OperatorValidatorAllocations, VisitConstOperator};
use wasm_validator::error::{BinaryReaderError, ErrorKind, IndexSpace, Reason};
use wasm_validator::features::{Feature, WasmFeatures, DEFAULT, FUNCTION_REFERENCES};
use wasm_validator::module::Module;
use wasm_validator::operators::{ConstExpr, ConstOp, Operator};
use wasm_validator::payload::{
    Data, DataKind, Element, ElementItems, ElementKind, FuncItem, Global, Import, Table, TableInit,
};
use wasm_validator::state::ModuleState;
use wasm_validator::type_list::TypeList;
use wasm_validator::types::{
    AbstractHeapType, CompositeInnerType, CompositeType, CoreTypeId, FieldType, FuncType,
    GlobalType, HeapType, MemoryType, RecGroup, RefType, StorageType, StructType, SubType,
    TableType, TypeRef, UnpackedIndex, ValType,
};

fn sub(inner: CompositeInnerType) -> RecGroup {
    RecGroup {
        types: vec![SubType {
            is_final: true,
            supertype_idx: None,
            composite_type: CompositeType { inner, shared: false },
        }],
    }
}

fn field(element_type: StorageType) -> FieldType {
    FieldType { element_type, mutable: false }
}

fn expr(ops: Vec<Operator>) -> ConstExpr {
    let ops = ops.into_iter().enumerate().map(|(i, op)| ConstOp { offset: 100 + i, op }).collect();
    ConstExpr { offset: 100, ops }
}

fn abstract_ref(nullable: bool, ty: AbstractHeapType) -> ValType {
    ValType::Ref(RefType { nullable, heap_type: HeapType::Abstract { shared: false, ty } })
}

fn type_ref(index: u32) -> ValType {
    ValType::Ref(RefType {
        nullable: false,
        heap_type: HeapType::Concrete(UnpackedIndex::Id(CoreTypeId { index })),
    })
}

/// Types: 0 a function, 1 a struct of an `i8` and an `i64`, 2 an array of
/// `funcref`, 3 a struct of a non-null reference to type 0. Functions: 0
/// and 1. Globals: 0 imported and immutable, 1 imported and mutable.
fn state(features: WasmFeatures) -> (ModuleState, TypeList) {
    let mut state = ModuleState::new(features);
    let mut types = TypeList::new();
    let module = state.module.assert_mut();
    module
        .add_types(
            sub(CompositeInnerType::Func(FuncType { params: vec![], results: vec![] })),
            &mut types,
            0,
            true,
        )
        .unwrap();
    if features.gc() {
        module
            .add_types(
                sub(CompositeInnerType::Struct(StructType {
                    fields: vec![field(StorageType::I8), field(StorageType::Val(ValType::I64))],
                })),
                &mut types,
                0,
                true,
            )
            .unwrap();
        module
            .add_types(
                sub(CompositeInnerType::Array(field(StorageType::Val(ValType::Ref(
                    RefType::funcref(),
                ))))),
                &mut types,
                0,
                true,
            )
            .unwrap();
        module
            .add_types(
                sub(CompositeInnerType::Struct(StructType {
                    fields: vec![field(StorageType::Val(ValType::Ref(RefType {
                        nullable: false,
                        heap_type: HeapType::Concrete(UnpackedIndex::Module(0)),
                    })))],
                })),
                &mut types,
                0,
                true,
            )
            .unwrap();
    }
    let global = |mutable| Import {
        module: "env".to_string(),
        name: "g".to_string(),
        ty: TypeRef::Global(GlobalType { content_type: ValType::I32, mutable, shared: false }),
    };
    module.add_import(global(false), &types, 0).unwrap();
    if features.mutable_global() {
        module.add_import(global(true), &types, 0).unwrap();
    }
    module.add_function(0, &types, 0).unwrap();
    module.add_function(0, &types, 0).unwrap();
    module
        .add_memory(
            MemoryType { memory64: false, shared: false, initial: 1, maximum: None, page_size_log2: None },
            0,
        )
        .unwrap();
    (state, types)
}

fn check(features: WasmFeatures, ops: Vec<Operator>, expected: ValType) -> Result<(), BinaryReaderError> {
    let (mut state, types) = state(features);
    state.check_const_expr(&expr(ops), expected, &types, true)
}

fn accepted(ops: Vec<Operator>, expected: ValType) {
    assert_eq!(check(WasmFeatures::all(), ops, expected), Ok(()));
}

fn refused(features: WasmFeatures, ops: Vec<Operator>, expected: ValType, reason: Reason, at: usize) {
    assert_eq!(
        check(features, ops, expected),
        Err(BinaryReaderError { reason, offset: 100 + at })
    );
}

#[test]
fn constants_of_numbers() {
    accepted(vec![Operator::I32Const(7), Operator::End], ValType::I32);
    accepted(vec![Operator::I64Const(-7), Operator::End], ValType::I64);
    accepted(vec![Operator::F32Const(0x3f80_0000), Operator::End], ValType::F32);
    accepted(vec![Operator::F64Const(0), Operator::End], ValType::F64);
    accepted(vec![Operator::V128Const(1 << 100), Operator::End], ValType::V128);
    let no_floats = WasmFeatures::empty();
    refused(no_floats, vec![Operator::F32Const(0), Operator::End], ValType::F32, Reason::Disabled(Feature::Floats), 0);
    refused(no_floats, vec![Operator::F64Const(0), Operator::End], ValType::F64, Reason::Disabled(Feature::Floats), 0);
    refused(WasmFeatures::mvp(), vec![Operator::V128Const(0), Operator::End], ValType::V128, Reason::Disabled(Feature::Simd), 0);
    assert_eq!(check(WasmFeatures::mvp(), vec![Operator::I32Const(1), Operator::End], ValType::I32), Ok(()));
}

#[test]
fn the_value_must_have_the_expected_type() {
    let all = WasmFeatures::all();
    refused(
        all,
        vec![Operator::I32Const(7), Operator::End],
        ValType::I64,
        Reason::OperandMismatch { expected: ValType::I64, actual: ValType::I32 },
        1,
    );
    refused(all, vec![Operator::End], ValType::I32, Reason::MissingOperand { expected: ValType::I32 }, 0);
    refused(
        all,
        vec![Operator::I32Const(1), Operator::I32Const(2), Operator::End],
        ValType::I32,
        Reason::ValuesRemaining,
        2,
    );
    refused(all, vec![Operator::I32Const(1)], ValType::I32, Reason::MissingEnd, 0);
    refused(all, vec![], ValType::I32, Reason::MissingEnd, 0);
    refused(
        all,
        vec![Operator::I32Const(1), Operator::End, Operator::Nop],
        ValType::I32,
        Reason::OperatorsAfterEnd,
        2,
    );
    assert_eq!(
        BinaryReaderError { reason: Reason::MissingEnd, offset: 0 }.kind(),
        ErrorKind::Malformed
    );
}

#[test]
fn arithmetic_needs_extended_constants() {
    let sum = |op| vec![Operator::I32Const(1), Operator::I32Const(2), op, Operator::End];
    let wide = |op| vec![Operator::I64Const(1), Operator::I64Const(2), op, Operator::End];
    for op in [Operator::I32Add, Operator::I32Sub, Operator::I32Mul] {
        accepted(sum(op), ValType::I32);
        refused(WasmFeatures::wasm2(), sum(op), ValType::I32, Reason::NonConstant(op), 2);
    }
    for op in [Operator::I64Add, Operator::I64Sub, Operator::I64Mul] {
        accepted(wide(op), ValType::I64);
        refused(WasmFeatures::wasm2(), wide(op), ValType::I64, Reason::NonConstant(op), 2);
    }
    refused(
        WasmFeatures::all(),
        vec![Operator::I32Const(1), Operator::I64Const(2), Operator::I32Add, Operator::End],
        ValType::I32,
        Reason::OperandMismatch { expected: ValType::I32, actual: ValType::I64 },
        2,
    );
    refused(
        WasmFeatures::all(),
        vec![Operator::I32Const(1), Operator::I32Add, Operator::End],
        ValType::I32,
        Reason::MissingOperand { expected: ValType::I32 },
        1,
    );
}

#[test]
fn other_instructions_are_not_constant() {
    for op in [
        Operator::Unreachable,
        Operator::Nop,
        Operator::Return,
        Operator::Drop,
        Operator::Select,
        Operator::Call(0),
        Operator::LocalGet(0),
        Operator::LocalSet(0),
        Operator::LocalTee(0),
        Operator::GlobalSet(0),
        Operator::RefIsNull,
        Operator::RefAsNonNull,
        Operator::I32Eqz,
        Operator::I32Eq,
        Operator::I32DivS,
        Operator::I32And,
        Operator::I64Eqz,
        Operator::I64DivS,
        Operator::I32WrapI64,
        Operator::I64ExtendI32S,
        Operator::TableGet(0),
        Operator::TableSize(0),
        Operator::MemorySize(0),
    ] {
        refused(
            WasmFeatures::all(),
            vec![Operator::I32Const(1), op, Operator::End],
            ValType::I32,
            Reason::NonConstant(op),
            1,
        );
    }
    assert_eq!(
        BinaryReaderError { reason: Reason::NonConstant(Operator::Nop), offset: 0 }.kind(),
        ErrorKind::NonConstantOperator
    );
}

#[test]
fn globals_in_initializers() {
    accepted(vec![Operator::GlobalGet(0), Operator::End], ValType::I32);
    let all = WasmFeatures::all();
    refused(all, vec![Operator::GlobalGet(1), Operator::End], ValType::I32, Reason::MutableGlobalGet(1), 0);
    refused(
        all,
        vec![Operator::GlobalGet(2), Operator::End],
        ValType::I32,
        Reason::Unknown { space: IndexSpace::Globals, index: 2 },
        0,
    );
    let (mut state, types) = state(WasmFeatures::wasm2());
    let own = Global {
        ty: GlobalType { content_type: ValType::I32, mutable: false, shared: false },
        init_expr: expr(vec![Operator::GlobalGet(0), Operator::End]),
    };
    assert_eq!(state.add_global(own, &types, 0), Ok(()));
    assert_eq!(
        state.check_const_expr(&expr(vec![Operator::GlobalGet(2), Operator::End]), ValType::I32, &types, true),
        Err(BinaryReaderError { reason: Reason::LocalGlobalGet(2), offset: 100 })
    );
    assert_eq!(
        state.check_const_expr(&expr(vec![Operator::GlobalGet(1), Operator::End]), ValType::I32, &types, true),
        Err(BinaryReaderError { reason: Reason::MutableGlobalGet(1), offset: 100 })
    );
}

#[test]
fn references_in_initializers() {
    let funcref = ValType::Ref(RefType::funcref());
    let null_func = Operator::RefNull(HeapType::Abstract { shared: false, ty: AbstractHeapType::Func });
    accepted(vec![null_func, Operator::End], funcref);
    accepted(vec![Operator::RefFunc(1), Operator::End], funcref);
    accepted(vec![Operator::RefFunc(1), Operator::End], type_ref(0));
    accepted(
        vec![Operator::RefNull(HeapType::Concrete(UnpackedIndex::Module(1))), Operator::End],
        abstract_ref(true, AbstractHeapType::Struct),
    );
    refused(WasmFeatures::mvp(), vec![null_func, Operator::End], funcref, Reason::Disabled(Feature::ReferenceTypes), 0);
    refused(
        WasmFeatures::mvp(),
        vec![Operator::RefFunc(0), Operator::End],
        funcref,
        Reason::Disabled(Feature::ReferenceTypes),
        0,
    );
    let all = WasmFeatures::all();
    refused(
        all,
        vec![Operator::RefFunc(2), Operator::End],
        funcref,
        Reason::Unknown { space: IndexSpace::Functions, index: 2 },
        0,
    );
    refused(
        all,
        vec![Operator::RefNull(HeapType::Concrete(UnpackedIndex::Module(9))), Operator::End],
        funcref,
        Reason::Unknown { space: IndexSpace::Types, index: 9 },
        0,
    );
    refused(
        all,
        vec![null_func, Operator::End],
        type_ref(0),
        Reason::OperandMismatch { expected: type_ref(0), actual: funcref },
        1,
    );
    let (mut state, types) = state(all);
    assert_eq!(
        state.check_const_expr(&expr(vec![Operator::RefFunc(1), Operator::End]), funcref, &types, false),
        Err(BinaryReaderError { reason: Reason::NonConstant(Operator::RefFunc(1)), offset: 100 })
    );
    assert!(state.module.get().function_references.is_empty());
    assert_eq!(
        state.check_const_expr(&expr(vec![Operator::RefFunc(1), Operator::End]), funcref, &types, true),
        Ok(())
    );
    assert!(state.module.get().function_references.contains(&1));
    assert_eq!(state.module.get().function_references.len(), 1);
    assert_eq!(
        state.validate_const_expr(&expr(vec![Operator::RefFunc(0), Operator::End]), funcref, &types, true),
        Ok(())
    );
    assert_eq!(state.module.get().function_references.len(), 1);
}

#[test]
fn structs_and_arrays() {
    let all = WasmFeatures::all();
    accepted(
        vec![Operator::I32Const(1), Operator::I64Const(2), Operator::StructNew(1), Operator::End],
        type_ref(1),
    );
    accepted(vec![Operator::StructNewDefault(1), Operator::End], abstract_ref(true, AbstractHeapType::Eq));
    accepted(
        vec![Operator::RefFunc(0), Operator::I32Const(3), Operator::ArrayNew(2), Operator::End],
        type_ref(2),
    );
    accepted(vec![Operator::I32Const(3), Operator::ArrayNewDefault(2), Operator::End], type_ref(2));
    accepted(
        vec![Operator::RefFunc(0), Operator::RefFunc(1), Operator::ArrayNewFixed(2, 2), Operator::End],
        abstract_ref(false, AbstractHeapType::Array),
    );
    accepted(vec![Operator::ArrayNewFixed(2, 0), Operator::End], type_ref(2));
    accepted(vec![Operator::RefFunc(1), Operator::StructNew(3), Operator::End], type_ref(3));
    refused(
        all,
        vec![Operator::I64Const(2), Operator::I32Const(1), Operator::StructNew(1), Operator::End],
        type_ref(1),
        Reason::OperandMismatch { expected: ValType::I64, actual: ValType::I32 },
        2,
    );
    refused(
        all,
        vec![Operator::I64Const(2), Operator::StructNew(1), Operator::End],
        type_ref(1),
        Reason::MissingOperand { expected: ValType::I32 },
        1,
    );
    refused(all, vec![Operator::StructNew(2), Operator::End], type_ref(2), Reason::NotStructType(2), 0);
    refused(all, vec![Operator::StructNewDefault(0), Operator::End], type_ref(0), Reason::NotStructType(0), 0);
    refused(
        all,
        vec![Operator::StructNew(8), Operator::End],
        type_ref(0),
        Reason::Unknown { space: IndexSpace::Types, index: 8 },
        0,
    );
    refused(all, vec![Operator::StructNewDefault(3), Operator::End], type_ref(3), Reason::NonDefaultableField, 0);
    refused(all, vec![Operator::I32Const(1), Operator::ArrayNew(1), Operator::End], type_ref(1), Reason::NotArrayType(1), 1);
    refused(all, vec![Operator::I32Const(1), Operator::ArrayNewDefault(1), Operator::End], type_ref(1), Reason::NotArrayType(1), 1);
    refused(all, vec![Operator::ArrayNewFixed(0, 1), Operator::End], type_ref(0), Reason::NotArrayType(0), 0);
    refused(
        all,
        vec![Operator::RefFunc(0), Operator::ArrayNewFixed(2, 2), Operator::End],
        type_ref(2),
        Reason::MissingOperand { expected: ValType::Ref(RefType::funcref()) },
        1,
    );
    refused(
        all,
        vec![Operator::RefFunc(0), Operator::I64Const(3), Operator::ArrayNew(2), Operator::End],
        type_ref(2),
        Reason::OperandMismatch { expected: ValType::I32, actual: ValType::I64 },
        2,
    );
    let no_gc = WasmFeatures::wasm2();
    for op in [
        Operator::StructNew(1),
        Operator::StructNewDefault(1),
        Operator::ArrayNew(2),
        Operator::ArrayNewDefault(2),
        Operator::ArrayNewFixed(2, 0),
        Operator::RefI31,
        Operator::ExternConvertAny,
        Operator::AnyConvertExtern,
    ] {
        refused(no_gc, vec![op, Operator::End], ValType::I32, Reason::NonConstant(op), 0);
    }
}

#[test]
fn small_references_and_conversions() {
    let all = WasmFeatures::all();
    accepted(vec![Operator::I32Const(1), Operator::RefI31, Operator::End], abstract_ref(false, AbstractHeapType::I31));
    accepted(vec![Operator::I32Const(1), Operator::RefI31, Operator::End], abstract_ref(true, AbstractHeapType::Any));
    accepted(
        vec![Operator::I32Const(1), Operator::RefI31Shared, Operator::End],
        ValType::Ref(RefType {
            nullable: false,
            heap_type: HeapType::Abstract { shared: true, ty: AbstractHeapType::I31 },
        }),
    );
    refused(
        WasmFeatures::default(),
        vec![Operator::I32Const(1), Operator::RefI31Shared, Operator::End],
        ValType::I32,
        Reason::NonConstant(Operator::RefI31Shared),
        1,
    );
    accepted(
        vec![Operator::I32Const(1), Operator::RefI31, Operator::ExternConvertAny, Operator::End],
        abstract_ref(false, AbstractHeapType::Extern),
    );
    accepted(
        vec![
            Operator::RefNull(HeapType::Abstract { shared: false, ty: AbstractHeapType::Extern }),
            Operator::AnyConvertExtern,
            Operator::End,
        ],
        abstract_ref(true, AbstractHeapType::Any),
    );
    refused(
        all,
        vec![Operator::I32Const(1), Operator::ExternConvertAny, Operator::End],
        ValType::I32,
        Reason::ExpectedReference { actual: ValType::I32 },
        1,
    );
    refused(
        all,
        vec![Operator::ExternConvertAny, Operator::End],
        ValType::I32,
        Reason::MissingOperand { expected: abstract_ref(true, AbstractHeapType::Any) },
        0,
    );
    refused(
        all,
        vec![Operator::RefFunc(0), Operator::ExternConvertAny, Operator::End],
        ValType::I32,
        Reason::OperandMismatch { expected: abstract_ref(true, AbstractHeapType::Any), actual: type_ref(0) },
        1,
    );
    refused(
        all,
        vec![Operator::RefI31, Operator::End],
        ValType::I32,
        Reason::MissingOperand { expected: ValType::I32 },
        0,
    );
}

#[test]
fn globals_are_added_with_their_references() {
    let (mut state, types) = state(WasmFeatures::default());
    let funcref = ValType::Ref(RefType::funcref());
    let global = Global {
        ty: GlobalType { content_type: funcref, mutable: true, shared: false },
        init_expr: expr(vec![Operator::RefFunc(1), Operator::End]),
    };
    assert_eq!(state.add_global(global, &types, 5), Ok(()));
    let module = state.module.get();
    assert_eq!(module.globals.len(), 3);
    assert_eq!(module.globals[2].content_type, funcref);
    assert!(module.function_references.contains(&1));
    let wrong = Global {
        ty: GlobalType { content_type: ValType::I64, mutable: false, shared: false },
        init_expr: expr(vec![Operator::RefFunc(0), Operator::End]),
    };
    assert_eq!(
        state.add_global(wrong, &types, 5),
        Err(BinaryReaderError {
            reason: Reason::OperandMismatch { expected: ValType::I64, actual: type_ref(0) },
            offset: 101,
        })
    );
    let module = state.module.get();
    assert_eq!(module.globals.len(), 3);
    assert!(!module.function_references.contains(&0));
    let unknown = Global {
        ty: GlobalType { content_type: ValType::V128, mutable: false, shared: true },
        init_expr: expr(vec![Operator::End]),
    };
    assert_eq!(
        state.add_global(unknown, &types, 5),
        Err(BinaryReaderError { reason: Reason::Disabled(Feature::SharedEverythingThreads), offset: 5 })
    );
}

fn table_type(element_type: RefType) -> TableType {
    TableType { element_type, table64: false, initial: 1, maximum: None, shared: false }
}

#[test]
fn tables_are_added_with_their_initializers() {
    let (mut state, types) = state(WasmFeatures::default());
    let typed = RefType { nullable: false, heap_type: HeapType::Concrete(UnpackedIndex::Module(0)) };
    assert_eq!(
        state.add_table(Table { ty: table_type(RefType::funcref()), init: TableInit::RefNull }, &types, 3),
        Ok(())
    );
    assert_eq!(
        state.add_table(Table { ty: table_type(typed), init: TableInit::RefNull }, &types, 3),
        Err(BinaryReaderError { reason: Reason::NonDefaultableElement, offset: 3 })
    );
    assert_eq!(
        state.add_table(
            Table {
                ty: table_type(typed),
                init: TableInit::Expr(expr(vec![Operator::RefFunc(0), Operator::End])),
            },
            &types,
            3
        ),
        Ok(())
    );
    let module = state.module.get();
    assert_eq!(module.tables.len(), 2);
    assert_eq!(
        module.tables[1].element_type.heap_type,
        HeapType::Concrete(UnpackedIndex::Id(CoreTypeId { index: 0 }))
    );
    assert!(module.function_references.contains(&0));
    let (mut plain, types) = self::state(WasmFeatures::from_bits_truncate(DEFAULT & !FUNCTION_REFERENCES & !wasm_validator::features::GC));
    assert_eq!(
        plain.add_table(
            Table {
                ty: table_type(RefType::funcref()),
                init: TableInit::Expr(expr(vec![Operator::RefFunc(0), Operator::End])),
            },
            &types,
            3
        ),
        Err(BinaryReaderError { reason: Reason::Disabled(Feature::FunctionReferences), offset: 3 })
    );
    assert_eq!(
        plain.add_table(
            Table {
                ty: TableType { initial: 1 << 40, ..table_type(RefType::funcref()) },
                init: TableInit::RefNull,
            },
            &types,
            3
        ),
        Err(BinaryReaderError { reason: Reason::TableTooLarge, offset: 3 })
    );
}

#[test]
fn data_segments_change_nothing() {
    let (mut state, types) = state(WasmFeatures::default());
    let i32_offset = || expr(vec![Operator::I32Const(16), Operator::End]);
    assert_eq!(state.add_data_segment(Data { kind: DataKind::Passive }, &types, 1), Ok(()));
    assert_eq!(
        state.add_data_segment(
            Data { kind: DataKind::Active { memory_index: 0, offset_expr: i32_offset() } },
            &types,
            1
        ),
        Ok(())
    );
    assert_eq!(
        state.add_data_segment(
            Data { kind: DataKind::Active { memory_index: 1, offset_expr: i32_offset() } },
            &types,
            1
        ),
        Err(BinaryReaderError { reason: Reason::Unknown { space: IndexSpace::Memories, index: 1 }, offset: 1 })
    );
    state.module.make_shared();
    assert_eq!(
        state.add_data_segment(
            Data { kind: DataKind::Active { memory_index: 0, offset_expr: i32_offset() } },
            &types,
            1
        ),
        Ok(())
    );
    assert_eq!(
        state.add_data_segment(
            Data {
                kind: DataKind::Active {
                    memory_index: 0,
                    offset_expr: expr(vec![Operator::GlobalGet(0), Operator::End]),
                },
            },
            &types,
            1
        ),
        Ok(())
    );
    assert!(state.module.get().function_references.is_empty());
}

fn item(index: u32) -> FuncItem {
    FuncItem { offset: 200 + index as usize, index }
}

#[test]
fn element_segments_record_their_functions() {
    let (mut state, types) = state(WasmFeatures::default());
    state
        .add_table(Table { ty: table_type(RefType::funcref()), init: TableInit::RefNull }, &types, 0)
        .unwrap();
    let active = |items| Element {
        kind: ElementKind::Active {
            table_index: Some(0),
            offset_expr: expr(vec![Operator::I32Const(0), Operator::End]),
        },
        items,
    };
    assert_eq!(
        state.add_element_segment(active(ElementItems::Functions(vec![item(1)])), &types, 7),
        Ok(())
    );
    assert_eq!(state.module.get().element_types, vec![RefType::funcref()]);
    assert!(state.module.get().function_references.contains(&1));
    assert!(!state.module.get().function_references.contains(&0));
    assert_eq!(
        state.add_element_segment(active(ElementItems::Functions(vec![item(0), item(2)])), &types, 7),
        Err(BinaryReaderError { reason: Reason::Unknown { space: IndexSpace::Functions, index: 2 }, offset: 202 })
    );
    assert!(!state.module.get().function_references.contains(&0));
    assert_eq!(state.module.get().element_types.len(), 1);
    let typed = RefType { nullable: false, heap_type: HeapType::Concrete(UnpackedIndex::Module(0)) };
    let exprs = ElementItems::Expressions(
        typed,
        vec![expr(vec![Operator::RefFunc(0), Operator::End]), expr(vec![Operator::RefFunc(1), Operator::End])],
    );
    assert_eq!(
        state.add_element_segment(Element { kind: ElementKind::Declared, items: exprs }, &types, 7),
        Ok(())
    );
    assert!(state.module.get().function_references.contains(&0));
    assert_eq!(
        state.module.get().element_types[1].heap_type,
        HeapType::Concrete(UnpackedIndex::Id(CoreTypeId { index: 0 }))
    );
    let null = ElementItems::Expressions(
        typed,
        vec![
            expr(vec![Operator::RefFunc(0), Operator::End]),
            expr(vec![
                Operator::RefNull(HeapType::Abstract { shared: false, ty: AbstractHeapType::Func }),
                Operator::End,
            ]),
        ],
    );
    let err = state
        .add_element_segment(Element { kind: ElementKind::Passive, items: null }, &types, 7)
        .unwrap_err();
    assert_eq!(err.kind(), ErrorKind::TypeMismatch);
    assert_eq!(err.offset, 101);
    assert_eq!(
        state.add_element_segment(
            Element {
                kind: ElementKind::Active {
                    table_index: Some(3),
                    offset_expr: expr(vec![Operator::I32Const(0), Operator::End]),
                },
                items: ElementItems::Functions(vec![]),
            },
            &types,
            7
        ),
        Err(BinaryReaderError { reason: Reason::Unknown { space: IndexSpace::Tables, index: 3 }, offset: 7 })
    );
    assert_eq!(
        state.add_element_segment(
            Element {
                kind: ElementKind::Active {
                    table_index: None,
                    offset_expr: expr(vec![Operator::I64Const(0), Operator::End]),
                },
                items: ElementItems::Functions(vec![]),
            },
            &types,
            7
        ),
        Err(BinaryReaderError {
            reason: Reason::OperandMismatch { expected: ValType::I32, actual: ValType::I64 },
            offset: 101
        })
    );
    let (mut old, types) = self::state(WasmFeatures::mvp());
    assert_eq!(
        old.add_element_segment(
            Element { kind: ElementKind::Passive, items: ElementItems::Functions(vec![]) },
            &types,
            7
        ),
        Err(BinaryReaderError { reason: Reason::Disabled(Feature::BulkMemory), offset: 7 })
    );
    assert_eq!(
        old.add_element_segment(
            Element {
                kind: ElementKind::Declared,
                items: ElementItems::Expressions(RefType::funcref(), vec![]),
            },
            &types,
            7
        ),
        Err(BinaryReaderError { reason: Reason::Disabled(Feature::ReferenceTypes), offset: 7 })
    );
}

#[test]
fn too_many_elements() {
    let (mut state, types) = state(WasmFeatures::default());
    let items = vec![item(0); 10_000_001];
    assert_eq!(
        state.add_element_segment(
            Element { kind: ElementKind::Declared, items: ElementItems::Functions(items) },
            &types,
            7
        ),
        Err(BinaryReaderError { reason: Reason::TooManyElements, offset: 7 })
    );
}

#[test]
fn code_bodies_belong_to_the_defined_functions() {
    let (mut state, _types) = state(WasmFeatures::default());
    let module = state.module.assert_mut();
    module.functions.insert(0, 0);
    module.num_imported_functions = 1;
    module.functions[2] = 0;
    assert_eq!(state.next_code_index_and_type(), (1, 0));
    assert_eq!(state.next_code_index_and_type(), (2, 0));
    assert_eq!(state.code_section_index, Some(3));
}

#[test]
fn the_walk_over_an_initializer() {
    let mut types = TypeList::new();
    let mut module = Module::new(WasmFeatures::default());
    module
        .add_types(
            sub(CompositeInnerType::Func(FuncType { params: vec![], results: vec![] })),
            &mut types,
            0,
            true,
        )
        .unwrap();
    let mut walk = VisitConstOperator::new(&module, &types, true, OperatorValidatorAllocations::default());
    walk.offset = 40;
    assert_eq!(walk.visit_operator(Operator::I32Const(1)), Ok(()));
    assert_eq!(walk.visit_operator(Operator::I32Const(2)), Ok(()));
    assert_eq!(walk.operands, vec![ValType::I32, ValType::I32]);
    assert_eq!(walk.visit_operator(Operator::I32Mul), Ok(()));
    assert_eq!(walk.operands, vec![ValType::I32]);
    assert_eq!(
        walk.visit_operator(Operator::Drop),
        Err(BinaryReaderError { reason: Reason::NonConstant(Operator::Drop), offset: 40 })
    );
    assert_eq!(walk.visit_end(ValType::I32), Ok(()));
    let allocs = walk.into_allocations();
    assert!(allocs.operands.is_empty());
    let mut again = VisitConstOperator::new(&module, &types, false, allocs);
    assert_eq!(
        again.visit_end(ValType::I32),
        Err(BinaryReaderError { reason: Reason::MissingOperand { expected: ValType::I32 }, offset: 0 })
    );
}
