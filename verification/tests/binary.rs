use wasm_validator::decode::{decode, read_section};
use wasm_validator::decode_expr::{read_const_expr, read_operator};
use wasm_validator::decode_types::{
    read_global_type, read_heap_type, read_memory_type, read_rec_group, read_ref_type,
    read_table_type, read_type_ref, read_val_type,
};
use wasm_validator::driver::{validate, validate_binary};
use wasm_validator::error::{BinaryReaderError, ErrorKind, IndexSpace, Reason};
use wasm_validator::features::{Feature, WasmFeatures};
use wasm_validator::operators::Operator;
use wasm_validator::payload::{DataKind, ElementItems, ElementKind, TableInit};
use wasm_validator::reader::{
    read_fixed_u128, read_fixed_u32, read_fixed_u64, read_string, read_u8, read_var_s32,
    read_var_s33, read_var_s64, read_var_u32, read_var_u64,
};
use wasm_validator::types::{
    AbstractHeapType, CompositeInnerType, GlobalType, HeapType, MemoryType, RefType, TableType,
    TagType, TypeRef, UnpackedIndex, ValType,
};
use wasm_validator::validator::Payload;

const HEADER: [u8; 8] = [0x00, 0x61, 0x73, 0x6d, 0x01, 0x00, 0x00, 0x00];

fn module(sections: &[&[u8]]) -> Vec<u8> {
    let mut bytes = HEADER.to_vec();
    for section in sections {
        bytes.extend_from_slice(section);
    }
    bytes
}

fn fail<T>(reason: Reason, offset: usize) -> Result<T, BinaryReaderError> {
    Err(BinaryReaderError { reason, offset })
}

const ADD_TYPE: &[u8] = &[0x01, 0x07, 0x01, 0x60, 0x02, 0x7f, 0x7f, 0x01, 0x7f];
const ONE_FUNCTION: &[u8] = &[0x03, 0x02, 0x01, 0x00];
const ADD_CODE: &[u8] = &[0x0a, 0x09, 0x01, 0x07, 0x00, 0x20, 0x00, 0x20, 0x01, 0x6a, 0x0b];
const UNIT_TYPE: &[u8] = &[0x01, 0x04, 0x01, 0x60, 0x00, 0x00];
const TWO_FUNCTIONS: &[u8] = &[0x03, 0x03, 0x02, 0x00, 0x00];
const TWO_BODIES: &[u8] = &[0x0a, 0x07, 0x02, 0x02, 0x00, 0x0b, 0x02, 0x00, 0x0b];
const ONE_MEMORY: &[u8] = &[0x05, 0x03, 0x01, 0x00, 0x01];

#[test]
fn empty_module_in_bytes() {
    assert_eq!(validate(WasmFeatures::default(), &HEADER), Ok(()));
    let payloads = decode(&HEADER).unwrap();
    assert_eq!(payloads.len(), 2);
    assert!(matches!(payloads[0], Payload::Version { num: 1, offset: 0 }));
    assert!(matches!(payloads[1], Payload::End { offset: 8 }));
    let tasks = validate_binary(WasmFeatures::default(), &HEADER).unwrap();
    assert!(tasks.is_empty());
}

#[test]
fn add_function_in_bytes() {
    let bytes = module(&[ADD_TYPE, ONE_FUNCTION, ADD_CODE]);
    assert_eq!(validate(WasmFeatures::default(), &bytes), Ok(()));
    assert_eq!(validate(WasmFeatures::mvp(), &bytes), Ok(()));
    let tasks = validate_binary(WasmFeatures::default(), &bytes).unwrap();
    assert_eq!(tasks.len(), 1);
    assert_eq!(tasks[0].func.index, 0);
    assert_eq!(tasks[0].func.ty, 0);
    assert_eq!(tasks[0].func.offset, 25);
    assert_eq!(tasks[0].body, vec![0x00, 0x20, 0x00, 0x20, 0x01, 0x6a, 0x0b]);
    let module = &tasks[0].func.resources.0;
    assert_eq!(module.functions, vec![0]);
    assert!(module.function_references.is_empty());
    assert_eq!(tasks[0].func.resources.check_locals(&tasks[0].body, 25), Ok(0));
}

#[test]
fn referenced_function_in_bytes() {
    let global: &[u8] = &[0x06, 0x06, 0x01, 0x70, 0x00, 0xd2, 0x01, 0x0b];
    let export: &[u8] = &[0x07, 0x05, 0x01, 0x01, 0x67, 0x03, 0x00];
    let bytes = module(&[UNIT_TYPE, TWO_FUNCTIONS, global, export, TWO_BODIES]);
    assert_eq!(validate(WasmFeatures::default(), &bytes), Ok(()));
    let tasks = validate_binary(WasmFeatures::default(), &bytes).unwrap();
    assert_eq!(tasks.len(), 2);
    let module = &tasks[1].func.resources.0;
    assert_eq!(module.function_references.len(), 1);
    assert!(module.function_references.contains(&1));
    assert!(tasks[0].func.resources.is_function_referenced(1));
    assert!(!tasks[0].func.resources.is_function_referenced(0));
    assert_eq!(module.exports.len(), 1);
    assert_eq!(module.exports[0].name, "g");
}

#[test]
fn duplicate_export_in_bytes() {
    let exports: &[u8] = &[0x07, 0x09, 0x02, 0x01, 0x61, 0x02, 0x00, 0x01, 0x61, 0x02, 0x00];
    let bytes = module(&[ONE_MEMORY, exports]);
    let err = validate(WasmFeatures::default(), &bytes).unwrap_err();
    assert_eq!(err.kind(), ErrorKind::DuplicateExport);
    assert_eq!(err.offset, 20);
}

#[test]
fn invalid_limits_in_bytes() {
    let memory: &[u8] = &[0x05, 0x05, 0x01, 0x00, 0x80, 0x80, 0x08];
    let bytes = module(&[memory]);
    let err = validate(WasmFeatures::default(), &bytes).unwrap_err();
    assert_eq!(err.kind(), ErrorKind::InvalidLimits);
    assert_eq!(err.reason, Reason::MemoryTooLarge);
    assert_eq!(err.offset, 11);
}

#[test]
fn the_failing_function_is_named() {
    let mut bytes = module(&[UNIT_TYPE]);
    let count = 1000u32;
    bytes.extend_from_slice(&[0x03, 0xea, 0x07, 0xe8, 0x07]);
    bytes.extend(std::iter::repeat(0x00).take(count as usize));
    let mut code = vec![0xe8, 0x07];
    for i in 0..count {
        if i == 613 {
            code.extend_from_slice(&[0x04, 0x01, 0x01, 0x7b, 0x0b]);
        } else {
            code.extend_from_slice(&[0x04, 0x01, 0x01, 0x7f, 0x0b]);
        }
    }
    bytes.push(0x0a);
    bytes.extend_from_slice(&[0x8a, 0x27]);
    bytes.extend_from_slice(&code);
    assert_eq!(validate(WasmFeatures::default(), &bytes), Ok(()));
    let err = validate(WasmFeatures::mvp(), &bytes).unwrap_err();
    assert_eq!(err.reason, Reason::Disabled(Feature::Simd));
    let tasks = validate_binary(WasmFeatures::mvp(), &bytes).unwrap();
    assert_eq!(tasks.len(), 1000);
    let mut forward: Vec<_> = tasks.iter().map(|t| t.check()).collect();
    let failing: Vec<u32> =
        forward.iter().filter(|o| o.error.is_some()).map(|o| o.index).collect();
    assert_eq!(failing, vec![613]);
    let verdict = wasm_validator::schedule::first_failure(&forward);
    forward.reverse();
    assert_eq!(wasm_validator::schedule::first_failure(&forward), verdict);
    assert_eq!(verdict.unwrap().index, 613);
    assert_eq!(verdict.unwrap().error, Some(err));
    assert_eq!(err.offset, tasks[613].func.offset + 2);
}

#[test]
fn headers_that_are_refused() {
    assert_eq!(decode(&[]).unwrap_err(), BinaryReaderError { reason: Reason::UnexpectedEof, offset: 0 });
    assert_eq!(
        decode(&[0, 0x61, 0x73]).unwrap_err(),
        BinaryReaderError { reason: Reason::UnexpectedEof, offset: 3 }
    );
    assert_eq!(
        decode(&[1, 0x61, 0x73, 0x6d, 1, 0, 0, 0]).unwrap_err(),
        BinaryReaderError { reason: Reason::BadMagic, offset: 0 }
    );
    assert_eq!(
        decode(&[0, 0x61, 0x73, 0x6d, 1, 0, 1, 0]).unwrap_err(),
        BinaryReaderError { reason: Reason::IntegerTooLarge, offset: 4 }
    );
    let err = validate(WasmFeatures::default(), &[0, 0x61, 0x73, 0x6d, 2, 0, 0, 0]).unwrap_err();
    assert_eq!(err.reason, Reason::UnknownVersion(2));
}

#[test]
fn sections_that_are_refused() {
    let err = decode(&module(&[&[0x0e, 0x00]])).unwrap_err();
    assert_eq!(err, BinaryReaderError { reason: Reason::UnknownSection(14), offset: 8 });
    let err = decode(&module(&[&[0x05, 0x04, 0x01, 0x00, 0x01]])).unwrap_err();
    assert_eq!(err, BinaryReaderError { reason: Reason::UnexpectedEof, offset: 10 });
    let err = decode(&module(&[&[0x05, 0x04, 0x01, 0x00, 0x01, 0x00]])).unwrap_err();
    assert_eq!(err, BinaryReaderError { reason: Reason::SizeMismatch, offset: 13 });
    let err = decode(&module(&[&[0x05, 0x02, 0x01, 0x00, 0x01]])).unwrap_err();
    assert_eq!(err, BinaryReaderError { reason: Reason::UnexpectedEof, offset: 12 });
    let err = decode(&module(&[&[0x05]])).unwrap_err();
    assert_eq!(err, BinaryReaderError { reason: Reason::UnexpectedEof, offset: 9 });
    let err = decode(&module(&[&[0x08, 0x02, 0x00, 0x00]])).unwrap_err();
    assert_eq!(err.reason, Reason::SizeMismatch);
    let out_of_order = module(&[ONE_MEMORY, UNIT_TYPE]);
    let err = validate(WasmFeatures::default(), &out_of_order).unwrap_err();
    assert_eq!(err.kind(), ErrorKind::MisplacedSection);
    assert_eq!(err.offset, 13);
    let custom: &[u8] = &[0x00, 0x05, 0x04, 0x6e, 0x61, 0x6d, 0x65];
    assert_eq!(validate(WasmFeatures::default(), &module(&[custom, ONE_MEMORY, custom])), Ok(()));
    assert_eq!(read_section(&[0x0c, 0x01, 0x03], 0).unwrap().1, 3);
}

#[test]
fn numbers_of_variable_length() {
    assert_eq!(read_var_u32(&[0x00], 0), Ok((0, 1)));
    assert_eq!(read_var_u32(&[0x7f], 0), Ok((127, 1)));
    assert_eq!(read_var_u32(&[0xe5, 0x8e, 0x26], 0), Ok((624485, 3)));
    assert_eq!(read_var_u32(&[0x80, 0x00], 0), Ok((0, 2)));
    assert_eq!(read_var_u32(&[0xff, 0xff, 0xff, 0xff, 0x0f], 0), Ok((u32::MAX, 5)));
    assert_eq!(read_var_u32(&[0xff, 0xff, 0xff, 0xff, 0x1f], 0), fail(Reason::IntegerTooLarge, 4));
    assert_eq!(read_var_u32(&[0xff, 0xff, 0xff, 0xff, 0x8f, 0x00], 0), fail(Reason::IntegerTooLong, 4));
    assert_eq!(read_var_u32(&[0xff, 0xff], 0), fail(Reason::UnexpectedEof, 2));
    assert_eq!(read_var_u32(&[0x01, 0x02], 1), Ok((2, 2)));
    assert_eq!(read_var_u32(&[0x01, 0x02], 2), fail(Reason::UnexpectedEof, 2));
    assert_eq!(read_var_u32(&[0x01, 0x02], 9), fail(Reason::UnexpectedEof, 9));
    assert_eq!(
        read_var_u64(&[0xff, 0xff, 0xff, 0xff, 0xff, 0xff, 0xff, 0xff, 0xff, 0x01], 0),
        Ok((u64::MAX, 10))
    );
    assert_eq!(
        read_var_u64(&[0xff, 0xff, 0xff, 0xff, 0xff, 0xff, 0xff, 0xff, 0xff, 0x02], 0),
        fail(Reason::IntegerTooLarge, 9)
    );
    assert_eq!(read_var_u64(&[0x80, 0x80, 0x80, 0x80, 0x10], 0), Ok((1 << 32, 5)));
    assert_eq!(read_var_s32(&[0x7f], 0), Ok((-1, 1)));
    assert_eq!(read_var_s32(&[0x3f], 0), Ok((63, 1)));
    assert_eq!(read_var_s32(&[0x40], 0), Ok((-64, 1)));
    assert_eq!(read_var_s32(&[0xc0, 0xbb, 0x78], 0), Ok((-123456, 3)));
    assert_eq!(read_var_s32(&[0xff, 0xff, 0xff, 0xff, 0x07], 0), Ok((i32::MAX, 5)));
    assert_eq!(read_var_s32(&[0x80, 0x80, 0x80, 0x80, 0x78], 0), Ok((i32::MIN, 5)));
    assert_eq!(read_var_s32(&[0x80, 0x80, 0x80, 0x80, 0x08], 0), fail(Reason::IntegerTooLarge, 4));
    assert_eq!(read_var_s32(&[0x80, 0x80, 0x80, 0x80, 0x88], 0), fail(Reason::IntegerTooLong, 4));
    assert_eq!(
        read_var_s64(&[0x80, 0x80, 0x80, 0x80, 0x80, 0x80, 0x80, 0x80, 0x80, 0x7f], 0),
        Ok((i64::MIN, 10))
    );
    assert_eq!(
        read_var_s64(&[0xff, 0xff, 0xff, 0xff, 0xff, 0xff, 0xff, 0xff, 0xff, 0x00], 0),
        Ok((i64::MAX, 10))
    );
    assert_eq!(
        read_var_s64(&[0xff, 0xff, 0xff, 0xff, 0xff, 0xff, 0xff, 0xff, 0xff, 0x01], 0),
        fail(Reason::IntegerTooLarge, 9)
    );
    assert_eq!(read_var_s33(&[0xff, 0xff, 0xff, 0xff, 0x0f], 0), Ok((u32::MAX as i64, 5)));
    assert_eq!(read_var_s33(&[0x80, 0x80, 0x80, 0x80, 0x70], 0), Ok((-(1i64 << 32), 5)));
    assert_eq!(read_u8(&[7], 0), Ok((7, 1)));
    assert_eq!(read_u8(&[7], 1), fail(Reason::UnexpectedEof, 1));
}

#[test]
fn numbers_of_fixed_length() {
    let bytes: Vec<u8> = (1..=16).collect();
    assert_eq!(read_fixed_u32(&bytes, 0), Ok((0x0403_0201, 4)));
    assert_eq!(read_fixed_u32(&bytes, 12), Ok((0x100f_0e0d, 16)));
    assert_eq!(read_fixed_u32(&bytes, 13), fail(Reason::UnexpectedEof, 13));
    assert_eq!(read_fixed_u64(&bytes, 8), Ok((0x100f_0e0d_0c0b_0a09, 16)));
    assert_eq!(read_fixed_u64(&bytes, 9), fail(Reason::UnexpectedEof, 9));
    assert_eq!(
        read_fixed_u128(&bytes, 0),
        Ok((0x100f_0e0d_0c0b_0a09_0807_0605_0403_0201, 16))
    );
    assert_eq!(read_fixed_u128(&bytes[1..], 0), fail(Reason::UnexpectedEof, 0));
    assert_eq!(read_fixed_u64(&[0xff; 8], 0), Ok((u64::MAX, 8)));
    assert_eq!(read_fixed_u32(&[0xff; 4], 0), Ok((u32::MAX, 4)));
}

#[test]
fn names() {
    assert_eq!(read_string(&[0x02, 0x68, 0x69, 0x21], 0), Ok(("hi".to_string(), 3)));
    assert_eq!(read_string(&[0x00], 0), Ok((String::new(), 1)));
    assert_eq!(read_string(&[0x03, 0xe2, 0x82, 0xac], 0), Ok(("\u{20ac}".to_string(), 4)));
    assert_eq!(read_string(&[0x02, 0xc3, 0x28], 0), fail(Reason::InvalidUtf8, 1));
    assert_eq!(read_string(&[0x03, 0x68, 0x69], 0), fail(Reason::UnexpectedEof, 1));
    assert_eq!(read_string(&[0xa1, 0x8d, 0x06], 0), fail(Reason::StringTooLong, 0));
    assert_eq!(
        BinaryReaderError { reason: Reason::StringTooLong, offset: 0 }.kind(),
        ErrorKind::LimitExceeded
    );
}

fn abstract_ref(nullable: bool, shared: bool, ty: AbstractHeapType) -> RefType {
    RefType { nullable, heap_type: HeapType::Abstract { shared, ty } }
}

#[test]
fn types_in_bytes() {
    assert_eq!(read_val_type(&[0x7f], 0), Ok((ValType::I32, 1)));
    assert_eq!(read_val_type(&[0x7e], 0), Ok((ValType::I64, 1)));
    assert_eq!(read_val_type(&[0x7d], 0), Ok((ValType::F32, 1)));
    assert_eq!(read_val_type(&[0x7c], 0), Ok((ValType::F64, 1)));
    assert_eq!(read_val_type(&[0x7b], 0), Ok((ValType::V128, 1)));
    assert_eq!(read_val_type(&[0x70], 0), Ok((ValType::Ref(RefType::funcref()), 1)));
    assert_eq!(read_val_type(&[0x40], 0), fail(Reason::InvalidByte(0x40), 0));
    assert_eq!(read_ref_type(&[0x6f], 0), Ok((abstract_ref(true, false, AbstractHeapType::Extern), 1)));
    assert_eq!(read_ref_type(&[0x64, 0x6e], 0), Ok((abstract_ref(false, false, AbstractHeapType::Any), 2)));
    assert_eq!(
        read_ref_type(&[0x63, 0x65, 0x6c], 0),
        Ok((abstract_ref(true, true, AbstractHeapType::I31), 3))
    );
    assert_eq!(
        read_ref_type(&[0x64, 0x85, 0x01], 0),
        Ok((RefType { nullable: false, heap_type: HeapType::Concrete(UnpackedIndex::Module(133)) }, 3))
    );
    assert_eq!(read_ref_type(&[0x63, 0x65, 0x00], 0), fail(Reason::InvalidByte(0), 2));
    assert_eq!(read_ref_type(&[0x63, 0x7f], 0), fail(Reason::InvalidByte(0x7f), 1));
    assert_eq!(read_ref_type(&[0x63], 0), fail(Reason::UnexpectedEof, 1));
    for (byte, ty) in [
        (0x70, AbstractHeapType::Func),
        (0x6f, AbstractHeapType::Extern),
        (0x6e, AbstractHeapType::Any),
        (0x6d, AbstractHeapType::Eq),
        (0x6c, AbstractHeapType::I31),
        (0x6b, AbstractHeapType::Struct),
        (0x6a, AbstractHeapType::Array),
        (0x69, AbstractHeapType::Exn),
        (0x68, AbstractHeapType::Cont),
        (0x71, AbstractHeapType::NoAny),
        (0x72, AbstractHeapType::NoExtern),
        (0x73, AbstractHeapType::NoFunc),
        (0x74, AbstractHeapType::NoExn),
        (0x75, AbstractHeapType::NoCont),
    ] {
        assert_eq!(read_heap_type(&[byte], 0), Ok((HeapType::Abstract { shared: false, ty }, 1)));
    }
    assert_eq!(read_heap_type(&[0x05], 0), Ok((HeapType::Concrete(UnpackedIndex::Module(5)), 1)));
    let limits = |initial, maximum| TableType {
        element_type: RefType::funcref(),
        table64: false,
        initial,
        maximum,
        shared: false,
    };
    assert_eq!(read_table_type(&[0x70, 0x00, 0x03], 0), Ok((limits(3, None), 3)));
    assert_eq!(read_table_type(&[0x70, 0x01, 0x03, 0x09], 0), Ok((limits(3, Some(9)), 4)));
    assert_eq!(
        read_table_type(&[0x70, 0x06, 0x80, 0x80, 0x80, 0x80, 0x10], 0),
        Ok((TableType { table64: true, shared: true, ..limits(1 << 32, None) }, 7))
    );
    assert_eq!(read_table_type(&[0x70, 0x08, 0x00], 0), fail(Reason::InvalidByte(8), 1));
    let memory = MemoryType { memory64: false, shared: false, initial: 1, maximum: None, page_size_log2: None };
    assert_eq!(read_memory_type(&[0x00, 0x01], 0), Ok((memory, 2)));
    assert_eq!(
        read_memory_type(&[0x03, 0x01, 0x02], 0),
        Ok((MemoryType { shared: true, maximum: Some(2), ..memory }, 3))
    );
    assert_eq!(
        read_memory_type(&[0x0d, 0x01, 0x02, 0x00], 0),
        Ok((MemoryType { memory64: true, maximum: Some(2), page_size_log2: Some(0), ..memory }, 4))
    );
    assert_eq!(read_memory_type(&[0x10, 0x01], 0), fail(Reason::InvalidByte(16), 0));
    assert_eq!(
        read_global_type(&[0x7e, 0x01], 0),
        Ok((GlobalType { content_type: ValType::I64, mutable: true, shared: false }, 2))
    );
    assert_eq!(
        read_global_type(&[0x7e, 0x02], 0),
        Ok((GlobalType { content_type: ValType::I64, mutable: false, shared: true }, 2))
    );
    assert_eq!(read_global_type(&[0x7e, 0x04], 0), fail(Reason::InvalidByte(4), 1));
    assert_eq!(read_type_ref(&[0x00, 0x07], 0), Ok((TypeRef::Func(7), 2)));
    assert_eq!(read_type_ref(&[0x02, 0x00, 0x01], 0), Ok((TypeRef::Memory(memory), 3)));
    assert_eq!(read_type_ref(&[0x01, 0x70, 0x00, 0x03], 0), Ok((TypeRef::Table(limits(3, None)), 4)));
    assert_eq!(
        read_type_ref(&[0x03, 0x7f, 0x00], 0),
        Ok((TypeRef::Global(GlobalType { content_type: ValType::I32, mutable: false, shared: false }), 3))
    );
    assert_eq!(read_type_ref(&[0x04, 0x00, 0x02], 0), Ok((TypeRef::Tag(TagType { func_type_idx: 2 }), 3)));
    assert_eq!(read_type_ref(&[0x04, 0x01, 0x02], 0), fail(Reason::InvalidByte(1), 1));
    assert_eq!(read_type_ref(&[0x05], 0), fail(Reason::InvalidByte(5), 0));
}

#[test]
fn type_definitions_in_bytes() {
    let (group, end) = read_rec_group(&[0x60, 0x01, 0x7f, 0x00], 0).unwrap();
    assert_eq!(end, 4);
    assert_eq!(group.types.len(), 1);
    assert!(group.types[0].is_final);
    assert_eq!(group.types[0].supertype_idx, None);
    match &group.types[0].composite_type.inner {
        CompositeInnerType::Func(f) => {
            assert_eq!(f.params, vec![ValType::I32]);
            assert!(f.results.is_empty());
        }
        _ => panic!("0x60 begins a function type"),
    }
    let bytes = [0x4e, 0x02, 0x50, 0x00, 0x5f, 0x01, 0x78, 0x01, 0x4f, 0x01, 0x00, 0x65, 0x5e, 0x7f, 0x00];
    let (group, end) = read_rec_group(&bytes, 0).unwrap();
    assert_eq!(end, bytes.len());
    assert_eq!(group.types.len(), 2);
    assert!(!group.types[0].is_final);
    assert!(group.types[1].is_final);
    assert_eq!(group.types[1].supertype_idx, Some(UnpackedIndex::Module(0)));
    assert!(group.types[1].composite_type.shared);
    assert!(matches!(group.types[0].composite_type.inner, CompositeInnerType::Struct(_)));
    assert!(matches!(group.types[1].composite_type.inner, CompositeInnerType::Array(_)));
    assert_eq!(read_rec_group(&[0x61], 0).unwrap_err().reason, Reason::InvalidByte(0x61));
    assert_eq!(read_rec_group(&[0x50, 0x02, 0x00, 0x01, 0x60, 0x00, 0x00], 0).unwrap_err().reason, Reason::IntegerTooLarge);
    assert_eq!(read_rec_group(&[0x5f, 0x01, 0x7f, 0x02], 0).unwrap_err(), BinaryReaderError { reason: Reason::InvalidByte(2), offset: 3 });
}

#[test]
fn instructions_in_bytes() {
    let cases: Vec<(Vec<u8>, Operator)> = vec![
        (vec![0x41, 0x7f], Operator::I32Const(-1)),
        (vec![0x42, 0x80, 0x01], Operator::I64Const(128)),
        (vec![0x43, 0x00, 0x00, 0x80, 0x3f], Operator::F32Const(0x3f80_0000)),
        (vec![0x44, 0, 0, 0, 0, 0, 0, 0xf0, 0x3f], Operator::F64Const(0x3ff0_0000_0000_0000)),
        (vec![0xd0, 0x70], Operator::RefNull(HeapType::Abstract { shared: false, ty: AbstractHeapType::Func })),
        (vec![0xd0, 0x03], Operator::RefNull(HeapType::Concrete(UnpackedIndex::Module(3)))),
        (vec![0xd2, 0x05], Operator::RefFunc(5)),
        (vec![0x23, 0x02], Operator::GlobalGet(2)),
        (vec![0x0b], Operator::End),
        (vec![0x6a], Operator::I32Add),
        (vec![0x6b], Operator::I32Sub),
        (vec![0x6c], Operator::I32Mul),
        (vec![0x7c], Operator::I64Add),
        (vec![0x7d], Operator::I64Sub),
        (vec![0x7e], Operator::I64Mul),
        (vec![0xfb, 0x00, 0x04], Operator::StructNew(4)),
        (vec![0xfb, 0x01, 0x04], Operator::StructNewDefault(4)),
        (vec![0xfb, 0x06, 0x04], Operator::ArrayNew(4)),
        (vec![0xfb, 0x07, 0x04], Operator::ArrayNewDefault(4)),
        (vec![0xfb, 0x08, 0x04, 0x03], Operator::ArrayNewFixed(4, 3)),
        (vec![0xfb, 0x1a], Operator::AnyConvertExtern),
        (vec![0xfb, 0x1b], Operator::ExternConvertAny),
        (vec![0xfb, 0x1c], Operator::RefI31),
        (vec![0xfc, 0x10, 0x01], Operator::TableSize(1)),
        (vec![0x00], Operator::Unreachable),
        (vec![0x01], Operator::Nop),
        (vec![0x0f], Operator::Return),
        (vec![0x10, 0x09], Operator::Call(9)),
        (vec![0x1a], Operator::Drop),
        (vec![0x1b], Operator::Select),
        (vec![0x20, 0x00], Operator::LocalGet(0)),
        (vec![0x21, 0x01], Operator::LocalSet(1)),
        (vec![0x22, 0x02], Operator::LocalTee(2)),
        (vec![0x24, 0x03], Operator::GlobalSet(3)),
        (vec![0x25, 0x00], Operator::TableGet(0)),
        (vec![0x3f, 0x00], Operator::MemorySize(0)),
        (vec![0x45], Operator::I32Eqz),
        (vec![0x46], Operator::I32Eq),
        (vec![0x50], Operator::I64Eqz),
        (vec![0x6d], Operator::I32DivS),
        (vec![0x71], Operator::I32And),
        (vec![0x7f], Operator::I64DivS),
        (vec![0xa7], Operator::I32WrapI64),
        (vec![0xac], Operator::I64ExtendI32S),
        (vec![0xd1], Operator::RefIsNull),
        (vec![0xd4], Operator::RefAsNonNull),
    ];
    for (bytes, op) in cases {
        assert_eq!(read_operator(&bytes, 0), Ok((op, bytes.len())));
    }
    let mut vector = vec![0xfd, 0x0c];
    vector.extend(1..=16u8);
    assert_eq!(
        read_operator(&vector, 0),
        Ok((Operator::V128Const(0x100f_0e0d_0c0b_0a09_0807_0605_0403_0201), 18))
    );
    assert_eq!(read_operator(&[0x02, 0x40], 0), fail(Reason::UnknownOperator(0x02), 0));
    assert_eq!(read_operator(&[0xfb, 0x02, 0x00], 0), fail(Reason::UnknownOperator(0xfb), 0));
    assert_eq!(read_operator(&[0xfc, 0x00], 0), fail(Reason::UnknownOperator(0xfc), 0));
    assert_eq!(read_operator(&[0x41], 0), fail(Reason::UnexpectedEof, 1));
    assert_eq!(read_operator(&[], 0), fail(Reason::UnexpectedEof, 0));
    let (expr, end) = read_const_expr(&[0xff, 0x41, 0x01, 0x41, 0x02, 0x6a, 0x0b, 0x0b], 1).unwrap();
    assert_eq!(end, 7);
    assert_eq!(expr.offset, 1);
    let ops: Vec<(usize, Operator)> = expr.ops.iter().map(|o| (o.offset, o.op)).collect();
    assert_eq!(
        ops,
        vec![
            (1, Operator::I32Const(1)),
            (3, Operator::I32Const(2)),
            (5, Operator::I32Add),
            (6, Operator::End)
        ]
    );
    assert_eq!(read_const_expr(&[0x41, 0x01], 0).unwrap_err(), BinaryReaderError { reason: Reason::UnexpectedEof, offset: 2 });
}

#[test]
fn sections_in_bytes() {
    let import: &[u8] = &[0x02, 0x0a, 0x01, 0x03, 0x65, 0x6e, 0x76, 0x01, 0x66, 0x03, 0x7f, 0x01];
    let tables: &[u8] = &[0x04, 0x0c, 0x02, 0x70, 0x00, 0x01, 0x40, 0x00, 0x70, 0x00, 0x01, 0xd0, 0x70, 0x0b];
    let bad_tables: &[u8] = &[0x04, 0x04, 0x01, 0x40, 0x01, 0x70];
    let tags: &[u8] = &[0x0d, 0x03, 0x01, 0x00, 0x00];
    let start: &[u8] = &[0x08, 0x01, 0x00];
    let elements: &[u8] = &[
        0x09, 0x1b, 0x05,
        0x00, 0x41, 0x00, 0x0b, 0x01, 0x00,
        0x01, 0x00, 0x01, 0x01,
        0x02, 0x00, 0x41, 0x00, 0x0b, 0x00, 0x00,
        0x03, 0x00, 0x00,
        0x05, 0x70, 0x01, 0xd2, 0x00, 0x0b,
    ];
    let data_count: &[u8] = &[0x0c, 0x01, 0x03];
    let data: &[u8] = &[
        0x0b, 0x10, 0x03,
        0x00, 0x41, 0x00, 0x0b, 0x02, 0xaa, 0xbb,
        0x01, 0x00,
        0x02, 0x00, 0x41, 0x08, 0x0b, 0x00,
    ];
    let bytes = module(&[
        UNIT_TYPE, import, TWO_FUNCTIONS, tables, ONE_MEMORY, tags, start, elements, data_count,
        TWO_BODIES, data,
    ]);
    let payloads = decode(&bytes).unwrap();
    assert_eq!(payloads.len(), 15);
    match &payloads[2] {
        Payload::ImportSection { offset, imports } => {
            assert_eq!(*offset, 14);
            assert_eq!(imports.len(), 1);
            assert_eq!(imports[0].offset, 17);
            assert_eq!(imports[0].item.module, "env");
            assert_eq!(imports[0].item.name, "f");
            assert_eq!(
                imports[0].item.ty,
                TypeRef::Global(GlobalType { content_type: ValType::I32, mutable: true, shared: false })
            );
        }
        _ => panic!("the import section comes third"),
    }
    match &payloads[4] {
        Payload::TableSection { tables, .. } => {
            assert!(matches!(tables[0].item.init, TableInit::RefNull));
            assert!(matches!(tables[1].item.init, TableInit::Expr(_)));
        }
        _ => panic!("the table section comes fifth"),
    }
    assert!(matches!(payloads[6], Payload::TagSection { .. }));
    assert!(matches!(payloads[7], Payload::StartSection { func: 0, .. }));
    match &payloads[8] {
        Payload::ElementSection { elements, .. } => {
            assert_eq!(elements.len(), 5);
            assert!(matches!(elements[0].item.kind, ElementKind::Active { table_index: None, .. }));
            assert!(matches!(elements[1].item.kind, ElementKind::Passive));
            assert!(matches!(elements[2].item.kind, ElementKind::Active { table_index: Some(0), .. }));
            assert!(matches!(elements[3].item.kind, ElementKind::Declared));
            assert!(matches!(elements[4].item.kind, ElementKind::Passive));
            match &elements[0].item.items {
                ElementItems::Functions(items) => {
                    assert_eq!(items.len(), 1);
                    assert_eq!(items[0].index, 0);
                }
                _ => panic!("the first segment names functions"),
            }
            match &elements[4].item.items {
                ElementItems::Expressions(ty, exprs) => {
                    assert_eq!(*ty, RefType::funcref());
                    assert_eq!(exprs.len(), 1);
                    assert_eq!(exprs[0].ops[0].op, Operator::RefFunc(0));
                }
                _ => panic!("the last segment holds initializers"),
            }
        }
        _ => panic!("the element section comes ninth"),
    }
    assert!(matches!(payloads[9], Payload::DataCountSection { count: 3, .. }));
    assert!(matches!(payloads[10], Payload::CodeSectionStart { count: 2, .. }));
    assert!(matches!(payloads[11], Payload::CodeSectionEntry { .. }));
    match &payloads[13] {
        Payload::DataSection { data, .. } => {
            assert_eq!(data.len(), 3);
            assert!(matches!(data[0].item.kind, DataKind::Active { memory_index: 0, .. }));
            assert!(matches!(data[1].item.kind, DataKind::Passive));
            assert!(matches!(data[2].item.kind, DataKind::Active { memory_index: 0, .. }));
        }
        _ => panic!("the data section comes last"),
    }
    assert!(matches!(payloads[14], Payload::End { .. }));
    assert_eq!(validate(WasmFeatures::default(), &bytes), Ok(()));
    let err = validate(WasmFeatures::mvp(), &bytes).unwrap_err();
    assert_eq!(err.kind(), ErrorKind::LimitExceeded);
    assert_eq!(err.reason, Reason::TooMany(IndexSpace::Tables));
    assert_eq!(decode(&module(&[bad_tables])).unwrap_err().reason, Reason::InvalidByte(1));
    assert_eq!(
        decode(&module(&[&[0x09, 0x02, 0x01, 0x08]])).unwrap_err().reason,
        Reason::IntegerTooLarge
    );
    assert_eq!(
        decode(&module(&[&[0x0b, 0x02, 0x01, 0x03]])).unwrap_err().reason,
        Reason::IntegerTooLarge
    );
    assert_eq!(
        decode(&module(&[&[0x07, 0x05, 0x01, 0x01, 0x67, 0x05, 0x00]])).unwrap_err().reason,
        Reason::InvalidByte(5)
    );
}

#[test]
fn locals_of_bodies() {
    let bytes = module(&[ADD_TYPE, ONE_FUNCTION, ADD_CODE]);
    let tasks = validate_binary(WasmFeatures::mvp(), &bytes).unwrap();
    let resources = &tasks[0].func.resources;
    assert_eq!(resources.check_locals(&[0x00, 0x0b], 100), Ok(0));
    assert_eq!(resources.check_locals(&[0x02, 0x03, 0x7f, 0x02, 0x7e, 0x01, 0x0b], 100), Ok(5));
    assert_eq!(
        resources.check_locals(&[0x01, 0x01, 0x70, 0x0b], 100),
        fail(Reason::Disabled(Feature::ReferenceTypes), 102)
    );
    assert_eq!(resources.check_locals(&[0x01, 0x01, 0x7f], 100), fail(Reason::MissingEnd, 100));
    assert_eq!(resources.check_locals(&[0x00, 0x01], 100), fail(Reason::MissingEnd, 100));
    assert_eq!(resources.check_locals(&[0x01, 0x01], 100), fail(Reason::UnexpectedEof, 102));
    assert_eq!(resources.check_locals(&[], 100), fail(Reason::UnexpectedEof, 100));
    assert_eq!(
        resources.check_locals(&[0x02, 0xd0, 0x86, 0x03, 0x7f, 0x01, 0x7f, 0x0b], 100),
        fail(Reason::TooMany(IndexSpace::Locals), 105)
    );
    assert_eq!(resources.check_locals(&[0x01, 0xd0, 0x86, 0x03, 0x7f, 0x0b], 100), Ok(50_000));
    assert_eq!(
        resources.check_locals(&[0x01, 0x01, 0x40, 0x0b], 100),
        fail(Reason::InvalidByte(0x40), 102)
    );
    let default = validate_binary(WasmFeatures::default(), &bytes).unwrap();
    assert_eq!(
        default[0].func.resources.check_locals(&[0x01, 0x01, 0x64, 0x00, 0x0b], 100),
        Ok(1)
    );
    assert_eq!(
        default[0].func.resources.check_locals(&[0x01, 0x01, 0x64, 0x03, 0x0b], 100),
        fail(Reason::Unknown { space: IndexSpace::Types, index: 3 }, 102)
    );
}

#[test]
fn accepted_module_is_in_order() {
    let global: &[u8] = &[0x06, 0x06, 0x01, 0x70, 0x00, 0xd2, 0x01, 0x0b];
    let exports: &[u8] =
        &[0x07, 0x0d, 0x03, 0x01, 0x67, 0x03, 0x00, 0x01, 0x66, 0x00, 0x00, 0x01, 0x68, 0x00, 0x01];
    let bytes = module(&[UNIT_TYPE, TWO_FUNCTIONS, global, exports, TWO_BODIES]);
    let tasks = validate_binary(WasmFeatures::default(), &bytes).unwrap();
    let resources = &tasks[0].func.resources;
    let module = &resources.0;
    let types = module.snapshot.as_ref().unwrap();
    for ty in &module.functions {
        assert!((*ty as usize) < module.types.len());
    }
    for id in &module.types {
        assert!((id.index as usize) < types.len());
    }
    for f in &module.function_references {
        assert!((*f as usize) < module.functions.len());
    }
    let mut references: Vec<u32> = module.function_references.iter().copied().collect();
    references.sort();
    assert_eq!(references, vec![0, 1]);
    let mut names: Vec<&str> = module.exports.iter().map(|e| e.name.as_str()).collect();
    names.sort();
    names.dedup();
    assert_eq!(names.len(), module.exports.len());
    assert_eq!(module.type_size, 1 + 1 + 2 + 2);
    assert!(module.type_size < wasm_validator::limits::MAX_TYPE_SIZE);
    assert!(module.num_imported_functions as usize <= module.functions.len());
}
