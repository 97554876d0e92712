use std::sync::Arc;
use wasm_validator::error::{ErrorKind, Reason};
use wasm_validator::maybe_owned::MaybeOwned;
use wasm_validator::type_list::TypeList;
use wasm_validator::types::{
    AbstractHeapType, CompositeInnerType, CompositeType, CoreTypeId, FieldType, FuncType,
    HeapType, MemoryType, RecGroup, RefType, StorageType, StructType, SubType, TableType,
    UnpackedIndex, ValType,
};

fn func(params: Vec<ValType>, results: Vec<ValType>) -> CompositeInnerType {
    CompositeInnerType::Func(FuncType { params, results })
}

fn sub(is_final: bool, supertype_idx: Option<UnpackedIndex>, inner: CompositeInnerType) -> SubType {
    SubType { is_final, supertype_idx, composite_type: CompositeType { inner, shared: false } }
}

fn id(index: u32) -> CoreTypeId {
    CoreTypeId { index }
}

fn concrete(nullable: bool, index: u32) -> RefType {
    RefType { nullable, heap_type: HeapType::Concrete(UnpackedIndex::Id(id(index))) }
}

fn abstract_ref(nullable: bool, ty: AbstractHeapType) -> RefType {
    RefType { nullable, heap_type: HeapType::Abstract { shared: false, ty } }
}

fn struct_of(fields: Vec<FieldType>) -> CompositeInnerType {
    CompositeInnerType::Struct(StructType { fields })
}

fn i32_field() -> FieldType {
    FieldType { element_type: StorageType::Val(ValType::I32), mutable: false }
}

#[test]
fn equal_groups_get_equal_identifiers() {
    let mut list = TypeList::new();
    let a = RecGroup { types: vec![sub(true, None, func(vec![ValType::I32], vec![]))] };
    let b = RecGroup { types: vec![sub(true, None, func(vec![ValType::I64], vec![]))] };
    assert_eq!(list.intern(&a, 0), Ok(id(0)));
    assert_eq!(list.intern(&b, 0), Ok(id(1)));
    assert_eq!(list.intern(&a, 0), Ok(id(0)));
    assert_eq!(list.intern(&b, 0), Ok(id(1)));
    assert_eq!(list.len(), 2);
    assert!(list.get(id(1)).is_some());
    assert!(list.get(id(2)).is_none());
}

#[test]
fn groups_of_several_types_are_stored_together() {
    let mut list = TypeList::new();
    let pair = RecGroup {
        types: vec![
            sub(
                true,
                None,
                struct_of(vec![FieldType {
                    element_type: StorageType::Val(ValType::Ref(RefType {
                        nullable: true,
                        heap_type: HeapType::Concrete(UnpackedIndex::RecGroup(1)),
                    })),
                    mutable: true,
                }]),
            ),
            sub(true, None, CompositeInnerType::Array(i32_field())),
        ],
    };
    assert_eq!(list.intern(&pair, 0), Ok(id(0)));
    let single = RecGroup { types: vec![sub(true, None, CompositeInnerType::Array(i32_field()))] };
    assert_eq!(list.intern(&single, 0), Ok(id(2)));
    assert_eq!(list.intern(&pair, 0), Ok(id(0)));
    assert_eq!(list.len(), 3);
    match &list.get(id(0)).unwrap().composite_type.inner {
        CompositeInnerType::Struct(s) => {
            assert_eq!(
                s.fields[0].element_type,
                StorageType::Val(ValType::Ref(concrete(true, 1)))
            );
        }
        _ => panic!("the first type of the group is a struct"),
    }
}

#[test]
fn malformed_groups_are_refused() {
    let mut list = TypeList::new();
    let empty = RecGroup { types: vec![] };
    let err = list.intern(&empty, 7).unwrap_err();
    assert_eq!(err.reason, Reason::MalformedRecGroup);
    assert_eq!(err.kind(), ErrorKind::Malformed);
    assert_eq!(err.offset, 7);
    let unresolved = RecGroup {
        types: vec![sub(
            true,
            None,
            func(
                vec![ValType::Ref(RefType {
                    nullable: true,
                    heap_type: HeapType::Concrete(UnpackedIndex::Module(0)),
                })],
                vec![],
            ),
        )],
    };
    assert_eq!(list.intern(&unresolved, 0).unwrap_err().reason, Reason::MalformedRecGroup);
    let out_of_range =
        RecGroup { types: vec![sub(true, None, func(vec![ValType::Ref(concrete(true, 5))], vec![]))] };
    assert_eq!(list.intern(&out_of_range, 0).unwrap_err().reason, Reason::MalformedRecGroup);
    let base = RecGroup { types: vec![sub(true, None, func(vec![], vec![]))] };
    assert_eq!(list.intern(&base, 0), Ok(id(0)));
    let under_final =
        RecGroup { types: vec![sub(true, Some(UnpackedIndex::Id(id(0))), func(vec![], vec![]))] };
    assert_eq!(list.intern(&under_final, 0).unwrap_err().reason, Reason::MalformedRecGroup);
    let forward = RecGroup {
        types: vec![
            sub(false, Some(UnpackedIndex::RecGroup(1)), func(vec![], vec![])),
            sub(false, None, func(vec![], vec![])),
        ],
    };
    assert_eq!(list.intern(&forward, 0).unwrap_err().reason, Reason::MalformedRecGroup);
    let open = RecGroup { types: vec![sub(false, None, func(vec![], vec![]))] };
    assert_eq!(list.intern(&open, 0), Ok(id(1)));
    let other_kind =
        RecGroup { types: vec![sub(true, Some(UnpackedIndex::Id(id(1))), struct_of(vec![]))] };
    assert_eq!(list.intern(&other_kind, 0).unwrap_err().reason, Reason::MalformedRecGroup);
    assert_eq!(list.len(), 2);
}

fn family() -> TypeList {
    let mut list = TypeList::new();
    let top = RecGroup { types: vec![sub(false, None, struct_of(vec![]))] };
    let middle = RecGroup {
        types: vec![sub(false, Some(UnpackedIndex::Id(id(0))), struct_of(vec![i32_field()]))],
    };
    let bottom = RecGroup {
        types: vec![sub(
            true,
            Some(UnpackedIndex::Id(id(1))),
            struct_of(vec![i32_field(), i32_field()]),
        )],
    };
    let function = RecGroup { types: vec![sub(true, None, func(vec![], vec![]))] };
    assert_eq!(list.intern(&top, 0), Ok(id(0)));
    assert_eq!(list.intern(&middle, 0), Ok(id(1)));
    assert_eq!(list.intern(&bottom, 0), Ok(id(2)));
    assert_eq!(list.intern(&function, 0), Ok(id(3)));
    list
}

#[test]
fn declared_subtypes() {
    let list = family();
    assert_eq!(list.supertype_of(id(0)), None);
    assert_eq!(list.supertype_of(id(2)), Some(id(1)));
    assert!(list.id_is_subtype(id(2), id(0)));
    assert!(list.id_is_subtype(id(2), id(2)));
    assert!(list.id_is_subtype(id(1), id(0)));
    assert!(!list.id_is_subtype(id(0), id(2)));
    assert!(!list.id_is_subtype(id(3), id(0)));
}

#[test]
fn subtypes_of_references() {
    let list = family();
    assert!(list.reftype_is_subtype(concrete(false, 2), concrete(true, 0)));
    assert!(!list.reftype_is_subtype(concrete(true, 2), concrete(false, 0)));
    assert!(!list.reftype_is_subtype(concrete(true, 0), concrete(true, 2)));
    assert!(list.reftype_is_subtype(concrete(false, 2), abstract_ref(true, AbstractHeapType::Any)));
    assert!(list.reftype_is_subtype(concrete(false, 2), abstract_ref(true, AbstractHeapType::Eq)));
    assert!(list
        .reftype_is_subtype(concrete(false, 2), abstract_ref(false, AbstractHeapType::Struct)));
    assert!(!list
        .reftype_is_subtype(concrete(false, 2), abstract_ref(false, AbstractHeapType::Array)));
    assert!(!list.reftype_is_subtype(concrete(false, 2), abstract_ref(true, AbstractHeapType::Func)));
    assert!(list.reftype_is_subtype(concrete(false, 3), RefType::funcref()));
    assert!(!list.reftype_is_subtype(concrete(false, 3), abstract_ref(true, AbstractHeapType::Any)));
    assert!(list.reftype_is_subtype(abstract_ref(true, AbstractHeapType::NoAny), concrete(true, 2)));
    assert!(list.reftype_is_subtype(abstract_ref(true, AbstractHeapType::NoFunc), concrete(true, 3)));
    assert!(!list.reftype_is_subtype(abstract_ref(true, AbstractHeapType::NoFunc), concrete(true, 2)));
    assert!(!list.reftype_is_subtype(concrete(true, 9), abstract_ref(true, AbstractHeapType::Any)));
    assert!(list.reftype_is_subtype(concrete(true, 9), concrete(true, 9)));
    assert!(list.valtype_is_subtype(ValType::I32, ValType::I32));
    assert!(!list.valtype_is_subtype(ValType::I32, ValType::F32));
    assert!(list.valtype_is_subtype(ValType::Ref(concrete(false, 1)), ValType::Ref(concrete(true, 0))));
    assert!(!list.valtype_is_subtype(ValType::Ref(concrete(false, 1)), ValType::I32));
    assert!(list.heap_type_is_subtype(
        HeapType::Abstract { shared: false, ty: AbstractHeapType::I31 },
        HeapType::Abstract { shared: false, ty: AbstractHeapType::Eq }
    ));
    assert!(!list.heap_type_is_subtype(
        HeapType::Abstract { shared: true, ty: AbstractHeapType::I31 },
        HeapType::Abstract { shared: false, ty: AbstractHeapType::Eq }
    ));
}

#[test]
fn abstract_heap_types() {
    use_abstract(AbstractHeapType::NoAny, AbstractHeapType::Struct, true);
    use_abstract(AbstractHeapType::Struct, AbstractHeapType::Eq, true);
    use_abstract(AbstractHeapType::Eq, AbstractHeapType::Any, true);
    use_abstract(AbstractHeapType::Any, AbstractHeapType::Eq, false);
    use_abstract(AbstractHeapType::NoExtern, AbstractHeapType::Extern, true);
    use_abstract(AbstractHeapType::NoFunc, AbstractHeapType::Func, true);
    use_abstract(AbstractHeapType::NoExn, AbstractHeapType::Exn, true);
    use_abstract(AbstractHeapType::NoCont, AbstractHeapType::Cont, true);
    use_abstract(AbstractHeapType::Func, AbstractHeapType::Any, false);
    use_abstract(AbstractHeapType::Extern, AbstractHeapType::Extern, true);
    assert_eq!(AbstractHeapType::I31.top(), AbstractHeapType::Any);
    assert_eq!(AbstractHeapType::NoFunc.top(), AbstractHeapType::Func);
    assert_eq!(AbstractHeapType::NoExtern.top(), AbstractHeapType::Extern);
    assert_eq!(AbstractHeapType::NoExn.top(), AbstractHeapType::Exn);
    assert_eq!(AbstractHeapType::Cont.top(), AbstractHeapType::Cont);
}

fn use_abstract(a: AbstractHeapType, b: AbstractHeapType, expected: bool) {
    assert_eq!(a.is_subtype_of(b), expected);
}

#[test]
fn shared_types_and_tops() {
    let list = family();
    assert!(!list.reftype_is_shared(concrete(true, 0)));
    assert!(!list.reftype_is_shared(concrete(true, 9)));
    assert!(list.reftype_is_shared(RefType {
        nullable: true,
        heap_type: HeapType::Abstract { shared: true, ty: AbstractHeapType::Any },
    }));
    assert!(list.valtype_is_shared(ValType::I64));
    assert!(!list.valtype_is_shared(ValType::Ref(RefType::funcref())));
    let any = HeapType::Abstract { shared: false, ty: AbstractHeapType::Any };
    let func = HeapType::Abstract { shared: false, ty: AbstractHeapType::Func };
    assert_eq!(list.top_type(&HeapType::Concrete(UnpackedIndex::Id(id(2)))), Some(any));
    assert_eq!(list.top_type(&HeapType::Concrete(UnpackedIndex::Id(id(3)))), Some(func));
    assert_eq!(list.top_type(&HeapType::Concrete(UnpackedIndex::Id(id(4)))), None);
    assert_eq!(list.top_type(&HeapType::Concrete(UnpackedIndex::Module(0))), None);
    assert_eq!(
        list.top_type(&HeapType::Abstract { shared: true, ty: AbstractHeapType::Array }),
        Some(HeapType::Abstract { shared: true, ty: AbstractHeapType::Any })
    );
    assert!(list.defined(UnpackedIndex::Id(id(3))).is_some());
    assert!(list.defined(UnpackedIndex::RecGroup(0)).is_none());
}

#[test]
fn small_questions_about_types() {
    assert!(RefType::funcref().is_nullable());
    assert!(ValType::I32.is_defaultable());
    assert!(ValType::Ref(RefType::funcref()).is_defaultable());
    assert!(!ValType::Ref(concrete(false, 0)).is_defaultable());
    assert_eq!(StorageType::I8.unpack(), ValType::I32);
    assert_eq!(StorageType::I16.unpack(), ValType::I32);
    assert_eq!(StorageType::Val(ValType::F64).unpack(), ValType::F64);
    assert!(StorageType::I8.is_defaultable());
    assert!(!StorageType::Val(ValType::Ref(concrete(false, 0))).is_defaultable());
    let table = TableType {
        element_type: RefType::funcref(),
        table64: true,
        initial: 0,
        maximum: None,
        shared: false,
    };
    assert_eq!(table.index_type(), ValType::I64);
    assert_eq!(TableType { table64: false, ..table }.index_type(), ValType::I32);
    let memory =
        MemoryType { memory64: false, shared: false, initial: 0, maximum: None, page_size_log2: None };
    assert_eq!(memory.index_type(), ValType::I32);
    assert_eq!(MemoryType { memory64: true, ..memory }.index_type(), ValType::I64);
}

#[test]
fn owned_until_shared() {
    let mut handle = MaybeOwned::new(vec![1, 2, 3]);
    assert!(handle.owned());
    assert_eq!(handle.get(), &vec![1, 2, 3]);
    handle.assert_mut().push(4);
    if let Some(v) = handle.as_mut() {
        v.push(5);
    }
    assert_eq!(handle.get(), &vec![1, 2, 3, 4, 5]);
    let first: Arc<Vec<i32>> = handle.arc().clone();
    assert!(!handle.owned());
    assert!(handle.as_mut().is_none());
    assert_eq!(handle.get(), &vec![1, 2, 3, 4, 5]);
    let second = handle.arc().clone();
    assert!(Arc::ptr_eq(&first, &second));
    handle.make_shared();
    assert!(Arc::ptr_eq(&first, handle.arc()));
    assert_eq!(*first, vec![1, 2, 3, 4, 5]);
}
