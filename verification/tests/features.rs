use wasm_validator::cli::{CliFeatures, FeatureAction};
use wasm_validator::features::{
    Feature, WasmFeatures, ALL, BULK_MEMORY, DEFAULT, EXTENDED_CONST, FLOATS, GC, GC_TYPES, LIME1,
    MUTABLE_GLOBAL, MVP, REFERENCE_TYPES, SHARED_EVERYTHING_THREADS, SIMD, THREADS, WASM1, WASM2,
    WASM3,
};
use wasm_validator::parse::{
    all_features, feature_name, is_space, parse_features, FeatureParseError,
};
use wasm_validator::types::{AbstractHeapType, CoreTypeId, HeapType, RefType, UnpackedIndex, ValType};

fn abstract_ref(nullable: bool, shared: bool, ty: AbstractHeapType) -> RefType {
    RefType { nullable, heap_type: HeapType::Abstract { shared, ty } }
}

#[test]
fn presets_hold_what_they_should() {
    assert_eq!(WasmFeatures::wasm1().bits(), FLOATS | GC_TYPES);
    assert_eq!(WasmFeatures::mvp().bits(), FLOATS | GC_TYPES | MUTABLE_GLOBAL);
    assert_eq!(WASM1, 0x20_0800);
    assert_eq!(MVP, 0x20_0801);
    assert_eq!(WASM2, 0x20_087f);
    assert_eq!(WASM3, 0x25_fcff);
    assert_eq!(DEFAULT, 0x25_fdff);
    assert_eq!(LIME1, 0x20_8817);
    assert_eq!(ALL, 0xff_ffff);
    assert_eq!(WasmFeatures::default().bits(), DEFAULT);
    assert_eq!(WasmFeatures::all().bits(), ALL);
    assert_eq!(WasmFeatures::empty().bits(), 0);
    assert_eq!(WasmFeatures::lime1().bits(), LIME1);
    assert_eq!(WasmFeatures::wasm2().bits(), WASM2);
    assert_eq!(WasmFeatures::wasm3().bits(), WASM3);
    assert_eq!(WasmFeatures::from_bits_truncate(0xffff_ffff).bits(), ALL);
}

#[test]
fn predicates_read_the_set() {
    let default = WasmFeatures::default();
    assert!(default.gc());
    assert!(default.threads());
    assert!(default.memory64());
    assert!(default.bulk_memory());
    assert!(default.reference_types());
    assert!(default.function_references());
    assert!(default.exceptions());
    assert!(default.extended_const());
    assert!(default.multi_memory());
    assert!(default.mutable_global());
    assert!(default.floats());
    assert!(default.simd());
    assert!(default.gc_types());
    assert!(!default.shared_everything_threads());
    assert!(!default.custom_page_sizes());
    assert!(!default.stack_switching());
    let mvp = WasmFeatures::mvp();
    assert!(mvp.mutable_global());
    assert!(mvp.floats());
    assert!(!mvp.reference_types());
    assert!(!mvp.bulk_memory());
    assert!(!mvp.gc());
    assert!(mvp.contains(Feature::GcTypes));
    assert!(!mvp.contains(Feature::Simd));
    for f in all_features() {
        assert!(WasmFeatures::all().contains(f));
        assert!(!WasmFeatures::empty().contains(f));
        assert_eq!(f.mask().count_ones(), 1);
    }
}

#[test]
fn presets_are_consistent() {
    for f in [
        WasmFeatures::empty(),
        WasmFeatures::mvp(),
        WasmFeatures::wasm1(),
        WasmFeatures::wasm2(),
        WasmFeatures::wasm3(),
        WasmFeatures::lime1(),
        WasmFeatures::default(),
        WasmFeatures::all(),
    ] {
        assert!(f.is_consistent());
    }
    assert!(!WasmFeatures::from_bits_truncate(SHARED_EVERYTHING_THREADS).is_consistent());
    assert!(WasmFeatures::from_bits_truncate(SHARED_EVERYTHING_THREADS | THREADS).is_consistent());
    assert!(!WasmFeatures::from_bits_truncate(GC).is_consistent());
    assert!(!WasmFeatures::default()
        .difference(WasmFeatures::from_bits_truncate(REFERENCE_TYPES))
        .is_consistent());
    assert!(!WasmFeatures::default()
        .difference(WasmFeatures::from_bits_truncate(SIMD))
        .is_consistent());
}

#[test]
fn union_and_difference() {
    let a = WasmFeatures::from_bits_truncate(SIMD | THREADS);
    let b = WasmFeatures::from_bits_truncate(THREADS | GC);
    assert_eq!(a.union(b).bits(), SIMD | THREADS | GC);
    assert_eq!(a.difference(b).bits(), SIMD);
}

#[test]
fn value_types_need_their_proposals() {
    let mvp = WasmFeatures::mvp();
    assert_eq!(mvp.check_value_type(ValType::I32), Ok(()));
    assert_eq!(mvp.check_value_type(ValType::I64), Ok(()));
    assert_eq!(mvp.check_value_type(ValType::F32), Ok(()));
    assert_eq!(mvp.check_value_type(ValType::V128), Err(Feature::Simd));
    assert_eq!(WasmFeatures::empty().check_value_type(ValType::F64), Err(Feature::Floats));
    assert_eq!(WasmFeatures::wasm2().check_value_type(ValType::V128), Ok(()));
    assert_eq!(
        mvp.check_value_type(ValType::Ref(RefType::funcref())),
        Err(Feature::ReferenceTypes)
    );
}

#[test]
fn reference_types_need_their_proposals() {
    let wasm2 = WasmFeatures::wasm2();
    assert_eq!(wasm2.check_ref_type(RefType::funcref()), Ok(()));
    assert_eq!(wasm2.check_ref_type(abstract_ref(true, false, AbstractHeapType::Extern)), Ok(()));
    assert_eq!(
        wasm2.check_ref_type(abstract_ref(false, false, AbstractHeapType::Func)),
        Err(Feature::FunctionReferences)
    );
    assert_eq!(
        wasm2.check_ref_type(abstract_ref(true, false, AbstractHeapType::Any)),
        Err(Feature::Gc)
    );
    assert_eq!(
        wasm2.check_ref_type(abstract_ref(true, false, AbstractHeapType::Exn)),
        Err(Feature::Exceptions)
    );
    assert_eq!(
        wasm2.check_ref_type(abstract_ref(true, true, AbstractHeapType::Func)),
        Err(Feature::SharedEverythingThreads)
    );
    assert_eq!(
        wasm2.check_ref_type(RefType {
            nullable: true,
            heap_type: HeapType::Concrete(UnpackedIndex::Module(0)),
        }),
        Err(Feature::FunctionReferences)
    );
    let default = WasmFeatures::default();
    assert_eq!(default.check_ref_type(abstract_ref(false, false, AbstractHeapType::I31)), Ok(()));
    assert_eq!(
        default.check_ref_type(abstract_ref(true, false, AbstractHeapType::Cont)),
        Err(Feature::StackSwitching)
    );
    assert_eq!(
        default.check_ref_type(RefType {
            nullable: false,
            heap_type: HeapType::Concrete(UnpackedIndex::Id(CoreTypeId { index: 3 })),
        }),
        Ok(())
    );
    let no_gc_types =
        WasmFeatures::default().difference(WasmFeatures::from_bits_truncate(GC_TYPES));
    assert_eq!(
        no_gc_types.check_ref_type(abstract_ref(true, false, AbstractHeapType::Extern)),
        Err(Feature::GcTypes)
    );
    assert_eq!(no_gc_types.check_ref_type(RefType::funcref()), Ok(()));
}

#[test]
fn steps_are_applied_in_order() {
    let simd = WasmFeatures::from_bits_truncate(SIMD);
    let none = CliFeatures { features: vec![] };
    assert_eq!(none.features().bits(), DEFAULT);
    let off = CliFeatures { features: vec![vec![FeatureAction::Disable(simd)]] };
    assert_eq!(off.features().bits(), DEFAULT & !SIMD);
    let reset = CliFeatures {
        features: vec![
            vec![FeatureAction::Disable(simd), FeatureAction::Reset(WasmFeatures::mvp())],
            vec![FeatureAction::Enable(simd)],
        ],
    };
    assert_eq!(reset.features().bits(), MVP | SIMD);
    let all_off = CliFeatures {
        features: vec![vec![FeatureAction::Disable(WasmFeatures::all())]],
    };
    assert_eq!(all_off.features().bits(), 0);
}

#[test]
fn names_are_read() {
    assert_eq!(parse_features("").unwrap(), vec![]);
    assert_eq!(parse_features(" , ,").unwrap(), vec![]);
    assert_eq!(
        parse_features("simd").unwrap(),
        vec![FeatureAction::Enable(WasmFeatures::from_bits_truncate(SIMD))]
    );
    assert_eq!(
        parse_features("-simd, bulk-memory ,,\textended-const\n").unwrap(),
        vec![
            FeatureAction::Disable(WasmFeatures::from_bits_truncate(SIMD)),
            FeatureAction::Enable(WasmFeatures::from_bits_truncate(BULK_MEMORY)),
            FeatureAction::Enable(WasmFeatures::from_bits_truncate(EXTENDED_CONST)),
        ]
    );
    assert_eq!(parse_features("all").unwrap(), vec![FeatureAction::Enable(WasmFeatures::all())]);
    assert_eq!(parse_features("-all").unwrap(), vec![FeatureAction::Disable(WasmFeatures::all())]);
    assert_eq!(parse_features("mvp").unwrap(), vec![FeatureAction::Reset(WasmFeatures::mvp())]);
    assert_eq!(parse_features("wasm1").unwrap(), vec![FeatureAction::Reset(WasmFeatures::wasm1())]);
    assert_eq!(parse_features("wasm2").unwrap(), vec![FeatureAction::Reset(WasmFeatures::wasm2())]);
    assert_eq!(parse_features("wasm3").unwrap(), vec![FeatureAction::Reset(WasmFeatures::wasm3())]);
    assert_eq!(parse_features("lime1").unwrap(), vec![FeatureAction::Reset(WasmFeatures::lime1())]);
    for f in all_features() {
        assert_eq!(
            parse_features(feature_name(f)).unwrap(),
            vec![FeatureAction::Enable(WasmFeatures::from_bits_truncate(f.mask()))]
        );
        let off = format!("-{}", feature_name(f));
        assert_eq!(
            parse_features(&off).unwrap(),
            vec![FeatureAction::Disable(WasmFeatures::from_bits_truncate(f.mask()))]
        );
    }
}

#[test]
fn wrong_names_are_refused() {
    match parse_features("simd,nonsense,gc") {
        Err(FeatureParseError::Unknown(name)) => {
            assert_eq!(name.iter().collect::<String>(), "nonsense")
        }
        _ => panic!("an unknown name is refused"),
    }
    match parse_features("-wasm2") {
        Err(FeatureParseError::CannotDisable(name)) => {
            assert_eq!(name.iter().collect::<String>(), "wasm2")
        }
        _ => panic!("a release cannot be taken away"),
    }
    match parse_features("- simd") {
        Err(FeatureParseError::Unknown(name)) => {
            assert_eq!(name.iter().collect::<String>(), " simd")
        }
        _ => panic!("white space after the sign belongs to the name"),
    }
    assert!(matches!(parse_features("SIMD"), Err(FeatureParseError::Unknown(_))));
    assert!(matches!(parse_features("-"), Err(FeatureParseError::Unknown(_))));
}

#[test]
fn white_space_is_what_trim_removes() {
    for n in 0..0x3100u32 {
        if let Some(c) = char::from_u32(n) {
            assert_eq!(is_space(c), c.is_whitespace());
        }
    }
    assert_eq!(
        parse_features("\u{a0}gc\u{2003}").unwrap(),
        vec![FeatureAction::Enable(WasmFeatures::from_bits_truncate(GC))]
    );
}

#[test]
fn names_of_the_proposals() {
    assert_eq!(feature_name(Feature::MutableGlobal), "mutable-global");
    assert_eq!(feature_name(Feature::SharedEverythingThreads), "shared-everything-threads");
    assert_eq!(feature_name(Feature::Memory64), "memory64");
    assert_eq!(all_features().len(), 24);
    let mut names: Vec<&str> = all_features().into_iter().map(feature_name).collect();
    names.sort();
    names.dedup();
    assert_eq!(names.len(), 24);
}

#[test]
fn sets_from_bits() {
    assert_eq!(WasmFeatures::from_bits(DEFAULT), Some(WasmFeatures::default()));
    assert_eq!(WasmFeatures::from_bits(0), Some(WasmFeatures::empty()));
    assert_eq!(WasmFeatures::from_bits(GC), None);
    assert_eq!(WasmFeatures::from_bits(0x100_0000), None);
    assert_eq!(WasmFeatures::from_bits(ALL), Some(WasmFeatures::all()));
}
