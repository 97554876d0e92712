use wasm_validator::driver::{module_validates, validate_all};
use wasm_validator::error::{BinaryReaderError, Reason};
use wasm_validator::features::WasmFeatures;
use wasm_validator::schedule::{first_failure, Outcome};
use wasm_validator::types::{
    CompositeInnerType, CompositeType, FuncType, RecGroup, SubType, ValType,
};
use wasm_validator::validator::{Located, Payload};

fn failure(index: u32) -> Outcome {
    Outcome {
        index,
        error: Some(BinaryReaderError { reason: Reason::ValuesRemaining, offset: index as usize }),
    }
}

fn success(index: u32) -> Outcome {
    Outcome { index, error: None }
}

#[test]
fn no_failure_gives_no_verdict() {
    assert_eq!(first_failure(&vec![]), None);
    assert_eq!(first_failure(&vec![success(0), success(1), success(2)]), None);
}

#[test]
fn the_lowest_index_counts() {
    let outcomes = vec![success(3), failure(7), success(0), failure(2), failure(5)];
    assert_eq!(first_failure(&outcomes), Some(failure(2)));
}

#[test]
fn one_failure_among_a_thousand_is_reported_in_any_order() {
    let in_order: Vec<Outcome> =
        (0..1000).map(|i| if i == 613 { failure(i) } else { success(i) }).collect();
    let mut worker_count_eight = Vec::new();
    for lane in 0..8 {
        let mut i = lane;
        while i < 1000 {
            worker_count_eight.push(in_order[i]);
            i += 8;
        }
    }
    let mut reversed = in_order.clone();
    reversed.reverse();
    assert_eq!(first_failure(&in_order), Some(failure(613)));
    assert_eq!(first_failure(&worker_count_eight), Some(failure(613)));
    assert_eq!(first_failure(&reversed), Some(failure(613)));
    let all_fine: Vec<Outcome> = (0..1000).map(success).collect();
    assert_eq!(first_failure(&all_fine), None);
}

#[test]
fn several_failures_give_the_same_verdict_in_any_order() {
    let in_order: Vec<Outcome> =
        (0..1000).map(|i| if i % 97 == 13 { failure(i) } else { success(i) }).collect();
    let mut shuffled = in_order.clone();
    shuffled.reverse();
    shuffled.rotate_left(333);
    assert_eq!(first_failure(&in_order), Some(failure(13)));
    assert_eq!(first_failure(&shuffled), Some(failure(13)));
}

fn thousand_functions() -> Vec<Payload> {
    let ty = RecGroup {
        types: vec![SubType {
            is_final: true,
            supertype_idx: None,
            composite_type: CompositeType {
                inner: CompositeInnerType::Func(FuncType {
                    params: vec![ValType::I32],
                    results: vec![ValType::I32],
                }),
                shared: false,
            },
        }],
    };
    let mut payloads = vec![
        Payload::Version { num: 1, offset: 0 },
        Payload::TypeSection { offset: 8, groups: vec![Located { offset: 10, item: ty }] },
        Payload::FunctionSection {
            offset: 16,
            functions: (0..1000).map(|i| Located { offset: 18 + i, item: 0 }).collect(),
        },
        Payload::CodeSectionStart { count: 1000, offset: 1100 },
    ];
    for i in 0..1000usize {
        payloads.push(Payload::CodeSectionEntry {
            body: vec![0x00, 0x20, 0x00, 0x0b, (i % 256) as u8],
            offset: 1200 + 5 * i,
        });
    }
    payloads.push(Payload::End { offset: 7000 });
    payloads
}

#[test]
fn a_module_of_a_thousand_functions_gives_a_thousand_tasks() {
    let tasks = validate_all(WasmFeatures::default(), thousand_functions()).unwrap();
    assert_eq!(tasks.len(), 1000);
    for (k, task) in tasks.iter().enumerate() {
        assert_eq!(task.func.index as usize, k);
        assert_eq!(task.func.ty, 0);
        assert_eq!(task.body, vec![0x00, 0x20, 0x00, 0x0b, (k % 256) as u8]);
        assert_eq!(task.func.resources.0.functions.len(), 1000);
    }
    assert!(module_validates(WasmFeatures::default(), thousand_functions()));
    let again = validate_all(WasmFeatures::default(), thousand_functions()).unwrap();
    assert_eq!(again.len(), tasks.len());
}

#[test]
fn the_first_failing_payload_is_reported() {
    let mut payloads = thousand_functions();
    payloads.insert(3, Payload::FunctionSection { offset: 1050, functions: vec![] });
    let err = validate_all(WasmFeatures::default(), payloads).unwrap_err();
    assert_eq!(err.reason, Reason::DuplicateSection);
    assert_eq!(err.offset, 1050);
    let mut payloads = thousand_functions();
    payloads.pop();
    assert!(validate_all(WasmFeatures::default(), payloads).is_ok());
    let mut payloads = thousand_functions();
    payloads.pop();
    assert!(!module_validates(WasmFeatures::default(), payloads));
}

#[test]
fn more_proposals_accept_what_fewer_accept() {
    let small = vec![
        Payload::Version { num: 1, offset: 0 },
        Payload::MemorySection {
            offset: 8,
            memories: vec![Located {
                offset: 10,
                item: wasm_validator::types::MemoryType {
                    memory64: false,
                    shared: false,
                    initial: 1,
                    maximum: Some(2),
                    page_size_log2: None,
                },
            }],
        },
        Payload::End { offset: 20 },
    ];
    for features in [
        WasmFeatures::mvp(),
        WasmFeatures::wasm1(),
        WasmFeatures::wasm2(),
        WasmFeatures::wasm3(),
        WasmFeatures::default(),
        WasmFeatures::all(),
    ] {
        assert!(module_validates(features, small.clone()));
    }
}
