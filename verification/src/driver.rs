//! Validating all the payloads of a module, and collecting the function
//! bodies that are left to check.

use vstd::prelude::*;
use crate::body::declared_locals;
use crate::congruence::{lemma_bodies_by_value, lemma_offsets_by_value, lemma_run_by_value};
use crate::decode::{decode, module_payloads, payload_views};
use crate::error::BinaryReaderError;
use crate::features::WasmFeatures;
use crate::module::ModuleView;
use crate::laws::{lemma_snapshot_immutable, lemma_step_bodies};
use crate::schedule::{Outcome, first_failure, lowest_failure};
use crate::sections::{FuncToValidate, ValidPayload, Validator};
use crate::validator::{Order, Payload, State, ValidatorView, validates};

verus! {

/// The code bodies among the payloads, in their order.
pub open spec fn bodies(payloads: Seq<Payload>) -> Seq<Seq<u8>>
    decreases payloads.len(),
{
    if payloads.len() == 0 {
        Seq::empty()
    } else {
        let before = bodies(payloads.drop_last());
        match payloads.last() {
            Payload::CodeSectionEntry { body, .. } => before.push(body@),
            _ => before,
        }
    }
}

/// The positions of the code bodies among the payloads, in their order.
pub open spec fn body_offsets(payloads: Seq<Payload>) -> Seq<usize>
    decreases payloads.len(),
{
    if payloads.len() == 0 {
        Seq::empty()
    } else {
        let before = body_offsets(payloads.drop_last());
        match payloads.last() {
            Payload::CodeSectionEntry { offset, .. } => before.push(offset),
            _ => before,
        }
    }
}

/// The validator after the payloads from position `i` on is the validator
/// after the payload at `i` and then the payloads after it.
pub proof fn lemma_run_next(v: ValidatorView, payloads: Seq<Payload>, i: int)
    requires
        0 <= i < payloads.len(),
    ensures
        v.run(payloads.skip(i)) == match v.step(&payloads[i]) {
            Err(e) => Err::<ValidatorView, BinaryReaderError>(e),
            Ok((next, _)) => next.run(payloads.skip(i + 1)),
        },
{
    assert(payloads.skip(i)[0] == payloads[i]);
    assert(payloads.skip(i).drop_first() =~= payloads.skip(i + 1));
}

/// Whether `res` is what the payloads of a module lead to under the
/// proposals `features`: the first failure, or one task for each code body.
pub open spec fn tasks_of(
    features: WasmFeatures,
    payloads: Seq<Payload>,
    res: Result<Vec<Task>, BinaryReaderError>,
) -> bool {
    match ValidatorView::initial(features).run(payloads) {
        Ok(v) => res is Ok && res->Ok_0@.len() == bodies(payloads).len() && bodies(
            payloads,
        ).len() == body_offsets(payloads).len() && forall|k: int|
            0 <= k < res->Ok_0@.len() ==> {
                let task = #[trigger] res->Ok_0@[k];
                &&& task.body@ == bodies(payloads)[k]
                &&& task.func.offset == body_offsets(payloads)[k]
                &&& task.func.index == v.module.num_imported_functions + k
                &&& task.func.index < v.module.functions.len()
                &&& task.func.ty == v.module.functions[task.func.index as int]
                &&& task.func.resources.wf()
                &&& task.func.resources@ == v.module
            },
        Err(e) => res == Err::<Vec<Task>, BinaryReaderError>(e),
    }
}

/// A function body that is left to check, with what its check needs.
#[derive(Debug)]
pub struct Task {
    pub func: FuncToValidate,
    /// The locals and the instructions of the function.
    pub body: Vec<u8>,
}

/// Validates the payloads of a module in their order, and returns the
/// function bodies that are left to check. The bodies can be checked in any
/// order, and at the same time: each comes with the frozen module.
///
/// The result is that of the payloads taken one after the other: the first
/// failure, or one task for each code body. The task for the body number
/// `k` belongs to the function number `k` among those that the module
/// defines itself.
pub fn validate_all(features: WasmFeatures, payloads: Vec<Payload>) -> (res: Result<
    Vec<Task>,
    BinaryReaderError,
>)
    ensures
        tasks_of(features, payloads@, res),
{
    let ghost items = payloads@;
    let ghost start = ValidatorView::initial(features);
    let mut validator = Validator::new(features);
    let mut tasks: Vec<Task> = Vec::new();
    assert(items.skip(0) =~= items);
    assert(items.take(0) =~= Seq::empty());
    for payload in it: payloads.into_iter()
        invariant
            it.seq() == items,
            items == payloads@,
            start == ValidatorView::initial(features),
            validator.inv(),
            start.run(items) == validator@.run(items.skip(it.index() as int)),
            tasks@.len() == bodies(items.take(it.index() as int)).len(),
            tasks@.len() == body_offsets(items.take(it.index() as int)).len(),
            match validator@.code_bodies_left {
                Some(left) => tasks@.len() + left == validator@.defined_functions()
                    && validator@.order.spec_rank() >= Order::Code.spec_rank(),
                None => tasks@.len() == 0,
            },
            forall|k: int|
                0 <= k < tasks@.len() ==> {
                    let task = #[trigger] tasks@[k];
                    &&& task.body@ == bodies(items.take(it.index() as int))[k]
                    &&& task.func.offset == body_offsets(items.take(it.index() as int))[k]
                    &&& task.func.index == validator@.module.num_imported_functions + k
                    &&& task.func.index < validator@.module.functions.len()
                    &&& task.func.ty == validator@.module.functions[task.func.index as int]
                    &&& task.func.resources.wf()
                    &&& task.func.resources@ == validator@.module
                },
    {
        let ghost i = it.index() as int;
        let ghost before = validator@;
        proof {
            lemma_run_next(before, items, i);
            assert(items.take(i + 1).drop_last() =~= items.take(i));
            assert(items.take(i + 1).last() == items[i]);
            if before.step(&payload) is Ok {
                lemma_step_bodies(before, &payload);
                if before.order.spec_rank() >= Order::Code.spec_rank() {
                    lemma_snapshot_immutable(before, &payload);
                }
            }
        }
        match validator.payload(payload)? {
            ValidPayload::Func(func, body) => {
                tasks.push(Task { func, body });
            },
            _ => {},
        }
    }
    proof {
        assert(items.skip(items.len() as int) =~= Seq::empty());
        assert(items.take(items.len() as int) =~= items);
    }
    Ok(tasks)
}

/// Whether the payloads are those of a module that is accepted under the
/// proposals `features`, but for its function bodies.
pub fn module_validates(features: WasmFeatures, payloads: Vec<Payload>) -> (ok: bool)
    ensures
        ok == validates(features, payloads@),
{
    let ghost items = payloads@;
    let ghost start = ValidatorView::initial(features);
    let mut validator = Validator::new(features);
    assert(items.skip(0) =~= items);
    for payload in it: payloads.into_iter()
        invariant
            it.seq() == items,
            items == payloads@,
            start == ValidatorView::initial(features),
            validator.inv(),
            start.run(items) == validator@.run(items.skip(it.index() as int)),
    {
        proof {
            lemma_run_next(validator@, items, it.index() as int);
        }
        if validator.payload(payload).is_err() {
            return false;
        }
    }
    proof {
        assert(items.skip(items.len() as int) =~= Seq::empty());
    }
    validator.state == State::End
}

/// Payloads with the values that the bytes of a binary hold.
pub open spec fn payloads_of(s: Seq<u8>) -> Seq<Payload> {
    choose|payloads: Seq<Payload>| payload_views(payloads) == module_payloads(s)->Ok_0
}

/// Validates the structure of the module in a binary, and returns the
/// function bodies that are left to check.
///
/// The binary is read first: where it cannot be read, the result is the
/// failure of the reading. Otherwise it is what the payloads in the binary
/// lead to.
pub fn validate_binary(features: WasmFeatures, data: &[u8]) -> (res: Result<
    Vec<Task>,
    BinaryReaderError,
>)
    ensures
        match module_payloads(data@) {
            Err(e) => res == Err::<Vec<Task>, BinaryReaderError>(e),
            Ok(_) => tasks_of(features, payloads_of(data@), res),
        },
{
    let payloads = decode(data)?;
    let ghost read = payloads@;
    let res = validate_all(features, payloads);
    proof {
        assert(payload_views(read) == module_payloads(data@)->Ok_0);
        lemma_run_by_value(ValidatorView::initial(features), read, payloads_of(data@));
        lemma_bodies_by_value(read, payloads_of(data@));
        lemma_offsets_by_value(read, payloads_of(data@));
    }
    res
}

/// Where the body of a task begins in the binary; 0 where the position
/// cannot be one in a binary that holds the body.
pub open spec fn spec_body_offset(task: &Task) -> usize {
    body_offset(task.func.offset, task.body@)
}

/// How the check of the declarations of the body of a task ends.
pub open spec fn spec_outcome(task: &Task) -> Outcome {
    Outcome {
        index: task.func.index,
        error: match declared_locals(task.func.resources@, task.body@, spec_body_offset(task)) {
            Ok(_) => None,
            Err(e) => Some(e),
        },
    }
}

/// How the checks of the declarations of the bodies end.
pub open spec fn outcomes(tasks: Seq<Task>) -> Seq<Outcome> {
    Seq::new(tasks.len(), |k: int| spec_outcome(&tasks[k]))
}

impl Task {
    /// Checks the declarations of the body of the task.
    pub fn check(&self) -> (o: Outcome)
        ensures
            o == spec_outcome(self),
    {
        let offset: usize = if self.func.offset <= usize::MAX - self.body.len() {
            self.func.offset
        } else {
            0
        };
        let error = match self.func.resources.check_locals(self.body.as_slice(), offset) {
            Ok(_) => None,
            Err(e) => Some(e),
        };
        Outcome { index: self.func.index, error }
    }
}

/// Where a body begins in the binary; 0 where the position cannot be one
/// in a binary that holds the body.
pub open spec fn body_offset(offset: usize, body: Seq<u8>) -> usize {
    if offset + body.len() <= usize::MAX {
        offset
    } else {
        0
    }
}

/// How the checks of the declarations of the code bodies among the payloads
/// end, in the module that the payloads lead to.
pub open spec fn body_outcomes(m: ModuleView, payloads: Seq<Payload>) -> Seq<Outcome> {
    Seq::new(
        bodies(payloads).len(),
        |k: int|
            Outcome {
                index: (m.num_imported_functions + k) as u32,
                error: match declared_locals(
                    m,
                    bodies(payloads)[k],
                    body_offset(body_offsets(payloads)[k], bodies(payloads)[k]),
                ) {
                    Ok(_) => None,
                    Err(e) => Some(e),
                },
            },
    )
}

/// The verdict on the module in a binary: the failure of the reading, the
/// failure of the structure, the failure of the function with the lowest
/// index whose declarations fail, or nothing.
pub open spec fn module_verdict(features: WasmFeatures, s: Seq<u8>) -> Result<
    (),
    BinaryReaderError,
> {
    match module_payloads(s) {
        Err(e) => Err(e),
        Ok(_) => match ValidatorView::initial(features).run(payloads_of(s)) {
            Err(e) => Err(e),
            Ok(v) => match lowest_failure(body_outcomes(v.module, payloads_of(s))) {
                Some(o) => Err(o.error->0),
                None => Ok(()),
            },
        },
    }
}

/// Validates the module in a binary: its structure, and the declarations
/// of its function bodies. The instructions of the bodies are not checked.
///
/// The result is the failure of the reading or of the structure, or else
/// the failure of the function with the lowest index whose declarations
/// fail.
pub fn validate(features: WasmFeatures, data: &[u8]) -> (res: Result<(), BinaryReaderError>)
    ensures
        res == module_verdict(features, data@),
{
    let tasks = validate_binary(features, data);
    match &tasks {
        Err(e) => {
            return Err(*e);
        },
        Ok(list) => {
            let mut results: Vec<Outcome> = Vec::new();
            let mut i: usize = 0;
            while i < list.len()
                invariant
                    i <= list.len(),
                    results@ == outcomes(list@).take(i as int),
                decreases list.len() - i,
            {
                results.push(list[i].check());
                assert(results@ =~= outcomes(list@).take(i + 1));
                i += 1;
            }
            assert(results@ =~= outcomes(list@));
            proof {
                let v = ValidatorView::initial(features).run(payloads_of(data@))->Ok_0;
                assert(outcomes(list@) =~= body_outcomes(v.module, payloads_of(data@)));
            }
            match first_failure(&results) {
                Some(o) => match o.error {
                    Some(e) => Err(e),
                    None => vstd::pervasive::unreached(),
                },
                None => Ok(()),
            }
        },
    }
}

} // verus!
