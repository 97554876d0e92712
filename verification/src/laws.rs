//! What holds of every module that the validator accepts.

use vstd::prelude::*;
use crate::const_expr::referenced_functions;
use crate::error::BinaryReaderError;
use crate::limits::MAX_TYPE_SIZE;
use crate::module::ModuleView;
use crate::operators::Operator;
use crate::payload::{Element, Global, Table};
use crate::types::SubTypeView;
use crate::validator::{
    Order, Payload, Spaces, ValidatorView, data_step, element_step, export_step, fold_entries,
    function_step, global_step, import_step, memory_step, table_step, tag_step, type_step,
};

verus! {

/// After an accepted global, every function
/// that its initializer takes a reference to is recorded as referenced.
pub proof fn lemma_global_references_recorded(m: ModuleView, global: &Global, i: int)
    requires
        0 <= i < global.init_expr@.len(),
        global.init_expr@[i].op is RefFunc,
    ensures
        m.with_global(global).function_references.contains(global.init_expr@[i].op->RefFunc_0),
{
    let f = global.init_expr@[i].op->RefFunc_0;
    assert(global.init_expr@[i].op == Operator::RefFunc(f));
    assert(referenced_functions(global.init_expr@).contains(f));
}

/// After an accepted table, every function that
/// its initializer takes a reference to is recorded as referenced.
pub proof fn lemma_table_references_recorded(m: ModuleView, table: &Table, i: int)
    requires
        table.init is Expr,
        0 <= i < table.init->Expr_0@.len(),
        table.init->Expr_0@[i].op is RefFunc,
    ensures
        m.with_table(table).function_references.contains(table.init->Expr_0@[i].op->RefFunc_0),
{
    let ops = table.init->Expr_0@;
    let f = ops[i].op->RefFunc_0;
    assert(ops[i].op == Operator::RefFunc(f));
    assert(referenced_functions(ops).contains(f));
}

/// After an accepted element segment, every
/// function that one of its entries names is recorded as referenced.
pub proof fn lemma_element_functions_recorded(m: ModuleView, e: &Element, i: int)
    requires
        e.items is Functions,
        0 <= i < e.items->Functions_0@.len(),
    ensures
        m.with_element(e).function_references.contains(e.items->Functions_0@[i].index),
{
    let items = e.items->Functions_0@;
    assert(crate::elements::item_functions(items).contains(items[i].index));
}

/// After an accepted element segment, every
/// function that one of its initializers takes a reference to is recorded as
/// referenced.
pub proof fn lemma_element_references_recorded(m: ModuleView, e: &Element, i: int, j: int)
    requires
        e.items is Expressions,
        0 <= i < e.items->Expressions_1@.len(),
        0 <= j < e.items->Expressions_1@[i]@.len(),
        e.items->Expressions_1@[i]@[j].op is RefFunc,
    ensures
        m.with_element(e).function_references.contains(
            e.items->Expressions_1@[i]@[j].op->RefFunc_0,
        ),
{
    let exprs = e.items->Expressions_1@;
    let f = exprs[i]@[j].op->RefFunc_0;
    assert(exprs[i]@[j].op == Operator::RefFunc(f));
    assert(referenced_functions(exprs[i]@).contains(f));
    assert(crate::elements::all_referenced(exprs).contains(f));
}

/// Whether an entry never takes a function out of the recorded references.
pub open spec fn step_keeps_references<T>(
    step: spec_fn(Spaces, T) -> Result<Spaces, BinaryReaderError>,
) -> bool {
    forall|s: Spaces, e: T| (#[trigger] step(s, e)) is Ok ==> s.module.function_references.subset_of(
            step(s, e)->Ok_0.module.function_references,
        )
}

/// Entries that keep the recorded references keep them one after the other.
pub proof fn lemma_fold_keeps_references<T>(
    step: spec_fn(Spaces, T) -> Result<Spaces, BinaryReaderError>,
    s: Spaces,
    items: Seq<T>,
)
    requires
        step_keeps_references(step),
        fold_entries(step, s, items) is Ok,
    ensures
        s.module.function_references.subset_of(
            fold_entries(step, s, items)->Ok_0.module.function_references,
        ),
    decreases items.len(),
{
    if items.len() > 0 {
        assert(step(s, items[0]) is Ok);
        lemma_fold_keeps_references(step, step(s, items[0])->Ok_0, items.drop_first());
    }
}

/// A function that is recorded as referenced stays
/// recorded through every payload that is accepted.
pub proof fn lemma_step_keeps_references(v: ValidatorView, payload: &Payload)
    requires
        v.step(payload) is Ok,
    ensures
        v.module.function_references.subset_of(v.step(payload)->Ok_0.0.module.function_references),
{
    reveal(ValidatorView::step);
    let s = Spaces { module: v.module, types: v.types };
    assert(step_keeps_references(type_step()));
    assert(step_keeps_references(import_step()));
    assert(step_keeps_references(function_step()));
    assert(step_keeps_references(table_step()));
    assert(step_keeps_references(memory_step()));
    assert(step_keeps_references(tag_step()));
    assert(step_keeps_references(global_step()));
    assert(step_keeps_references(export_step()));
    assert(step_keeps_references(element_step()));
    assert(step_keeps_references(data_step()));
    match *payload {
        Payload::TypeSection { offset, groups } => {
            lemma_fold_keeps_references(type_step(), s, groups@);
        },
        Payload::ImportSection { offset, imports } => {
            lemma_fold_keeps_references(import_step(), s, imports@);
        },
        Payload::FunctionSection { offset, functions } => {
            lemma_fold_keeps_references(function_step(), s, functions@);
        },
        Payload::TableSection { offset, tables } => {
            lemma_fold_keeps_references(table_step(), s, tables@);
        },
        Payload::MemorySection { offset, memories } => {
            lemma_fold_keeps_references(memory_step(), s, memories@);
        },
        Payload::TagSection { offset, tags } => {
            lemma_fold_keeps_references(tag_step(), s, tags@);
        },
        Payload::GlobalSection { offset, globals } => {
            lemma_fold_keeps_references(global_step(), s, globals@);
        },
        Payload::ExportSection { offset, exports } => {
            lemma_fold_keeps_references(export_step(), s, exports@);
        },
        Payload::ElementSection { offset, elements } => {
            lemma_fold_keeps_references(element_step(), s, elements@);
        },
        Payload::DataSection { offset, data } => {
            lemma_fold_keeps_references(data_step(), s, data@);
        },
        _ => {},
    }
}

/// A function that is recorded as referenced stays
/// recorded to the end of an accepted module.
pub proof fn lemma_run_keeps_references(v: ValidatorView, payloads: Seq<Payload>)
    requires
        v.run(payloads) is Ok,
    ensures
        v.module.function_references.subset_of(v.run(payloads)->Ok_0.module.function_references),
    decreases payloads.len(),
{
    if payloads.len() > 0 {
        lemma_step_keeps_references(v, &payloads[0]);
        lemma_run_keeps_references(v.step(&payloads[0])->Ok_0.0, payloads.drop_first());
    }
}

/// Whether an entry leaves a frozen module as it is.
pub open spec fn step_keeps_module<T>(
    step: spec_fn(Spaces, T) -> Result<Spaces, BinaryReaderError>,
) -> bool {
    forall|s: Spaces, e: T| (#[trigger] step(s, e)) is Ok ==> step(s, e)->Ok_0 == s
}

/// Entries that leave the module as it is do so one after the other.
pub proof fn lemma_fold_keeps_module<T>(
    step: spec_fn(Spaces, T) -> Result<Spaces, BinaryReaderError>,
    s: Spaces,
    items: Seq<T>,
)
    requires
        step_keeps_module(step),
        fold_entries(step, s, items) is Ok,
    ensures
        fold_entries(step, s, items)->Ok_0 == s,
    decreases items.len(),
{
    if items.len() > 0 {
        assert(step(s, items[0]) is Ok);
        lemma_fold_keeps_module(step, s, items.drop_first());
    }
}

/// From the start of the code section on, no
/// payload that is accepted changes the module or the type list: what the
/// checks of the function bodies see stays what it is.
pub proof fn lemma_snapshot_immutable(v: ValidatorView, payload: &Payload)
    requires
        v.order.spec_rank() >= Order::Code.spec_rank(),
        v.step(payload) is Ok,
    ensures
        v.step(payload)->Ok_0.0.module == v.module,
        v.step(payload)->Ok_0.0.types == v.types,
        v.step(payload)->Ok_0.0.frozen == v.frozen,
        v.step(payload)->Ok_0.0.order.spec_rank() >= Order::Code.spec_rank(),
{
    reveal(ValidatorView::step);
    let s = Spaces { module: v.module, types: v.types };
    match *payload {
        Payload::DataSection { offset, data } => {
            assert(step_keeps_module(data_step()));
            lemma_fold_keeps_module(data_step(), s, data@);
        },
        _ => {},
    }
}

/// From the start of the code section on, the
/// module and the type list stay what they are to the end of the module.
pub proof fn lemma_snapshot_immutable_run(v: ValidatorView, payloads: Seq<Payload>)
    requires
        v.order.spec_rank() >= Order::Code.spec_rank(),
        v.run(payloads) is Ok,
    ensures
        v.run(payloads)->Ok_0.module == v.module,
        v.run(payloads)->Ok_0.types == v.types,
    decreases payloads.len(),
{
    if payloads.len() > 0 {
        lemma_snapshot_immutable(v, &payloads[0]);
        lemma_snapshot_immutable_run(v.step(&payloads[0])->Ok_0.0, payloads.drop_first());
    }
}

/// A
/// module that is in order has every stored index in range of its space, no
/// two exports of one name, and a type size under the ceiling.
pub proof fn lemma_wf_module(m: ModuleView, store: Seq<SubTypeView>)
    requires
        m.wf(store),
    ensures
        forall|i: int| 0 <= i < m.functions.len() ==> (#[trigger] m.functions[i]) < m.types.len(),
        forall|i: int| 0 <= i < m.types.len() ==> (#[trigger] m.types[i]).index < store.len(),
        forall|i: int| 0 <= i < m.tags.len() ==> (#[trigger] m.tags[i]).index < store.len(),
        forall|f: u32| #[trigger] m.function_references.contains(f) ==> f < m.functions.len(),
        forall|i: int, j: int|
            0 <= i < j < m.exports.len() ==> (#[trigger] m.exports[i]).name != (
            #[trigger] m.exports[j]).name,
        m.type_size < MAX_TYPE_SIZE,
{
}

/// What an accepted payload does to the count of the code bodies: the start
/// of the code section sets it to the number of functions that the module
/// defines, a code body takes one off and belongs to the next of these
/// functions, and every other payload leaves it as it is.
pub proof fn lemma_step_bodies(v: ValidatorView, payload: &Payload)
    requires
        v.step(payload) is Ok,
        v.module.functions.len() <= u32::MAX,
        v.code_bodies_left is Some ==> v.code_bodies_left->0 <= v.module.functions.len(),
    ensures
        ({
            let next = v.step(payload)->Ok_0.0;
            let event = v.step(payload)->Ok_0.1;
            &&& next.order.spec_rank() >= v.order.spec_rank()
            &&& (payload is CodeSectionEntry <==> event is Func)
            &&& match *payload {
                Payload::CodeSectionEntry { .. } => {
                    &&& v.code_bodies_left is Some
                    &&& v.code_bodies_left->0 >= 1
                    &&& next.code_bodies_left == Some((v.code_bodies_left->0 - 1) as u32)
                    &&& next.module == v.module
                    &&& v.order == Order::Code
                    &&& event->index == v.module.functions.len() - v.code_bodies_left->0
                    &&& event->ty == v.module.functions[v.module.functions.len()
                        - v.code_bodies_left->0]
                },
                Payload::CodeSectionStart { count, .. } => {
                    &&& next.code_bodies_left == Some(count)
                    &&& count == v.defined_functions()
                    &&& next.module.functions == v.module.functions
                    &&& next.module.num_imported_functions == v.module.num_imported_functions
                    &&& next.order == Order::Code
                    &&& v.order.spec_rank() < Order::Code.spec_rank()
                },
                _ => next.code_bodies_left == v.code_bodies_left,
            }
        }),
{
    reveal(ValidatorView::step);
}

} // verus!
