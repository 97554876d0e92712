//! Payloads of the same value are validated alike.
//!
//! Two payloads can hold the same names, types and instructions in
//! different storage. The validator looks at what they hold only.

use vstd::prelude::*;
use crate::const_expr::referenced_functions;
use crate::driver::{bodies, body_offsets};
use crate::elements::{all_referenced, element_references};
use crate::error::BinaryReaderError;
use crate::module::ModuleView;
use crate::operators::ConstExpr;
use crate::payload::{Element, ElementItems};
use crate::types::{SubTypeView, ValType};
use crate::validator::{
    Located, Payload, Spaces, ValidatorView, data_step, element_step, export_step, fold_entries,
    function_step, global_step, import_step, memory_step, table_step, tag_step, type_step,
};
use crate::decode::payload_views;

verus! {

/// Whether an entry is applied by its value alone.
pub open spec fn by_value<T: DeepView>(
    step: spec_fn(Spaces, T) -> Result<Spaces, BinaryReaderError>,
) -> bool {
    forall|s: Spaces, x: T, y: T|
        x.deep_view() == y.deep_view() ==> #[trigger] step(s, x) == #[trigger] step(s, y)
}

/// Whether two sequences hold entries of the same values.
pub open spec fn same_values<T: DeepView>(a: Seq<T>, b: Seq<T>) -> bool {
    a.len() == b.len() && forall|i: int|
        0 <= i < a.len() ==> (#[trigger] a[i]).deep_view() == (#[trigger] b[i]).deep_view()
}

/// Entries of the same values lead to the same index spaces.
pub proof fn lemma_fold_by_value<T: DeepView>(
    step: spec_fn(Spaces, T) -> Result<Spaces, BinaryReaderError>,
    s: Spaces,
    a: Seq<T>,
    b: Seq<T>,
)
    requires
        by_value(step),
        same_values(a, b),
    ensures
        fold_entries(step, s, a) == fold_entries(step, s, b),
    decreases a.len(),
{
    if a.len() > 0 {
        assert(a[0].deep_view() == b[0].deep_view());
        assert(step(s, a[0]) == step(s, b[0]));
        match step(s, a[0]) {
            Ok(next) => {
                assert forall|i: int| 0 <= i < a.drop_first().len() implies (
                #[trigger] a.drop_first()[i]).deep_view() == (
                #[trigger] b.drop_first()[i]).deep_view() by {
                    assert(a[i + 1].deep_view() == b[i + 1].deep_view());
                }
                lemma_fold_by_value(step, next, a.drop_first(), b.drop_first());
            },
            Err(_) => {},
        }
    }
}

/// The values of the items of two vectors of the same value are the same.
pub proof fn lemma_vec_values<T: DeepView>(a: Vec<T>, b: Vec<T>)
    requires
        a.deep_view() == b.deep_view(),
    ensures
        same_values(a@, b@),
{
    assert(a.deep_view().len() == a@.len());
    assert(b.deep_view().len() == b@.len());
    assert forall|i: int| 0 <= i < a@.len() implies (#[trigger] a@[i]).deep_view() == (
    #[trigger] b@[i]).deep_view() by {
        assert(a.deep_view()[i] == a@[i].deep_view());
        assert(b.deep_view()[i] == b@[i].deep_view());
    }
}

/// Initializers of the same values refer to the same functions and fail
/// alike.
pub proof fn lemma_exprs_by_value(
    m: ModuleView,
    store: Seq<SubTypeView>,
    expected: ValType,
    a: Vec<ConstExpr>,
    b: Vec<ConstExpr>,
)
    requires
        a.deep_view() == b.deep_view(),
    ensures
        all_referenced(a@) == all_referenced(b@),
        Seq::new(a@.len(), |i: int| m.const_expr_error(store, &a@[i], expected, true)) == Seq::new(
            b@.len(),
            |i: int| m.const_expr_error(store, &b@[i], expected, true),
        ),
{
    lemma_vec_values(a, b);
    assert forall|i: int| 0 <= i < a@.len() implies a@[i].offset == b@[i].offset && a@[i]@
        == b@[i]@ by {
        assert(a@[i].deep_view() == b@[i].deep_view());
    }
    assert(Seq::new(a@.len(), |i: int| m.const_expr_error(store, &a@[i], expected, true))
        =~= Seq::new(b@.len(), |i: int| m.const_expr_error(store, &b@[i], expected, true)));
    assert forall|f: u32| all_referenced(a@).contains(f) == all_referenced(b@).contains(f) by {
        if all_referenced(a@).contains(f) {
            let i = choose|i: int|
                0 <= i < a@.len() && referenced_functions((#[trigger] a@[i])@).contains(f);
            assert(referenced_functions(b@[i]@).contains(f));
        }
        if all_referenced(b@).contains(f) {
            let i = choose|i: int|
                0 <= i < b@.len() && referenced_functions((#[trigger] b@[i])@).contains(f);
            assert(referenced_functions(a@[i]@).contains(f));
        }
    }
    assert(all_referenced(a@) =~= all_referenced(b@));
}

/// Element segments of the same value are validated alike.
pub proof fn lemma_element_by_value(
    m: ModuleView,
    store: Seq<SubTypeView>,
    x: &Element,
    y: &Element,
    offset: usize,
)
    requires
        x.deep_view() == y.deep_view(),
    ensures
        m.element_error(store, x, offset) == m.element_error(store, y, offset),
        m.with_element(x) == m.with_element(y),
{
    let element_ty = m.resolve_ref_type(ModuleView::stated_element_type(x));
    match (x.items, y.items) {
        (ElementItems::Expressions(t1, a), ElementItems::Expressions(t2, b)) => {
            lemma_exprs_by_value(m, store, ValType::Ref(element_ty), a, b);
        },
        _ => {},
    }
    assert(element_references(x) == element_references(y));
}

/// Every kind of entry is applied by its value alone.
pub proof fn lemma_steps_by_value()
    ensures
        by_value(type_step()),
        by_value(import_step()),
        by_value(function_step()),
        by_value(table_step()),
        by_value(memory_step()),
        by_value(tag_step()),
        by_value(global_step()),
        by_value(export_step()),
        by_value(element_step()),
        by_value(data_step()),
{
    assert forall|s: Spaces, x: Located<Element>, y: Located<Element>|
        x.deep_view() == y.deep_view() implies #[trigger] element_step()(s, x)
        == #[trigger] element_step()(s, y) by {
        lemma_element_by_value(s.module, s.types.types, &x.item, &y.item, x.offset);
    }
}

/// Payloads of the same value are validated alike.
pub proof fn lemma_step_by_value(v: ValidatorView, x: &Payload, y: &Payload)
    requires
        x.deep_view() == y.deep_view(),
    ensures
        v.step(x) == v.step(y),
{
    reveal(ValidatorView::step);
    lemma_steps_by_value();
    let s = Spaces { module: v.module, types: v.types };
    match (*x, *y) {
        (Payload::TypeSection { groups: a, .. }, Payload::TypeSection { groups: b, .. }) => {
            lemma_vec_values(a, b);
            lemma_fold_by_value(type_step(), s, a@, b@);
        },
        (Payload::ImportSection { imports: a, .. }, Payload::ImportSection { imports: b, .. }) => {
            lemma_vec_values(a, b);
            lemma_fold_by_value(import_step(), s, a@, b@);
        },
        (
            Payload::FunctionSection { functions: a, .. },
            Payload::FunctionSection { functions: b, .. },
        ) => {
            lemma_vec_values(a, b);
            lemma_fold_by_value(function_step(), s, a@, b@);
        },
        (Payload::TableSection { tables: a, .. }, Payload::TableSection { tables: b, .. }) => {
            lemma_vec_values(a, b);
            lemma_fold_by_value(table_step(), s, a@, b@);
        },
        (Payload::MemorySection { memories: a, .. }, Payload::MemorySection { memories: b, .. }) => {
            lemma_vec_values(a, b);
            lemma_fold_by_value(memory_step(), s, a@, b@);
        },
        (Payload::TagSection { tags: a, .. }, Payload::TagSection { tags: b, .. }) => {
            lemma_vec_values(a, b);
            lemma_fold_by_value(tag_step(), s, a@, b@);
        },
        (Payload::GlobalSection { globals: a, .. }, Payload::GlobalSection { globals: b, .. }) => {
            lemma_vec_values(a, b);
            lemma_fold_by_value(global_step(), s, a@, b@);
        },
        (Payload::ExportSection { exports: a, .. }, Payload::ExportSection { exports: b, .. }) => {
            lemma_vec_values(a, b);
            lemma_fold_by_value(export_step(), s, a@, b@);
        },
        (
            Payload::ElementSection { elements: a, .. },
            Payload::ElementSection { elements: b, .. },
        ) => {
            lemma_vec_values(a, b);
            lemma_fold_by_value(element_step(), s, a@, b@);
        },
        (Payload::DataSection { data: a, .. }, Payload::DataSection { data: b, .. }) => {
            lemma_vec_values(a, b);
            lemma_fold_by_value(data_step(), s, a@, b@);
        },
        _ => {},
    }
}

/// Sequences of payloads of the same values lead to the same verdict and
/// hold the same code bodies.
pub proof fn lemma_run_by_value(v: ValidatorView, a: Seq<Payload>, b: Seq<Payload>)
    requires
        payload_views(a) == payload_views(b),
    ensures
        v.run(a) == v.run(b),
    decreases a.len(),
{
    assert(payload_views(a).len() == a.len());
    assert(payload_views(b).len() == b.len());
    if a.len() > 0 {
        assert(payload_views(a)[0] == a[0].deep_view());
        assert(payload_views(b)[0] == b[0].deep_view());
        lemma_step_by_value(v, &a[0], &b[0]);
        match v.step(&a[0]) {
            Ok((next, _)) => {
                assert(payload_views(a.drop_first()) =~= payload_views(a).drop_first());
                assert(payload_views(b.drop_first()) =~= payload_views(b).drop_first());
                lemma_run_by_value(next, a.drop_first(), b.drop_first());
            },
            Err(_) => {},
        }
    }
}

/// Sequences of payloads of the same values hold the same code bodies.
pub proof fn lemma_bodies_by_value(a: Seq<Payload>, b: Seq<Payload>)
    requires
        payload_views(a) == payload_views(b),
    ensures
        bodies(a) == bodies(b),
    decreases a.len(),
{
    assert(payload_views(a).len() == a.len());
    assert(payload_views(b).len() == b.len());
    if a.len() > 0 {
        assert(payload_views(a)[a.len() - 1] == a.last().deep_view());
        assert(payload_views(b)[b.len() - 1] == b.last().deep_view());
        assert(payload_views(a.drop_last()) =~= payload_views(a).drop_last());
        assert(payload_views(b.drop_last()) =~= payload_views(b).drop_last());
        lemma_bodies_by_value(a.drop_last(), b.drop_last());
    }
}

/// Sequences of payloads of the same values hold their code bodies at the
/// same positions.
pub proof fn lemma_offsets_by_value(a: Seq<Payload>, b: Seq<Payload>)
    requires
        payload_views(a) == payload_views(b),
    ensures
        body_offsets(a) == body_offsets(b),
    decreases a.len(),
{
    assert(payload_views(a).len() == a.len());
    assert(payload_views(b).len() == b.len());
    if a.len() > 0 {
        assert(payload_views(a)[a.len() - 1] == a.last().deep_view());
        assert(payload_views(b)[b.len() - 1] == b.last().deep_view());
        assert(payload_views(a.drop_last()) =~= payload_views(a).drop_last());
        assert(payload_views(b.drop_last()) =~= payload_views(b).drop_last());
        lemma_offsets_by_value(a.drop_last(), b.drop_last());
    }
}

} // verus!
