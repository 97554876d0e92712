//! Switching proposals on never turns an accepted module into a refused one.
//!
//! Every check that looks at the set of proposals asks whether a proposal is
//! on, and fails where it is off. So what is accepted under one set is
//! accepted under every larger set, and leaves the same index spaces.

use vstd::prelude::*;
use crate::const_expr::{const_context};
use crate::error::BinaryReaderError;
use crate::features::{Feature, WasmFeatures, lemma_subset_has};
use crate::module::ModuleView;
use crate::operators::{ConstOp, Operator};
use crate::payload::{Data, DataKind, Element, ElementItems, ElementKind, Export, Global, Import, Table, TableInit};
use crate::sequence::{lemma_first_some_none};
use crate::type_list::TypeListView;
use crate::types::{
    CompositeView, FieldType, GlobalType, MemoryType, RecGroup, RefType, SubTypeView, TableType,
    TagType, TypeRef, ValType,
};
use crate::validator::{
    Event, Located, Payload, Spaces, ValidatorView, data_step, element_step, export_step,
    fold_entries, function_step, global_step, import_step, memory_step, table_step, tag_step,
    type_step,
};

verus! {

/// The module under another set of proposals.
pub open spec fn with_features(m: ModuleView, g: WasmFeatures) -> ModuleView {
    ModuleView { features: g, ..m }
}

/// The index spaces under another set of proposals.
pub open spec fn lift(s: Spaces, g: WasmFeatures) -> Spaces {
    Spaces { module: with_features(s.module, g), types: s.types }
}

/// The validator under another set of proposals.
pub open spec fn lift_view(v: ValidatorView, g: WasmFeatures) -> ValidatorView {
    ValidatorView { module: with_features(v.module, g), ..v }
}

/// An instruction of an initializer that is accepted stays accepted under
/// more proposals, with the same effect on the operand stack.
pub proof fn lemma_const_step_monotone(
    m: ModuleView,
    g: WasmFeatures,
    store: Seq<SubTypeView>,
    record: bool,
    stack: Seq<ValType>,
    op: Operator,
)
    requires
        m.features.subset_of(g),
        const_context(m, store, record).step(stack, op) is Ok,
    ensures
        const_context(with_features(m, g), store, record).step(stack, op) == const_context(
            m,
            store,
            record,
        ).step(stack, op),
{
    lemma_subset_has(m.features, g);
    let a = const_context(m, store, record);
    let b = const_context(with_features(m, g), store, record);
    match op {
        Operator::RefNull(h) => {
            let r = RefType { nullable: true, heap_type: h };
            crate::features::lemma_ref_type_monotone(m.features, g, r);
        },
        Operator::StructNew(t) => {
            assert(b.stored(t) == a.stored(t));
        },
        Operator::StructNewDefault(t) => {
            assert(b.stored(t) == a.stored(t));
        },
        Operator::ArrayNew(t) => {
            assert(b.stored(t) == a.stored(t));
        },
        Operator::ArrayNewDefault(t) => {
            assert(b.stored(t) == a.stored(t));
        },
        Operator::ArrayNewFixed(t, n) => {
            assert(b.stored(t) == a.stored(t));
        },
        _ => {},
    }
}

/// An initializer that is accepted stays accepted under more proposals.
pub proof fn lemma_const_run_monotone(
    m: ModuleView,
    g: WasmFeatures,
    store: Seq<SubTypeView>,
    record: bool,
    expected: ValType,
    start: usize,
    stack: Seq<ValType>,
    ops: Seq<ConstOp>,
    i: int,
)
    requires
        m.features.subset_of(g),
        0 <= i,
        const_context(m, store, record).run(expected, start, stack, ops, i) is None,
    ensures
        const_context(with_features(m, g), store, record).run(expected, start, stack, ops, i)
            is None,
    decreases ops.len() - i,
{
    let a = const_context(m, store, record);
    if i < ops.len() && !(ops[i].op is End) {
        lemma_const_step_monotone(m, g, store, record, stack, ops[i].op);
        lemma_const_run_monotone(
            m,
            g,
            store,
            record,
            expected,
            start,
            a.step(stack, ops[i].op)->Ok_0,
            ops,
            i + 1,
        );
    }
}

/// A memory type that is accepted stays accepted under more proposals.
pub proof fn lemma_memory_monotone(m: ModuleView, g: WasmFeatures, ty: MemoryType)
    requires
        m.features.subset_of(g),
        m.memory_type_reason(ty) is None,
    ensures
        with_features(m, g).memory_type_reason(ty) is None,
{
    lemma_subset_has(m.features, g);
}

/// A reference type that is accepted stays accepted under more proposals.
pub proof fn lemma_module_ref_type_monotone(m: ModuleView, g: WasmFeatures, ty: RefType)
    requires
        m.features.subset_of(g),
        m.ref_type_reason(ty) is None,
    ensures
        with_features(m, g).ref_type_reason(ty) is None,
        with_features(m, g).resolve_ref_type(ty) == m.resolve_ref_type(ty),
{
    crate::features::lemma_ref_type_monotone(m.features, g, ty);
}

/// A value type that is accepted stays accepted under more proposals.
pub proof fn lemma_module_value_type_monotone(m: ModuleView, g: WasmFeatures, ty: ValType)
    requires
        m.features.subset_of(g),
        m.value_type_reason(ty) is None,
    ensures
        with_features(m, g).value_type_reason(ty) is None,
        with_features(m, g).resolve_value_type(ty) == m.resolve_value_type(ty),
{
    crate::features::lemma_value_type_monotone(m.features, g, ty);
    match ty {
        ValType::Ref(r) => {
            lemma_module_ref_type_monotone(m, g, r);
        },
        _ => {},
    }
}

/// A table type that is accepted stays accepted under more proposals.
pub proof fn lemma_table_type_monotone(
    m: ModuleView,
    g: WasmFeatures,
    store: Seq<SubTypeView>,
    ty: TableType,
)
    requires
        m.features.subset_of(g),
        m.table_type_reason(store, ty) is None,
    ensures
        with_features(m, g).table_type_reason(store, ty) is None,
        with_features(m, g).resolve_table_type(ty) == m.resolve_table_type(ty),
{
    lemma_subset_has(m.features, g);
    if ty.element_type != RefType::spec_funcref() {
        lemma_module_ref_type_monotone(m, g, ty.element_type);
    }
}

/// A global type that is accepted stays accepted under more proposals.
pub proof fn lemma_global_type_monotone(
    m: ModuleView,
    g: WasmFeatures,
    store: Seq<SubTypeView>,
    ty: GlobalType,
)
    requires
        m.features.subset_of(g),
        m.global_type_reason(store, ty) is None,
    ensures
        with_features(m, g).global_type_reason(store, ty) is None,
        with_features(m, g).resolve_global_type(ty) == m.resolve_global_type(ty),
{
    lemma_subset_has(m.features, g);
    lemma_module_value_type_monotone(m, g, ty.content_type);
}

/// A tag type that is accepted stays accepted under more proposals.
pub proof fn lemma_tag_monotone(
    m: ModuleView,
    g: WasmFeatures,
    store: Seq<SubTypeView>,
    ty: TagType,
)
    requires
        m.features.subset_of(g),
        m.tag_type_reason(store, ty) is None,
    ensures
        with_features(m, g).tag_type_reason(store, ty) is None,
{
    lemma_subset_has(m.features, g);
}

/// An import that is accepted stays accepted under more proposals, and adds
/// the same to the module.
pub proof fn lemma_import_monotone(
    m: ModuleView,
    g: WasmFeatures,
    store: Seq<SubTypeView>,
    module: Seq<char>,
    name: Seq<char>,
    ty: TypeRef,
)
    requires
        m.features.subset_of(g),
        m.import_reason(store, ty) is None,
    ensures
        with_features(m, g).import_reason(store, ty) is None,
        with_features(m, g).with_import(store, module, name, ty) == with_features(
            m.with_import(store, module, name, ty),
            g,
        ),
{
    lemma_subset_has(m.features, g);
    match ty {
        TypeRef::Func(_) => {},
        TypeRef::Table(t) => {
            lemma_table_type_monotone(m, g, store, t);
        },
        TypeRef::Memory(mem) => {
            lemma_memory_monotone(m, g, mem);
        },
        TypeRef::Tag(t) => {
            lemma_tag_monotone(m, g, store, t);
        },
        TypeRef::Global(gl) => {
            lemma_global_type_monotone(m, g, store, gl);
        },
    }
    assert(with_features(m, g).entity_of(ty) == m.entity_of(ty));
}

/// A global that is accepted stays accepted under more proposals.
pub proof fn lemma_global_monotone(
    m: ModuleView,
    g: WasmFeatures,
    store: Seq<SubTypeView>,
    global: &Global,
    offset: usize,
)
    requires
        m.features.subset_of(g),
        m.global_error(store, global, offset) is None,
    ensures
        with_features(m, g).global_error(store, global, offset) is None,
        with_features(m, g).with_global(global) == with_features(m.with_global(global), g),
{
    lemma_global_type_monotone(m, g, store, global.ty);
    lemma_const_run_monotone(
        m,
        g,
        store,
        true,
        m.resolve_value_type(global.ty.content_type),
        global.init_expr.offset,
        Seq::empty(),
        global.init_expr@,
        0,
    );
}

/// A table that is accepted stays accepted under more proposals.
pub proof fn lemma_table_monotone(
    m: ModuleView,
    g: WasmFeatures,
    store: Seq<SubTypeView>,
    table: &Table,
    offset: usize,
)
    requires
        m.features.subset_of(g),
        m.table_error(store, table, offset) is None,
    ensures
        with_features(m, g).table_error(store, table, offset) is None,
        with_features(m, g).with_table(table) == with_features(m.with_table(table), g),
{
    lemma_subset_has(m.features, g);
    lemma_table_type_monotone(m, g, store, table.ty);
    match table.init {
        TableInit::RefNull => {},
        TableInit::Expr(expr) => {
            lemma_const_run_monotone(
                m,
                g,
                store,
                true,
                ValType::Ref(m.resolve_ref_type(table.ty.element_type)),
                expr.offset,
                Seq::empty(),
                expr@,
                0,
            );
        },
    }
}

/// A data segment that is accepted stays accepted under more proposals.
pub proof fn lemma_data_monotone(
    m: ModuleView,
    g: WasmFeatures,
    store: Seq<SubTypeView>,
    data: &Data,
    offset: usize,
)
    requires
        m.features.subset_of(g),
        m.data_error(store, data, offset) is None,
    ensures
        with_features(m, g).data_error(store, data, offset) is None,
{
    lemma_subset_has(m.features, g);
    match data.kind {
        DataKind::Passive => {},
        DataKind::Active { memory_index, offset_expr } => {
            lemma_const_run_monotone(
                m,
                g,
                store,
                false,
                m.memories[memory_index as int].spec_index_type(),
                offset_expr.offset,
                Seq::empty(),
                offset_expr@,
                0,
            );
        },
    }
}

/// An element segment that is accepted stays accepted under more proposals.
pub proof fn lemma_element_monotone(
    m: ModuleView,
    g: WasmFeatures,
    store: Seq<SubTypeView>,
    e: &Element,
    offset: usize,
)
    requires
        m.features.subset_of(g),
        m.element_error(store, e, offset) is None,
    ensures
        with_features(m, g).element_error(store, e, offset) is None,
        with_features(m, g).with_element(e) == with_features(m.with_element(e), g),
{
    lemma_subset_has(m.features, g);
    let n = with_features(m, g);
    let element_ty = m.resolve_ref_type(ModuleView::stated_element_type(e));
    match e.items {
        ElementItems::Functions(_) => {},
        ElementItems::Expressions(ty, _) => {
            lemma_module_ref_type_monotone(m, g, ty);
        },
    }
    assert(n.resolve_ref_type(ModuleView::stated_element_type(e)) == element_ty);
    match e.kind {
        ElementKind::Active { table_index, offset_expr } => {
            let index = match table_index {
                Some(i) => i,
                None => 0,
            };
            lemma_const_run_monotone(
                m,
                g,
                store,
                true,
                m.tables[index as int].spec_index_type(),
                offset_expr.offset,
                Seq::empty(),
                offset_expr@,
                0,
            );
        },
        _ => {},
    }
    assert(n.element_kind_error(store, e, element_ty, offset) is None);
    match e.items {
        ElementItems::Functions(items) => {
            let checks = Seq::new(items@.len(), |i: int| m.func_item_error(items@[i]));
            let lifted = Seq::new(items@.len(), |i: int| n.func_item_error(items@[i]));
            assert(checks =~= lifted);
        },
        ElementItems::Expressions(_, exprs) => {
            let checks = Seq::new(
                exprs@.len(),
                |i: int| m.const_expr_error(store, &exprs@[i], ValType::Ref(element_ty), true),
            );
            let lifted = Seq::new(
                exprs@.len(),
                |i: int| n.const_expr_error(store, &exprs@[i], ValType::Ref(element_ty), true),
            );
            lemma_first_some_none(checks);
            assert forall|i: int| 0 <= i < lifted.len() implies (#[trigger] lifted[i]) is None by {
                assert(checks[i] is None);
                lemma_const_run_monotone(
                    m,
                    g,
                    store,
                    true,
                    ValType::Ref(element_ty),
                    exprs@[i].offset,
                    Seq::empty(),
                    exprs@[i]@,
                    0,
                );
            }
            lemma_first_some_none(lifted);
        },
    }
}

/// An export that is accepted stays accepted under more proposals.
pub proof fn lemma_export_monotone(m: ModuleView, g: WasmFeatures, store: Seq<SubTypeView>, e: &Export)
    requires
        m.features.subset_of(g),
        m.export_reason(e.kind, e.index) is None,
        m.with_exported(e.kind, e.index).add_export_reason(
            store,
            e.name@,
            m.export_entity(e.kind, e.index),
            false,
        ) is None,
    ensures
        with_features(m, g).export_reason(e.kind, e.index) is None,
        with_features(m, g).export_entity(e.kind, e.index) == m.export_entity(e.kind, e.index),
        with_features(m, g).with_exported(e.kind, e.index).add_export_reason(
            store,
            e.name@,
            m.export_entity(e.kind, e.index),
            false,
        ) is None,
        with_features(m, g).with_exported(e.kind, e.index).with_export(
            store,
            e.name@,
            m.export_entity(e.kind, e.index),
        ) == with_features(
            m.with_exported(e.kind, e.index).with_export(
                store,
                e.name@,
                m.export_entity(e.kind, e.index),
            ),
            g,
        ),
{
    lemma_subset_has(m.features, g);
    let a = m.with_exported(e.kind, e.index);
    let b = with_features(m, g).with_exported(e.kind, e.index);
    assert(b == with_features(a, g));
    assert(b.exports == a.exports);
    if a.exports_name(e.name@) != b.exports_name(e.name@) {
        assert(false);
    }
}

/// Canonical forms do not depend on the proposals.
pub proof fn lemma_canon_same(m: ModuleView, g: WasmFeatures, ty: SubTypeView)
    ensures
        with_features(m, g).canon_sub(ty) == m.canon_sub(ty),
{
    let n = with_features(m, g);
    match ty.inner {
        CompositeView::Func { params, results } => {
            assert(n.canon_vals(params) =~= m.canon_vals(params));
            assert(n.canon_vals(results) =~= m.canon_vals(results));
        },
        CompositeView::Array(_) => {},
        CompositeView::Struct { fields } => {
            assert(n.canon_fields(fields) =~= m.canon_fields(fields));
        },
    }
}

/// A list of value types in a recursion group that is accepted stays
/// accepted under more proposals.
pub proof fn lemma_group_vals_monotone(m: ModuleView, g: WasmFeatures, k: nat, tys: Seq<ValType>)
    requires
        m.features.subset_of(g),
        m.group_vals_reason(k, tys) is None,
    ensures
        with_features(m, g).group_vals_reason(k, tys) is None,
{
    let n = with_features(m, g);
    let checks = Seq::new(tys.len(), |i: int| m.group_val_reason(k, tys[i]));
    let lifted = Seq::new(tys.len(), |i: int| n.group_val_reason(k, tys[i]));
    lemma_first_some_none(checks);
    assert forall|i: int| 0 <= i < lifted.len() implies (#[trigger] lifted[i]) is None by {
        assert(checks[i] is None);
        crate::features::lemma_value_type_monotone(m.features, g, tys[i]);
    }
    lemma_first_some_none(lifted);
}

/// A list of fields in a recursion group that is accepted stays accepted
/// under more proposals.
pub proof fn lemma_group_fields_monotone(
    m: ModuleView,
    g: WasmFeatures,
    k: nat,
    fields: Seq<FieldType>,
)
    requires
        m.features.subset_of(g),
        m.group_fields_reason(k, fields) is None,
    ensures
        with_features(m, g).group_fields_reason(k, fields) is None,
{
    let n = with_features(m, g);
    let checks = Seq::new(fields.len(), |i: int| m.group_field_reason(k, fields[i]));
    let lifted = Seq::new(fields.len(), |i: int| n.group_field_reason(k, fields[i]));
    lemma_first_some_none(checks);
    assert forall|i: int| 0 <= i < lifted.len() implies (#[trigger] lifted[i]) is None by {
        assert(checks[i] is None);
        match fields[i].element_type {
            crate::types::StorageType::Val(v) => {
                crate::features::lemma_value_type_monotone(m.features, g, v);
            },
            _ => {},
        }
    }
    lemma_first_some_none(lifted);
}

/// A type definition that is accepted stays accepted under more proposals.
pub proof fn lemma_sub_type_monotone(m: ModuleView, g: WasmFeatures, k: nat, ty: SubTypeView)
    requires
        m.features.subset_of(g),
        m.sub_type_reason(k, ty) is None,
    ensures
        with_features(m, g).sub_type_reason(k, ty) is None,
{
    lemma_subset_has(m.features, g);
    match ty.inner {
        CompositeView::Func { params, results } => {
            lemma_group_vals_monotone(m, g, k, params);
            lemma_group_vals_monotone(m, g, k, results);
        },
        CompositeView::Array(field) => {
            match field.element_type {
                crate::types::StorageType::Val(v) => {
                    crate::features::lemma_value_type_monotone(m.features, g, v);
                },
                _ => {},
            }
        },
        CompositeView::Struct { fields } => {
            lemma_group_fields_monotone(m, g, k, fields);
        },
    }
}

/// A recursion group that is accepted stays accepted under more proposals,
/// and gets the same identifiers.
pub proof fn lemma_types_monotone(
    m: ModuleView,
    g: WasmFeatures,
    list: TypeListView,
    group: Seq<SubTypeView>,
    check_limit: bool,
)
    requires
        m.features.subset_of(g),
        m.add_types_reason(list, group, check_limit) is None,
    ensures
        with_features(m, g).add_types_reason(list, group, check_limit) is None,
        with_features(m, g).canon_group(group) == m.canon_group(group),
        with_features(m, g).with_types(list, group) == with_features(m.with_types(list, group), g),
{
    lemma_subset_has(m.features, g);
    let n = with_features(m, g);
    assert(n.canon_group(group) =~= m.canon_group(group)) by {
        assert forall|i: int| 0 <= i < group.len() implies n.canon_sub(group[i]) == m.canon_sub(
            group[i],
        ) by {
            lemma_canon_same(m, g, group[i]);
        }
    }
    let checks = Seq::new(group.len(), |i: int| m.sub_type_reason(group.len(), group[i]));
    let lifted = Seq::new(group.len(), |i: int| n.sub_type_reason(group.len(), group[i]));
    lemma_first_some_none(checks);
    assert forall|i: int| 0 <= i < lifted.len() implies (#[trigger] lifted[i]) is None by {
        assert(checks[i] is None);
        lemma_sub_type_monotone(m, g, group.len(), group[i]);
    }
    lemma_first_some_none(lifted);
}

/// Whether an entry that is accepted under the proposals `f` stays accepted
/// under the proposals `g`, and leaves the same index spaces.
pub open spec fn step_lifts<T>(
    step: spec_fn(Spaces, T) -> Result<Spaces, BinaryReaderError>,
    f: WasmFeatures,
    g: WasmFeatures,
) -> bool {
    forall|s: Spaces, e: T|
        s.module.features == f && (#[trigger] step(s, e)) is Ok ==> step(s, e)->Ok_0.module.features
            == f && step(lift(s, g), e) == Ok::<Spaces, BinaryReaderError>(
            lift(step(s, e)->Ok_0, g),
        )
}

/// Entries that are accepted one after the other under the proposals `f`
/// are accepted under the proposals `g`, where each of them is.
pub proof fn lemma_fold_lifts<T>(
    step: spec_fn(Spaces, T) -> Result<Spaces, BinaryReaderError>,
    f: WasmFeatures,
    g: WasmFeatures,
    s: Spaces,
    items: Seq<T>,
)
    requires
        step_lifts(step, f, g),
        s.module.features == f,
        fold_entries(step, s, items) is Ok,
    ensures
        fold_entries(step, s, items)->Ok_0.module.features == f,
        fold_entries(step, lift(s, g), items) == Ok::<Spaces, BinaryReaderError>(
            lift(fold_entries(step, s, items)->Ok_0, g),
        ),
    decreases items.len(),
{
    if items.len() > 0 {
        assert(step(s, items[0]) is Ok);
        lemma_fold_lifts(step, f, g, step(s, items[0])->Ok_0, items.drop_first());
    }
}

/// Every kind of entry that is accepted stays accepted under more proposals.
pub proof fn lemma_steps_lift(f: WasmFeatures, g: WasmFeatures)
    requires
        f.subset_of(g),
    ensures
        step_lifts(type_step(), f, g),
        step_lifts(import_step(), f, g),
        step_lifts(function_step(), f, g),
        step_lifts(table_step(), f, g),
        step_lifts(memory_step(), f, g),
        step_lifts(tag_step(), f, g),
        step_lifts(global_step(), f, g),
        step_lifts(export_step(), f, g),
        step_lifts(element_step(), f, g),
        step_lifts(data_step(), f, g),
{
    assert forall|s: Spaces, e: Located<RecGroup>|
        s.module.features == f && (#[trigger] type_step()(s, e)) is Ok implies type_step()(
        s,
        e,
    )->Ok_0.module.features == f && type_step()(lift(s, g), e) == Ok::<Spaces, BinaryReaderError>(
        lift(type_step()(s, e)->Ok_0, g),
    ) by {
        lemma_types_monotone(s.module, g, s.types, e.item@, true);
    }
    assert forall|s: Spaces, e: Located<Import>|
        s.module.features == f && (#[trigger] import_step()(s, e)) is Ok implies import_step()(
        s,
        e,
    )->Ok_0.module.features == f && import_step()(lift(s, g), e) == Ok::<
        Spaces,
        BinaryReaderError,
    >(lift(import_step()(s, e)->Ok_0, g)) by {
        lemma_import_monotone(s.module, g, s.types.types, e.item.module@, e.item.name@, e.item.ty);
    }
    assert forall|s: Spaces, e: Located<u32>|
        s.module.features == f && (#[trigger] function_step()(s, e)) is Ok implies function_step()(
        s,
        e,
    )->Ok_0.module.features == f && function_step()(lift(s, g), e) == Ok::<
        Spaces,
        BinaryReaderError,
    >(lift(function_step()(s, e)->Ok_0, g)) by {}
    assert forall|s: Spaces, e: Located<Table>|
        s.module.features == f && (#[trigger] table_step()(s, e)) is Ok implies table_step()(
        s,
        e,
    )->Ok_0.module.features == f && table_step()(lift(s, g), e) == Ok::<
        Spaces,
        BinaryReaderError,
    >(lift(table_step()(s, e)->Ok_0, g)) by {
        lemma_table_monotone(s.module, g, s.types.types, &e.item, e.offset);
    }
    assert forall|s: Spaces, e: Located<MemoryType>|
        s.module.features == f && (#[trigger] memory_step()(s, e)) is Ok implies memory_step()(
        s,
        e,
    )->Ok_0.module.features == f && memory_step()(lift(s, g), e) == Ok::<
        Spaces,
        BinaryReaderError,
    >(lift(memory_step()(s, e)->Ok_0, g)) by {
        lemma_memory_monotone(s.module, g, e.item);
    }
    assert forall|s: Spaces, e: Located<TagType>|
        s.module.features == f && (#[trigger] tag_step()(s, e)) is Ok implies tag_step()(
        s,
        e,
    )->Ok_0.module.features == f && tag_step()(lift(s, g), e) == Ok::<Spaces, BinaryReaderError>(
        lift(tag_step()(s, e)->Ok_0, g),
    ) by {
        lemma_tag_monotone(s.module, g, s.types.types, e.item);
    }
    assert forall|s: Spaces, e: Located<Global>|
        s.module.features == f && (#[trigger] global_step()(s, e)) is Ok implies global_step()(
        s,
        e,
    )->Ok_0.module.features == f && global_step()(lift(s, g), e) == Ok::<
        Spaces,
        BinaryReaderError,
    >(lift(global_step()(s, e)->Ok_0, g)) by {
        lemma_global_monotone(s.module, g, s.types.types, &e.item, e.offset);
    }
    assert forall|s: Spaces, e: Located<Export>|
        s.module.features == f && (#[trigger] export_step()(s, e)) is Ok implies export_step()(
        s,
        e,
    )->Ok_0.module.features == f && export_step()(lift(s, g), e) == Ok::<
        Spaces,
        BinaryReaderError,
    >(lift(export_step()(s, e)->Ok_0, g)) by {
        lemma_export_monotone(s.module, g, s.types.types, &e.item);
    }
    assert forall|s: Spaces, e: Located<Element>|
        s.module.features == f && (#[trigger] element_step()(s, e)) is Ok implies element_step()(
        s,
        e,
    )->Ok_0.module.features == f && element_step()(lift(s, g), e) == Ok::<
        Spaces,
        BinaryReaderError,
    >(lift(element_step()(s, e)->Ok_0, g)) by {
        lemma_element_monotone(s.module, g, s.types.types, &e.item, e.offset);
    }
    assert forall|s: Spaces, e: Located<Data>|
        s.module.features == f && (#[trigger] data_step()(s, e)) is Ok implies data_step()(
        s,
        e,
    )->Ok_0.module.features == f && data_step()(lift(s, g), e) == Ok::<Spaces, BinaryReaderError>(
        lift(data_step()(s, e)->Ok_0, g),
    ) by {
        lemma_data_monotone(s.module, g, s.types.types, &e.item, e.offset);
    }
}

/// A section that is accepted stays accepted under more proposals.
pub proof fn lemma_section_lifts<T>(
    v: ValidatorView,
    g: WasmFeatures,
    order: crate::validator::Order,
    offset: usize,
    limit: Option<crate::error::Reason>,
    lifted_limit: Option<crate::error::Reason>,
    step: spec_fn(Spaces, T) -> Result<Spaces, BinaryReaderError>,
    items: Seq<T>,
)
    requires
        step_lifts(step, v.module.features, g),
        limit is None ==> lifted_limit is None,
        v.section(order, offset, limit, step, items) is Ok,
    ensures
        v.section(order, offset, limit, step, items)->Ok_0.module.features == v.module.features,
        lift_view(v, g).section(order, offset, lifted_limit, step, items) == Ok::<
            ValidatorView,
            BinaryReaderError,
        >(lift_view(v.section(order, offset, limit, step, items)->Ok_0, g)),
{
    let s = Spaces { module: v.module, types: v.types };
    lemma_fold_lifts(step, v.module.features, g, s, items);
    assert(lift(s, g) == Spaces { module: lift_view(v, g).module, types: lift_view(v, g).types });
}

/// A payload that is accepted under a set of
/// proposals is accepted under every larger set: the caller is asked the
/// same, and the validator goes on as it would have, but under the larger
/// set.
pub proof fn lemma_step_monotone(v: ValidatorView, g: WasmFeatures, payload: &Payload)
    requires
        v.module.features.subset_of(g),
        v.step(payload) is Ok,
    ensures
        v.step(payload)->Ok_0.0.module.features == v.module.features,
        lift_view(v, g).step(payload) == Ok::<(ValidatorView, Event), BinaryReaderError>(
            (lift_view(v.step(payload)->Ok_0.0, g), v.step(payload)->Ok_0.1),
        ),
{
    reveal(ValidatorView::step);
    let f = v.module.features;
    let w = lift_view(v, g);
    lemma_subset_has(f, g);
    lemma_steps_lift(f, g);
    match *payload {
        Payload::TypeSection { offset, groups } => {
            lemma_section_lifts(
                v,
                g,
                crate::validator::Order::Type,
                offset,
                crate::validator::count_reason(
                    v.module.types.len(),
                    groups@.len(),
                    crate::limits::MAX_WASM_TYPES,
                    crate::error::IndexSpace::Types,
                ),
                crate::validator::count_reason(
                    w.module.types.len(),
                    groups@.len(),
                    crate::limits::MAX_WASM_TYPES,
                    crate::error::IndexSpace::Types,
                ),
                type_step(),
                groups@,
            );
        },
        Payload::ImportSection { offset, imports } => {
            lemma_section_lifts(
                v,
                g,
                crate::validator::Order::Import,
                offset,
                crate::validator::count_reason(
                    v.module.imports.len(),
                    imports@.len(),
                    crate::limits::MAX_WASM_IMPORTS,
                    crate::error::IndexSpace::Imports,
                ),
                crate::validator::count_reason(
                    w.module.imports.len(),
                    imports@.len(),
                    crate::limits::MAX_WASM_IMPORTS,
                    crate::error::IndexSpace::Imports,
                ),
                import_step(),
                imports@,
            );
        },
        Payload::FunctionSection { offset, functions } => {
            lemma_section_lifts(
                v,
                g,
                crate::validator::Order::Function,
                offset,
                crate::validator::count_reason(
                    v.module.functions.len(),
                    functions@.len(),
                    crate::limits::MAX_WASM_FUNCTIONS,
                    crate::error::IndexSpace::Functions,
                ),
                crate::validator::count_reason(
                    w.module.functions.len(),
                    functions@.len(),
                    crate::limits::MAX_WASM_FUNCTIONS,
                    crate::error::IndexSpace::Functions,
                ),
                function_step(),
                functions@,
            );
        },
        Payload::TableSection { offset, tables } => {
            lemma_section_lifts(
                v,
                g,
                crate::validator::Order::Table,
                offset,
                crate::validator::count_reason(
                    v.module.tables.len(),
                    tables@.len(),
                    v.module.max_tables(),
                    crate::error::IndexSpace::Tables,
                ),
                crate::validator::count_reason(
                    w.module.tables.len(),
                    tables@.len(),
                    w.module.max_tables(),
                    crate::error::IndexSpace::Tables,
                ),
                table_step(),
                tables@,
            );
        },
        Payload::MemorySection { offset, memories } => {
            lemma_section_lifts(
                v,
                g,
                crate::validator::Order::Memory,
                offset,
                crate::validator::count_reason(
                    v.module.memories.len(),
                    memories@.len(),
                    v.module.max_memories(),
                    crate::error::IndexSpace::Memories,
                ),
                crate::validator::count_reason(
                    w.module.memories.len(),
                    memories@.len(),
                    w.module.max_memories(),
                    crate::error::IndexSpace::Memories,
                ),
                memory_step(),
                memories@,
            );
        },
        Payload::TagSection { offset, tags } => {
            let limit = if !v.module.features.has(Feature::Exceptions) {
                Some(crate::error::Reason::Disabled(Feature::Exceptions))
            } else {
                crate::validator::count_reason(
                    v.module.tags.len(),
                    tags@.len(),
                    crate::limits::MAX_WASM_TAGS,
                    crate::error::IndexSpace::Tags,
                )
            };
            let lifted_limit = if !w.module.features.has(Feature::Exceptions) {
                Some(crate::error::Reason::Disabled(Feature::Exceptions))
            } else {
                crate::validator::count_reason(
                    w.module.tags.len(),
                    tags@.len(),
                    crate::limits::MAX_WASM_TAGS,
                    crate::error::IndexSpace::Tags,
                )
            };
            lemma_section_lifts(
                v,
                g,
                crate::validator::Order::Tag,
                offset,
                limit,
                lifted_limit,
                tag_step(),
                tags@,
            );
        },
        Payload::GlobalSection { offset, globals } => {
            lemma_section_lifts(
                v,
                g,
                crate::validator::Order::Global,
                offset,
                crate::validator::count_reason(
                    v.module.globals.len(),
                    globals@.len(),
                    crate::limits::MAX_WASM_GLOBALS,
                    crate::error::IndexSpace::Globals,
                ),
                crate::validator::count_reason(
                    w.module.globals.len(),
                    globals@.len(),
                    crate::limits::MAX_WASM_GLOBALS,
                    crate::error::IndexSpace::Globals,
                ),
                global_step(),
                globals@,
            );
        },
        Payload::ExportSection { offset, exports } => {
            lemma_section_lifts(
                v,
                g,
                crate::validator::Order::Export,
                offset,
                crate::validator::count_reason(
                    v.module.exports.len(),
                    exports@.len(),
                    crate::limits::MAX_WASM_EXPORTS,
                    crate::error::IndexSpace::Exports,
                ),
                crate::validator::count_reason(
                    w.module.exports.len(),
                    exports@.len(),
                    crate::limits::MAX_WASM_EXPORTS,
                    crate::error::IndexSpace::Exports,
                ),
                export_step(),
                exports@,
            );
        },
        Payload::ElementSection { offset, elements } => {
            lemma_section_lifts(
                v,
                g,
                crate::validator::Order::Element,
                offset,
                crate::validator::count_reason(
                    v.module.element_types.len(),
                    elements@.len(),
                    crate::limits::MAX_WASM_ELEMENT_SEGMENTS,
                    crate::error::IndexSpace::ElementSegments,
                ),
                crate::validator::count_reason(
                    w.module.element_types.len(),
                    elements@.len(),
                    crate::limits::MAX_WASM_ELEMENT_SEGMENTS,
                    crate::error::IndexSpace::ElementSegments,
                ),
                element_step(),
                elements@,
            );
        },
        Payload::DataSection { offset, data } => {
            lemma_section_lifts(
                v,
                g,
                crate::validator::Order::Data,
                offset,
                v.data_limit(data@.len()),
                w.data_limit(data@.len()),
                data_step(),
                data@,
            );
        },
        _ => {},
    }
}

/// Payloads that are accepted one after the other under a set of proposals
/// are accepted under every larger set.
pub proof fn lemma_run_monotone(v: ValidatorView, g: WasmFeatures, payloads: Seq<Payload>)
    requires
        v.module.features.subset_of(g),
        v.run(payloads) is Ok,
    ensures
        lift_view(v, g).run(payloads) == Ok::<ValidatorView, BinaryReaderError>(
            lift_view(v.run(payloads)->Ok_0, g),
        ),
    decreases payloads.len(),
{
    if payloads.len() > 0 {
        lemma_step_monotone(v, g, &payloads[0]);
        lemma_run_monotone(v.step(&payloads[0])->Ok_0.0, g, payloads.drop_first());
    }
}

/// A module that is accepted under a set of proposals
/// is accepted under every larger set.
pub proof fn lemma_monotone_features(f: WasmFeatures, g: WasmFeatures, payloads: Seq<Payload>)
    requires
        f.subset_of(g),
        crate::validator::validates(f, payloads),
    ensures
        crate::validator::validates(g, payloads),
{
    let v = ValidatorView::initial(f);
    lemma_run_monotone(v, g, payloads);
    assert(lift_view(v, g) == ValidatorView::initial(g));
}

/// Declarations of locals that are accepted stay accepted under more
/// proposals.
pub proof fn lemma_locals_monotone(
    m: ModuleView,
    g: WasmFeatures,
    s: Seq<u8>,
    pos: usize,
    groups: nat,
    total: u32,
    offset: usize,
)
    requires
        m.features.subset_of(g),
        crate::body::locals_at(m, s, pos, groups, total, offset) is Ok,
    ensures
        crate::body::locals_at(with_features(m, g), s, pos, groups, total, offset)
            == crate::body::locals_at(m, s, pos, groups, total, offset),
    decreases groups,
{
    if groups > 0 {
        let count = crate::reader::var_u32(s, pos)->Ok_0.0;
        let next = crate::reader::var_u32(s, pos)->Ok_0.1;
        let ty = crate::decode_types::val_type_at(s, next)->Ok_0.0;
        let end = crate::decode_types::val_type_at(s, next)->Ok_0.1;
        lemma_module_value_type_monotone(m, g, ty);
        lemma_locals_monotone(m, g, s, end, (groups - 1) as nat, (total + count) as u32, offset);
    }
}

/// A binary that is accepted under a set of proposals is accepted under every
/// larger set.
pub proof fn lemma_verdict_monotone(f: WasmFeatures, g: WasmFeatures, s: Seq<u8>)
    requires
        f.subset_of(g),
        crate::driver::module_verdict(f, s) is Ok,
    ensures
        crate::driver::module_verdict(g, s) is Ok,
{
    let payloads = crate::driver::payloads_of(s);
    let start = ValidatorView::initial(f);
    lemma_run_monotone(start, g, payloads);
    assert(lift_view(start, g) == ValidatorView::initial(g));
    let v = start.run(payloads)->Ok_0;
    let w = ValidatorView::initial(g).run(payloads)->Ok_0;
    assert(w.module == with_features(v.module, g));
    lemma_run_features(start, payloads);
    let before = crate::driver::body_outcomes(v.module, payloads);
    let after = crate::driver::body_outcomes(w.module, payloads);
    crate::schedule::lemma_lowest_is_first(before);
    crate::schedule::lemma_lowest_is_first(after);
    assert forall|k: int| 0 <= k < after.len() implies (#[trigger] after[k]).error is None by {
        assert(before[k].error is None);
        let body = crate::driver::bodies(payloads)[k];
        let offset = crate::driver::body_offset(crate::driver::body_offsets(payloads)[k], body);
        let groups = crate::reader::var_u32(body, 0)->Ok_0.0;
        let first = crate::reader::var_u32(body, 0)->Ok_0.1;
        lemma_locals_monotone(v.module, g, body, first, groups as nat, 0, offset);
    }
    if crate::schedule::lowest_failure(after) is Some {
        let o = crate::schedule::lowest_failure(after)->0;
        let i = choose|i: int| 0 <= i < after.len() && #[trigger] after[i] == o;
        assert(after[i].error is None);
    }
}

/// Accepted payloads leave the set of proposals as it is.
pub proof fn lemma_run_features(v: ValidatorView, payloads: Seq<Payload>)
    requires
        v.run(payloads) is Ok,
    ensures
        v.run(payloads)->Ok_0.module.features == v.module.features,
    decreases payloads.len(),
{
    if payloads.len() > 0 {
        lemma_subset_self(v.module.features);
        lemma_step_monotone(v, v.module.features, &payloads[0]);
        lemma_run_features(v.step(&payloads[0])->Ok_0.0, payloads.drop_first());
    }
}

/// Every set of proposals includes itself.
pub proof fn lemma_subset_self(f: WasmFeatures)
    ensures
        f.subset_of(f),
{
    let bits = f.bits;
    assert(bits & bits == bits) by (bit_vector);
}

} // verus!
