//! Every module that is accepted is in order.
//!
//! Whatever payloads the validator accepts, the module it has built is in
//! order after each of them: every index that it holds is in range of the
//! space it points into, no name is exported twice, and the accumulated
//! type size is under its ceiling.

use vstd::prelude::*;
use crate::adds::{import_index, record_import};
use crate::checks::{
    lemma_entity_of_closed, lemma_resolved_heap_closed, lemma_resolved_value_closed,
};
use crate::const_expr::{const_context, lemma_accepted_refs_exist, referenced_functions};
use crate::elements::{all_referenced, item_functions};
use crate::error::BinaryReaderError;
use crate::features::WasmFeatures;
use crate::intern::{lemma_append_keeps_order, lemma_find_group};
use crate::module::{ModuleView, lemma_wf_store_grows};
use crate::payload::{
    Data, Element, ElementItems, ElementKind, Export, Global, Import, Table, TableInit,
};
use crate::sequence::lemma_first_some_none;
use crate::type_list::TypeListView;
use crate::types::{
    EntityType, MemoryType, RecGroup, RefType, SubTypeView, TagType, TypeRef, ValType,
};
use crate::validator::{
    Located, Payload, Spaces, ValidatorView, data_step, element_step, export_step, fold_entries,
    function_step, global_step, import_step, memory_step, table_step, tag_step, type_step,
};

verus! {

/// Whether the type list is in order and the module is in order against it.
pub open spec fn in_order(s: Spaces) -> bool {
    s.types.wf() && s.module.wf(s.types.types)
}

/// Whether an entry that is accepted leaves the index spaces in order.
pub open spec fn keeps_order<T>(step: spec_fn(Spaces, T) -> Result<Spaces, BinaryReaderError>)
    -> bool {
    forall|s: Spaces, e: T| in_order(s) && (#[trigger] step(s, e)) is Ok ==> in_order(
            step(s, e)->Ok_0,
        )
}

/// Entries that keep the index spaces in order do so one after the other.
pub proof fn lemma_fold_keeps_order<T>(
    step: spec_fn(Spaces, T) -> Result<Spaces, BinaryReaderError>,
    s: Spaces,
    items: Seq<T>,
)
    requires
        keeps_order(step),
        in_order(s),
        fold_entries(step, s, items) is Ok,
    ensures
        in_order(fold_entries(step, s, items)->Ok_0),
    decreases items.len(),
{
    if items.len() > 0 {
        assert(step(s, items[0]) is Ok);
        lemma_fold_keeps_order(step, step(s, items[0])->Ok_0, items.drop_first());
    }
}

/// The imports stay one entry for each pair of names when an import is
/// recorded.
pub proof fn lemma_record_import_unique(
    m: ModuleView,
    module: Seq<char>,
    name: Seq<char>,
    entity: EntityType,
)
    requires
        m.imports_unique(),
    ensures
        (ModuleView { imports: record_import(m.imports, module, name, entity), ..m }).imports_unique(),
{
    let before = m.imports;
    let after = record_import(before, module, name, entity);
    assert forall|a: int, b: int| 0 <= a < b < after.len() implies !((#[trigger] after[a]).module
        == (#[trigger] after[b]).module && after[a].name == after[b].name) by {
        match import_index(before, module, name) {
            Some(i) => {
                assert(before[i].module == module && before[i].name == name);
                assert(after[a].module == before[a].module && after[a].name == before[a].name);
                assert(after[b].module == before[b].module && after[b].name == before[b].name);
            },
            None => {
                assert(after[a] == before[a]);
                if b < before.len() {
                    assert(after[b] == before[b]);
                } else {
                    assert(!(before[a].module == module && before[a].name == name));
                }
            },
        }
    }
}

/// The size of the type of an entity that refers to nothing outside a type
/// list in order is small.
pub proof fn lemma_entity_size(list: TypeListView, entity: EntityType)
    requires
        list.wf(),
        crate::module::entity_closed(list.types, entity),
    ensures
        crate::module::entity_size(list.types, entity) <= 20002,
{
    match entity {
        EntityType::Func(id) => {
            assert(crate::type_list::stored_type_ok(list.types, id.index as int));
        },
        EntityType::Tag(id) => {
            assert(crate::type_list::stored_type_ok(list.types, id.index as int));
        },
        _ => {},
    }
}

/// An accepted recursion group leaves the type list and the module in
/// order.
pub proof fn lemma_types_keep_order(
    m: ModuleView,
    list: TypeListView,
    group: Seq<SubTypeView>,
    check_limit: bool,
)
    requires
        list.wf(),
        m.wf(list.types),
        m.add_types_reason(list, group, check_limit) is None,
    ensures
        list.with_group(m.canon_group(group)).wf(),
        m.with_types(list, group).wf(list.with_group(m.canon_group(group)).types),
{
    let canon = m.canon_group(group);
    let after = list.with_group(canon);
    let start = list.interned_start(canon);
    lemma_find_group(list, canon, 0);
    match list.find_group(canon, 0) {
        Some(g) => {
            assert(list.group_matches(g, canon));
            assert(list.starts[g] + list.group_len(g) <= list.types.len());
        },
        None => {
            lemma_append_keeps_order(list, canon);
        },
    }
    lemma_wf_store_grows(m, list.types, after.types);
    let grown = m.with_types(list, group);
    assert forall|i: int| 0 <= i < grown.types.len() implies (#[trigger] grown.types[i]).index
        < after.types.len() by {
        if i < m.types.len() {
            assert(grown.types[i] == m.types[i]);
        }
    }
    assert forall|i: int| 0 <= i < grown.functions.len() implies {
        &&& (#[trigger] grown.functions[i]) < grown.types.len()
        &&& crate::module::is_func_type(after.types, grown.types[grown.functions[i] as int])
    } by {
        assert(grown.types[m.functions[i] as int] == m.types[m.functions[i] as int]);
    }
}

/// An accepted import leaves the module in order.
pub proof fn lemma_import_keeps_order(
    m: ModuleView,
    list: TypeListView,
    module: Seq<char>,
    name: Seq<char>,
    ty: TypeRef,
)
    requires
        list.wf(),
        m.wf(list.types),
        m.import_reason(list.types, ty) is None,
    ensures
        m.with_import(list.types, module, name, ty).wf(list.types),
{
    let store = list.types;
    lemma_entity_of_closed(m, store, ty);
    lemma_entity_size(list, m.entity_of(ty));
    lemma_record_import_unique(m, module, name, m.entity_of(ty));
    let grown = m.with_import(store, module, name, ty);
    assert(grown.exports == m.exports);
    assert(grown.imports == record_import(m.imports, module, name, m.entity_of(ty)));
    assert(grown.imports_unique());
    match ty {
        TypeRef::Func(idx) => {
            assert forall|i: int| 0 <= i < grown.functions.len() implies {
                &&& (#[trigger] grown.functions[i]) < grown.types.len()
                &&& crate::module::is_func_type(store, grown.types[grown.functions[i] as int])
            } by {
                if i < m.functions.len() {
                    assert(grown.functions[i] == m.functions[i]);
                }
            }
        },
        TypeRef::Table(t) => {
            assert forall|i: int| 0 <= i < grown.tables.len() implies crate::type_list::heap_type_closed(
                store.len(),
                (#[trigger] grown.tables[i]).element_type.heap_type,
            ) by {
                if i < m.tables.len() {
                    assert(grown.tables[i] == m.tables[i]);
                }
            }
        },
        TypeRef::Memory(_) => {},
        TypeRef::Tag(t) => {
            assert forall|i: int| 0 <= i < grown.tags.len() implies crate::module::is_func_type(
                store,
                #[trigger] grown.tags[i],
            ) by {
                if i < m.tags.len() {
                    assert(grown.tags[i] == m.tags[i]);
                }
            }
        },
        TypeRef::Global(g) => {
            assert forall|i: int| 0 <= i < grown.globals.len() implies crate::type_list::val_type_closed(
                store.len(),
                (#[trigger] grown.globals[i]).content_type,
            ) by {
                if i < m.globals.len() {
                    assert(grown.globals[i] == m.globals[i]);
                }
            }
        },
    }
}

/// An accepted global leaves the module in order.
pub proof fn lemma_global_keeps_order(
    m: ModuleView,
    store: Seq<SubTypeView>,
    global: &Global,
    offset: usize,
)
    requires
        m.wf(store),
        m.global_error(store, global, offset) is None,
    ensures
        m.with_global(global).wf(store),
{
    lemma_resolved_value_closed(m, store, global.ty.content_type);
    lemma_accepted_refs_exist(
        const_context(m, store, true),
        m.resolve_value_type(global.ty.content_type),
        global.init_expr.offset,
        global.init_expr@,
    );
    let grown = m.with_global(global);
    assert forall|i: int| 0 <= i < grown.globals.len() implies crate::type_list::val_type_closed(
        store.len(),
        (#[trigger] grown.globals[i]).content_type,
    ) by {
        if i < m.globals.len() {
            assert(grown.globals[i] == m.globals[i]);
        }
    }
}

/// An accepted table leaves the module in order.
pub proof fn lemma_table_keeps_order(
    m: ModuleView,
    store: Seq<SubTypeView>,
    table: &Table,
    offset: usize,
)
    requires
        m.wf(store),
        m.table_error(store, table, offset) is None,
    ensures
        m.with_table(table).wf(store),
{
    if table.ty.element_type != RefType::spec_funcref() {
        lemma_resolved_heap_closed(m, store, table.ty.element_type.heap_type);
    }
    match table.init {
        TableInit::RefNull => {},
        TableInit::Expr(expr) => {
            lemma_accepted_refs_exist(
                const_context(m, store, true),
                ValType::Ref(m.resolve_ref_type(table.ty.element_type)),
                expr.offset,
                expr@,
            );
        },
    }
    let grown = m.with_table(table);
    assert forall|i: int| 0 <= i < grown.tables.len() implies crate::type_list::heap_type_closed(
        store.len(),
        (#[trigger] grown.tables[i]).element_type.heap_type,
    ) by {
        if i < m.tables.len() {
            assert(grown.tables[i] == m.tables[i]);
        }
    }
}

/// An accepted export leaves the module in order.
pub proof fn lemma_export_keeps_order(m: ModuleView, list: TypeListView, e: &Export)
    requires
        list.wf(),
        m.wf(list.types),
        m.export_reason(e.kind, e.index) is None,
        m.with_exported(e.kind, e.index).add_export_reason(
            list.types,
            e.name@,
            m.export_entity(e.kind, e.index),
            false,
        ) is None,
    ensures
        m.with_exported(e.kind, e.index).with_export(
            list.types,
            e.name@,
            m.export_entity(e.kind, e.index),
        ).wf(list.types),
{
    let store = list.types;
    lemma_entity_size(list, m.export_entity(e.kind, e.index));
    let looked_up = m.with_exported(e.kind, e.index);
    let grown = looked_up.with_export(store, e.name@, m.export_entity(e.kind, e.index));
    assert(looked_up.exports == m.exports);
    assert forall|a: int, b: int| 0 <= a < b < grown.exports.len() implies (
    #[trigger] grown.exports[a]).name != (#[trigger] grown.exports[b]).name by {
        assert(grown.exports[a] == m.exports[a]);
        if b < m.exports.len() {
            assert(grown.exports[b] == m.exports[b]);
        }
    }
}

/// An accepted element segment leaves the module in order.
pub proof fn lemma_element_keeps_order(
    m: ModuleView,
    store: Seq<SubTypeView>,
    e: &Element,
    offset: usize,
)
    requires
        m.wf(store),
        m.element_error(store, e, offset) is None,
    ensures
        m.with_element(e).wf(store),
{
    let element_ty = m.resolve_ref_type(ModuleView::stated_element_type(e));
    match e.items {
        ElementItems::Functions(items) => {
            let checks = Seq::new(items@.len(), |i: int| m.func_item_error(items@[i]));
            lemma_first_some_none(checks);
            assert forall|f: u32| item_functions(items@).contains(f) implies f
                < m.functions.len() by {
                let i = choose|i: int| 0 <= i < items@.len() && (#[trigger] items@[i]).index == f;
                assert(checks[i] is None);
            }
        },
        ElementItems::Expressions(ty, exprs) => {
            lemma_resolved_heap_closed(m, store, ty.heap_type);
            let checks = Seq::new(
                exprs@.len(),
                |i: int| m.const_expr_error(store, &exprs@[i], ValType::Ref(element_ty), true),
            );
            lemma_first_some_none(checks);
            assert forall|f: u32| all_referenced(exprs@).contains(f) implies f
                < m.functions.len() by {
                let i = choose|i: int|
                    0 <= i < exprs@.len() && referenced_functions((#[trigger] exprs@[i])@).contains(
                        f,
                    );
                assert(checks[i] is None);
                lemma_accepted_refs_exist(
                    const_context(m, store, true),
                    ValType::Ref(element_ty),
                    exprs@[i].offset,
                    exprs@[i]@,
                );
            }
        },
    }
    match e.kind {
        ElementKind::Active { table_index, offset_expr } => {
            let index = match table_index {
                Some(i) => i,
                None => 0,
            };
            lemma_accepted_refs_exist(
                const_context(m, store, true),
                m.tables[index as int].spec_index_type(),
                offset_expr.offset,
                offset_expr@,
            );
        },
        _ => {},
    }
    let grown = m.with_element(e);
    assert forall|i: int|
        0 <= i < grown.element_types.len() implies crate::type_list::heap_type_closed(
        store.len(),
        (#[trigger] grown.element_types[i]).heap_type,
    ) by {
        if i < m.element_types.len() {
            assert(grown.element_types[i] == m.element_types[i]);
        }
    }
}

/// Every kind of entry that is accepted leaves the index spaces in order.
pub proof fn lemma_steps_keep_order()
    ensures
        keeps_order(type_step()),
        keeps_order(import_step()),
        keeps_order(function_step()),
        keeps_order(table_step()),
        keeps_order(memory_step()),
        keeps_order(tag_step()),
        keeps_order(global_step()),
        keeps_order(export_step()),
        keeps_order(element_step()),
        keeps_order(data_step()),
{
    assert forall|s: Spaces, e: Located<RecGroup>|
        in_order(s) && (#[trigger] type_step()(s, e)) is Ok implies in_order(
        type_step()(s, e)->Ok_0,
    ) by {
        lemma_types_keep_order(s.module, s.types, e.item@, true);
    }
    assert forall|s: Spaces, e: Located<Import>|
        in_order(s) && (#[trigger] import_step()(s, e)) is Ok implies in_order(
        import_step()(s, e)->Ok_0,
    ) by {
        lemma_import_keeps_order(s.module, s.types, e.item.module@, e.item.name@, e.item.ty);
    }
    assert forall|s: Spaces, e: Located<u32>|
        in_order(s) && (#[trigger] function_step()(s, e)) is Ok implies in_order(
        function_step()(s, e)->Ok_0,
    ) by {
        let grown = s.module.with_function(e.item);
        assert forall|i: int| 0 <= i < grown.functions.len() implies {
            &&& (#[trigger] grown.functions[i]) < grown.types.len()
            &&& crate::module::is_func_type(s.types.types, grown.types[grown.functions[i] as int])
        } by {
            if i < s.module.functions.len() {
                assert(grown.functions[i] == s.module.functions[i]);
            }
        }
    }
    assert forall|s: Spaces, e: Located<Table>|
        in_order(s) && (#[trigger] table_step()(s, e)) is Ok implies in_order(
        table_step()(s, e)->Ok_0,
    ) by {
        lemma_table_keeps_order(s.module, s.types.types, &e.item, e.offset);
    }
    assert forall|s: Spaces, e: Located<MemoryType>|
        in_order(s) && (#[trigger] memory_step()(s, e)) is Ok implies in_order(
        memory_step()(s, e)->Ok_0,
    ) by {}
    assert forall|s: Spaces, e: Located<TagType>|
        in_order(s) && (#[trigger] tag_step()(s, e)) is Ok implies in_order(
        tag_step()(s, e)->Ok_0,
    ) by {
        let grown = s.module.with_tag(e.item);
        assert forall|i: int| 0 <= i < grown.tags.len() implies crate::module::is_func_type(
            s.types.types,
            #[trigger] grown.tags[i],
        ) by {
            if i < s.module.tags.len() {
                assert(grown.tags[i] == s.module.tags[i]);
            }
        }
    }
    assert forall|s: Spaces, e: Located<Global>|
        in_order(s) && (#[trigger] global_step()(s, e)) is Ok implies in_order(
        global_step()(s, e)->Ok_0,
    ) by {
        lemma_global_keeps_order(s.module, s.types.types, &e.item, e.offset);
    }
    assert forall|s: Spaces, e: Located<Export>|
        in_order(s) && (#[trigger] export_step()(s, e)) is Ok implies in_order(
        export_step()(s, e)->Ok_0,
    ) by {
        lemma_export_keeps_order(s.module, s.types, &e.item);
    }
    assert forall|s: Spaces, e: Located<Element>|
        in_order(s) && (#[trigger] element_step()(s, e)) is Ok implies in_order(
        element_step()(s, e)->Ok_0,
    ) by {
        lemma_element_keeps_order(s.module, s.types.types, &e.item, e.offset);
    }
    assert forall|s: Spaces, e: Located<Data>|
        in_order(s) && (#[trigger] data_step()(s, e)) is Ok implies in_order(
        data_step()(s, e)->Ok_0,
    ) by {}
}

/// A payload that is accepted leaves the module in order: every index in it
/// is in range of its space, no name is exported twice, and the accumulated
/// type size is under its ceiling.
pub proof fn lemma_step_keeps_order(v: ValidatorView, payload: &Payload)
    requires
        in_order(Spaces { module: v.module, types: v.types }),
        v.step(payload) is Ok,
    ensures
        in_order(
            Spaces {
                module: v.step(payload)->Ok_0.0.module,
                types: v.step(payload)->Ok_0.0.types,
            },
        ),
{
    reveal(ValidatorView::step);
    lemma_steps_keep_order();
    let s = Spaces { module: v.module, types: v.types };
    match *payload {
        Payload::TypeSection { offset, groups } => {
            lemma_fold_keeps_order(type_step(), s, groups@);
        },
        Payload::ImportSection { offset, imports } => {
            lemma_fold_keeps_order(import_step(), s, imports@);
        },
        Payload::FunctionSection { offset, functions } => {
            lemma_fold_keeps_order(function_step(), s, functions@);
        },
        Payload::TableSection { offset, tables } => {
            lemma_fold_keeps_order(table_step(), s, tables@);
        },
        Payload::MemorySection { offset, memories } => {
            lemma_fold_keeps_order(memory_step(), s, memories@);
        },
        Payload::TagSection { offset, tags } => {
            lemma_fold_keeps_order(tag_step(), s, tags@);
        },
        Payload::GlobalSection { offset, globals } => {
            lemma_fold_keeps_order(global_step(), s, globals@);
        },
        Payload::ExportSection { offset, exports } => {
            lemma_fold_keeps_order(export_step(), s, exports@);
        },
        Payload::ElementSection { offset, elements } => {
            lemma_fold_keeps_order(element_step(), s, elements@);
        },
        Payload::DataSection { offset, data } => {
            lemma_fold_keeps_order(data_step(), s, data@);
        },
        _ => {},
    }
}

/// The module is in order after every sequence of payloads that is accepted
/// from the start: every index in it is in range of its space, no name is
/// exported twice, and the accumulated type size is under its ceiling.
pub proof fn lemma_accepted_module_in_order(features: WasmFeatures, payloads: Seq<Payload>)
    requires
        ValidatorView::initial(features).run(payloads) is Ok,
    ensures
        ({
            let v = ValidatorView::initial(features).run(payloads)->Ok_0;
            in_order(Spaces { module: v.module, types: v.types })
        }),
{
    let start = ValidatorView::initial(features);
    assert(start.types.wf());
    assert(start.module.wf(start.types.types));
    lemma_run_keeps_order(start, payloads);
}

/// Payloads that are accepted one after the other leave the module in
/// order.
pub proof fn lemma_run_keeps_order(v: ValidatorView, payloads: Seq<Payload>)
    requires
        in_order(Spaces { module: v.module, types: v.types }),
        v.run(payloads) is Ok,
    ensures
        in_order(
            Spaces { module: v.run(payloads)->Ok_0.module, types: v.run(payloads)->Ok_0.types },
        ),
    decreases payloads.len(),
{
    if payloads.len() > 0 {
        lemma_step_keeps_order(v, &payloads[0]);
        lemma_run_keeps_order(v.step(&payloads[0])->Ok_0.0, payloads.drop_first());
    }
}

} // verus!
