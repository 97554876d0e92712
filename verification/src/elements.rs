//! Element segments.

use vstd::prelude::*;
use crate::const_expr::{const_context, lemma_accepted_refs_exist, outcome, referenced_functions};
use crate::error::{BinaryReaderError, IndexSpace, Reason};
use crate::features::Feature;
use crate::limits::MAX_WASM_TABLE_ENTRIES;
use crate::module::{Module, ModuleView};
use crate::operators::ConstExpr;
use crate::payload::{Element, ElementItems, ElementKind, FuncItem};
use crate::sequence::{first_some, lemma_first_some_found, lemma_first_some_none};
use crate::state::ModuleState;
use crate::type_list::{TypeList, ref_is_subtype};
use crate::types::{RefType, SubTypeView, TableType, ValType};

verus! {

/// The functions that the entries of an element segment name.
pub open spec fn item_functions(items: Seq<FuncItem>) -> Set<u32> {
    Set::new(|f: u32| exists|i: int| 0 <= i < items.len() && (#[trigger] items[i]).index == f)
}

/// The functions that a sequence of initializers refers to.
pub open spec fn all_referenced(exprs: Seq<ConstExpr>) -> Set<u32> {
    Set::new(
        |f: u32|
            exists|i: int|
                0 <= i < exprs.len() && referenced_functions((#[trigger] exprs[i])@).contains(f),
    )
}

/// The functions that the offset of an active element segment refers to.
pub open spec fn offset_references(e: &Element) -> Set<u32> {
    match e.kind {
        ElementKind::Active { offset_expr, .. } => referenced_functions(offset_expr@),
        _ => Set::empty(),
    }
}

/// The functions that an element segment refers to: in the offset of an
/// active segment, and in its entries.
pub open spec fn element_references(e: &Element) -> Set<u32> {
    let in_offset = offset_references(e);
    let in_items = match e.items {
        ElementItems::Functions(items) => item_functions(items@),
        ElementItems::Expressions(_, exprs) => all_referenced(exprs@),
    };
    in_offset.union(in_items)
}

/// The number of entries of an element segment.
pub open spec fn element_count(e: &Element) -> nat {
    match e.items {
        ElementItems::Functions(items) => items@.len(),
        ElementItems::Expressions(_, exprs) => exprs@.len(),
    }
}

impl ModuleView {
    /// The element type of a segment as the input states it: `funcref` where
    /// the entries are indices of functions.
    pub open spec fn stated_element_type(e: &Element) -> RefType {
        match e.items {
            ElementItems::Functions(_) => RefType::spec_funcref(),
            ElementItems::Expressions(ty, _) => ty,
        }
    }

    /// Why the element type of a segment is refused, if it is. `funcref`
    /// for indices of functions needs no check.
    pub open spec fn segment_type_reason(self, e: &Element) -> Option<Reason> {
        match e.items {
            ElementItems::Functions(_) => None,
            ElementItems::Expressions(ty, _) => self.ref_type_reason(ty),
        }
    }

    /// The first failure in the mode of an element segment with the element
    /// type `element_ty`. An active segment needs its table, the element type
    /// must fit the table's, and the offset must be a value of the table's
    /// index type. Other segments need bulk memory.
    pub open spec fn element_kind_error(
        self,
        store: Seq<SubTypeView>,
        e: &Element,
        element_ty: RefType,
        offset: usize,
    ) -> Option<BinaryReaderError> {
        match e.kind {
            ElementKind::Active { table_index, offset_expr } => {
                let index = match table_index {
                    Some(i) => i,
                    None => 0,
                };
                if index >= self.tables.len() {
                    Some(
                        BinaryReaderError {
                            reason: Reason::Unknown { space: IndexSpace::Tables, index },
                            offset,
                        },
                    )
                } else if !ref_is_subtype(store, element_ty, self.tables[index as int].element_type) {
                    Some(BinaryReaderError { reason: Reason::ElementTypeMismatch, offset })
                } else {
                    self.const_expr_error(
                        store,
                        &offset_expr,
                        self.tables[index as int].spec_index_type(),
                        true,
                    )
                }
            },
            _ => if self.features.has(Feature::BulkMemory) {
                None
            } else {
                Some(BinaryReaderError { reason: Reason::Disabled(Feature::BulkMemory), offset })
            },
        }
    }

    /// The failure of an entry that names a function, if it names none.
    pub open spec fn func_item_error(self, item: FuncItem) -> Option<BinaryReaderError> {
        if item.index >= self.functions.len() {
            Some(
                BinaryReaderError {
                    reason: Reason::Unknown { space: IndexSpace::Functions, index: item.index },
                    offset: item.offset,
                },
            )
        } else {
            None
        }
    }

    /// The first failure among the entries of an element segment with the
    /// element type `element_ty`: there are too many, or the first entry that
    /// names no function or does not give a value of the element type.
    pub open spec fn element_items_error(
        self,
        store: Seq<SubTypeView>,
        e: &Element,
        element_ty: RefType,
        offset: usize,
    ) -> Option<BinaryReaderError> {
        if element_count(e) > MAX_WASM_TABLE_ENTRIES {
            Some(BinaryReaderError { reason: Reason::TooManyElements, offset })
        } else {
            match e.items {
                ElementItems::Functions(items) => first_some(
                    Seq::new(items@.len(), |i: int| self.func_item_error(items@[i])),
                ),
                ElementItems::Expressions(_, exprs) => first_some(
                    Seq::new(
                        exprs@.len(),
                        |i: int|
                            self.const_expr_error(
                                store,
                                &exprs@[i],
                                ValType::Ref(element_ty),
                                true,
                            ),
                    ),
                ),
            }
        }
    }

    /// The first failure of an element segment; `None` where it is accepted.
    /// Its element type is checked first, then its mode, then its entries.
    pub open spec fn element_error(self, store: Seq<SubTypeView>, e: &Element, offset: usize)
        -> Option<BinaryReaderError> {
        let element_ty = self.resolve_ref_type(Self::stated_element_type(e));
        match self.segment_type_reason(e) {
            Some(reason) => Some(BinaryReaderError { reason, offset }),
            None => match self.element_kind_error(store, e, element_ty, offset) {
                Some(error) => Some(error),
                None => self.element_items_error(store, e, element_ty, offset),
            },
        }
    }

    /// The module after an accepted element segment: its element type is
    /// added, and the functions it refers to are recorded.
    pub open spec fn with_element(self, e: &Element) -> ModuleView {
        ModuleView {
            element_types: self.element_types.push(
                self.resolve_ref_type(Self::stated_element_type(e)),
            ),
            function_references: self.function_references.union(element_references(e)),
            ..self
        }
    }
}

impl Module {
    /// Records the functions that the entries of an element segment name.
    pub fn record_functions(&mut self, items: &Vec<FuncItem>)
        requires
            forall|i: int|
                0 <= i < items@.len() ==> (#[trigger] items@[i]).index < old(self)@.functions.len(),
        ensures
            final(self)@ == old(self)@.with_references(item_functions(items@)),
            forall|store: Seq<SubTypeView>| old(self)@.wf(store) ==> final(self)@.wf(store),
    {
        let ghost before = self@;
        let mut i: usize = 0;
        assert(item_functions(items@.take(0)) =~= Set::<u32>::empty());
        assert(before.function_references.union(Set::<u32>::empty())
            =~= before.function_references);
        while i < items.len()
            invariant
                i <= items.len(),
                self@ == before.with_references(item_functions(items@.take(i as int))),
            decreases items.len() - i,
        {
            let ghost done = item_functions(items@.take(i as int));
            let ghost next = item_functions(items@.take(i + 1));
            let f: u32 = items[i].index;
            assert(items@.take(i + 1)[i as int] == items@[i as int]);
            assert forall|g: u32| done.contains(g) implies next.contains(g) by {
                let k = choose|k: int|
                    0 <= k < items@.take(i as int).len() && (#[trigger] items@.take(
                        i as int,
                    )[k]).index == g;
                assert(items@.take(i + 1)[k].index == g);
            }
            assert forall|g: u32| next.contains(g) implies done.contains(g) || g == f by {
                let k = choose|k: int|
                    0 <= k < items@.take(i + 1).len() && (#[trigger] items@.take(i + 1)[k]).index
                        == g;
                if k < i {
                    assert(items@.take(i as int)[k].index == g);
                }
            }
            self.function_references.insert(f);
            assert(next =~= done.insert(f));
            assert(before.function_references.union(done).insert(f)
                =~= before.function_references.union(next));
            i += 1;
        }
        assert(items@.take(i as int) =~= items@);
        assert forall|store: Seq<SubTypeView>| before.wf(store) implies self@.wf(store) by {
            assert forall|g: u32| #[trigger]
                self@.function_references.contains(g) implies g < self@.functions.len() by {
                if !before.function_references.contains(g) {
                    let k = choose|k: int| 0 <= k < items@.len() && (#[trigger] items@[k]).index == g;
                    assert(items@[k].index < before.functions.len());
                }
            }
        }
    }

    /// Records the functions that a sequence of initializers refers to.
    pub fn record_all_references(&mut self, exprs: &Vec<ConstExpr>)
        requires
            forall|f: u32| #[trigger]
                all_referenced(exprs@).contains(f) ==> f < old(self)@.functions.len(),
        ensures
            final(self)@ == old(self)@.with_references(all_referenced(exprs@)),
            forall|store: Seq<SubTypeView>| old(self)@.wf(store) ==> final(self)@.wf(store),
    {
        let ghost before = self@;
        let mut i: usize = 0;
        assert(all_referenced(exprs@.take(0)) =~= Set::<u32>::empty());
        assert(before.function_references.union(Set::<u32>::empty())
            =~= before.function_references);
        while i < exprs.len()
            invariant
                i <= exprs.len(),
                self@ == before.with_references(all_referenced(exprs@.take(i as int))),
                forall|f: u32| #[trigger]
                    all_referenced(exprs@).contains(f) ==> f < before.functions.len(),
                forall|store: Seq<SubTypeView>| before.wf(store) ==> self@.wf(store),
            decreases exprs.len() - i,
        {
            let ghost done = all_referenced(exprs@.take(i as int));
            let ghost next = all_referenced(exprs@.take(i + 1));
            let ghost here = referenced_functions(exprs@[i as int]@);
            assert(exprs@.take(i + 1)[i as int] == exprs@[i as int]);
            assert forall|g: u32| done.contains(g) implies next.contains(g) by {
                let k = choose|k: int|
                    0 <= k < exprs@.take(i as int).len() && referenced_functions(
                        (#[trigger] exprs@.take(i as int)[k])@,
                    ).contains(g);
                assert(exprs@.take(i + 1)[k] == exprs@.take(i as int)[k]);
            }
            assert forall|g: u32| next.contains(g) implies done.contains(g) || here.contains(
                g,
            ) by {
                let k = choose|k: int|
                    0 <= k < exprs@.take(i + 1).len() && referenced_functions(
                        (#[trigger] exprs@.take(i + 1)[k])@,
                    ).contains(g);
                if k < i {
                    assert(exprs@.take(i as int)[k] == exprs@.take(i + 1)[k]);
                }
            }
            assert forall|g: u32| here.contains(g) implies next.contains(g) && g
                < self@.functions.len() by {
                assert(referenced_functions(exprs@[i as int]@).contains(g));
                assert(all_referenced(exprs@).contains(g));
            }
            self.record_references(&exprs[i]);
            assert(next =~= done.union(here));
            assert(before.function_references.union(done).union(here)
                =~= before.function_references.union(next));
            i += 1;
        }
        assert(exprs@.take(i as int) =~= exprs@);
    }
}

impl ModuleState {
    /// Checks the entries of an element segment that name functions.
    fn validate_func_items(&self, items: &Vec<FuncItem>) -> (res: Result<(), BinaryReaderError>)
        requires
            self.module.wf(),
        ensures
            res == outcome(
                first_some(
                    Seq::new(
                        items@.len(),
                        |i: int| self.module_view().func_item_error(items@[i]),
                    ),
                ),
            ),
            res is Ok ==> forall|i: int|
                0 <= i < items@.len() ==> (#[trigger] items@[i]).index
                    < self.module_view().functions.len(),
    {
        let ghost checks = Seq::new(
            items@.len(),
            |i: int| self.module_view().func_item_error(items@[i]),
        );
        let module = self.module.get();
        let mut i: usize = 0;
        while i < items.len()
            invariant
                i <= items.len(),
                module@ == self.module_view(),
                checks == Seq::new(
                    items@.len(),
                    |i: int| self.module_view().func_item_error(items@[i]),
                ),
                forall|j: int| 0 <= j < i ==> (#[trigger] checks[j]) is None,
            decreases items.len() - i,
        {
            let item: FuncItem = items[i];
            if (item.index as usize) >= module.functions.len() {
                proof {
                    lemma_first_some_found(checks, i as int);
                }
                return Err(
                    BinaryReaderError::new(
                        Reason::Unknown { space: IndexSpace::Functions, index: item.index },
                        item.offset,
                    ),
                );
            }
            i += 1;
        }
        proof {
            lemma_first_some_none(checks);
            assert forall|k: int| 0 <= k < items@.len() implies (#[trigger] items@[k]).index
                < self.module_view().functions.len() by {
                assert(checks[k] is None);
            }
        }
        Ok(())
    }

    /// Checks the entries of an element segment that are initializers.
    fn validate_expr_items(&mut self, exprs: &Vec<ConstExpr>, element_ty: RefType, types: &TypeList)
        -> (res: Result<(), BinaryReaderError>)
        requires
            old(self).wf(types),
            types.wf(),
        ensures
            res == outcome(
                first_some(
                    Seq::new(
                        exprs@.len(),
                        |i: int|
                            old(self).module_view().const_expr_error(
                                types@.types,
                                &exprs@[i],
                                ValType::Ref(element_ty),
                                true,
                            ),
                    ),
                ),
            ),
            res is Ok ==> forall|f: u32| #[trigger]
                all_referenced(exprs@).contains(f) ==> f < old(self).module_view().functions.len(),
            final(self).module == old(self).module,
            final(self).code_section_index == old(self).code_section_index,
    {
        let ghost view = self.module_view();
        let ghost checks = Seq::new(
            exprs@.len(),
            |i: int| view.const_expr_error(types@.types, &exprs@[i], ValType::Ref(element_ty), true),
        );
        let mut i: usize = 0;
        while i < exprs.len()
            invariant
                i <= exprs.len(),
                types.wf(),
                self.wf(types),
                self.module == old(self).module,
                self.code_section_index == old(self).code_section_index,
                view == old(self).module_view(),
                checks == Seq::new(
                    exprs@.len(),
                    |i: int|
                        view.const_expr_error(
                            types@.types,
                            &exprs@[i],
                            ValType::Ref(element_ty),
                            true,
                        ),
                ),
                forall|j: int| 0 <= j < i ==> (#[trigger] checks[j]) is None,
            decreases exprs.len() - i,
        {
            match self.validate_const_expr(&exprs[i], ValType::Ref(element_ty), types, true) {
                Ok(()) => {},
                Err(e) => {
                    proof {
                        lemma_first_some_found(checks, i as int);
                    }
                    return Err(e);
                },
            }
            i += 1;
        }
        proof {
            lemma_first_some_none(checks);
            assert forall|f: u32| #[trigger] all_referenced(exprs@).contains(f) implies f
                < view.functions.len() by {
                let k = choose|k: int|
                    0 <= k < exprs@.len() && referenced_functions((#[trigger] exprs@[k])@).contains(
                        f,
                    );
                assert(checks[k] is None);
                lemma_accepted_refs_exist(
                    const_context(view, types@.types, true),
                    ValType::Ref(element_ty),
                    exprs@[k].offset,
                    exprs@[k]@,
                );
            }
        }
        Ok(())
    }

    /// Adds an element segment: its element type, its mode and its entries
    /// are checked, and the functions it refers to are recorded. The module
    /// must not be frozen.
    pub fn add_element_segment(&mut self, e: Element, types: &TypeList, offset: usize) -> (res:
        Result<(), BinaryReaderError>)
        requires
            old(self).wf(types),
            types.wf(),
            old(self).module.is_owned(),
        ensures
            res == outcome(old(self).module_view().element_error(types@.types, &e, offset)),
            final(self).module_view() == if res is Ok {
                old(self).module_view().with_element(&e)
            } else {
                old(self).module_view()
            },
            final(self).wf(types),
            final(self).module.is_owned(),
            final(self).code_section_index == old(self).code_section_index,
    {
        let ghost before = self.module_view();
        let element_ty: RefType = match &e.items {
            ElementItems::Functions(_) => RefType::funcref(),
            ElementItems::Expressions(ty, _) => {
                let mut resolved: RefType = *ty;
                self.module.get().check_ref_type(&mut resolved, offset)?;
                proof {
                    crate::checks::lemma_resolved_heap_closed(
                        before,
                        types@.types,
                        ty.heap_type,
                    );
                }
                resolved
            },
        };
        match &e.kind {
            ElementKind::Active { table_index, offset_expr } => {
                let index: u32 = match table_index {
                    Some(i) => *i,
                    None => 0,
                };
                let table: TableType = *self.module.get().table_at(index, offset)?;
                if !types.reftype_is_subtype(element_ty, table.element_type) {
                    return Err(BinaryReaderError::new(Reason::ElementTypeMismatch, offset));
                }
                self.validate_const_expr(offset_expr, table.index_type(), types, true)?;
                proof {
                    lemma_accepted_refs_exist(
                        const_context(before, types@.types, true),
                        table.spec_index_type(),
                        offset_expr.offset,
                        offset_expr@,
                    );
                }
            },
            _ => {
                if !self.module.get().features.bulk_memory() {
                    return Err(
                        BinaryReaderError::new(Reason::Disabled(Feature::BulkMemory), offset),
                    );
                }
            },
        }
        match &e.items {
            ElementItems::Functions(items) => {
                if items.len() > MAX_WASM_TABLE_ENTRIES {
                    return Err(BinaryReaderError::new(Reason::TooManyElements, offset));
                }
                self.validate_func_items(items)?;
            },
            ElementItems::Expressions(_, exprs) => {
                if exprs.len() > MAX_WASM_TABLE_ENTRIES {
                    return Err(BinaryReaderError::new(Reason::TooManyElements, offset));
                }
                self.validate_expr_items(exprs, element_ty, types)?;
            },
        }
        let module = self.module.assert_mut();
        let ghost in_offset = offset_references(&e);
        match &e.kind {
            ElementKind::Active { offset_expr, .. } => {
                module.record_references(offset_expr);
            },
            _ => {
                assert(before.function_references.union(Set::<u32>::empty())
                    =~= before.function_references);
            },
        }
        assert(module@ == before.with_references(in_offset));
        match &e.items {
            ElementItems::Functions(items) => {
                module.record_functions(items);
                assert(before.function_references.union(in_offset).union(item_functions(items@))
                    =~= before.function_references.union(element_references(&e)));
            },
            ElementItems::Expressions(_, exprs) => {
                module.record_all_references(exprs);
                assert(before.function_references.union(in_offset).union(all_referenced(exprs@))
                    =~= before.function_references.union(element_references(&e)));
            },
        }
        module.element_types.push(element_ty);
        Ok(())
    }
}

} // verus!
