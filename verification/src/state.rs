//! The part of validation that checks initializers: globals, tables, and
//! element and data segments.

use vstd::prelude::*;
use crate::const_expr::{const_context, lemma_accepted_refs_exist, outcome, referenced_functions};
use crate::const_validator::{OperatorValidatorAllocations, VisitConstOperator};
use crate::error::{BinaryReaderError, Reason};
use crate::features::{Feature, WasmFeatures};
use crate::maybe_owned::MaybeOwned;
use crate::module::{Module, ModuleView};
use crate::operators::{ConstExpr, ConstOp, Operator};
use crate::payload::{Data, DataKind, Global, Table, TableInit};
use crate::type_list::TypeList;
use crate::types::{GlobalType, SubTypeView, TableType, ValType};

verus! {

/// The module being validated together with what the check of initializers
/// and the walk through the code section need.
pub struct ModuleState {
    /// The index spaces. They are owned, and can be changed, until the code
    /// section begins. From then on they are shared with the checks of the
    /// function bodies.
    pub module: MaybeOwned<Module>,
    /// Storage that the check of one initializer leaves for the next.
    pub const_expr_allocs: OperatorValidatorAllocations,
    /// While the code section is read, the index of the function that the
    /// next body belongs to.
    pub code_section_index: Option<usize>,
}

impl ModuleView {
    /// The module with the functions that an initializer refers to recorded.
    pub open spec fn with_references(self, funcs: Set<u32>) -> ModuleView {
        ModuleView { function_references: self.function_references.union(funcs), ..self }
    }

    /// The first failure of an initializer in this module; `None` where it
    /// is accepted.
    pub open spec fn const_expr_error(
        self,
        store: Seq<SubTypeView>,
        expr: &ConstExpr,
        expected: ValType,
        record: bool,
    ) -> Option<BinaryReaderError> {
        const_context(self, store, record).error(expected, expr.offset, expr@)
    }

    /// The first failure of a global; `None` where it is accepted. Its type
    /// is checked first, then its initializer, which must give a value of the
    /// content type.
    pub open spec fn global_error(self, store: Seq<SubTypeView>, global: &Global, offset: usize)
        -> Option<BinaryReaderError> {
        match self.global_type_reason(store, global.ty) {
            Some(reason) => Some(BinaryReaderError { reason, offset }),
            None => self.const_expr_error(
                store,
                &global.init_expr,
                self.resolve_value_type(global.ty.content_type),
                true,
            ),
        }
    }

    /// The module after an accepted global.
    pub open spec fn with_global(self, global: &Global) -> ModuleView {
        ModuleView {
            globals: self.globals.push(self.resolve_global_type(global.ty)),
            function_references: self.function_references.union(
                referenced_functions(global.init_expr@),
            ),
            ..self
        }
    }

    /// The first failure of a table; `None` where it is accepted. Its type is
    /// checked first. Without an initializer the element type must be
    /// nullable; an initializer needs typed function references and must
    /// give a value of the element type.
    pub open spec fn table_error(self, store: Seq<SubTypeView>, table: &Table, offset: usize)
        -> Option<BinaryReaderError> {
        match self.table_type_reason(store, table.ty) {
            Some(reason) => Some(BinaryReaderError { reason, offset }),
            None => match table.init {
                TableInit::RefNull => if table.ty.element_type.nullable {
                    None
                } else {
                    Some(BinaryReaderError { reason: Reason::NonDefaultableElement, offset })
                },
                TableInit::Expr(expr) => if !self.features.has(Feature::FunctionReferences) {
                    Some(
                        BinaryReaderError {
                            reason: Reason::Disabled(Feature::FunctionReferences),
                            offset,
                        },
                    )
                } else {
                    self.const_expr_error(
                        store,
                        &expr,
                        ValType::Ref(self.resolve_ref_type(table.ty.element_type)),
                        true,
                    )
                },
            },
        }
    }

    /// The functions that the initializer of a table refers to.
    pub open spec fn table_references(table: &Table) -> Set<u32> {
        match table.init {
            TableInit::RefNull => Set::empty(),
            TableInit::Expr(expr) => referenced_functions(expr@),
        }
    }

    /// The module after an accepted table.
    pub open spec fn with_table(self, table: &Table) -> ModuleView {
        ModuleView {
            tables: self.tables.push(self.resolve_table_type(table.ty)),
            function_references: self.function_references.union(Self::table_references(table)),
            ..self
        }
    }

    /// The first failure of a data segment; `None` where it is accepted. A
    /// passive segment needs bulk memory. The offset of an active segment
    /// must be a value of the index type of its memory, and may not refer to
    /// a function.
    pub open spec fn data_error(self, store: Seq<SubTypeView>, data: &Data, offset: usize)
        -> Option<BinaryReaderError> {
        match data.kind {
            DataKind::Passive => if self.features.has(Feature::BulkMemory) {
                None
            } else {
                Some(BinaryReaderError { reason: Reason::Disabled(Feature::BulkMemory), offset })
            },
            DataKind::Active { memory_index, offset_expr } => if memory_index
                >= self.memories.len() {
                Some(
                    BinaryReaderError {
                        reason: Reason::Unknown {
                            space: crate::error::IndexSpace::Memories,
                            index: memory_index,
                        },
                        offset,
                    },
                )
            } else {
                self.const_expr_error(
                    store,
                    &offset_expr,
                    self.memories[memory_index as int].spec_index_type(),
                    false,
                )
            },
        }
    }
}

impl Module {
    /// Records the functions that an initializer refers to.
    pub fn record_references(&mut self, expr: &ConstExpr)
        requires
            forall|f: u32| #[trigger]
                referenced_functions(expr@).contains(f) ==> f < old(self)@.functions.len(),
        ensures
            final(self)@ == old(self)@.with_references(referenced_functions(expr@)),
            forall|store: Seq<SubTypeView>| old(self)@.wf(store) ==> final(self)@.wf(store),
    {
        let ghost ops = expr@;
        let ghost before = self@;
        let mut i: usize = 0;
        assert(referenced_functions(ops.take(0)) =~= Set::<u32>::empty());
        assert(before.function_references.union(Set::<u32>::empty())
            =~= before.function_references);
        while i < expr.ops.len()
            invariant
                i <= expr.ops.len(),
                ops == expr@,
                self@ == before.with_references(referenced_functions(ops.take(i as int))),
            decreases expr.ops.len() - i,
        {
            let ghost done = referenced_functions(ops.take(i as int));
            let ghost next = referenced_functions(ops.take(i + 1));
            assert(ops.take(i + 1)[i as int] == ops[i as int]);
            assert forall|f: u32| done.contains(f) implies next.contains(f) by {
                let k = choose|k: int|
                    0 <= k < ops.take(i as int).len() && (#[trigger] ops.take(i as int)[k]).op
                        == Operator::RefFunc(f);
                assert(ops.take(i + 1)[k].op == Operator::RefFunc(f));
            }
            assert forall|f: u32| next.contains(f) implies done.contains(f) || ops[i as int].op
                == Operator::RefFunc(f) by {
                let k = choose|k: int|
                    0 <= k < ops.take(i + 1).len() && (#[trigger] ops.take(i + 1)[k]).op
                        == Operator::RefFunc(f);
                if k < i {
                    assert(ops.take(i as int)[k].op == Operator::RefFunc(f));
                }
            }
            if let Operator::RefFunc(f) = expr.ops[i].op {
                self.function_references.insert(f);
                assert(next =~= done.insert(f));
                assert(before.function_references.union(done).insert(f)
                    =~= before.function_references.union(next));
            } else {
                assert(next =~= done);
            }
            i += 1;
        }
        assert(ops.take(i as int) =~= ops);
        assert forall|store: Seq<SubTypeView>| before.wf(store) implies self@.wf(store) by {
            assert forall|f: u32| #[trigger]
                self@.function_references.contains(f) implies f < self@.functions.len() by {
                if !before.function_references.contains(f) {
                    assert(referenced_functions(expr@).contains(f));
                }
            }
        }
    }
}

impl ModuleState {
    /// The value of the module.
    pub open spec fn module_view(&self) -> ModuleView {
        self.module.value()@
    }

    /// The index of the function that the next code body belongs to.
    pub open spec fn next_code_index(&self) -> nat {
        match self.code_section_index {
            Some(index) => index as nat,
            None => self.module_view().num_imported_functions as nat,
        }
    }

    /// Whether the module is in order, against what `types` holds.
    pub open spec fn wf(&self, types: &TypeList) -> bool {
        self.module.wf() && self.module_view().wf(types@.types)
    }

    /// The state for a module without entities.
    pub fn new(features: WasmFeatures) -> (state: ModuleState)
        ensures
            state.module.wf(),
            state.module.is_owned(),
            state.module_view() == ModuleView::empty(features),
            forall|store: Seq<SubTypeView>| state.module_view().wf(store),
            state.next_code_index() == 0,
            state.code_section_index is None,
    {
        ModuleState {
            module: MaybeOwned::new(Module::new(features)),
            const_expr_allocs: OperatorValidatorAllocations::default(),
            code_section_index: None,
        }
    }

    /// The index and the type index of the function that the next code body
    /// belongs to. The bodies belong to the functions that the module
    /// defines, in their order; there must be a function left.
    pub fn next_code_index_and_type(&mut self) -> (res: (u32, u32))
        requires
            old(self).module.wf(),
            old(self).next_code_index() < old(self).module_view().functions.len(),
            old(self).module_view().functions.len() <= u32::MAX,
        ensures
            res.0 == old(self).next_code_index(),
            res.1 == old(self).module_view().functions[res.0 as int],
            final(self).next_code_index() == old(self).next_code_index() + 1,
            final(self).code_section_index is Some,
            final(self).module == old(self).module,
    {
        let index: usize = match self.code_section_index {
            Some(index) => index,
            None => self.module.get().num_imported_functions as usize,
        };
        let ty: u32 = self.module.get().functions[index];
        self.code_section_index = Some(index + 1);
        (index as u32, ty)
    }

    /// Walks over the instructions of an initializer.
    fn run_const_expr(validator: &mut VisitConstOperator<'_>, expr: &ConstExpr, expected: ValType)
        -> (res: Result<(), BinaryReaderError>)
        requires
            old(validator).wf(),
            old(validator).operands@.len() == 0,
        ensures
            res == outcome(old(validator).context().error(expected, expr.offset, expr@)),
    {
        let ghost ctx = validator.context();
        let n: usize = expr.ops.len();
        let mut i: usize = 0;
        assert(validator.operands@ =~= Seq::empty());
        while i < n
            invariant
                n == expr.ops.len(),
                i <= n,
                validator.wf(),
                validator.context() == ctx,
                ctx == old(validator).context(),
                ctx.error(expected, expr.offset, expr@) == ctx.run(
                    expected,
                    expr.offset,
                    validator.operands@,
                    expr@,
                    i as int,
                ),
            decreases n - i,
        {
            let op: ConstOp = expr.ops[i];
            validator.offset = op.offset;
            match op.op {
                Operator::End => {
                    validator.visit_end(expected)?;
                    if i + 1 < n {
                        return Err(
                            BinaryReaderError::new(
                                Reason::OperatorsAfterEnd,
                                expr.ops[i + 1].offset,
                            ),
                        );
                    }
                    return Ok(());
                },
                other => {
                    validator.visit_operator(other)?;
                },
            }
            i += 1;
        }
        Err(BinaryReaderError::new(Reason::MissingEnd, expr.offset))
    }

    /// Checks an initializer without recording anything. `record` says
    /// whether it stands where references to functions are recorded.
    pub fn validate_const_expr(
        &mut self,
        expr: &ConstExpr,
        expected_ty: ValType,
        types: &TypeList,
        record: bool,
    ) -> (res: Result<(), BinaryReaderError>)
        requires
            old(self).wf(types),
            types.wf(),
        ensures
            res == outcome(
                old(self).module_view().const_expr_error(types@.types, expr, expected_ty, record),
            ),
            final(self).module == old(self).module,
            final(self).code_section_index == old(self).code_section_index,
    {
        let mut allocs = OperatorValidatorAllocations::default();
        core::mem::swap(&mut self.const_expr_allocs, &mut allocs);
        let mut validator = VisitConstOperator::new(self.module.get(), types, record, allocs);
        let res = Self::run_const_expr(&mut validator, expr, expected_ty);
        self.const_expr_allocs = validator.into_allocations();
        res
    }

    /// Checks an initializer that must give a value of the type
    /// `expected_ty`, and records the functions it refers to. `record` says
    /// whether it stands where such references are recorded: in a global, a
    /// table or an element segment. Elsewhere a reference to a function is
    /// refused. Where references are recorded the module must not be frozen.
    pub fn check_const_expr(
        &mut self,
        expr: &ConstExpr,
        expected_ty: ValType,
        types: &TypeList,
        record: bool,
    ) -> (res: Result<(), BinaryReaderError>)
        requires
            old(self).wf(types),
            types.wf(),
            record ==> old(self).module.is_owned(),
        ensures
            res == outcome(
                old(self).module_view().const_expr_error(types@.types, expr, expected_ty, record),
            ),
            final(self).module_view() == if res is Ok {
                old(self).module_view().with_references(referenced_functions(expr@))
            } else {
                old(self).module_view()
            },
            res is Ok ==> forall|i: int|
                0 <= i < expr@.len() && (#[trigger] expr@[i]).op is RefFunc
                    ==> final(self).module_view().function_references.contains(
                    expr@[i].op->RefFunc_0,
                ),
            final(self).wf(types),
            final(self).module.is_owned() == old(self).module.is_owned(),
            final(self).code_section_index == old(self).code_section_index,
    {
        let ghost before = self.module_view();
        self.validate_const_expr(expr, expected_ty, types, record)?;
        proof {
            lemma_accepted_refs_exist(
                const_context(before, types@.types, record),
                expected_ty,
                expr.offset,
                expr@,
            );
        }
        if record {
            self.module.assert_mut().record_references(expr);
        } else {
            assert(before.function_references.union(Set::<u32>::empty())
                =~= before.function_references);
        }
        Ok(())
    }

    /// Adds a global: its type and its initializer are checked, and the
    /// functions that the initializer refers to are recorded. The module
    /// must not be frozen.
    pub fn add_global(&mut self, global: Global, types: &TypeList, offset: usize) -> (res: Result<
        (),
        BinaryReaderError,
    >)
        requires
            old(self).wf(types),
            types.wf(),
            old(self).module.is_owned(),
        ensures
            res == outcome(old(self).module_view().global_error(types@.types, &global, offset)),
            final(self).module_view() == if res is Ok {
                old(self).module_view().with_global(&global)
            } else {
                old(self).module_view()
            },
            final(self).wf(types),
            final(self).module.is_owned(),
            final(self).code_section_index == old(self).code_section_index,
    {
        let ghost before = self.module_view();
        let mut ty: GlobalType = global.ty;
        self.module.get().check_global_type(&mut ty, types, offset)?;
        proof {
            crate::checks::lemma_resolved_value_closed(
                before,
                types@.types,
                global.ty.content_type,
            );
        }
        self.validate_const_expr(&global.init_expr, ty.content_type, types, true)?;
        proof {
            lemma_accepted_refs_exist(
                const_context(before, types@.types, true),
                ty.content_type,
                global.init_expr.offset,
                global.init_expr@,
            );
        }
        let module = self.module.assert_mut();
        module.record_references(&global.init_expr);
        module.globals.push(ty);
        Ok(())
    }

    /// Adds a table: its type and its initializer are checked, and the
    /// functions that the initializer refers to are recorded. The module
    /// must not be frozen.
    pub fn add_table(&mut self, table: Table, types: &TypeList, offset: usize) -> (res: Result<
        (),
        BinaryReaderError,
    >)
        requires
            old(self).wf(types),
            types.wf(),
            old(self).module.is_owned(),
        ensures
            res == outcome(old(self).module_view().table_error(types@.types, &table, offset)),
            final(self).module_view() == if res is Ok {
                old(self).module_view().with_table(&table)
            } else {
                old(self).module_view()
            },
            final(self).wf(types),
            final(self).module.is_owned(),
            final(self).code_section_index == old(self).code_section_index,
    {
        let ghost before = self.module_view();
        let mut ty: TableType = table.ty;
        self.module.get().check_table_type(&mut ty, types, offset)?;
        proof {
            if table.ty.element_type != crate::types::RefType::spec_funcref() {
                crate::checks::lemma_resolved_heap_closed(
                    before,
                    types@.types,
                    table.ty.element_type.heap_type,
                );
            }
        }
        match &table.init {
            TableInit::RefNull => {
                if !ty.element_type.is_nullable() {
                    return Err(BinaryReaderError::new(Reason::NonDefaultableElement, offset));
                }
                assert(before.function_references.union(Set::<u32>::empty())
                    =~= before.function_references);
                self.module.assert_mut().tables.push(ty);
            },
            TableInit::Expr(expr) => {
                if !self.module.get().features.function_references() {
                    return Err(
                        BinaryReaderError::new(
                            Reason::Disabled(Feature::FunctionReferences),
                            offset,
                        ),
                    );
                }
                self.validate_const_expr(expr, ValType::Ref(ty.element_type), types, true)?;
                proof {
                    lemma_accepted_refs_exist(
                        const_context(before, types@.types, true),
                        ValType::Ref(ty.element_type),
                        expr.offset,
                        expr@,
                    );
                }
                let module = self.module.assert_mut();
                module.record_references(expr);
                module.tables.push(ty);
            },
        }
        Ok(())
    }

    /// Checks a data segment. The module stays as it is.
    pub fn add_data_segment(&mut self, data: Data, types: &TypeList, offset: usize) -> (res:
        Result<(), BinaryReaderError>)
        requires
            old(self).wf(types),
            types.wf(),
        ensures
            res == outcome(old(self).module_view().data_error(types@.types, &data, offset)),
            final(self).module == old(self).module,
            final(self).code_section_index == old(self).code_section_index,
    {
        match &data.kind {
            DataKind::Passive => {
                if !self.module.get().features.bulk_memory() {
                    return Err(
                        BinaryReaderError::new(Reason::Disabled(Feature::BulkMemory), offset),
                    );
                }
                Ok(())
            },
            DataKind::Active { memory_index, offset_expr } => {
                let ty = self.module.get().memory_at(*memory_index, offset)?.index_type();
                self.validate_const_expr(offset_expr, ty, types, false)
            },
        }
    }
}

} // verus!
