//! The checker that walks over the instructions of an initializer.

use vstd::prelude::*;
use crate::const_expr::{ConstContext, const_context, field_operands, pop_all, pop_expect};
use crate::error::{BinaryReaderError, IndexSpace, Reason};
use crate::features::Feature;
use crate::module::Module;
use crate::operators::Operator;
use crate::type_list::TypeList;
use crate::types::{
    AbstractHeapType, CompositeInnerType, FieldType, HeapType, RefType, StructType,
    UnpackedIndex, ValType,
};

verus! {

/// Storage that the check of one initializer leaves for the next.
#[derive(Debug)]
pub struct OperatorValidatorAllocations {
    pub operands: Vec<ValType>,
}

impl Default for OperatorValidatorAllocations {
    fn default() -> (allocs: OperatorValidatorAllocations)
        ensures
            allocs.operands@.len() == 0,
    {
        OperatorValidatorAllocations { operands: Vec::new() }
    }
}

/// The state of the check of one initializer.
pub struct VisitConstOperator<'a> {
    /// The position of the instruction that is being checked.
    pub offset: usize,
    pub module: &'a Module,
    pub types: &'a TypeList,
    /// Whether references to functions are recorded where the initializer
    /// stands.
    pub record: bool,
    /// The types of the values on the operand stack, the top last.
    pub operands: Vec<ValType>,
}

impl<'a> VisitConstOperator<'a> {
    /// What the initializer is checked against.
    pub open spec fn context(&self) -> ConstContext {
        const_context(self.module@, self.types@.types, self.record)
    }

    /// Whether the module and the type list are in order.
    pub open spec fn wf(&self) -> bool {
        self.module.wf(self.types) && self.types.wf()
    }

    /// Whether `other` checks the same initializer at the same instruction.
    pub open spec fn same_place(&self, other: &VisitConstOperator<'a>) -> bool {
        &&& self.offset == other.offset
        &&& self.module == other.module
        &&& self.types == other.types
        &&& self.record == other.record
    }

    /// A checker with an empty operand stack that reuses the storage of
    /// `allocs`.
    pub fn new(
        module: &'a Module,
        types: &'a TypeList,
        record: bool,
        allocs: OperatorValidatorAllocations,
    ) -> (v: VisitConstOperator<'a>)
        ensures
            v.module == module,
            v.types == types,
            v.record == record,
            v.offset == 0,
            v.operands@.len() == 0,
    {
        let mut operands = allocs.operands;
        operands.clear();
        VisitConstOperator { offset: 0, module, types, record, operands }
    }

    /// Gives the storage back.
    pub fn into_allocations(self) -> (allocs: OperatorValidatorAllocations)
        ensures
            allocs.operands == self.operands,
    {
        OperatorValidatorAllocations { operands: self.operands }
    }

    fn not_const(&self, op: Operator) -> (e: BinaryReaderError)
        ensures
            e == (BinaryReaderError { reason: Reason::NonConstant(op), offset: self.offset }),
    {
        BinaryReaderError::new(Reason::NonConstant(op), self.offset)
    }

    fn validate_extended_const(&self, op: Operator) -> (res: Result<(), BinaryReaderError>)
        ensures
            res == crate::module::verdict(
                self.context().gate(Feature::ExtendedConst, op),
                self.offset,
            ),
    {
        if self.module.features.extended_const() {
            Ok(())
        } else {
            Err(self.not_const(op))
        }
    }

    fn validate_gc(&self, op: Operator) -> (res: Result<(), BinaryReaderError>)
        ensures
            res == crate::module::verdict(self.context().gate(Feature::Gc, op), self.offset),
    {
        if self.module.features.gc() {
            Ok(())
        } else {
            Err(self.not_const(op))
        }
    }

    fn validate_shared_everything_threads(&self, op: Operator) -> (res: Result<
        (),
        BinaryReaderError,
    >)
        ensures
            res == crate::module::verdict(
                self.context().gate(Feature::SharedEverythingThreads, op),
                self.offset,
            ),
    {
        if self.module.features.shared_everything_threads() {
            Ok(())
        } else {
            Err(self.not_const(op))
        }
    }

    fn validate_global(&self, index: u32) -> (res: Result<(), BinaryReaderError>)
        ensures
            res == crate::module::verdict(self.context().global_reason(index), self.offset),
    {
        let module = self.module;
        let global = module.global_at(index, self.offset)?;
        if index >= module.num_imported_globals && !module.features.gc() {
            return Err(BinaryReaderError::new(Reason::LocalGlobalGet(index), self.offset));
        }
        if global.mutable {
            return Err(BinaryReaderError::new(Reason::MutableGlobalGet(index), self.offset));
        }
        Ok(())
    }

    fn push_operand(&mut self, ty: ValType)
        ensures
            final(self).same_place(old(self)),
            final(self).operands@ == old(self).operands@.push(ty),
    {
        self.operands.push(ty);
    }

    fn pop_operand(&mut self, expected: ValType) -> (res: Result<(), BinaryReaderError>)
        requires
            old(self).wf(),
        ensures
            final(self).same_place(old(self)),
            match pop_expect(old(self).types@.types, old(self).operands@, expected) {
                Ok(rest) => res is Ok && final(self).operands@ == rest,
                Err(reason) => res == Err::<(), BinaryReaderError>(
                    BinaryReaderError { reason, offset: old(self).offset },
                ),
            },
    {
        match self.operands.pop() {
            None => Err(BinaryReaderError::new(Reason::MissingOperand { expected }, self.offset)),
            Some(actual) => {
                if self.types.valtype_is_subtype(actual, expected) {
                    Ok(())
                } else {
                    Err(
                        BinaryReaderError::new(
                            Reason::OperandMismatch { expected, actual },
                            self.offset,
                        ),
                    )
                }
            },
        }
    }

    fn visit_binary(&mut self, ty: ValType) -> (res: Result<(), BinaryReaderError>)
        requires
            old(self).wf(),
        ensures
            final(self).same_place(old(self)),
            match old(self).context().binary(old(self).operands@, ty) {
                Ok(next) => res is Ok && final(self).operands@ == next,
                Err(reason) => res == Err::<(), BinaryReaderError>(
                    BinaryReaderError { reason, offset: old(self).offset },
                ),
            },
    {
        self.pop_operand(ty)?;
        self.pop_operand(ty)?;
        self.push_operand(ty);
        Ok(())
    }

    fn visit_from_i32(&mut self, result: ValType) -> (res: Result<(), BinaryReaderError>)
        requires
            old(self).wf(),
        ensures
            final(self).same_place(old(self)),
            match old(self).context().from_i32(old(self).operands@, result) {
                Ok(next) => res is Ok && final(self).operands@ == next,
                Err(reason) => res == Err::<(), BinaryReaderError>(
                    BinaryReaderError { reason, offset: old(self).offset },
                ),
            },
    {
        self.pop_operand(ValType::I32)?;
        self.push_operand(result);
        Ok(())
    }

    fn visit_convert(&mut self, from: AbstractHeapType, to: AbstractHeapType) -> (res: Result<
        (),
        BinaryReaderError,
    >)
        requires
            old(self).wf(),
        ensures
            final(self).same_place(old(self)),
            match old(self).context().convert(old(self).operands@, from, to) {
                Ok(next) => res is Ok && final(self).operands@ == next,
                Err(reason) => res == Err::<(), BinaryReaderError>(
                    BinaryReaderError { reason, offset: old(self).offset },
                ),
            },
    {
        match self.operands.pop() {
            None => Err(
                BinaryReaderError::new(
                    Reason::MissingOperand {
                        expected: ValType::Ref(
                            RefType {
                                nullable: true,
                                heap_type: HeapType::Abstract { shared: false, ty: from },
                            },
                        ),
                    },
                    self.offset,
                ),
            ),
            Some(ValType::Ref(r)) => {
                let shared = self.types.reftype_is_shared(r);
                let expected = RefType {
                    nullable: true,
                    heap_type: HeapType::Abstract { shared, ty: from },
                };
                if self.types.reftype_is_subtype(r, expected) {
                    self.push_operand(
                        ValType::Ref(
                            RefType {
                                nullable: r.nullable,
                                heap_type: HeapType::Abstract { shared, ty: to },
                            },
                        ),
                    );
                    Ok(())
                } else {
                    Err(
                        BinaryReaderError::new(
                            Reason::OperandMismatch {
                                expected: ValType::Ref(expected),
                                actual: ValType::Ref(r),
                            },
                            self.offset,
                        ),
                    )
                }
            },
            Some(other) => Err(
                BinaryReaderError::new(Reason::ExpectedReference { actual: other }, self.offset),
            ),
        }
    }

    /// The struct type with the module index `t`.
    fn struct_type_at(&self, t: u32) -> (res: Result<&'a StructType, BinaryReaderError>)
        requires
            self.wf(),
        ensures
            match res {
                Ok(s) => self.context().struct_reason(t) is None && self.context().stored(
                    t,
                ).inner->fields == s.fields@,
                Err(e) => Some(e.reason) == self.context().struct_reason(t) && e.offset
                    == self.offset,
            },
    {
        let module: &'a Module = self.module;
        let types: &'a TypeList = self.types;
        let ty = module.sub_type_at(types, t, self.offset)?;
        match &ty.composite_type.inner {
            CompositeInnerType::Struct(s) => Ok(s),
            _ => Err(BinaryReaderError::new(Reason::NotStructType(t), self.offset)),
        }
    }

    /// The element type of the array type with the module index `t`.
    fn array_type_at(&self, t: u32) -> (res: Result<FieldType, BinaryReaderError>)
        requires
            self.wf(),
        ensures
            match res {
                Ok(a) => self.context().array_reason(t) is None && self.context().stored(
                    t,
                ).inner->Array_0 == a,
                Err(e) => Some(e.reason) == self.context().array_reason(t) && e.offset
                    == self.offset,
            },
    {
        let ty = self.module.sub_type_at(self.types, t, self.offset)?;
        match &ty.composite_type.inner {
            CompositeInnerType::Array(a) => Ok(*a),
            _ => Err(BinaryReaderError::new(Reason::NotArrayType(t), self.offset)),
        }
    }

    /// A non-null reference to the type with the module index `t`.
    fn type_ref(&self, t: u32) -> (ty: ValType)
        requires
            t < self.module@.types.len(),
        ensures
            ty == self.context().type_ref(t),
    {
        ValType::Ref(
            RefType {
                nullable: false,
                heap_type: HeapType::Concrete(UnpackedIndex::Id(self.module.types[t as usize])),
            },
        )
    }

    fn visit_struct_new(&mut self, t: u32) -> (res: Result<(), BinaryReaderError>)
        requires
            old(self).wf(),
        ensures
            final(self).same_place(old(self)),
            match old(self).context().struct_new(old(self).operands@, t) {
                Ok(next) => res is Ok && final(self).operands@ == next,
                Err(reason) => res == Err::<(), BinaryReaderError>(
                    BinaryReaderError { reason, offset: old(self).offset },
                ),
            },
    {
        let ty = self.struct_type_at(t)?;
        let ghost store = self.types@.types;
        let ghost expected = field_operands(ty.fields@);
        let ghost start = self.operands@;
        let mut i: usize = ty.fields.len();
        assert(expected.take(i as int) =~= expected);
        while i > 0
            invariant
                i <= ty.fields.len(),
                self.wf(),
                self.same_place(old(self)),
                store == self.types@.types,
                expected == field_operands(ty.fields@),
                start == old(self).operands@,
                old(self).context().struct_reason(t) is None,
                old(self).context().stored(t).inner->fields == ty.fields@,
                pop_all(store, start, expected) == pop_all(
                    store,
                    self.operands@,
                    expected.take(i as int),
                ),
            decreases i,
        {
            i -= 1;
            let want = ty.fields[i].element_type.unpack();
            assert(expected.take(i + 1).last() == want);
            assert(expected.take(i + 1).drop_last() =~= expected.take(i as int));
            self.pop_operand(want)?;
        }
        let result = self.type_ref(t);
        self.push_operand(result);
        Ok(())
    }

    fn visit_struct_new_default(&mut self, t: u32) -> (res: Result<(), BinaryReaderError>)
        requires
            old(self).wf(),
        ensures
            final(self).same_place(old(self)),
            match old(self).context().struct_new_default(old(self).operands@, t) {
                Ok(next) => res is Ok && final(self).operands@ == next,
                Err(reason) => res == Err::<(), BinaryReaderError>(
                    BinaryReaderError { reason, offset: old(self).offset },
                ),
            },
    {
        let ty = self.struct_type_at(t)?;
        let mut i: usize = 0;
        while i < ty.fields.len()
            invariant
                i <= ty.fields.len(),
                *self == *old(self),
                self.context().struct_reason(t) is None,
                self.context().stored(t).inner->fields == ty.fields@,
                forall|j: int|
                    0 <= j < i ==> (#[trigger] ty.fields@[j]).element_type.spec_is_defaultable(),
            decreases ty.fields.len() - i,
        {
            if !ty.fields[i].element_type.is_defaultable() {
                return Err(BinaryReaderError::new(Reason::NonDefaultableField, self.offset));
            }
            i += 1;
        }
        let result = self.type_ref(t);
        self.push_operand(result);
        Ok(())
    }

    fn visit_array_new(&mut self, t: u32) -> (res: Result<(), BinaryReaderError>)
        requires
            old(self).wf(),
        ensures
            final(self).same_place(old(self)),
            match old(self).context().array_new(old(self).operands@, t) {
                Ok(next) => res is Ok && final(self).operands@ == next,
                Err(reason) => res == Err::<(), BinaryReaderError>(
                    BinaryReaderError { reason, offset: old(self).offset },
                ),
            },
    {
        let ty = self.array_type_at(t)?;
        self.pop_operand(ValType::I32)?;
        self.pop_operand(ty.element_type.unpack())?;
        let result = self.type_ref(t);
        self.push_operand(result);
        Ok(())
    }

    fn visit_array_new_default(&mut self, t: u32) -> (res: Result<(), BinaryReaderError>)
        requires
            old(self).wf(),
        ensures
            final(self).same_place(old(self)),
            match old(self).context().array_new_default(old(self).operands@, t) {
                Ok(next) => res is Ok && final(self).operands@ == next,
                Err(reason) => res == Err::<(), BinaryReaderError>(
                    BinaryReaderError { reason, offset: old(self).offset },
                ),
            },
    {
        let ty = self.array_type_at(t)?;
        if !ty.element_type.is_defaultable() {
            return Err(BinaryReaderError::new(Reason::NonDefaultableField, self.offset));
        }
        let result = self.type_ref(t);
        self.visit_from_i32(result)
    }

    fn visit_array_new_fixed(&mut self, t: u32, n: u32) -> (res: Result<(), BinaryReaderError>)
        requires
            old(self).wf(),
        ensures
            final(self).same_place(old(self)),
            match old(self).context().array_new_fixed(old(self).operands@, t, n) {
                Ok(next) => res is Ok && final(self).operands@ == next,
                Err(reason) => res == Err::<(), BinaryReaderError>(
                    BinaryReaderError { reason, offset: old(self).offset },
                ),
            },
    {
        let ty = self.array_type_at(t)?;
        let want = ty.element_type.unpack();
        let ghost store = self.types@.types;
        let ghost expected = Seq::new(n as nat, |k: int| want);
        let ghost start = self.operands@;
        let mut i: u32 = n;
        assert(expected.take(i as int) =~= expected);
        while i > 0
            invariant
                i <= n,
                self.wf(),
                self.same_place(old(self)),
                store == self.types@.types,
                expected == Seq::new(n as nat, |k: int| want),
                start == old(self).operands@,
                old(self).context().array_reason(t) is None,
                old(self).context().stored(t).inner->Array_0.element_type.spec_unpack() == want,
                pop_all(store, start, expected) == pop_all(
                    store,
                    self.operands@,
                    expected.take(i as int),
                ),
            decreases i,
        {
            i -= 1;
            assert(expected.take(i + 1).last() == want);
            assert(expected.take(i + 1).drop_last() =~= expected.take(i as int));
            self.pop_operand(want)?;
        }
        let result = self.type_ref(t);
        self.push_operand(result);
        Ok(())
    }

    fn visit_ref_null(&mut self, heap_type: HeapType) -> (res: Result<(), BinaryReaderError>)
        requires
            old(self).wf(),
        ensures
            final(self).same_place(old(self)),
            match old(self).context().step(old(self).operands@, Operator::RefNull(heap_type)) {
                Ok(next) => res is Ok && final(self).operands@ == next,
                Err(reason) => res == Err::<(), BinaryReaderError>(
                    BinaryReaderError { reason, offset: old(self).offset },
                ),
            },
    {
        let mut ty = RefType { nullable: true, heap_type };
        self.module.check_ref_type(&mut ty, self.offset)?;
        self.push_operand(ValType::Ref(ty));
        Ok(())
    }

    fn visit_ref_func(&mut self, index: u32) -> (res: Result<(), BinaryReaderError>)
        requires
            old(self).wf(),
        ensures
            final(self).same_place(old(self)),
            match old(self).context().step(old(self).operands@, Operator::RefFunc(index)) {
                Ok(next) => res is Ok && final(self).operands@ == next,
                Err(reason) => res == Err::<(), BinaryReaderError>(
                    BinaryReaderError { reason, offset: old(self).offset },
                ),
            },
    {
        if !self.record {
            return Err(self.not_const(Operator::RefFunc(index)));
        }
        if !self.module.features.reference_types() {
            return Err(
                BinaryReaderError::new(Reason::Disabled(Feature::ReferenceTypes), self.offset),
            );
        }
        if (index as usize) >= self.module.functions.len() {
            return Err(
                BinaryReaderError::new(
                    Reason::Unknown { space: IndexSpace::Functions, index },
                    self.offset,
                ),
            );
        }
        let t: u32 = self.module.functions[index as usize];
        let result = self.type_ref(t);
        self.push_operand(result);
        Ok(())
    }

    fn visit_global_get(&mut self, index: u32) -> (res: Result<(), BinaryReaderError>)
        requires
            old(self).wf(),
        ensures
            final(self).same_place(old(self)),
            match old(self).context().step(old(self).operands@, Operator::GlobalGet(index)) {
                Ok(next) => res is Ok && final(self).operands@ == next,
                Err(reason) => res == Err::<(), BinaryReaderError>(
                    BinaryReaderError { reason, offset: old(self).offset },
                ),
            },
    {
        self.validate_global(index)?;
        let ty = self.module.globals[index as usize].content_type;
        self.push_operand(ty);
        Ok(())
    }

    fn visit_float(&mut self, ty: ValType) -> (res: Result<(), BinaryReaderError>)
        ensures
            final(self).same_place(old(self)),
            if old(self).module@.features.has(Feature::Floats) {
                res is Ok && final(self).operands@ == old(self).operands@.push(ty)
            } else {
                res == Err::<(), BinaryReaderError>(
                    BinaryReaderError {
                        reason: Reason::Disabled(Feature::Floats),
                        offset: old(self).offset,
                    },
                )
            },
    {
        if !self.module.features.floats() {
            return Err(BinaryReaderError::new(Reason::Disabled(Feature::Floats), self.offset));
        }
        self.push_operand(ty);
        Ok(())
    }

    /// Checks an instruction other than `end` and applies it to the operand
    /// stack.
    pub fn visit_operator(&mut self, op: Operator) -> (res: Result<(), BinaryReaderError>)
        requires
            old(self).wf(),
        ensures
            final(self).same_place(old(self)),
            match old(self).context().step(old(self).operands@, op) {
                Ok(next) => res is Ok && final(self).operands@ == next,
                Err(reason) => res == Err::<(), BinaryReaderError>(
                    BinaryReaderError { reason, offset: old(self).offset },
                ),
            },
    {
        match op {
            Operator::I32Const(_) => {
                self.push_operand(ValType::I32);
                Ok(())
            },
            Operator::I64Const(_) => {
                self.push_operand(ValType::I64);
                Ok(())
            },
            Operator::F32Const(_) => self.visit_float(ValType::F32),
            Operator::F64Const(_) => self.visit_float(ValType::F64),
            Operator::V128Const(_) => {
                if !self.module.features.simd() {
                    return Err(
                        BinaryReaderError::new(Reason::Disabled(Feature::Simd), self.offset),
                    );
                }
                self.push_operand(ValType::V128);
                Ok(())
            },
            Operator::RefNull(h) => self.visit_ref_null(h),
            Operator::RefFunc(f) => self.visit_ref_func(f),
            Operator::GlobalGet(g) => self.visit_global_get(g),
            Operator::I32Add | Operator::I32Sub | Operator::I32Mul => {
                self.validate_extended_const(op)?;
                self.visit_binary(ValType::I32)
            },
            Operator::I64Add | Operator::I64Sub | Operator::I64Mul => {
                self.validate_extended_const(op)?;
                self.visit_binary(ValType::I64)
            },
            Operator::StructNew(t) => {
                self.validate_gc(op)?;
                self.visit_struct_new(t)
            },
            Operator::StructNewDefault(t) => {
                self.validate_gc(op)?;
                self.visit_struct_new_default(t)
            },
            Operator::ArrayNew(t) => {
                self.validate_gc(op)?;
                self.visit_array_new(t)
            },
            Operator::ArrayNewDefault(t) => {
                self.validate_gc(op)?;
                self.visit_array_new_default(t)
            },
            Operator::ArrayNewFixed(t, n) => {
                self.validate_gc(op)?;
                self.visit_array_new_fixed(t, n)
            },
            Operator::RefI31 => {
                self.validate_gc(op)?;
                self.visit_from_i32(
                    ValType::Ref(
                        RefType {
                            nullable: false,
                            heap_type: HeapType::Abstract {
                                shared: false,
                                ty: AbstractHeapType::I31,
                            },
                        },
                    ),
                )
            },
            Operator::RefI31Shared => {
                self.validate_shared_everything_threads(op)?;
                self.visit_from_i32(
                    ValType::Ref(
                        RefType {
                            nullable: false,
                            heap_type: HeapType::Abstract {
                                shared: true,
                                ty: AbstractHeapType::I31,
                            },
                        },
                    ),
                )
            },
            Operator::ExternConvertAny => {
                self.validate_gc(op)?;
                self.visit_convert(AbstractHeapType::Any, AbstractHeapType::Extern)
            },
            Operator::AnyConvertExtern => {
                self.validate_gc(op)?;
                self.visit_convert(AbstractHeapType::Extern, AbstractHeapType::Any)
            },
            _ => Err(self.not_const(op)),
        }
    }

    /// Checks the `end` of an initializer that must give a value of the type
    /// `expected`.
    pub fn visit_end(&mut self, expected: ValType) -> (res: Result<(), BinaryReaderError>)
        requires
            old(self).wf(),
        ensures
            final(self).same_place(old(self)),
            res == crate::module::verdict(
                old(self).context().finish(old(self).operands@, expected),
                old(self).offset,
            ),
    {
        self.pop_operand(expected)?;
        if self.operands.len() > 0 {
            return Err(BinaryReaderError::new(Reason::ValuesRemaining, self.offset));
        }
        Ok(())
    }
}

} // verus!
