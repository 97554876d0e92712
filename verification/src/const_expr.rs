//! The rules for initializer expressions.
//!
//! An initializer is a short sequence of instructions that can be evaluated
//! when a module is instantiated. It is checked like the body of a function
//! without parameters or locals that returns one value, except that most
//! instructions are refused.

use vstd::prelude::*;
use crate::error::{BinaryReaderError, IndexSpace, Reason};
use crate::features::Feature;
use crate::module::{ModuleView};
use crate::operators::{ConstOp, Operator};
use crate::type_list::{ref_is_shared, ref_is_subtype, val_is_subtype};
use crate::types::{
    AbstractHeapType, FieldType, HeapType, RefType, SubTypeView, UnpackedIndex, ValType,
};

verus! {

/// The stack without its top, where the top fits the type `expected`.
pub open spec fn pop_expect(store: Seq<SubTypeView>, stack: Seq<ValType>, expected: ValType)
    -> Result<Seq<ValType>, Reason> {
    if stack.len() == 0 {
        Err(Reason::MissingOperand { expected })
    } else if !val_is_subtype(store, stack.last(), expected) {
        Err(Reason::OperandMismatch { expected, actual: stack.last() })
    } else {
        Ok(stack.drop_last())
    }
}

/// The stack after operands of the types `expected` were taken from it, the
/// last of them from the top.
pub open spec fn pop_all(store: Seq<SubTypeView>, stack: Seq<ValType>, expected: Seq<ValType>)
    -> Result<Seq<ValType>, Reason>
    decreases expected.len(),
{
    if expected.len() == 0 {
        Ok(stack)
    } else {
        match pop_expect(store, stack, expected.last()) {
            Err(r) => Err(r),
            Ok(rest) => pop_all(store, rest, expected.drop_last()),
        }
    }
}

/// The types that the fields of a struct have on the stack.
pub open spec fn field_operands(fields: Seq<FieldType>) -> Seq<ValType> {
    Seq::new(fields.len(), |i: int| fields[i].element_type.spec_unpack())
}

/// Whether every field has a default value.
pub open spec fn fields_defaultable(fields: Seq<FieldType>) -> bool {
    forall|i: int| 0 <= i < fields.len() ==> (#[trigger] fields[i]).element_type.spec_is_defaultable()
}

/// A reference to an abstract heap type.
pub open spec fn abstract_ref(nullable: bool, shared: bool, ty: AbstractHeapType) -> ValType {
    ValType::Ref(RefType { nullable, heap_type: HeapType::Abstract { shared, ty } })
}

/// The functions that the expression takes a reference to.
pub open spec fn referenced_functions(ops: Seq<ConstOp>) -> Set<u32> {
    Set::new(|f: u32| exists|i: int| 0 <= i < ops.len() && (#[trigger] ops[i]).op == Operator::RefFunc(f))
}

/// What an initializer is checked against.
pub struct ConstContext {
    pub module: ModuleView,
    /// The types in the type list.
    pub store: Seq<SubTypeView>,
    /// Whether the expression stands where references to functions are
    /// recorded. Where it does not, `ref.func` is refused.
    pub record: bool,
}

impl ConstContext {
    /// The failure for an instruction that needs a proposal to be constant.
    pub open spec fn gate(self, feature: Feature, op: Operator) -> Option<Reason> {
        if self.module.features.has(feature) {
            None
        } else {
            Some(Reason::NonConstant(op))
        }
    }

    /// A non-null reference to the type with the module index `t`.
    pub open spec fn type_ref(self, t: u32) -> ValType {
        ValType::Ref(
            RefType {
                nullable: false,
                heap_type: HeapType::Concrete(UnpackedIndex::Id(self.module.types[t as int])),
            },
        )
    }

    /// The stored type with the module index `t`.
    pub open spec fn stored(self, t: u32) -> SubTypeView {
        self.store[self.module.types[t as int].index as int]
    }

    /// Why the module index `t` names no struct type, if it names none.
    pub open spec fn struct_reason(self, t: u32) -> Option<Reason> {
        if t >= self.module.types.len() {
            Some(Reason::Unknown { space: IndexSpace::Types, index: t })
        } else if !(self.stored(t).inner is Struct) {
            Some(Reason::NotStructType(t))
        } else {
            None
        }
    }

    /// Why the module index `t` names no array type, if it names none.
    pub open spec fn array_reason(self, t: u32) -> Option<Reason> {
        if t >= self.module.types.len() {
            Some(Reason::Unknown { space: IndexSpace::Types, index: t })
        } else if !(self.stored(t).inner is Array) {
            Some(Reason::NotArrayType(t))
        } else {
            None
        }
    }

    /// Why `global.get` of the global `g` is refused, if it is: there is no
    /// such global; the module defines it itself and garbage collection is
    /// off; it is mutable.
    pub open spec fn global_reason(self, g: u32) -> Option<Reason> {
        if g >= self.module.globals.len() {
            Some(Reason::Unknown { space: IndexSpace::Globals, index: g })
        } else if g >= self.module.num_imported_globals && !self.module.features.has(Feature::Gc) {
            Some(Reason::LocalGlobalGet(g))
        } else if self.module.globals[g as int].mutable {
            Some(Reason::MutableGlobalGet(g))
        } else {
            None
        }
    }

    /// Why `ref.func` of the function `f` is refused, if it is: the place
    /// does not record references; reference types are off; there is no such
    /// function.
    pub open spec fn ref_func_reason(self, f: u32) -> Option<Reason> {
        if !self.record {
            Some(Reason::NonConstant(Operator::RefFunc(f)))
        } else if !self.module.features.has(Feature::ReferenceTypes) {
            Some(Reason::Disabled(Feature::ReferenceTypes))
        } else if f >= self.module.functions.len() {
            Some(Reason::Unknown { space: IndexSpace::Functions, index: f })
        } else {
            None
        }
    }

    /// The stack after an instruction took two operands of the type `ty` and
    /// gave one back.
    pub open spec fn binary(self, stack: Seq<ValType>, ty: ValType) -> Result<Seq<ValType>, Reason> {
        match pop_expect(self.store, stack, ty) {
            Err(r) => Err(r),
            Ok(s1) => match pop_expect(self.store, s1, ty) {
                Err(r) => Err(r),
                Ok(s2) => Ok(s2.push(ty)),
            },
        }
    }

    /// The stack after an instruction took an `i32` and gave back a value of
    /// the type `result`.
    pub open spec fn from_i32(self, stack: Seq<ValType>, result: ValType) -> Result<
        Seq<ValType>,
        Reason,
    > {
        match pop_expect(self.store, stack, ValType::I32) {
            Err(r) => Err(r),
            Ok(s1) => Ok(s1.push(result)),
        }
    }

    /// The stack after a conversion between the hierarchies under `any` and
    /// `extern`: the operand is a reference under `from`, and the result is
    /// the reference to `to` that is nullable and shared as the operand is.
    pub open spec fn convert(self, stack: Seq<ValType>, from: AbstractHeapType, to: AbstractHeapType)
        -> Result<Seq<ValType>, Reason> {
        if stack.len() == 0 {
            Err(Reason::MissingOperand { expected: abstract_ref(true, false, from) })
        } else {
            match stack.last() {
                ValType::Ref(r) => {
                    let shared = ref_is_shared(self.store, r);
                    let expected = RefType {
                        nullable: true,
                        heap_type: HeapType::Abstract { shared, ty: from },
                    };
                    if ref_is_subtype(self.store, r, expected) {
                        Ok(stack.drop_last().push(abstract_ref(r.nullable, shared, to)))
                    } else {
                        Err(
                            Reason::OperandMismatch {
                                expected: ValType::Ref(expected),
                                actual: stack.last(),
                            },
                        )
                    }
                },
                other => Err(Reason::ExpectedReference { actual: other }),
            }
        }
    }

    /// The stack after `struct.new`: one operand for each field is taken, and
    /// a reference to the struct is given back.
    pub open spec fn struct_new(self, stack: Seq<ValType>, t: u32) -> Result<Seq<ValType>, Reason> {
        if self.struct_reason(t) is Some {
            Err(self.struct_reason(t)->0)
        } else {
            match pop_all(self.store, stack, field_operands(self.stored(t).inner->fields)) {
                Err(r) => Err(r),
                Ok(rest) => Ok(rest.push(self.type_ref(t))),
            }
        }
    }

    /// The stack after `struct.new_default`: every field must have a default.
    pub open spec fn struct_new_default(self, stack: Seq<ValType>, t: u32) -> Result<
        Seq<ValType>,
        Reason,
    > {
        if self.struct_reason(t) is Some {
            Err(self.struct_reason(t)->0)
        } else if !fields_defaultable(self.stored(t).inner->fields) {
            Err(Reason::NonDefaultableField)
        } else {
            Ok(stack.push(self.type_ref(t)))
        }
    }

    /// The stack after `array.new`: the length and the initial element are
    /// taken, and a reference to the array is given back.
    pub open spec fn array_new(self, stack: Seq<ValType>, t: u32) -> Result<Seq<ValType>, Reason> {
        if self.array_reason(t) is Some {
            Err(self.array_reason(t)->0)
        } else {
            match pop_expect(self.store, stack, ValType::I32) {
                Err(r) => Err(r),
                Ok(s1) => match pop_expect(
                    self.store,
                    s1,
                    self.stored(t).inner->Array_0.element_type.spec_unpack(),
                ) {
                    Err(r) => Err(r),
                    Ok(s2) => Ok(s2.push(self.type_ref(t))),
                },
            }
        }
    }

    /// The stack after `array.new_default`: the element type must have a
    /// default, and the length is taken.
    pub open spec fn array_new_default(self, stack: Seq<ValType>, t: u32) -> Result<
        Seq<ValType>,
        Reason,
    > {
        if self.array_reason(t) is Some {
            Err(self.array_reason(t)->0)
        } else if !self.stored(t).inner->Array_0.element_type.spec_is_defaultable() {
            Err(Reason::NonDefaultableField)
        } else {
            self.from_i32(stack, self.type_ref(t))
        }
    }

    /// The stack after `array.new_fixed`: `n` elements are taken.
    pub open spec fn array_new_fixed(self, stack: Seq<ValType>, t: u32, n: u32) -> Result<
        Seq<ValType>,
        Reason,
    > {
        if self.array_reason(t) is Some {
            Err(self.array_reason(t)->0)
        } else {
            let element = self.stored(t).inner->Array_0.element_type.spec_unpack();
            match pop_all(self.store, stack, Seq::new(n as nat, |i: int| element)) {
                Err(r) => Err(r),
                Ok(rest) => Ok(rest.push(self.type_ref(t))),
            }
        }
    }

    /// The operand stack after an instruction other than `end`, or why the
    /// instruction is refused.
    ///
    /// The constants of numbers, `ref.null` and `ref.func` are always
    /// admitted, as far as their types are. Additions, subtractions and
    /// multiplications of integers need extended constants; the instructions
    /// that make structs, arrays and `i31` references and that convert between
    /// `any` and `extern` need garbage collection; `ref.i31_shared` needs
    /// shared-everything threads. `global.get` is admitted for an immutable
    /// global, which must be imported unless garbage collection is on. Every
    /// other instruction is refused.
    pub open spec fn step(self, stack: Seq<ValType>, op: Operator) -> Result<Seq<ValType>, Reason> {
        match op {
            Operator::I32Const(_) => Ok(stack.push(ValType::I32)),
            Operator::I64Const(_) => Ok(stack.push(ValType::I64)),
            Operator::F32Const(_) => if self.module.features.has(Feature::Floats) {
                Ok(stack.push(ValType::F32))
            } else {
                Err(Reason::Disabled(Feature::Floats))
            },
            Operator::F64Const(_) => if self.module.features.has(Feature::Floats) {
                Ok(stack.push(ValType::F64))
            } else {
                Err(Reason::Disabled(Feature::Floats))
            },
            Operator::V128Const(_) => if self.module.features.has(Feature::Simd) {
                Ok(stack.push(ValType::V128))
            } else {
                Err(Reason::Disabled(Feature::Simd))
            },
            Operator::RefNull(h) => {
                let r = RefType { nullable: true, heap_type: h };
                match self.module.ref_type_reason(r) {
                    Some(reason) => Err(reason),
                    None => Ok(stack.push(ValType::Ref(self.module.resolve_ref_type(r)))),
                }
            },
            Operator::RefFunc(f) => match self.ref_func_reason(f) {
                Some(reason) => Err(reason),
                None => Ok(stack.push(self.type_ref(self.module.functions[f as int]))),
            },
            Operator::GlobalGet(g) => match self.global_reason(g) {
                Some(reason) => Err(reason),
                None => Ok(stack.push(self.module.globals[g as int].content_type)),
            },
            Operator::I32Add | Operator::I32Sub | Operator::I32Mul => match self.gate(
                Feature::ExtendedConst,
                op,
            ) {
                Some(reason) => Err(reason),
                None => self.binary(stack, ValType::I32),
            },
            Operator::I64Add | Operator::I64Sub | Operator::I64Mul => match self.gate(
                Feature::ExtendedConst,
                op,
            ) {
                Some(reason) => Err(reason),
                None => self.binary(stack, ValType::I64),
            },
            Operator::StructNew(t) => match self.gate(Feature::Gc, op) {
                Some(reason) => Err(reason),
                None => self.struct_new(stack, t),
            },
            Operator::StructNewDefault(t) => match self.gate(Feature::Gc, op) {
                Some(reason) => Err(reason),
                None => self.struct_new_default(stack, t),
            },
            Operator::ArrayNew(t) => match self.gate(Feature::Gc, op) {
                Some(reason) => Err(reason),
                None => self.array_new(stack, t),
            },
            Operator::ArrayNewDefault(t) => match self.gate(Feature::Gc, op) {
                Some(reason) => Err(reason),
                None => self.array_new_default(stack, t),
            },
            Operator::ArrayNewFixed(t, n) => match self.gate(Feature::Gc, op) {
                Some(reason) => Err(reason),
                None => self.array_new_fixed(stack, t, n),
            },
            Operator::RefI31 => match self.gate(Feature::Gc, op) {
                Some(reason) => Err(reason),
                None => self.from_i32(stack, abstract_ref(false, false, AbstractHeapType::I31)),
            },
            Operator::RefI31Shared => match self.gate(Feature::SharedEverythingThreads, op) {
                Some(reason) => Err(reason),
                None => self.from_i32(stack, abstract_ref(false, true, AbstractHeapType::I31)),
            },
            Operator::ExternConvertAny => match self.gate(Feature::Gc, op) {
                Some(reason) => Err(reason),
                None => self.convert(stack, AbstractHeapType::Any, AbstractHeapType::Extern),
            },
            Operator::AnyConvertExtern => match self.gate(Feature::Gc, op) {
                Some(reason) => Err(reason),
                None => self.convert(stack, AbstractHeapType::Extern, AbstractHeapType::Any),
            },
            _ => Err(Reason::NonConstant(op)),
        }
    }

    /// Why `end` is refused, if it is: the stack must hold one value of the
    /// expected type and nothing else.
    pub open spec fn finish(self, stack: Seq<ValType>, expected: ValType) -> Option<Reason> {
        match pop_expect(self.store, stack, expected) {
            Err(r) => Some(r),
            Ok(rest) => if rest.len() > 0 {
                Some(Reason::ValuesRemaining)
            } else {
                None
            },
        }
    }

    /// The first failure of the instructions from position `i` on, started
    /// with the operand stack `stack`; `None` where they are accepted. The
    /// expression must finish with its only `end`; `start` is where it begins.
    pub open spec fn run(
        self,
        expected: ValType,
        start: usize,
        stack: Seq<ValType>,
        ops: Seq<ConstOp>,
        i: int,
    ) -> Option<BinaryReaderError>
        decreases ops.len() - i,
    {
        if i < 0 || i >= ops.len() {
            Some(BinaryReaderError { reason: Reason::MissingEnd, offset: start })
        } else if ops[i].op is End {
            match self.finish(stack, expected) {
                Some(reason) => Some(BinaryReaderError { reason, offset: ops[i].offset }),
                None => if i + 1 < ops.len() {
                    Some(
                        BinaryReaderError {
                            reason: Reason::OperatorsAfterEnd,
                            offset: ops[i + 1].offset,
                        },
                    )
                } else {
                    None
                },
            }
        } else {
            match self.step(stack, ops[i].op) {
                Err(reason) => Some(BinaryReaderError { reason, offset: ops[i].offset }),
                Ok(next) => self.run(expected, start, next, ops, i + 1),
            }
        }
    }

    /// The first failure of an initializer that must give a value of the
    /// type `expected`; `None` where it is accepted.
    pub open spec fn error(self, expected: ValType, start: usize, ops: Seq<ConstOp>) -> Option<
        BinaryReaderError,
    > {
        self.run(expected, start, Seq::empty(), ops, 0)
    }
}

/// What an initializer in a module is checked against.
pub open spec fn const_context(module: ModuleView, store: Seq<SubTypeView>, record: bool)
    -> ConstContext {
    ConstContext { module, store, record }
}

/// The result that is `Ok(())` where `error` is `None`, and `error` otherwise.
pub open spec fn outcome(error: Option<BinaryReaderError>) -> Result<(), BinaryReaderError> {
    match error {
        None => Ok(()),
        Some(e) => Err(e),
    }
}

} // verus!

verus! {

/// An accepted initializer takes references only where they are recorded, and
/// only to functions that exist.
pub proof fn lemma_accepted_references(
    ctx: ConstContext,
    expected: ValType,
    start: usize,
    stack: Seq<ValType>,
    ops: Seq<ConstOp>,
    i: int,
)
    requires
        0 <= i,
        ctx.run(expected, start, stack, ops, i) is None,
    ensures
        forall|j: int|
            i <= j < ops.len() && (#[trigger] ops[j]).op is RefFunc ==> ctx.record
                && ops[j].op->RefFunc_0 < ctx.module.functions.len(),
    decreases ops.len() - i,
{
    if i < ops.len() && !(ops[i].op is End) {
        match ctx.step(stack, ops[i].op) {
            Ok(next) => {
                lemma_accepted_references(ctx, expected, start, next, ops, i + 1);
            },
            Err(_) => {},
        }
    }
}

/// The functions that an accepted initializer refers to exist, and it refers
/// to none where references are not recorded.
pub proof fn lemma_accepted_refs_exist(
    ctx: ConstContext,
    expected: ValType,
    start: usize,
    ops: Seq<ConstOp>,
)
    requires
        ctx.error(expected, start, ops) is None,
    ensures
        forall|f: u32| #[trigger]
            referenced_functions(ops).contains(f) ==> ctx.record && f
                < ctx.module.functions.len(),
        !ctx.record ==> referenced_functions(ops) =~= Set::<u32>::empty(),
{
    lemma_accepted_references(ctx, expected, start, Seq::empty(), ops, 0);
}

} // verus!
