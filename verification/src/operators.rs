//! The instructions that can occur in an initializer expression.

use vstd::prelude::*;
use crate::types::HeapType;

verus! {

/// An instruction. The constant instructions are all here; of the others, the
/// ones without a block or a memory argument.
#[derive(Clone, Copy, Debug, PartialEq, Eq, Structural)]
pub enum Operator {
    I32Const(i32),
    I64Const(i64),
    /// `f32.const`, with the bits of the number.
    F32Const(u32),
    /// `f64.const`, with the bits of the number.
    F64Const(u64),
    V128Const(u128),
    RefNull(HeapType),
    RefFunc(u32),
    End,
    I32Add,
    I32Sub,
    I32Mul,
    I64Add,
    I64Sub,
    I64Mul,
    StructNew(u32),
    StructNewDefault(u32),
    ArrayNew(u32),
    ArrayNewDefault(u32),
    /// `array.new_fixed`, with the array type and the number of elements.
    ArrayNewFixed(u32, u32),
    RefI31,
    RefI31Shared,
    ExternConvertAny,
    AnyConvertExtern,
    GlobalGet(u32),
    Unreachable,
    Nop,
    Return,
    Drop,
    Select,
    Call(u32),
    LocalGet(u32),
    LocalSet(u32),
    LocalTee(u32),
    GlobalSet(u32),
    RefIsNull,
    RefAsNonNull,
    I32Eqz,
    I32Eq,
    I32DivS,
    I32And,
    I64Eqz,
    I64DivS,
    I32WrapI64,
    I64ExtendI32S,
    TableGet(u32),
    TableSize(u32),
    MemorySize(u32),
}

/// An instruction with its position in the input.
#[derive(Clone, Copy, Debug, PartialEq, Eq, Structural)]
pub struct ConstOp {
    pub offset: usize,
    pub op: Operator,
}

/// An initializer expression: the instructions up to and including its `end`.
#[derive(Clone, Debug)]
pub struct ConstExpr {
    /// The position in the input at which the expression begins.
    pub offset: usize,
    pub ops: Vec<ConstOp>,
}

impl View for ConstExpr {
    type V = Seq<ConstOp>;

    open spec fn view(&self) -> Seq<ConstOp> {
        self.ops@
    }
}

} // verus!
