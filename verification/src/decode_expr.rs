//! Reading initializer expressions from the bytes of a binary.

use vstd::prelude::*;
use crate::decode_types::{Read, heap_type_at, read_heap_type, read_on};
use crate::error::{BinaryReaderError, Reason};
use crate::operators::{ConstExpr, ConstOp, Operator};
use crate::reader::{
    byte_at, failed, fixed_u128, fixed_u32, fixed_u64, read_fixed_u128, read_fixed_u32,
    read_fixed_u64, read_u8, read_var_s32, read_var_s64, read_var_u32, var_s32, var_s64, var_u32,
};

verus! {

/// The instruction without operands that a byte stands for, if for any.
pub open spec fn spec_plain_operator(b: u8) -> Option<Operator> {
    if b == 0x00 {
        Some(Operator::Unreachable)
    } else if b == 0x01 {
        Some(Operator::Nop)
    } else if b == 0x0b {
        Some(Operator::End)
    } else if b == 0x0f {
        Some(Operator::Return)
    } else if b == 0x1a {
        Some(Operator::Drop)
    } else if b == 0x1b {
        Some(Operator::Select)
    } else if b == 0x45 {
        Some(Operator::I32Eqz)
    } else if b == 0x46 {
        Some(Operator::I32Eq)
    } else if b == 0x50 {
        Some(Operator::I64Eqz)
    } else if b == 0x6a {
        Some(Operator::I32Add)
    } else if b == 0x6b {
        Some(Operator::I32Sub)
    } else if b == 0x6c {
        Some(Operator::I32Mul)
    } else if b == 0x6d {
        Some(Operator::I32DivS)
    } else if b == 0x71 {
        Some(Operator::I32And)
    } else if b == 0x7c {
        Some(Operator::I64Add)
    } else if b == 0x7d {
        Some(Operator::I64Sub)
    } else if b == 0x7e {
        Some(Operator::I64Mul)
    } else if b == 0x7f {
        Some(Operator::I64DivS)
    } else if b == 0xa7 {
        Some(Operator::I32WrapI64)
    } else if b == 0xac {
        Some(Operator::I64ExtendI32S)
    } else if b == 0xd1 {
        Some(Operator::RefIsNull)
    } else if b == 0xd4 {
        Some(Operator::RefAsNonNull)
    } else {
        None
    }
}

#[verifier::when_used_as_spec(spec_plain_operator)]
pub fn plain_operator(b: u8) -> (op: Option<Operator>)
    ensures
        op == spec_plain_operator(b),
{
    if b == 0x00 {
        Some(Operator::Unreachable)
    } else if b == 0x01 {
        Some(Operator::Nop)
    } else if b == 0x0b {
        Some(Operator::End)
    } else if b == 0x0f {
        Some(Operator::Return)
    } else if b == 0x1a {
        Some(Operator::Drop)
    } else if b == 0x1b {
        Some(Operator::Select)
    } else if b == 0x45 {
        Some(Operator::I32Eqz)
    } else if b == 0x46 {
        Some(Operator::I32Eq)
    } else if b == 0x50 {
        Some(Operator::I64Eqz)
    } else if b == 0x6a {
        Some(Operator::I32Add)
    } else if b == 0x6b {
        Some(Operator::I32Sub)
    } else if b == 0x6c {
        Some(Operator::I32Mul)
    } else if b == 0x6d {
        Some(Operator::I32DivS)
    } else if b == 0x71 {
        Some(Operator::I32And)
    } else if b == 0x7c {
        Some(Operator::I64Add)
    } else if b == 0x7d {
        Some(Operator::I64Sub)
    } else if b == 0x7e {
        Some(Operator::I64Mul)
    } else if b == 0x7f {
        Some(Operator::I64DivS)
    } else if b == 0xa7 {
        Some(Operator::I32WrapI64)
    } else if b == 0xac {
        Some(Operator::I64ExtendI32S)
    } else if b == 0xd1 {
        Some(Operator::RefIsNull)
    } else if b == 0xd4 {
        Some(Operator::RefAsNonNull)
    } else {
        None
    }
}

/// The instruction that takes one index and that a byte stands for, if for
/// any.
pub open spec fn spec_indexed_operator(b: u8, index: u32) -> Option<Operator> {
    if b == 0x10 {
        Some(Operator::Call(index))
    } else if b == 0x20 {
        Some(Operator::LocalGet(index))
    } else if b == 0x21 {
        Some(Operator::LocalSet(index))
    } else if b == 0x22 {
        Some(Operator::LocalTee(index))
    } else if b == 0x23 {
        Some(Operator::GlobalGet(index))
    } else if b == 0x24 {
        Some(Operator::GlobalSet(index))
    } else if b == 0x25 {
        Some(Operator::TableGet(index))
    } else if b == 0x3f {
        Some(Operator::MemorySize(index))
    } else if b == 0xd2 {
        Some(Operator::RefFunc(index))
    } else {
        None
    }
}

#[verifier::when_used_as_spec(spec_indexed_operator)]
pub fn indexed_operator(b: u8, index: u32) -> (op: Option<Operator>)
    ensures
        op == spec_indexed_operator(b, index),
{
    if b == 0x10 {
        Some(Operator::Call(index))
    } else if b == 0x20 {
        Some(Operator::LocalGet(index))
    } else if b == 0x21 {
        Some(Operator::LocalSet(index))
    } else if b == 0x22 {
        Some(Operator::LocalTee(index))
    } else if b == 0x23 {
        Some(Operator::GlobalGet(index))
    } else if b == 0x24 {
        Some(Operator::GlobalSet(index))
    } else if b == 0x25 {
        Some(Operator::TableGet(index))
    } else if b == 0x3f {
        Some(Operator::MemorySize(index))
    } else if b == 0xd2 {
        Some(Operator::RefFunc(index))
    } else {
        None
    }
}

/// The instruction of garbage collection with the number `code` at `pos`,
/// after the byte `0xfb` and the number.
#[verifier::opaque]
pub open spec fn gc_operator_at(s: Seq<u8>, pos: usize, code: u32, start: usize) -> Read<
    Operator,
> {
    if code == 26 {
        Ok((Operator::AnyConvertExtern, pos))
    } else if code == 27 {
        Ok((Operator::ExternConvertAny, pos))
    } else if code == 28 {
        Ok((Operator::RefI31, pos))
    } else if code == 0 || code == 1 || code == 6 || code == 7 || code == 8 {
        match var_u32(s, pos) {
            Err(e) => Err(e),
            Ok((ty, next)) => if code == 0 {
                Ok((Operator::StructNew(ty), next))
            } else if code == 1 {
                Ok((Operator::StructNewDefault(ty), next))
            } else if code == 6 {
                Ok((Operator::ArrayNew(ty), next))
            } else if code == 7 {
                Ok((Operator::ArrayNewDefault(ty), next))
            } else {
                match var_u32(s, next) {
                    Err(e) => Err(e),
                    Ok((n, end)) => Ok((Operator::ArrayNewFixed(ty, n), end)),
                }
            },
        }
    } else {
        failed(Reason::UnknownOperator(0xfb), start)
    }
}

/// The instruction at `pos`: a byte that says which it is, for some
/// instructions a second number after one of the bytes `0xfb` to `0xfe`, and
/// then its operands.
#[verifier::opaque]
pub open spec fn operator_at(s: Seq<u8>, pos: usize) -> Read<Operator> {
    match byte_at(s, pos) {
        Err(e) => Err(e),
        Ok((b, next)) => match spec_plain_operator(b) {
            Some(op) => Ok((op, next)),
            None => if spec_indexed_operator(b, 0) is Some {
                match var_u32(s, next) {
                    Err(e) => Err(e),
                    Ok((index, end)) => Ok((spec_indexed_operator(b, index)->0, end)),
                }
            } else if b == 0x41 {
                match var_s32(s, next) {
                    Err(e) => Err(e),
                    Ok((v, end)) => Ok((Operator::I32Const(v), end)),
                }
            } else if b == 0x42 {
                match var_s64(s, next) {
                    Err(e) => Err(e),
                    Ok((v, end)) => Ok((Operator::I64Const(v), end)),
                }
            } else if b == 0x43 {
                match fixed_u32(s, next) {
                    Err(e) => Err(e),
                    Ok((v, end)) => Ok((Operator::F32Const(v), end)),
                }
            } else if b == 0x44 {
                match fixed_u64(s, next) {
                    Err(e) => Err(e),
                    Ok((v, end)) => Ok((Operator::F64Const(v), end)),
                }
            } else if b == 0xd0 {
                match heap_type_at(s, next) {
                    Err(e) => Err(e),
                    Ok((h, end)) => Ok((Operator::RefNull(h), end)),
                }
            } else if b == 0xfb || b == 0xfc || b == 0xfd || b == 0xfe {
                match var_u32(s, next) {
                    Err(e) => Err(e),
                    Ok((code, after)) => if b == 0xfb {
                        gc_operator_at(s, after, code, pos)
                    } else if b == 0xfc && code == 16 {
                        match var_u32(s, after) {
                            Err(e) => Err(e),
                            Ok((table, end)) => Ok((Operator::TableSize(table), end)),
                        }
                    } else if b == 0xfd && code == 12 {
                        match fixed_u128(s, after) {
                            Err(e) => Err(e),
                            Ok((v, end)) => Ok((Operator::V128Const(v), end)),
                        }
                    } else if b == 0xfe && code == 0x72 {
                        Ok((Operator::RefI31Shared, after))
                    } else {
                        failed(Reason::UnknownOperator(b), pos)
                    },
                }
            } else {
                failed(Reason::UnknownOperator(b), pos)
            },
        },
    }
}

/// The instructions from `pos` up to the first `end`, each with its
/// position.
pub open spec fn operators_at(s: Seq<u8>, pos: usize) -> Read<Seq<ConstOp>>
    decreases s.len() - pos,
{
    match operator_at(s, pos) {
        Err(e) => Err(e),
        Ok((op, next)) => if op is End || next <= pos || next > s.len() {
            Ok((seq![ConstOp { offset: pos, op }], next))
        } else {
            match operators_at(s, next) {
                Err(e) => Err(e),
                Ok((more, end)) => Ok((seq![ConstOp { offset: pos, op }] + more, end)),
            }
        },
    }
}

/// The mathematical value of a [`ConstExpr`].
pub struct ConstExprView {
    pub offset: usize,
    pub ops: Seq<ConstOp>,
}

impl DeepView for ConstExpr {
    type V = ConstExprView;

    open spec fn deep_view(&self) -> ConstExprView {
        ConstExprView { offset: self.offset, ops: self.ops@ }
    }
}

/// The initializer at `pos`: the instructions up to its `end`.
pub open spec fn const_expr_at(s: Seq<u8>, pos: usize) -> Read<ConstExprView> {
    match operators_at(s, pos) {
        Err(e) => Err(e),
        Ok((ops, end)) => Ok((ConstExprView { offset: pos, ops }, end)),
    }
}

fn read_gc_operator(data: &[u8], pos: usize, code: u32, start: usize) -> (res: Read<Operator>)
    requires
        start < pos <= data@.len(),
    ensures
        res == gc_operator_at(data@, pos, code, start),
        res is Ok ==> start < res->Ok_0.1 <= data@.len(),
{
    reveal(gc_operator_at);
    if code == 26 {
        Ok((Operator::AnyConvertExtern, pos))
    } else if code == 27 {
        Ok((Operator::ExternConvertAny, pos))
    } else if code == 28 {
        Ok((Operator::RefI31, pos))
    } else if code == 0 || code == 1 || code == 6 || code == 7 || code == 8 {
        let (ty, next) = read_var_u32(data, pos)?;
        if code == 0 {
            Ok((Operator::StructNew(ty), next))
        } else if code == 1 {
            Ok((Operator::StructNewDefault(ty), next))
        } else if code == 6 {
            Ok((Operator::ArrayNew(ty), next))
        } else if code == 7 {
            Ok((Operator::ArrayNewDefault(ty), next))
        } else {
            let (n, end) = read_var_u32(data, next)?;
            Ok((Operator::ArrayNewFixed(ty, n), end))
        }
    } else {
        Err(BinaryReaderError::new(Reason::UnknownOperator(0xfb), start))
    }
}

/// Reads an instruction.
pub fn read_operator(data: &[u8], pos: usize) -> (res: Read<Operator>)
    ensures
        res == operator_at(data@, pos),
        res is Ok ==> pos < res->Ok_0.1 <= data@.len(),
{
    reveal(operator_at);
    let (b, next) = read_u8(data, pos)?;
    if let Some(op) = plain_operator(b) {
        return Ok((op, next));
    }
    if indexed_operator(b, 0).is_some() {
        let (index, end) = read_var_u32(data, next)?;
        match indexed_operator(b, index) {
            Some(op) => Ok((op, end)),
            None => vstd::pervasive::unreached(),
        }
    } else if b == 0x41 {
        let (v, end) = read_var_s32(data, next)?;
        Ok((Operator::I32Const(v), end))
    } else if b == 0x42 {
        let (v, end) = read_var_s64(data, next)?;
        Ok((Operator::I64Const(v), end))
    } else if b == 0x43 {
        let (v, end) = read_fixed_u32(data, next)?;
        Ok((Operator::F32Const(v), end))
    } else if b == 0x44 {
        let (v, end) = read_fixed_u64(data, next)?;
        Ok((Operator::F64Const(v), end))
    } else if b == 0xd0 {
        let (h, end) = read_heap_type(data, next)?;
        Ok((Operator::RefNull(h), end))
    } else if b == 0xfb || b == 0xfc || b == 0xfd || b == 0xfe {
        let (code, after) = read_var_u32(data, next)?;
        if b == 0xfb {
            read_gc_operator(data, after, code, pos)
        } else if b == 0xfc && code == 16 {
            let (table, end) = read_var_u32(data, after)?;
            Ok((Operator::TableSize(table), end))
        } else if b == 0xfd && code == 12 {
            let (v, end) = read_fixed_u128(data, after)?;
            Ok((Operator::V128Const(v), end))
        } else if b == 0xfe && code == 0x72 {
            Ok((Operator::RefI31Shared, after))
        } else {
            Err(BinaryReaderError::new(Reason::UnknownOperator(b), pos))
        }
    } else {
        Err(BinaryReaderError::new(Reason::UnknownOperator(b), pos))
    }
}

/// Reads an initializer: the instructions up to its `end`.
pub fn read_const_expr(data: &[u8], pos: usize) -> (res: Read<ConstExpr>)
    ensures
        match const_expr_at(data@, pos) {
            Ok((v, end)) => res is Ok && res->Ok_0.0.deep_view() == v && res->Ok_0.1 == end,
            Err(e) => res is Err && res->Err_0 == e,
        },
        res is Ok ==> pos < res->Ok_0.1 <= data@.len(),
{
    let mut ops: Vec<ConstOp> = Vec::new();
    let mut at: usize = pos;
    assert(ops@ + operators_at(data@, pos)->Ok_0.0 =~= operators_at(data@, pos)->Ok_0.0);
    loop
        invariant
            pos <= at,
            at == pos || at <= data@.len(),
            operators_at(data@, pos) == read_on(ops@, operators_at(data@, at)),
        decreases data@.len() - at,
    {
        let ghost found = ops@;
        let (op, next) = read_operator(data, at)?;
        ops.push(ConstOp { offset: at, op });
        proof {
            match operators_at(data@, next) {
                Ok((more, end)) => {
                    assert(found + (seq![ConstOp { offset: at, op }] + more) =~= ops@ + more);
                },
                Err(_) => {},
            }
            assert(found + seq![ConstOp { offset: at, op }] =~= ops@);
        }
        if let Operator::End = op {
            return Ok((ConstExpr { offset: pos, ops }, next));
        }
        at = next;
    }
}

} // verus!
