//! The declarations of a function body.
//!
//! A body begins with the declarations of its locals, in groups of a number
//! and a type, and goes on with its instructions, of which the last is
//! `end`. The declarations are checked here. The instructions are not: they
//! are for a checker of instructions, which gets the frozen module for it.

use vstd::prelude::*;
use crate::decode_types::{Read, read_val_type, val_type_at};
use crate::error::{BinaryReaderError, IndexSpace, Reason};
use crate::limits::MAX_WASM_FUNCTION_LOCALS;
use crate::module::ModuleView;
use crate::reader::{read_var_u32, var_u32};
use crate::resources::ValidatorResources;
use crate::types::ValType;

verus! {

/// A failure in a body, at its position in the binary: `offset` is where
/// the body begins.
pub open spec fn in_binary(e: BinaryReaderError, offset: usize) -> BinaryReaderError {
    BinaryReaderError { reason: e.reason, offset: (offset + e.offset) as usize }
}

/// The number of locals after `groups` more groups of declarations from
/// `pos` on, where `total` were declared before; or the first failure: a
/// group that cannot be read, more locals than a function may have, or a
/// type that the module does not admit.
pub open spec fn locals_at(
    m: ModuleView,
    s: Seq<u8>,
    pos: usize,
    groups: nat,
    total: u32,
    offset: usize,
) -> Read<u32>
    decreases groups,
{
    if groups == 0 {
        Ok((total, pos))
    } else {
        match var_u32(s, pos) {
            Err(e) => Err(in_binary(e, offset)),
            Ok((count, next)) => if total + count > MAX_WASM_FUNCTION_LOCALS {
                Err(
                    BinaryReaderError {
                        reason: Reason::TooMany(IndexSpace::Locals),
                        offset: (offset + pos) as usize,
                    },
                )
            } else {
                match val_type_at(s, next) {
                    Err(e) => Err(in_binary(e, offset)),
                    Ok((ty, end)) => match m.value_type_reason(ty) {
                        Some(reason) => Err(
                            BinaryReaderError { reason, offset: (offset + next) as usize },
                        ),
                        None => locals_at(
                            m,
                            s,
                            end,
                            (groups - 1) as nat,
                            (total + count) as u32,
                            offset,
                        ),
                    },
                }
            },
        }
    }
}

/// The number of locals that a body declares, or the first failure of its
/// declarations. The body must finish with `end`.
pub open spec fn declared_locals(m: ModuleView, s: Seq<u8>, offset: usize) -> Result<
    u32,
    BinaryReaderError,
> {
    match var_u32(s, 0) {
        Err(e) => Err(in_binary(e, offset)),
        Ok((groups, start)) => match locals_at(m, s, start, groups as nat, 0, offset) {
            Err(e) => Err(e),
            Ok((total, end)) => if end >= s.len() || s.last() != 0x0b {
                Err(BinaryReaderError { reason: Reason::MissingEnd, offset })
            } else {
                Ok(total)
            },
        },
    }
}

/// Moves a failure in a body to its position in the binary.
fn moved(e: BinaryReaderError, offset: usize, Ghost(len): Ghost<nat>) -> (r: BinaryReaderError)
    requires
        e.offset <= len,
        offset + len <= usize::MAX,
    ensures
        r == in_binary(e, offset),
{
    BinaryReaderError { reason: e.reason, offset: offset + e.offset }
}

impl ValidatorResources {
    /// Checks the declarations of the locals of a function body that begins
    /// at `offset` in the binary, and returns the number of locals: each
    /// type must be admitted by the module, a function may not have too many
    /// locals, and the body must finish with `end`.
    pub fn check_locals(&self, body: &[u8], offset: usize) -> (res: Result<
        u32,
        BinaryReaderError,
    >)
        requires
            offset + body@.len() <= usize::MAX,
        ensures
            res == declared_locals(self@, body@, offset),
    {
        let (groups, start) = match read_var_u32(body, 0) {
            Ok(x) => x,
            Err(e) => {
                proof {
                    lemma_failure_in_bytes_u32(body@, 0);
                }
                return Err(moved(e, offset, Ghost(body@.len())));
            },
        };
        let mut at: usize = start;
        let mut total: u32 = 0;
        let mut i: u32 = 0;
        while i < groups
            invariant
                i <= groups,
                at <= body@.len(),
                total <= MAX_WASM_FUNCTION_LOCALS,
                offset + body@.len() <= usize::MAX,
                var_u32(body@, 0) == Ok::<(u32, usize), BinaryReaderError>((groups, start)),
                locals_at(self@, body@, start, groups as nat, 0, offset) == locals_at(
                    self@,
                    body@,
                    at,
                    (groups - i) as nat,
                    total,
                    offset,
                ),
            decreases groups - i,
        {
            let (count, next) = match read_var_u32(body, at) {
                Ok(x) => x,
                Err(e) => {
                    proof {
                        lemma_failure_in_bytes_u32(body@, at);
                    }
                    return Err(moved(e, offset, Ghost(body@.len())));
                },
            };
            if count > MAX_WASM_FUNCTION_LOCALS - total {
                return Err(
                    BinaryReaderError::new(Reason::TooMany(IndexSpace::Locals), offset + at),
                );
            }
            let (ty, end) = match read_val_type(body, next) {
                Ok(x) => x,
                Err(e) => {
                    proof {
                        lemma_failure_in_bytes_val(body@, next);
                    }
                    return Err(moved(e, offset, Ghost(body@.len())));
                },
            };
            let mut resolved: ValType = ty;
            self.0.check_value_type(&mut resolved, offset + next)?;
            total = total + count;
            at = end;
            i += 1;
        }
        if at >= body.len() || body[body.len() - 1] != 0x0b {
            return Err(BinaryReaderError::new(Reason::MissingEnd, offset));
        }
        Ok(total)
    }
}

/// A number that cannot be read fails inside the bytes or at their end.
pub proof fn lemma_failure_in_bytes_u32(s: Seq<u8>, pos: usize)
    requires
        pos <= s.len(),
    ensures
        var_u32(s, pos) is Err ==> var_u32(s, pos)->Err_0.offset <= s.len(),
{
    lemma_failure_in_bytes_leb(s, pos, 5, 16);
}

/// A number that cannot be read fails inside the bytes or at their end.
pub proof fn lemma_failure_in_bytes_leb(s: Seq<u8>, pos: usize, n: nat, last: int)
    requires
        pos <= s.len(),
    ensures
        crate::reader::leb_unsigned(s, pos, n, last) is Err ==> crate::reader::leb_unsigned(
            s,
            pos,
            n,
            last,
        )->Err_0.offset <= s.len(),
    decreases n,
{
    if pos < s.len() && n > 1 && s[pos as int] >= 128 {
        lemma_failure_in_bytes_leb(s, (pos + 1) as usize, (n - 1) as nat, last);
    }
}

/// A signed number that cannot be read fails inside the bytes or at their
/// end.
pub proof fn lemma_failure_in_bytes_signed(s: Seq<u8>, pos: usize, n: nat, last: int)
    requires
        pos <= s.len(),
    ensures
        crate::reader::leb_signed(s, pos, n, last) is Err ==> crate::reader::leb_signed(
            s,
            pos,
            n,
            last,
        )->Err_0.offset <= s.len(),
    decreases n,
{
    if pos < s.len() && n > 1 && s[pos as int] >= 128 {
        lemma_failure_in_bytes_signed(s, (pos + 1) as usize, (n - 1) as nat, last);
    }
}

/// A value type that cannot be read fails inside the bytes or at their end.
pub proof fn lemma_failure_in_bytes_val(s: Seq<u8>, pos: usize)
    requires
        pos <= s.len(),
    ensures
        val_type_at(s, pos) is Err ==> val_type_at(s, pos)->Err_0.offset <= s.len(),
{
    reveal(val_type_at);
    reveal(crate::decode_types::ref_type_at);
    reveal(crate::decode_types::heap_type_at);
    if pos < s.len() {
        lemma_failure_in_bytes_signed(s, pos, 5, 16);
        lemma_failure_in_bytes_signed(s, (pos + 1) as usize, 5, 16);
    }
}

} // verus!
