//! Reading numbers and names from the bytes of a binary.
//!
//! Every reader takes the bytes and a position, and gives what stands there
//! together with the position after it, or the failure with the position at
//! which it was found.

use vstd::prelude::*;
use vstd::slice::slice_subrange;
use vstd::utf8::{decode_utf8, valid_utf8};
use crate::error::{BinaryReaderError, Reason};
use crate::limits::MAX_WASM_STRING_SIZE;

verus! {

/// The failure `reason` at the position `pos`.
pub open spec fn failed<T>(reason: Reason, pos: usize) -> Result<T, BinaryReaderError> {
    Err(BinaryReaderError { reason, offset: pos })
}

/// The byte at `pos`.
pub open spec fn byte_at(s: Seq<u8>, pos: usize) -> Result<(u8, usize), BinaryReaderError> {
    if pos < s.len() {
        Ok((s[pos as int], (pos + 1) as usize))
    } else {
        failed(Reason::UnexpectedEof, pos)
    }
}

/// The bound on a number in `n` bytes of seven bits each, of which the last
/// may hold a number under `last`.
pub open spec fn leb_bound(n: nat, last: int) -> int
    decreases n,
{
    if n <= 1 {
        last
    } else {
        128 * leb_bound((n - 1) as nat, last)
    }
}

/// The unsigned number at `pos` in the variable-length encoding: seven bits
/// in each byte, the lowest first; the highest bit of a byte says that
/// another byte follows. At most `n` bytes are allowed, and the last of them
/// must be under `last`.
pub open spec fn leb_unsigned(s: Seq<u8>, pos: usize, n: nat, last: int) -> Result<
    (u64, usize),
    BinaryReaderError,
>
    decreases n,
{
    if pos >= s.len() {
        failed(Reason::UnexpectedEof, pos)
    } else {
        let b = s[pos as int];
        let low = (b % 128) as int;
        if n <= 1 {
            if b >= 128 {
                failed(Reason::IntegerTooLong, pos)
            } else if low >= last {
                failed(Reason::IntegerTooLarge, pos)
            } else {
                Ok((low as u64, (pos + 1) as usize))
            }
        } else if b < 128 {
            Ok((low as u64, (pos + 1) as usize))
        } else {
            match leb_unsigned(s, (pos + 1) as usize, (n - 1) as nat, last) {
                Err(e) => Err(e),
                Ok((rest, next)) => Ok(((low + 128 * rest) as u64, next)),
            }
        }
    }
}

/// The signed number at `pos` in the variable-length encoding. The sixth bit
/// of the last byte gives the sign. At most `n` bytes are allowed, and the
/// last of them must be under `last` or, for a negative number, at least
/// `128 - last`.
pub open spec fn leb_signed(s: Seq<u8>, pos: usize, n: nat, last: int) -> Result<
    (i64, usize),
    BinaryReaderError,
>
    decreases n,
{
    if pos >= s.len() {
        failed(Reason::UnexpectedEof, pos)
    } else {
        let b = s[pos as int];
        let low = (b % 128) as int;
        if n <= 1 {
            if b >= 128 {
                failed(Reason::IntegerTooLong, pos)
            } else if low < last {
                Ok((low as i64, (pos + 1) as usize))
            } else if low >= 128 - last {
                Ok(((low - 128) as i64, (pos + 1) as usize))
            } else {
                failed(Reason::IntegerTooLarge, pos)
            }
        } else if b < 128 {
            Ok(
                (
                    if low >= 64 {
                        (low - 128) as i64
                    } else {
                        low as i64
                    },
                    (pos + 1) as usize,
                ),
            )
        } else {
            match leb_signed(s, (pos + 1) as usize, (n - 1) as nat, last) {
                Err(e) => Err(e),
                Ok((rest, next)) => Ok(((low + 128 * rest) as i64, next)),
            }
        }
    }
}

/// The `u32` at `pos` in the variable-length encoding.
pub open spec fn var_u32(s: Seq<u8>, pos: usize) -> Result<(u32, usize), BinaryReaderError> {
    match leb_unsigned(s, pos, 5, 16) {
        Ok((v, next)) => Ok((v as u32, next)),
        Err(e) => Err(e),
    }
}

/// The `u64` at `pos` in the variable-length encoding.
pub open spec fn var_u64(s: Seq<u8>, pos: usize) -> Result<(u64, usize), BinaryReaderError> {
    leb_unsigned(s, pos, 10, 2)
}

/// The `i32` at `pos` in the variable-length encoding.
pub open spec fn var_s32(s: Seq<u8>, pos: usize) -> Result<(i32, usize), BinaryReaderError> {
    match leb_signed(s, pos, 5, 8) {
        Ok((v, next)) => Ok((v as i32, next)),
        Err(e) => Err(e),
    }
}

/// The `i64` at `pos` in the variable-length encoding.
pub open spec fn var_s64(s: Seq<u8>, pos: usize) -> Result<(i64, usize), BinaryReaderError> {
    leb_signed(s, pos, 10, 1)
}

/// The signed number of 33 bits at `pos` in the variable-length encoding.
pub open spec fn var_s33(s: Seq<u8>, pos: usize) -> Result<(i64, usize), BinaryReaderError> {
    leb_signed(s, pos, 5, 16)
}

/// The number that the `n` bytes from `pos` on hold, the lowest byte first.
pub open spec fn little_endian(s: Seq<u8>, pos: int, n: nat) -> int
    decreases n,
{
    if n == 0 {
        0
    } else {
        s[pos] + 256 * little_endian(s, pos + 1, (n - 1) as nat)
    }
}

/// The `u32` in the four bytes at `pos`.
pub open spec fn fixed_u32(s: Seq<u8>, pos: usize) -> Result<(u32, usize), BinaryReaderError> {
    if pos + 4 <= s.len() {
        Ok((little_endian(s, pos as int, 4) as u32, (pos + 4) as usize))
    } else {
        failed(Reason::UnexpectedEof, pos)
    }
}

/// The `u64` in the eight bytes at `pos`.
pub open spec fn fixed_u64(s: Seq<u8>, pos: usize) -> Result<(u64, usize), BinaryReaderError> {
    if pos + 8 <= s.len() {
        Ok((little_endian(s, pos as int, 8) as u64, (pos + 8) as usize))
    } else {
        failed(Reason::UnexpectedEof, pos)
    }
}

/// The `u128` in the sixteen bytes at `pos`.
pub open spec fn fixed_u128(s: Seq<u8>, pos: usize) -> Result<(u128, usize), BinaryReaderError> {
    if pos + 16 <= s.len() {
        Ok(
            (
                (little_endian(s, pos as int, 8) + 0x1_0000_0000_0000_0000 * little_endian(
                    s,
                    pos + 8,
                    8,
                )) as u128,
                (pos + 16) as usize,
            ),
        )
    } else {
        failed(Reason::UnexpectedEof, pos)
    }
}

/// The name at `pos`: its length in bytes, and then its bytes, which must be
/// UTF-8.
pub open spec fn name_at(s: Seq<u8>, pos: usize) -> Result<(Seq<char>, usize), BinaryReaderError> {
    match var_u32(s, pos) {
        Err(e) => Err(e),
        Ok((len, start)) => if len > MAX_WASM_STRING_SIZE {
            failed(Reason::StringTooLong, pos)
        } else if start + len > s.len() {
            failed(Reason::UnexpectedEof, start)
        } else if !valid_utf8(s.subrange(start as int, start + len)) {
            failed(Reason::InvalidUtf8, start)
        } else {
            Ok((decode_utf8(s.subrange(start as int, start + len)), (start + len) as usize))
        },
    }
}

/// The bound does not fall as bytes are added.
pub proof fn lemma_leb_bound_grows(n: nat, last: int)
    requires
        0 < last,
    ensures
        leb_bound(n, last) >= last,
        n > 1 ==> leb_bound(n, last) >= 128 * last,
    decreases n,
{
    if n > 1 {
        lemma_leb_bound_grows((n - 1) as nat, last);
    }
}

/// Reads the byte at `pos`.
pub fn read_u8(data: &[u8], pos: usize) -> (res: Result<(u8, usize), BinaryReaderError>)
    ensures
        res == byte_at(data@, pos),
        res is Ok ==> pos < res->Ok_0.1 <= data@.len(),
{
    if pos < data.len() {
        Ok((data[pos], pos + 1))
    } else {
        Err(BinaryReaderError::new(Reason::UnexpectedEof, pos))
    }
}

/// Reads an unsigned number in the variable-length encoding.
pub fn read_leb_unsigned(data: &[u8], pos: usize, n: u32, last: u8) -> (res: Result<
    (u64, usize),
    BinaryReaderError,
>)
    requires
        0 < last <= 128,
        leb_bound(n as nat, last as int) <= 0x1_0000_0000_0000_0000,
    ensures
        res == leb_unsigned(data@, pos, n as nat, last as int),
        res is Ok ==> res->Ok_0.0 < leb_bound(n as nat, last as int) && pos < res->Ok_0.1
            <= data@.len(),
    decreases n,
{
    if pos >= data.len() {
        return Err(BinaryReaderError::new(Reason::UnexpectedEof, pos));
    }
    let b: u8 = data[pos];
    let low: u8 = b % 128;
    if n <= 1 {
        if b >= 128 {
            Err(BinaryReaderError::new(Reason::IntegerTooLong, pos))
        } else if low >= last {
            Err(BinaryReaderError::new(Reason::IntegerTooLarge, pos))
        } else {
            Ok((low as u64, pos + 1))
        }
    } else if b < 128 {
        proof {
            lemma_leb_bound_grows(n as nat, last as int);
        }
        Ok((low as u64, pos + 1))
    } else {
        proof {
            lemma_leb_bound_grows((n - 1) as nat, last as int);
        }
        let (rest, next) = read_leb_unsigned(data, pos + 1, n - 1, last)?;
        Ok((low as u64 + 128 * rest, next))
    }
}

/// Reads a signed number in the variable-length encoding.
pub fn read_leb_signed(data: &[u8], pos: usize, n: u32, last: u8) -> (res: Result<
    (i64, usize),
    BinaryReaderError,
>)
    requires
        0 < last <= 64,
        leb_bound(n as nat, last as int) <= 0x8000_0000_0000_0000,
    ensures
        res == leb_signed(data@, pos, n as nat, last as int),
        res is Ok ==> -leb_bound(n as nat, last as int) <= res->Ok_0.0 < leb_bound(
            n as nat,
            last as int,
        ) && pos < res->Ok_0.1 <= data@.len(),
    decreases n,
{
    if pos >= data.len() {
        return Err(BinaryReaderError::new(Reason::UnexpectedEof, pos));
    }
    let b: u8 = data[pos];
    let low: u8 = b % 128;
    proof {
        lemma_leb_bound_grows(n as nat, last as int);
    }
    if n <= 1 {
        if b >= 128 {
            Err(BinaryReaderError::new(Reason::IntegerTooLong, pos))
        } else if low < last {
            Ok((low as i64, pos + 1))
        } else if low >= 128 - last {
            Ok((low as i64 - 128, pos + 1))
        } else {
            Err(BinaryReaderError::new(Reason::IntegerTooLarge, pos))
        }
    } else if b < 128 {
        if low >= 64 {
            Ok((low as i64 - 128, pos + 1))
        } else {
            Ok((low as i64, pos + 1))
        }
    } else {
        proof {
            lemma_leb_bound_grows((n - 1) as nat, last as int);
        }
        let (rest, next) = read_leb_signed(data, pos + 1, n - 1, last)?;
        Ok((low as i64 + 128 * rest, next))
    }
}

/// The bounds of the numbers of 32, 33 and 64 bits.
pub proof fn lemma_leb_bounds()
    ensures
        leb_bound(5, 16) == 0x1_0000_0000,
        leb_bound(10, 2) == 0x1_0000_0000_0000_0000,
        leb_bound(5, 8) == 0x8000_0000,
        leb_bound(10, 1) == 0x8000_0000_0000_0000,
{
    reveal_with_fuel(leb_bound, 11);
}

/// Reads a `u32` in the variable-length encoding.
pub fn read_var_u32(data: &[u8], pos: usize) -> (res: Result<(u32, usize), BinaryReaderError>)
    ensures
        res == var_u32(data@, pos),
        res is Ok ==> pos < res->Ok_0.1 <= data@.len(),
{
    proof {
        lemma_leb_bounds();
    }
    let (v, next) = read_leb_unsigned(data, pos, 5, 16)?;
    Ok((v as u32, next))
}

/// Reads a `u64` in the variable-length encoding.
pub fn read_var_u64(data: &[u8], pos: usize) -> (res: Result<(u64, usize), BinaryReaderError>)
    ensures
        res == var_u64(data@, pos),
        res is Ok ==> pos < res->Ok_0.1 <= data@.len(),
{
    proof {
        lemma_leb_bounds();
    }
    read_leb_unsigned(data, pos, 10, 2)
}

/// Reads an `i32` in the variable-length encoding.
pub fn read_var_s32(data: &[u8], pos: usize) -> (res: Result<(i32, usize), BinaryReaderError>)
    ensures
        res == var_s32(data@, pos),
        res is Ok ==> pos < res->Ok_0.1 <= data@.len(),
{
    proof {
        lemma_leb_bounds();
    }
    let (v, next) = read_leb_signed(data, pos, 5, 8)?;
    Ok((v as i32, next))
}

/// Reads an `i64` in the variable-length encoding.
pub fn read_var_s64(data: &[u8], pos: usize) -> (res: Result<(i64, usize), BinaryReaderError>)
    ensures
        res == var_s64(data@, pos),
        res is Ok ==> pos < res->Ok_0.1 <= data@.len(),
{
    proof {
        lemma_leb_bounds();
    }
    read_leb_signed(data, pos, 10, 1)
}

/// Reads a signed number of 33 bits in the variable-length encoding.
pub fn read_var_s33(data: &[u8], pos: usize) -> (res: Result<(i64, usize), BinaryReaderError>)
    ensures
        res == var_s33(data@, pos),
        res is Ok ==> pos < res->Ok_0.1 <= data@.len() && -0x1_0000_0000 <= res->Ok_0.0
            < 0x1_0000_0000,
{
    proof {
        lemma_leb_bounds();
    }
    read_leb_signed(data, pos, 5, 16)
}

/// The bound on a number in `n` bytes.
pub open spec fn little_endian_bound(n: nat) -> int
    decreases n,
{
    if n == 0 {
        1
    } else {
        256 * little_endian_bound((n - 1) as nat)
    }
}

/// The bounds of the numbers in up to eight bytes.
pub proof fn lemma_little_endian_bounds()
    ensures
        little_endian_bound(0) == 1,
        little_endian_bound(1) == 0x100,
        little_endian_bound(2) == 0x1_0000,
        little_endian_bound(3) == 0x100_0000,
        little_endian_bound(4) == 0x1_0000_0000,
        little_endian_bound(5) == 0x100_0000_0000,
        little_endian_bound(6) == 0x1_0000_0000_0000,
        little_endian_bound(7) == 0x100_0000_0000_0000,
        little_endian_bound(8) == 0x1_0000_0000_0000_0000,
{
    reveal_with_fuel(little_endian_bound, 9);
}

/// Reads the number in the `n` bytes at `pos`, the lowest byte first.
fn read_little_endian(data: &[u8], pos: usize, n: u8) -> (v: u64)
    requires
        pos + n <= data@.len() <= usize::MAX,
        n <= 8,
    ensures
        v == little_endian(data@, pos as int, n as nat),
        v < little_endian_bound(n as nat),
    decreases n,
{
    proof {
        lemma_little_endian_bounds();
    }
    if n == 0 {
        0
    } else {
        let rest = read_little_endian(data, pos + 1, n - 1);
        data[pos] as u64 + 256 * rest
    }
}

/// Reads the `u32` in the four bytes at `pos`.
pub fn read_fixed_u32(data: &[u8], pos: usize) -> (res: Result<(u32, usize), BinaryReaderError>)
    ensures
        res == fixed_u32(data@, pos),
        res is Ok ==> pos < res->Ok_0.1 <= data@.len(),
{
    if data.len() < 4 || pos > data.len() - 4 {
        return Err(BinaryReaderError::new(Reason::UnexpectedEof, pos));
    }
    proof {
        lemma_little_endian_bounds();
    }
    let v = read_little_endian(data, pos, 4);
    Ok((v as u32, pos + 4))
}

/// Reads the `u64` in the eight bytes at `pos`.
pub fn read_fixed_u64(data: &[u8], pos: usize) -> (res: Result<(u64, usize), BinaryReaderError>)
    ensures
        res == fixed_u64(data@, pos),
        res is Ok ==> pos < res->Ok_0.1 <= data@.len(),
{
    if data.len() < 8 || pos > data.len() - 8 {
        return Err(BinaryReaderError::new(Reason::UnexpectedEof, pos));
    }
    let v = read_little_endian(data, pos, 8);
    Ok((v, pos + 8))
}

/// Reads the `u128` in the sixteen bytes at `pos`.
pub fn read_fixed_u128(data: &[u8], pos: usize) -> (res: Result<(u128, usize), BinaryReaderError>)
    ensures
        res == fixed_u128(data@, pos),
        res is Ok ==> pos < res->Ok_0.1 <= data@.len(),
{
    if data.len() < 16 || pos > data.len() - 16 {
        return Err(BinaryReaderError::new(Reason::UnexpectedEof, pos));
    }
    proof {
        lemma_little_endian_bounds();
    }
    let low = read_little_endian(data, pos, 8);
    let high = read_little_endian(data, pos + 8, 8);
    Ok((low as u128 + 0x1_0000_0000_0000_0000 * (high as u128), pos + 16))
}

/// The text that bytes encode in UTF-8, if they encode any.
///
/// Wraps `String::from_utf8`, which gives the string whose UTF-8 encoding
/// the bytes are, and fails exactly where the bytes are not valid UTF-8.
#[verifier::external_body]
pub(crate) fn utf8_string(bytes: &[u8]) -> (text: Option<String>)
    ensures
        match text {
            Some(t) => valid_utf8(bytes@) && t@ == decode_utf8(bytes@),
            None => !valid_utf8(bytes@),
        },
{
    String::from_utf8(bytes.to_vec()).ok()
}

/// Reads a name: its length in bytes, and then its bytes in UTF-8.
pub fn read_string(data: &[u8], pos: usize) -> (res: Result<(String, usize), BinaryReaderError>)
    ensures
        match name_at(data@, pos) {
            Ok((text, next)) => res is Ok && res->Ok_0.0@ == text && res->Ok_0.1 == next,
            Err(e) => res is Err && res->Err_0 == e,
        },
        res is Ok ==> pos < res->Ok_0.1 <= data@.len(),
{
    let (len, start) = read_var_u32(data, pos)?;
    if len as usize > MAX_WASM_STRING_SIZE {
        return Err(BinaryReaderError::new(Reason::StringTooLong, pos));
    }
    if len as usize > data.len() - start {
        return Err(BinaryReaderError::new(Reason::UnexpectedEof, start));
    }
    let bytes = slice_subrange(data, start, start + len as usize);
    match utf8_string(bytes) {
        Some(text) => Ok((text, start + len as usize)),
        None => Err(BinaryReaderError::new(Reason::InvalidUtf8, start)),
    }
}

} // verus!
