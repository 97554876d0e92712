//! Implementation limits on the size of a module.

use vstd::prelude::*;
use crate::error::{BinaryReaderError, IndexSpace, Reason};

verus! {

pub const MAX_WASM_TYPES: usize = 1_000_000;

pub const MAX_WASM_FUNCTIONS: usize = 1_000_000;

pub const MAX_WASM_IMPORTS: usize = 1_000_000;

pub const MAX_WASM_EXPORTS: usize = 1_000_000;

pub const MAX_WASM_GLOBALS: usize = 1_000_000;

pub const MAX_WASM_ELEMENT_SEGMENTS: usize = 100_000;

pub const MAX_WASM_DATA_SEGMENTS: usize = 100_000;

pub const MAX_WASM_FUNCTION_PARAMS: usize = 1000;

pub const MAX_WASM_FUNCTION_RETURNS: usize = 1000;

pub const MAX_WASM_TABLE_ENTRIES: usize = 10_000_000;

pub const MAX_WASM_TABLES: usize = 100;

pub const MAX_WASM_MEMORIES: usize = 100;

pub const MAX_WASM_TAGS: usize = 1_000_000;

pub const MAX_WASM_STRUCT_FIELDS: usize = 10_000;

pub const MAX_WASM_STRING_SIZE: usize = 100_000;

pub const MAX_WASM_FUNCTION_LOCALS: u32 = 50_000;

/// Bytes in a memory page unless the memory declares another size.
pub const DEFAULT_WASM_PAGE_SIZE: u64 = 0x1_0000;

/// Strict upper bound on the accumulated size of the types a module declares,
/// imports and exports.
pub const MAX_TYPE_SIZE: u32 = 1_000_000;

/// Number of pages of `2^page_size_log2` bytes that fill a 32-bit address space.
pub open spec fn memory32_pages(page_size_log2: u32) -> u64 {
    if page_size_log2 == 0 {
        0x1_0000_0000
    } else {
        0x1_0000
    }
}

/// Number of pages of `2^page_size_log2` bytes that a 64-bit memory may have:
/// the whole address space, capped at what a `u64` holds.
pub open spec fn memory64_pages(page_size_log2: u32) -> u64 {
    if page_size_log2 == 0 {
        u64::MAX
    } else {
        0x1_0000_0000_0000
    }
}

/// Page ceiling of a 32-bit memory. Only one-byte and 64 KiB pages exist.
pub fn max_wasm_memory32_pages(page_size_log2: u32) -> (pages: u64)
    requires
        page_size_log2 == 0 || page_size_log2 == 16,
    ensures
        pages == memory32_pages(page_size_log2),
{
    if page_size_log2 == 0 {
        0x1_0000_0000
    } else {
        0x1_0000
    }
}

/// Page ceiling of a 64-bit memory. Only one-byte and 64 KiB pages exist.
pub fn max_wasm_memory64_pages(page_size_log2: u32) -> (pages: u64)
    requires
        page_size_log2 == 0 || page_size_log2 == 16,
    ensures
        pages == memory64_pages(page_size_log2),
{
    if page_size_log2 == 0 {
        u64::MAX
    } else {
        0x1_0000_0000_0000
    }
}

/// Whether `added` more entries fit into a space that holds `len` entries and
/// may hold `max`.
pub open spec fn fits(len: int, added: int, max: int) -> bool {
    len + added <= max
}

/// Checks that an index space with `len` entries has room for `added` more.
pub fn check_max(len: usize, added: usize, max: usize, space: IndexSpace, offset: usize) -> (res:
    Result<(), BinaryReaderError>)
    ensures
        res == if fits(len as int, added as int, max as int) {
            Ok::<(), BinaryReaderError>(())
        } else {
            Err(BinaryReaderError { reason: Reason::TooMany(space), offset })
        },
{
    if len <= max && added <= max - len {
        Ok(())
    } else {
        Err(BinaryReaderError { reason: Reason::TooMany(space), offset })
    }
}

/// The sum of two type sizes, where it stays under [`MAX_TYPE_SIZE`].
pub open spec fn combined_size(a: u32, b: u32) -> Option<u32> {
    if a + b < MAX_TYPE_SIZE {
        Some((a + b) as u32)
    } else {
        None
    }
}

/// Adds two type sizes; the sum must stay under [`MAX_TYPE_SIZE`].
pub fn combine_type_sizes(a: u32, b: u32, offset: usize) -> (res: Result<u32, BinaryReaderError>)
    ensures
        res == match combined_size(a, b) {
            Some(sum) => Ok::<u32, BinaryReaderError>(sum),
            None => Err(BinaryReaderError { reason: Reason::TypeSizeExceeded, offset }),
        },
{
    if a < MAX_TYPE_SIZE && b < MAX_TYPE_SIZE - a {
        Ok(a + b)
    } else {
        Err(BinaryReaderError { reason: Reason::TypeSizeExceeded, offset })
    }
}

} // verus!
