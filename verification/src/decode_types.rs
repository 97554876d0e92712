//! Reading types from the bytes of a binary.

use vstd::prelude::*;
use crate::error::{BinaryReaderError, Reason};
use crate::reader::{
    byte_at, failed, read_u8, read_var_s33, read_var_u32, read_var_u64, var_s33, var_u32, var_u64,
};
use crate::types::{
    AbstractHeapType, CompositeInnerType, CompositeType, CompositeView, FieldType, FuncType,
    GlobalType, HeapType, MemoryType, RecGroup, RefType, StorageType, StructType, SubType,
    SubTypeView, TableType, TagType, TypeRef, UnpackedIndex, ValType, sub_type_views,
};

verus! {

/// What a reader gives: a value and the position after it, or a failure.
pub type Read<T> = Result<(T, usize), BinaryReaderError>;

/// The items that `n` readings of `item` give, one after the other.
pub open spec fn items_at<T>(
    item: spec_fn(Seq<u8>, usize) -> Read<T>,
    s: Seq<u8>,
    pos: usize,
    n: nat,
) -> Read<Seq<T>>
    decreases n,
{
    if n == 0 {
        Ok((Seq::empty(), pos))
    } else {
        match item(s, pos) {
            Err(e) => Err(e),
            Ok((x, next)) => match items_at(item, s, next, (n - 1) as nat) {
                Err(e) => Err(e),
                Ok((more, end)) => Ok((seq![x] + more, end)),
            },
        }
    }
}

/// The items read so far followed by what the rest of the readings give.
pub open spec fn read_on<T>(found: Seq<T>, rest: Read<Seq<T>>) -> Read<Seq<T>> {
    match rest {
        Ok((more, end)) => Ok((found + more, end)),
        Err(e) => Err(e),
    }
}

/// Reading on after one more item.
pub proof fn lemma_read_on<T>(
    item: spec_fn(Seq<u8>, usize) -> Read<T>,
    s: Seq<u8>,
    pos: usize,
    n: nat,
    found: Seq<T>,
)
    requires
        n > 0,
    ensures
        read_on(found, items_at(item, s, pos, n)) == match item(s, pos) {
            Err(e) => Err::<(Seq<T>, usize), BinaryReaderError>(e),
            Ok((x, next)) => read_on(found.push(x), items_at(item, s, next, (n - 1) as nat)),
        },
{
    match item(s, pos) {
        Err(e) => {},
        Ok((x, next)) => {
            match items_at(item, s, next, (n - 1) as nat) {
                Err(e) => {},
                Ok((more, end)) => {
                    assert(found + (seq![x] + more) =~= found.push(x) + more);
                },
            }
        },
    }
}

/// As many items are read as were asked for.
pub proof fn lemma_items_len<T>(
    item: spec_fn(Seq<u8>, usize) -> Read<T>,
    s: Seq<u8>,
    pos: usize,
    n: nat,
)
    requires
        items_at(item, s, pos, n) is Ok,
    ensures
        items_at(item, s, pos, n)->Ok_0.0.len() == n,
    decreases n,
{
    if n > 0 {
        lemma_items_len(item, s, item(s, pos)->Ok_0.1, (n - 1) as nat);
    }
}

/// A list: the number of its items, and then the items.
pub open spec fn list_at<T>(item: spec_fn(Seq<u8>, usize) -> Read<T>, s: Seq<u8>, pos: usize)
    -> Read<Seq<T>> {
    match var_u32(s, pos) {
        Err(e) => Err(e),
        Ok((n, start)) => items_at(item, s, start, n as nat),
    }
}

/// The abstract heap type that a byte stands for, if for any.
pub open spec fn spec_abstract_code(b: u8) -> Option<AbstractHeapType> {
    if b == 0x70 {
        Some(AbstractHeapType::Func)
    } else if b == 0x6f {
        Some(AbstractHeapType::Extern)
    } else if b == 0x6e {
        Some(AbstractHeapType::Any)
    } else if b == 0x6d {
        Some(AbstractHeapType::Eq)
    } else if b == 0x6c {
        Some(AbstractHeapType::I31)
    } else if b == 0x6b {
        Some(AbstractHeapType::Struct)
    } else if b == 0x6a {
        Some(AbstractHeapType::Array)
    } else if b == 0x69 {
        Some(AbstractHeapType::Exn)
    } else if b == 0x68 {
        Some(AbstractHeapType::Cont)
    } else if b == 0x71 {
        Some(AbstractHeapType::NoAny)
    } else if b == 0x72 {
        Some(AbstractHeapType::NoExtern)
    } else if b == 0x73 {
        Some(AbstractHeapType::NoFunc)
    } else if b == 0x74 {
        Some(AbstractHeapType::NoExn)
    } else if b == 0x75 {
        Some(AbstractHeapType::NoCont)
    } else {
        None
    }
}

#[verifier::when_used_as_spec(spec_abstract_code)]
pub fn abstract_code(b: u8) -> (ty: Option<AbstractHeapType>)
    ensures
        ty == spec_abstract_code(b),
{
    if b == 0x70 {
        Some(AbstractHeapType::Func)
    } else if b == 0x6f {
        Some(AbstractHeapType::Extern)
    } else if b == 0x6e {
        Some(AbstractHeapType::Any)
    } else if b == 0x6d {
        Some(AbstractHeapType::Eq)
    } else if b == 0x6c {
        Some(AbstractHeapType::I31)
    } else if b == 0x6b {
        Some(AbstractHeapType::Struct)
    } else if b == 0x6a {
        Some(AbstractHeapType::Array)
    } else if b == 0x69 {
        Some(AbstractHeapType::Exn)
    } else if b == 0x68 {
        Some(AbstractHeapType::Cont)
    } else if b == 0x71 {
        Some(AbstractHeapType::NoAny)
    } else if b == 0x72 {
        Some(AbstractHeapType::NoExtern)
    } else if b == 0x73 {
        Some(AbstractHeapType::NoFunc)
    } else if b == 0x74 {
        Some(AbstractHeapType::NoExn)
    } else if b == 0x75 {
        Some(AbstractHeapType::NoCont)
    } else {
        None
    }
}

/// The heap type at `pos`: the byte of an abstract heap type, with the byte
/// `0x65` before it where it is shared, or the index of a type.
#[verifier::opaque]
pub open spec fn heap_type_at(s: Seq<u8>, pos: usize) -> Read<HeapType> {
    match byte_at(s, pos) {
        Err(e) => Err(e),
        Ok((b, next)) => if b == 0x65 {
            match byte_at(s, next) {
                Err(e) => Err(e),
                Ok((c, end)) => match spec_abstract_code(c) {
                    Some(ty) => Ok((HeapType::Abstract { shared: true, ty }, end)),
                    None => failed(Reason::InvalidByte(c), next),
                },
            }
        } else {
            match spec_abstract_code(b) {
                Some(ty) => Ok((HeapType::Abstract { shared: false, ty }, next)),
                None => match var_s33(s, pos) {
                    Err(e) => Err(e),
                    Ok((index, end)) => if index < 0 {
                        failed(Reason::InvalidByte(b), pos)
                    } else {
                        Ok((HeapType::Concrete(UnpackedIndex::Module(index as u32)), end))
                    },
                },
            }
        },
    }
}

/// The reference type at `pos`: `0x64` and a heap type for a reference that
/// is not null, `0x63` and a heap type for one that may be, or the byte of an
/// abstract heap type for a reference to it that may be null.
#[verifier::opaque]
pub open spec fn ref_type_at(s: Seq<u8>, pos: usize) -> Read<RefType> {
    match byte_at(s, pos) {
        Err(e) => Err(e),
        Ok((b, next)) => if b == 0x64 || b == 0x63 {
            match heap_type_at(s, next) {
                Err(e) => Err(e),
                Ok((heap_type, end)) => Ok((RefType { nullable: b == 0x63, heap_type }, end)),
            }
        } else {
            match spec_abstract_code(b) {
                Some(ty) => Ok(
                    (
                        RefType {
                            nullable: true,
                            heap_type: HeapType::Abstract { shared: false, ty },
                        },
                        next,
                    ),
                ),
                None => failed(Reason::InvalidByte(b), pos),
            }
        },
    }
}

/// The value type at `pos`.
#[verifier::opaque]
pub open spec fn val_type_at(s: Seq<u8>, pos: usize) -> Read<ValType> {
    match byte_at(s, pos) {
        Err(e) => Err(e),
        Ok((b, next)) => if b == 0x7f {
            Ok((ValType::I32, next))
        } else if b == 0x7e {
            Ok((ValType::I64, next))
        } else if b == 0x7d {
            Ok((ValType::F32, next))
        } else if b == 0x7c {
            Ok((ValType::F64, next))
        } else if b == 0x7b {
            Ok((ValType::V128, next))
        } else {
            match ref_type_at(s, pos) {
                Err(e) => Err(e),
                Ok((r, end)) => Ok((ValType::Ref(r), end)),
            }
        },
    }
}

/// The field type at `pos`: what the field holds, and whether it can be
/// changed.
#[verifier::opaque]
pub open spec fn field_type_at(s: Seq<u8>, pos: usize) -> Read<FieldType> {
    match byte_at(s, pos) {
        Err(e) => Err(e),
        Ok((b, next)) => {
            let storage: Read<StorageType> = if b == 0x78 {
                Ok((StorageType::I8, next))
            } else if b == 0x77 {
                Ok((StorageType::I16, next))
            } else {
                match val_type_at(s, pos) {
                    Err(e) => Err(e),
                    Ok((v, end)) => Ok((StorageType::Val(v), end)),
                }
            };
            match storage {
                Err(e) => Err(e),
                Ok((element_type, at)) => match byte_at(s, at) {
                    Err(e) => Err(e),
                    Ok((m, end)) => if m > 1 {
                        failed(Reason::InvalidByte(m), at)
                    } else {
                        Ok((FieldType { element_type, mutable: m == 1 }, end))
                    },
                },
            }
        },
    }
}

pub open spec fn val_type_reader() -> spec_fn(Seq<u8>, usize) -> Read<ValType> {
    |s: Seq<u8>, pos: usize| val_type_at(s, pos)
}

pub open spec fn field_type_reader() -> spec_fn(Seq<u8>, usize) -> Read<FieldType> {
    |s: Seq<u8>, pos: usize| field_type_at(s, pos)
}

pub open spec fn sub_type_reader() -> spec_fn(Seq<u8>, usize) -> Read<SubTypeView> {
    |s: Seq<u8>, pos: usize| sub_type_at(s, pos)
}

/// The composite type at `pos`: `0x60` and the parameters and results of a
/// function type, `0x5f` and the fields of a struct type, or `0x5e` and the
/// element of an array type.
#[verifier::opaque]
pub open spec fn composite_at(s: Seq<u8>, pos: usize) -> Read<CompositeView> {
    match byte_at(s, pos) {
        Err(e) => Err(e),
        Ok((b, next)) => if b == 0x60 {
            match list_at(val_type_reader(), s, next) {
                Err(e) => Err(e),
                Ok((params, at)) => match list_at(val_type_reader(), s, at) {
                    Err(e) => Err(e),
                    Ok((results, end)) => Ok((CompositeView::Func { params, results }, end)),
                },
            }
        } else if b == 0x5f {
            match list_at(field_type_reader(), s, next) {
                Err(e) => Err(e),
                Ok((fields, end)) => Ok((CompositeView::Struct { fields }, end)),
            }
        } else if b == 0x5e {
            match field_type_at(s, next) {
                Err(e) => Err(e),
                Ok((field, end)) => Ok((CompositeView::Array(field), end)),
            }
        } else {
            failed(Reason::InvalidByte(b), pos)
        },
    }
}

/// The composite type at `pos` with the byte `0x65` before it where it is
/// shared.
#[verifier::opaque]
pub open spec fn shared_composite_at(s: Seq<u8>, pos: usize) -> Read<(bool, CompositeView)> {
    match byte_at(s, pos) {
        Err(e) => Err(e),
        Ok((b, next)) => if b == 0x65 {
            match composite_at(s, next) {
                Err(e) => Err(e),
                Ok((inner, end)) => Ok(((true, inner), end)),
            }
        } else {
            match composite_at(s, pos) {
                Err(e) => Err(e),
                Ok((inner, end)) => Ok(((false, inner), end)),
            }
        },
    }
}

/// The declared supertype at `pos`: a list of at most one type index.
#[verifier::opaque]
pub open spec fn supertype_at(s: Seq<u8>, pos: usize) -> Read<Option<UnpackedIndex>> {
    match var_u32(s, pos) {
        Err(e) => Err(e),
        Ok((n, next)) => if n == 0 {
            Ok((None, next))
        } else if n == 1 {
            match var_u32(s, next) {
                Err(e) => Err(e),
                Ok((index, end)) => Ok((Some(UnpackedIndex::Module(index)), end)),
            }
        } else {
            failed(Reason::IntegerTooLarge, pos)
        },
    }
}

/// The type definition at `pos`: `0x50` for a type that is not final and
/// `0x4f` for a final one, each with its supertype and its composite type;
/// or a composite type alone, which is final and has no supertype.
#[verifier::opaque]
pub open spec fn sub_type_at(s: Seq<u8>, pos: usize) -> Read<SubTypeView> {
    match byte_at(s, pos) {
        Err(e) => Err(e),
        Ok((b, next)) => if b == 0x50 || b == 0x4f {
            match supertype_at(s, next) {
                Err(e) => Err(e),
                Ok((supertype_idx, at)) => match shared_composite_at(s, at) {
                    Err(e) => Err(e),
                    Ok(((shared, inner), end)) => Ok(
                        (SubTypeView { is_final: b == 0x4f, supertype_idx, shared, inner }, end),
                    ),
                },
            }
        } else {
            match shared_composite_at(s, pos) {
                Err(e) => Err(e),
                Ok(((shared, inner), end)) => Ok(
                    (SubTypeView { is_final: true, supertype_idx: None, shared, inner }, end),
                ),
            }
        },
    }
}

/// The recursion group at `pos`: `0x4e` and a list of type definitions, or
/// one type definition.
#[verifier::opaque]
pub open spec fn rec_group_at(s: Seq<u8>, pos: usize) -> Read<Seq<SubTypeView>> {
    match byte_at(s, pos) {
        Err(e) => Err(e),
        Ok((b, next)) => if b == 0x4e {
            list_at(sub_type_reader(), s, next)
        } else {
            match sub_type_at(s, pos) {
                Err(e) => Err(e),
                Ok((ty, end)) => Ok((seq![ty], end)),
            }
        },
    }
}

/// The size at `pos` of a table or memory whose index type has 64 bits, or
/// 32 bits.
#[verifier::opaque]
pub open spec fn size_at(s: Seq<u8>, pos: usize, wide: bool) -> Read<u64> {
    if wide {
        var_u64(s, pos)
    } else {
        match var_u32(s, pos) {
            Err(e) => Err(e),
            Ok((v, next)) => Ok((v as u64, next)),
        }
    }
}

/// The maximum at `pos`, where there is one.
#[verifier::opaque]
pub open spec fn maximum_at(s: Seq<u8>, pos: usize, wide: bool, present: bool) -> Read<
    Option<u64>,
> {
    if present {
        match size_at(s, pos, wide) {
            Err(e) => Err(e),
            Ok((v, next)) => Ok((Some(v), next)),
        }
    } else {
        Ok((None, pos))
    }
}

/// The table type at `pos`: the element type, a byte of flags, the initial
/// size and, where the flags say so, the maximum. The flags are: 1 for a
/// maximum, 2 for shared, 4 for an index type of 64 bits.
#[verifier::opaque]
pub open spec fn table_type_at(s: Seq<u8>, pos: usize) -> Read<TableType> {
    match ref_type_at(s, pos) {
        Err(e) => Err(e),
        Ok((element_type, at)) => match byte_at(s, at) {
            Err(e) => Err(e),
            Ok((flags, next)) => if flags >= 8 {
                failed(Reason::InvalidByte(flags), at)
            } else {
                let table64 = (flags / 4) % 2 == 1;
                match size_at(s, next, table64) {
                    Err(e) => Err(e),
                    Ok((initial, after)) => match maximum_at(s, after, table64, flags % 2 == 1) {
                        Err(e) => Err(e),
                        Ok((maximum, end)) => Ok(
                            (
                                TableType {
                                    element_type,
                                    table64,
                                    initial,
                                    maximum,
                                    shared: (flags / 2) % 2 == 1,
                                },
                                end,
                            ),
                        ),
                    },
                }
            },
        },
    }
}

/// The memory type at `pos`: a byte of flags, the initial size, and where
/// the flags say so the maximum and the logarithm of the page size. The
/// flags are: 1 for a maximum, 2 for shared, 4 for an index type of 64 bits,
/// 8 for a page size.
#[verifier::opaque]
pub open spec fn memory_type_at(s: Seq<u8>, pos: usize) -> Read<MemoryType> {
    match byte_at(s, pos) {
        Err(e) => Err(e),
        Ok((flags, next)) => if flags >= 16 {
            failed(Reason::InvalidByte(flags), pos)
        } else {
            let memory64 = (flags / 4) % 2 == 1;
            match size_at(s, next, memory64) {
                Err(e) => Err(e),
                Ok((initial, after)) => match maximum_at(s, after, memory64, flags % 2 == 1) {
                    Err(e) => Err(e),
                    Ok((maximum, at)) => if (flags / 8) % 2 == 1 {
                        match var_u32(s, at) {
                            Err(e) => Err(e),
                            Ok((log2, end)) => Ok(
                                (
                                    MemoryType {
                                        memory64,
                                        shared: (flags / 2) % 2 == 1,
                                        initial,
                                        maximum,
                                        page_size_log2: Some(log2),
                                    },
                                    end,
                                ),
                            ),
                        }
                    } else {
                        Ok(
                            (
                                MemoryType {
                                    memory64,
                                    shared: (flags / 2) % 2 == 1,
                                    initial,
                                    maximum,
                                    page_size_log2: None,
                                },
                                at,
                            ),
                        )
                    },
                },
            }
        },
    }
}

/// The global type at `pos`: the type of the value and a byte of flags, 1
/// for mutable and 2 for shared.
#[verifier::opaque]
pub open spec fn global_type_at(s: Seq<u8>, pos: usize) -> Read<GlobalType> {
    match val_type_at(s, pos) {
        Err(e) => Err(e),
        Ok((content_type, at)) => match byte_at(s, at) {
            Err(e) => Err(e),
            Ok((flags, end)) => if flags >= 4 {
                failed(Reason::InvalidByte(flags), at)
            } else {
                Ok(
                    (
                        GlobalType {
                            content_type,
                            mutable: flags % 2 == 1,
                            shared: (flags / 2) % 2 == 1,
                        },
                        end,
                    ),
                )
            },
        },
    }
}

/// The tag type at `pos`: the byte 0 and the index of a function type.
#[verifier::opaque]
pub open spec fn tag_type_at(s: Seq<u8>, pos: usize) -> Read<TagType> {
    match byte_at(s, pos) {
        Err(e) => Err(e),
        Ok((attribute, next)) => if attribute != 0 {
            failed(Reason::InvalidByte(attribute), pos)
        } else {
            match var_u32(s, next) {
                Err(e) => Err(e),
                Ok((func_type_idx, end)) => Ok((TagType { func_type_idx }, end)),
            }
        },
    }
}

/// The type of an import at `pos`: a byte for the kind, 0 for a function, 1
/// for a table, 2 for a memory, 3 for a global and 4 for a tag, and then the
/// type.
#[verifier::opaque]
pub open spec fn type_ref_at(s: Seq<u8>, pos: usize) -> Read<TypeRef> {
    match byte_at(s, pos) {
        Err(e) => Err(e),
        Ok((kind, next)) => if kind == 0 {
            match var_u32(s, next) {
                Err(e) => Err(e),
                Ok((index, end)) => Ok((TypeRef::Func(index), end)),
            }
        } else if kind == 1 {
            match table_type_at(s, next) {
                Err(e) => Err(e),
                Ok((t, end)) => Ok((TypeRef::Table(t), end)),
            }
        } else if kind == 2 {
            match memory_type_at(s, next) {
                Err(e) => Err(e),
                Ok((m, end)) => Ok((TypeRef::Memory(m), end)),
            }
        } else if kind == 3 {
            match global_type_at(s, next) {
                Err(e) => Err(e),
                Ok((g, end)) => Ok((TypeRef::Global(g), end)),
            }
        } else if kind == 4 {
            match tag_type_at(s, next) {
                Err(e) => Err(e),
                Ok((t, end)) => Ok((TypeRef::Tag(t), end)),
            }
        } else {
            failed(Reason::InvalidByte(kind), pos)
        },
    }
}

pub fn read_heap_type(data: &[u8], pos: usize) -> (res: Read<HeapType>)
    ensures
        res == heap_type_at(data@, pos),
        res is Ok ==> pos < res->Ok_0.1 <= data@.len(),
{
    reveal(heap_type_at);
    let (b, next) = read_u8(data, pos)?;
    if b == 0x65 {
        let (c, end) = read_u8(data, next)?;
        match abstract_code(c) {
            Some(ty) => Ok((HeapType::Abstract { shared: true, ty }, end)),
            None => Err(BinaryReaderError::new(Reason::InvalidByte(c), next)),
        }
    } else {
        match abstract_code(b) {
            Some(ty) => Ok((HeapType::Abstract { shared: false, ty }, next)),
            None => {
                let (index, end) = read_var_s33(data, pos)?;
                if index < 0 {
                    Err(BinaryReaderError::new(Reason::InvalidByte(b), pos))
                } else {
                    Ok((HeapType::Concrete(UnpackedIndex::Module(index as u32)), end))
                }
            },
        }
    }
}

pub fn read_ref_type(data: &[u8], pos: usize) -> (res: Read<RefType>)
    ensures
        res == ref_type_at(data@, pos),
        res is Ok ==> pos < res->Ok_0.1 <= data@.len(),
{
    reveal(ref_type_at);
    let (b, next) = read_u8(data, pos)?;
    if b == 0x64 || b == 0x63 {
        let (heap_type, end) = read_heap_type(data, next)?;
        Ok((RefType { nullable: b == 0x63, heap_type }, end))
    } else {
        match abstract_code(b) {
            Some(ty) => Ok(
                (RefType { nullable: true, heap_type: HeapType::Abstract { shared: false, ty } }, next),
            ),
            None => Err(BinaryReaderError::new(Reason::InvalidByte(b), pos)),
        }
    }
}

pub fn read_val_type(data: &[u8], pos: usize) -> (res: Read<ValType>)
    ensures
        res == val_type_at(data@, pos),
        res is Ok ==> pos < res->Ok_0.1 <= data@.len(),
{
    reveal(val_type_at);
    let (b, next) = read_u8(data, pos)?;
    if b == 0x7f {
        Ok((ValType::I32, next))
    } else if b == 0x7e {
        Ok((ValType::I64, next))
    } else if b == 0x7d {
        Ok((ValType::F32, next))
    } else if b == 0x7c {
        Ok((ValType::F64, next))
    } else if b == 0x7b {
        Ok((ValType::V128, next))
    } else {
        let (r, end) = read_ref_type(data, pos)?;
        Ok((ValType::Ref(r), end))
    }
}

pub fn read_field_type(data: &[u8], pos: usize) -> (res: Read<FieldType>)
    ensures
        res == field_type_at(data@, pos),
        res is Ok ==> pos < res->Ok_0.1 <= data@.len(),
{
    reveal(field_type_at);
    let (b, next) = read_u8(data, pos)?;
    let (element_type, at): (StorageType, usize) = if b == 0x78 {
        (StorageType::I8, next)
    } else if b == 0x77 {
        (StorageType::I16, next)
    } else {
        let (v, end) = read_val_type(data, pos)?;
        (StorageType::Val(v), end)
    };
    let (m, end) = read_u8(data, at)?;
    if m > 1 {
        return Err(BinaryReaderError::new(Reason::InvalidByte(m), at));
    }
    Ok((FieldType { element_type, mutable: m == 1 }, end))
}

pub fn read_val_types(data: &[u8], pos: usize) -> (res: Read<Vec<ValType>>)
    ensures
        match list_at(val_type_reader(), data@, pos) {
            Ok((v, end)) => res is Ok && res->Ok_0.0@ == v && res->Ok_0.1 == end,
            Err(e) => res is Err && res->Err_0 == e,
        },
        res is Ok ==> pos < res->Ok_0.1 <= data@.len(),
{
    let (n, start) = read_var_u32(data, pos)?;
    let mut out: Vec<ValType> = Vec::new();
    let mut at: usize = start;
    let mut i: u32 = 0;
    assert(Seq::<ValType>::empty() + items_at(val_type_reader(), data@, start, n as nat)->Ok_0.0
        =~= items_at(val_type_reader(), data@, start, n as nat)->Ok_0.0);
    while i < n
        invariant
            i <= n,
            start <= at <= data@.len(),
            pos < start,
            list_at(val_type_reader(), data@, pos) == items_at(val_type_reader(), data@, start, n as nat),
            items_at(val_type_reader(), data@, start, n as nat) == read_on(
                out@,
                items_at(val_type_reader(), data@, at, (n - i) as nat),
            ),
        decreases n - i,
    {
        proof {
            lemma_read_on(val_type_reader(), data@, at, (n - i) as nat, out@);
        }
        let (x, next) = read_val_type(data, at)?;
        out.push(x);
        at = next;
        i += 1;
    }
    assert(out@ + Seq::<ValType>::empty() =~= out@);
    Ok((out, at))
}

pub fn read_field_types(data: &[u8], pos: usize) -> (res: Read<Vec<FieldType>>)
    ensures
        match list_at(field_type_reader(), data@, pos) {
            Ok((v, end)) => res is Ok && res->Ok_0.0@ == v && res->Ok_0.1 == end,
            Err(e) => res is Err && res->Err_0 == e,
        },
        res is Ok ==> pos < res->Ok_0.1 <= data@.len(),
{
    let (n, start) = read_var_u32(data, pos)?;
    let mut out: Vec<FieldType> = Vec::new();
    let mut at: usize = start;
    let mut i: u32 = 0;
    assert(Seq::<FieldType>::empty() + items_at(
        field_type_reader(),
        data@,
        start,
        n as nat,
    )->Ok_0.0 =~= items_at(field_type_reader(), data@, start, n as nat)->Ok_0.0);
    while i < n
        invariant
            i <= n,
            start <= at <= data@.len(),
            pos < start,
            list_at(field_type_reader(), data@, pos) == items_at(field_type_reader(), data@, start, n as nat),
            items_at(field_type_reader(), data@, start, n as nat) == read_on(
                out@,
                items_at(field_type_reader(), data@, at, (n - i) as nat),
            ),
        decreases n - i,
    {
        proof {
            lemma_read_on(field_type_reader(), data@, at, (n - i) as nat, out@);
        }
        let (x, next) = read_field_type(data, at)?;
        out.push(x);
        at = next;
        i += 1;
    }
    assert(out@ + Seq::<FieldType>::empty() =~= out@);
    Ok((out, at))
}

pub fn read_composite(data: &[u8], pos: usize) -> (res: Read<CompositeInnerType>)
    ensures
        match composite_at(data@, pos) {
            Ok((v, end)) => res is Ok && res->Ok_0.0@ == v && res->Ok_0.1 == end,
            Err(e) => res is Err && res->Err_0 == e,
        },
        res is Ok ==> pos < res->Ok_0.1 <= data@.len(),
{
    reveal(composite_at);
    let (b, next) = read_u8(data, pos)?;
    if b == 0x60 {
        let (params, at) = read_val_types(data, next)?;
        let (results, end) = read_val_types(data, at)?;
        Ok((CompositeInnerType::Func(FuncType { params, results }), end))
    } else if b == 0x5f {
        let (fields, end) = read_field_types(data, next)?;
        Ok((CompositeInnerType::Struct(StructType { fields }), end))
    } else if b == 0x5e {
        let (field, end) = read_field_type(data, next)?;
        Ok((CompositeInnerType::Array(field), end))
    } else {
        Err(BinaryReaderError::new(Reason::InvalidByte(b), pos))
    }
}

pub fn read_shared_composite(data: &[u8], pos: usize) -> (res: Read<CompositeType>)
    ensures
        match shared_composite_at(data@, pos) {
            Ok((v, end)) => res is Ok && res->Ok_0.0.shared == v.0 && res->Ok_0.0.inner@ == v.1
                && res->Ok_0.1 == end,
            Err(e) => res is Err && res->Err_0 == e,
        },
        res is Ok ==> pos < res->Ok_0.1 <= data@.len(),
{
    reveal(shared_composite_at);
    let (b, next) = read_u8(data, pos)?;
    if b == 0x65 {
        let (inner, end) = read_composite(data, next)?;
        Ok((CompositeType { inner, shared: true }, end))
    } else {
        let (inner, end) = read_composite(data, pos)?;
        Ok((CompositeType { inner, shared: false }, end))
    }
}

pub fn read_supertype(data: &[u8], pos: usize) -> (res: Read<Option<UnpackedIndex>>)
    ensures
        res == supertype_at(data@, pos),
        res is Ok ==> pos < res->Ok_0.1 <= data@.len(),
{
    reveal(supertype_at);
    let (n, next) = read_var_u32(data, pos)?;
    if n == 0 {
        Ok((None, next))
    } else if n == 1 {
        let (index, end) = read_var_u32(data, next)?;
        Ok((Some(UnpackedIndex::Module(index)), end))
    } else {
        Err(BinaryReaderError::new(Reason::IntegerTooLarge, pos))
    }
}

pub fn read_sub_type(data: &[u8], pos: usize) -> (res: Read<SubType>)
    ensures
        match sub_type_at(data@, pos) {
            Ok((v, end)) => res is Ok && res->Ok_0.0@ == v && res->Ok_0.1 == end,
            Err(e) => res is Err && res->Err_0 == e,
        },
        res is Ok ==> pos < res->Ok_0.1 <= data@.len(),
{
    reveal(sub_type_at);
    let (b, next) = read_u8(data, pos)?;
    if b == 0x50 || b == 0x4f {
        let (supertype_idx, at) = read_supertype(data, next)?;
        let (composite_type, end) = read_shared_composite(data, at)?;
        Ok((SubType { is_final: b == 0x4f, supertype_idx, composite_type }, end))
    } else {
        let (composite_type, end) = read_shared_composite(data, pos)?;
        Ok((SubType { is_final: true, supertype_idx: None, composite_type }, end))
    }
}

pub fn read_rec_group(data: &[u8], pos: usize) -> (res: Read<RecGroup>)
    ensures
        match rec_group_at(data@, pos) {
            Ok((v, end)) => res is Ok && res->Ok_0.0@ == v && res->Ok_0.1 == end,
            Err(e) => res is Err && res->Err_0 == e,
        },
        res is Ok ==> pos < res->Ok_0.1 <= data@.len(),
{
    reveal(rec_group_at);
    let (b, first) = read_u8(data, pos)?;
    if b == 0x4e {
        let (n, start) = read_var_u32(data, first)?;
        let mut out: Vec<SubType> = Vec::new();
        let mut at: usize = start;
        let mut i: u32 = 0;
        assert(sub_type_views(out@) =~= Seq::empty());
        assert(Seq::<SubTypeView>::empty() + items_at(
            sub_type_reader(),
            data@,
            start,
            n as nat,
        )->Ok_0.0 =~= items_at(sub_type_reader(), data@, start, n as nat)->Ok_0.0);
        while i < n
            invariant
                i <= n,
                pos < start <= at <= data@.len(),
                rec_group_at(data@, pos) == items_at(sub_type_reader(), data@, start, n as nat),
                items_at(sub_type_reader(), data@, start, n as nat) == read_on(
                    sub_type_views(out@),
                    items_at(sub_type_reader(), data@, at, (n - i) as nat),
                ),
            decreases n - i,
        {
            proof {
                lemma_read_on(
                    sub_type_reader(),
                    data@,
                    at,
                    (n - i) as nat,
                    sub_type_views(out@),
                );
            }
            let ghost before = out@;
            let (x, next) = read_sub_type(data, at)?;
            out.push(x);
            assert(sub_type_views(out@) =~= sub_type_views(before).push(x@));
            at = next;
            i += 1;
        }
        assert(sub_type_views(out@) + Seq::<SubTypeView>::empty() =~= sub_type_views(out@));
        Ok((RecGroup { types: out }, at))
    } else {
        let (ty, end) = read_sub_type(data, pos)?;
        let mut types: Vec<SubType> = Vec::new();
        types.push(ty);
        let group = RecGroup { types };
        assert(group@ =~= seq![ty@]);
        Ok((group, end))
    }
}

pub fn read_size(data: &[u8], pos: usize, wide: bool) -> (res: Read<u64>)
    ensures
        res == size_at(data@, pos, wide),
        res is Ok ==> pos < res->Ok_0.1 <= data@.len(),
{
    reveal(size_at);
    if wide {
        read_var_u64(data, pos)
    } else {
        let (v, next) = read_var_u32(data, pos)?;
        Ok((v as u64, next))
    }
}

pub fn read_maximum(data: &[u8], pos: usize, wide: bool, present: bool) -> (res: Read<
    Option<u64>,
>)
    requires
        pos <= data@.len(),
    ensures
        res == maximum_at(data@, pos, wide, present),
        res is Ok ==> pos <= res->Ok_0.1 <= data@.len(),
{
    reveal(maximum_at);
    if present {
        let (v, next) = read_size(data, pos, wide)?;
        Ok((Some(v), next))
    } else {
        Ok((None, pos))
    }
}

pub fn read_table_type(data: &[u8], pos: usize) -> (res: Read<TableType>)
    ensures
        res == table_type_at(data@, pos),
        res is Ok ==> pos < res->Ok_0.1 <= data@.len(),
{
    reveal(table_type_at);
    let (element_type, at) = read_ref_type(data, pos)?;
    let (flags, next) = read_u8(data, at)?;
    if flags >= 8 {
        return Err(BinaryReaderError::new(Reason::InvalidByte(flags), at));
    }
    let table64: bool = (flags / 4) % 2 == 1;
    let (initial, after) = read_size(data, next, table64)?;
    let (maximum, end) = read_maximum(data, after, table64, flags % 2 == 1)?;
    Ok((TableType { element_type, table64, initial, maximum, shared: (flags / 2) % 2 == 1 }, end))
}

pub fn read_memory_type(data: &[u8], pos: usize) -> (res: Read<MemoryType>)
    ensures
        res == memory_type_at(data@, pos),
        res is Ok ==> pos < res->Ok_0.1 <= data@.len(),
{
    reveal(memory_type_at);
    let (flags, next) = read_u8(data, pos)?;
    if flags >= 16 {
        return Err(BinaryReaderError::new(Reason::InvalidByte(flags), pos));
    }
    let memory64: bool = (flags / 4) % 2 == 1;
    let shared: bool = (flags / 2) % 2 == 1;
    let (initial, after) = read_size(data, next, memory64)?;
    let (maximum, at) = read_maximum(data, after, memory64, flags % 2 == 1)?;
    if (flags / 8) % 2 == 1 {
        let (log2, end) = read_var_u32(data, at)?;
        Ok((MemoryType { memory64, shared, initial, maximum, page_size_log2: Some(log2) }, end))
    } else {
        Ok((MemoryType { memory64, shared, initial, maximum, page_size_log2: None }, at))
    }
}

pub fn read_global_type(data: &[u8], pos: usize) -> (res: Read<GlobalType>)
    ensures
        res == global_type_at(data@, pos),
        res is Ok ==> pos < res->Ok_0.1 <= data@.len(),
{
    reveal(global_type_at);
    let (content_type, at) = read_val_type(data, pos)?;
    let (flags, end) = read_u8(data, at)?;
    if flags >= 4 {
        return Err(BinaryReaderError::new(Reason::InvalidByte(flags), at));
    }
    Ok((GlobalType { content_type, mutable: flags % 2 == 1, shared: (flags / 2) % 2 == 1 }, end))
}

pub fn read_tag_type(data: &[u8], pos: usize) -> (res: Read<TagType>)
    ensures
        res == tag_type_at(data@, pos),
        res is Ok ==> pos < res->Ok_0.1 <= data@.len(),
{
    reveal(tag_type_at);
    let (attribute, next) = read_u8(data, pos)?;
    if attribute != 0 {
        return Err(BinaryReaderError::new(Reason::InvalidByte(attribute), pos));
    }
    let (func_type_idx, end) = read_var_u32(data, next)?;
    Ok((TagType { func_type_idx }, end))
}

pub fn read_type_ref(data: &[u8], pos: usize) -> (res: Read<TypeRef>)
    ensures
        res == type_ref_at(data@, pos),
        res is Ok ==> pos < res->Ok_0.1 <= data@.len(),
{
    reveal(type_ref_at);
    let (kind, next) = read_u8(data, pos)?;
    if kind == 0 {
        let (index, end) = read_var_u32(data, next)?;
        Ok((TypeRef::Func(index), end))
    } else if kind == 1 {
        let (t, end) = read_table_type(data, next)?;
        Ok((TypeRef::Table(t), end))
    } else if kind == 2 {
        let (m, end) = read_memory_type(data, next)?;
        Ok((TypeRef::Memory(m), end))
    } else if kind == 3 {
        let (g, end) = read_global_type(data, next)?;
        Ok((TypeRef::Global(g), end))
    } else if kind == 4 {
        let (t, end) = read_tag_type(data, next)?;
        Ok((TypeRef::Tag(t), end))
    } else {
        Err(BinaryReaderError::new(Reason::InvalidByte(kind), pos))
    }
}

} // verus!
