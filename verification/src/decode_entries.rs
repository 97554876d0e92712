//! Reading the entries of the sections from the bytes of a binary.

use vstd::prelude::*;
use crate::decode_expr::{ConstExprView, const_expr_at, read_const_expr};
use crate::decode_types::{
    Read, global_type_at, items_at, lemma_read_on, list_at, memory_type_at, read_global_type,
    read_memory_type, read_on, read_rec_group, read_ref_type, read_table_type, read_tag_type,
    read_type_ref, rec_group_at, ref_type_at, table_type_at, tag_type_at, type_ref_at,
};
use crate::error::{BinaryReaderError, Reason};
use crate::operators::ConstExpr;
use crate::payload::{
    Data, DataKind, Element, ElementItems, ElementKind, Export, FuncItem, Global, Import, Table,
    TableInit,
};
use crate::reader::{byte_at, failed, name_at, read_string, read_u8, read_var_u32, var_u32};
use crate::types::{ExternalKind, MemoryType, RecGroup, RefType, TagType};
use crate::validator::Located;
use crate::views::{
    element_items_view, element_kind_view, DataView, ElementItemsView, ElementKindView, ElementView, ExportItemView, GlobalView,
    ImportItemView, LocatedView, TableView,
};

verus! {

/// What can be read from the bytes of a binary.
pub trait Decode: Sized + DeepView {
    /// What stands at `pos`, with the position after it.
    spec fn at(s: Seq<u8>, pos: usize) -> Read<<Self as DeepView>::V>;

    /// Reads what stands at `pos`.
    fn read(data: &[u8], pos: usize) -> (res: Read<Self>)
        ensures
            match Self::at(data@, pos) {
                Ok((v, end)) => res is Ok && res->Ok_0.0.deep_view() == v && res->Ok_0.1 == end,
                Err(e) => res is Err && res->Err_0 == e,
            },
            res is Ok ==> pos < res->Ok_0.1 <= data@.len(),
    ;
}

/// The reader of items of one kind.
pub open spec fn reader<T: Decode>() -> spec_fn(Seq<u8>, usize) -> Read<<T as DeepView>::V> {
    |s: Seq<u8>, pos: usize| T::at(s, pos)
}

/// Reads a list: the number of its items, and then the items.
pub fn read_items<T: Decode>(data: &[u8], pos: usize) -> (res: Read<Vec<T>>)
    ensures
        match list_at(reader::<T>(), data@, pos) {
            Ok((v, end)) => res is Ok && res->Ok_0.0.deep_view() == v && res->Ok_0.1 == end,
            Err(e) => res is Err && res->Err_0 == e,
        },
        res is Ok ==> pos < res->Ok_0.1 <= data@.len(),
{
    let (n, start) = read_var_u32(data, pos)?;
    let mut out: Vec<T> = Vec::new();
    let mut at: usize = start;
    let mut i: u32 = 0;
    assert(out.deep_view() =~= Seq::empty());
    assert(Seq::<<T as DeepView>::V>::empty() + items_at(
        reader::<T>(),
        data@,
        start,
        n as nat,
    )->Ok_0.0 =~= items_at(reader::<T>(), data@, start, n as nat)->Ok_0.0);
    while i < n
        invariant
            i <= n,
            pos < start <= at <= data@.len(),
            list_at(reader::<T>(), data@, pos) == items_at(reader::<T>(), data@, start, n as nat),
            items_at(reader::<T>(), data@, start, n as nat) == read_on(
                out.deep_view(),
                items_at(reader::<T>(), data@, at, (n - i) as nat),
            ),
        decreases n - i,
    {
        proof {
            lemma_read_on(reader::<T>(), data@, at, (n - i) as nat, out.deep_view());
        }
        let ghost before = out.deep_view();
        let (x, next) = T::read(data, at)?;
        out.push(x);
        assert(out.deep_view() =~= before.push(x.deep_view()));
        at = next;
        i += 1;
    }
    assert(out.deep_view() + Seq::<<T as DeepView>::V>::empty() =~= out.deep_view());
    Ok((out, at))
}

impl<T: Decode> Decode for Located<T> {
    open spec fn at(s: Seq<u8>, pos: usize) -> Read<LocatedView<<T as DeepView>::V>> {
        match T::at(s, pos) {
            Err(e) => Err(e),
            Ok((item, end)) => Ok((LocatedView { offset: pos, item }, end)),
        }
    }

    fn read(data: &[u8], pos: usize) -> (res: Read<Located<T>>) {
        let (item, end) = T::read(data, pos)?;
        Ok((Located { offset: pos, item }, end))
    }
}

impl Decode for u32 {
    open spec fn at(s: Seq<u8>, pos: usize) -> Read<u32> {
        var_u32(s, pos)
    }

    fn read(data: &[u8], pos: usize) -> (res: Read<u32>) {
        read_var_u32(data, pos)
    }
}

impl Decode for FuncItem {
    open spec fn at(s: Seq<u8>, pos: usize) -> Read<FuncItem> {
        match var_u32(s, pos) {
            Err(e) => Err(e),
            Ok((index, end)) => Ok((FuncItem { offset: pos, index }, end)),
        }
    }

    fn read(data: &[u8], pos: usize) -> (res: Read<FuncItem>) {
        let (index, end) = read_var_u32(data, pos)?;
        Ok((FuncItem { offset: pos, index }, end))
    }
}

impl Decode for RecGroup {
    open spec fn at(s: Seq<u8>, pos: usize) -> Read<Seq<crate::types::SubTypeView>> {
        rec_group_at(s, pos)
    }

    fn read(data: &[u8], pos: usize) -> (res: Read<RecGroup>) {
        read_rec_group(data, pos)
    }
}

impl Decode for MemoryType {
    open spec fn at(s: Seq<u8>, pos: usize) -> Read<MemoryType> {
        memory_type_at(s, pos)
    }

    fn read(data: &[u8], pos: usize) -> (res: Read<MemoryType>) {
        read_memory_type(data, pos)
    }
}

impl Decode for TagType {
    open spec fn at(s: Seq<u8>, pos: usize) -> Read<TagType> {
        tag_type_at(s, pos)
    }

    fn read(data: &[u8], pos: usize) -> (res: Read<TagType>) {
        read_tag_type(data, pos)
    }
}

impl Decode for ConstExpr {
    open spec fn at(s: Seq<u8>, pos: usize) -> Read<ConstExprView> {
        const_expr_at(s, pos)
    }

    fn read(data: &[u8], pos: usize) -> (res: Read<ConstExpr>) {
        read_const_expr(data, pos)
    }
}

impl Decode for Import {
    /// An import: the name of the module, the name of the entity, and the
    /// type.
    open spec fn at(s: Seq<u8>, pos: usize) -> Read<ImportItemView> {
        match name_at(s, pos) {
            Err(e) => Err(e),
            Ok((module, next)) => match name_at(s, next) {
                Err(e) => Err(e),
                Ok((name, after)) => match type_ref_at(s, after) {
                    Err(e) => Err(e),
                    Ok((ty, end)) => Ok((ImportItemView { module, name, ty }, end)),
                },
            },
        }
    }

    fn read(data: &[u8], pos: usize) -> (res: Read<Import>) {
        let (module, next) = read_string(data, pos)?;
        let (name, after) = read_string(data, next)?;
        let (ty, end) = read_type_ref(data, after)?;
        Ok((Import { module, name, ty }, end))
    }
}

/// The kind of entity that a byte stands for, if for any.
pub open spec fn spec_external_kind(b: u8) -> Option<ExternalKind> {
    if b == 0 {
        Some(ExternalKind::Func)
    } else if b == 1 {
        Some(ExternalKind::Table)
    } else if b == 2 {
        Some(ExternalKind::Memory)
    } else if b == 3 {
        Some(ExternalKind::Global)
    } else if b == 4 {
        Some(ExternalKind::Tag)
    } else {
        None
    }
}

#[verifier::when_used_as_spec(spec_external_kind)]
pub fn external_kind(b: u8) -> (kind: Option<ExternalKind>)
    ensures
        kind == spec_external_kind(b),
{
    if b == 0 {
        Some(ExternalKind::Func)
    } else if b == 1 {
        Some(ExternalKind::Table)
    } else if b == 2 {
        Some(ExternalKind::Memory)
    } else if b == 3 {
        Some(ExternalKind::Global)
    } else if b == 4 {
        Some(ExternalKind::Tag)
    } else {
        None
    }
}

impl Decode for Export {
    /// An export: its name, a byte for the kind of entity, and the index of
    /// the entity.
    open spec fn at(s: Seq<u8>, pos: usize) -> Read<ExportItemView> {
        match name_at(s, pos) {
            Err(e) => Err(e),
            Ok((name, next)) => match byte_at(s, next) {
                Err(e) => Err(e),
                Ok((b, after)) => match spec_external_kind(b) {
                    None => failed(Reason::InvalidByte(b), next),
                    Some(kind) => match var_u32(s, after) {
                        Err(e) => Err(e),
                        Ok((index, end)) => Ok((ExportItemView { name, kind, index }, end)),
                    },
                },
            },
        }
    }

    fn read(data: &[u8], pos: usize) -> (res: Read<Export>) {
        let (name, next) = read_string(data, pos)?;
        let (b, after) = read_u8(data, next)?;
        match external_kind(b) {
            None => Err(BinaryReaderError::new(Reason::InvalidByte(b), next)),
            Some(kind) => {
                let (index, end) = read_var_u32(data, after)?;
                Ok((Export { name, kind, index }, end))
            },
        }
    }
}

impl Decode for Global {
    /// A global: its type and its initializer.
    open spec fn at(s: Seq<u8>, pos: usize) -> Read<GlobalView> {
        match global_type_at(s, pos) {
            Err(e) => Err(e),
            Ok((ty, next)) => match const_expr_at(s, next) {
                Err(e) => Err(e),
                Ok((init_expr, end)) => Ok((GlobalView { ty, init_expr }, end)),
            },
        }
    }

    fn read(data: &[u8], pos: usize) -> (res: Read<Global>) {
        let (ty, next) = read_global_type(data, pos)?;
        let (init_expr, end) = read_const_expr(data, next)?;
        Ok((Global { ty, init_expr }, end))
    }
}

impl Decode for Table {
    /// A table: its type, or the bytes `0x40` and `0x00`, its type and the
    /// initializer of its elements.
    open spec fn at(s: Seq<u8>, pos: usize) -> Read<TableView> {
        match byte_at(s, pos) {
            Err(e) => Err(e),
            Ok((b, next)) => if b == 0x40 {
                match byte_at(s, next) {
                    Err(e) => Err(e),
                    Ok((zero, after)) => if zero != 0 {
                        failed(Reason::InvalidByte(zero), next)
                    } else {
                        match table_type_at(s, after) {
                            Err(e) => Err(e),
                            Ok((ty, at)) => match const_expr_at(s, at) {
                                Err(e) => Err(e),
                                Ok((init, end)) => Ok((TableView { ty, init: Some(init) }, end)),
                            },
                        }
                    },
                }
            } else {
                match table_type_at(s, pos) {
                    Err(e) => Err(e),
                    Ok((ty, end)) => Ok((TableView { ty, init: None }, end)),
                }
            },
        }
    }

    fn read(data: &[u8], pos: usize) -> (res: Read<Table>) {
        let (b, next) = read_u8(data, pos)?;
        if b == 0x40 {
            let (zero, after) = read_u8(data, next)?;
            if zero != 0 {
                return Err(BinaryReaderError::new(Reason::InvalidByte(zero), next));
            }
            let (ty, at) = read_table_type(data, after)?;
            let (init, end) = read_const_expr(data, at)?;
            Ok((Table { ty, init: TableInit::Expr(init) }, end))
        } else {
            let (ty, end) = read_table_type(data, pos)?;
            Ok((Table { ty, init: TableInit::RefNull }, end))
        }
    }
}

/// The position after the bytes at `pos`: their number, and then the bytes.
pub open spec fn bytes_end(s: Seq<u8>, pos: usize) -> Result<usize, BinaryReaderError> {
    match var_u32(s, pos) {
        Err(e) => Err(e),
        Ok((len, start)) => if start + len > s.len() {
            failed(Reason::UnexpectedEof, start)
        } else {
            Ok((start + len) as usize)
        },
    }
}

/// Passes over bytes: their number, and then the bytes.
pub fn skip_bytes(data: &[u8], pos: usize) -> (res: Result<usize, BinaryReaderError>)
    ensures
        res == bytes_end(data@, pos),
        res is Ok ==> pos < res->Ok_0 <= data@.len(),
{
    let (len, start) = read_var_u32(data, pos)?;
    if len as usize > data.len() - start {
        return Err(BinaryReaderError::new(Reason::UnexpectedEof, start));
    }
    Ok(start + len as usize)
}

impl Decode for Data {
    /// A data segment: a number for its form, 0 for an active segment of
    /// memory 0, 1 for a passive segment and 2 for an active segment of the
    /// memory whose index follows; for an active segment its offset; and
    /// its bytes.
    open spec fn at(s: Seq<u8>, pos: usize) -> Read<DataView> {
        match var_u32(s, pos) {
            Err(e) => Err(e),
            Ok((form, next)) => if form == 1 {
                match bytes_end(s, next) {
                    Err(e) => Err(e),
                    Ok(end) => Ok((DataView::Passive, end)),
                }
            } else if form == 0 || form == 2 {
                let memory: Read<u32> = if form == 0 {
                    Ok((0u32, next))
                } else {
                    var_u32(s, next)
                };
                match memory {
                    Err(e) => Err(e),
                    Ok((memory_index, after)) => match const_expr_at(s, after) {
                        Err(e) => Err(e),
                        Ok((offset_expr, at)) => match bytes_end(s, at) {
                            Err(e) => Err(e),
                            Ok(end) => Ok((DataView::Active { memory_index, offset_expr }, end)),
                        },
                    },
                }
            } else {
                failed(Reason::IntegerTooLarge, pos)
            },
        }
    }

    fn read(data: &[u8], pos: usize) -> (res: Read<Data>) {
        let (form, next) = read_var_u32(data, pos)?;
        if form == 1 {
            let end = skip_bytes(data, next)?;
            Ok((Data { kind: DataKind::Passive }, end))
        } else if form == 0 || form == 2 {
            let (memory_index, after): (u32, usize) = if form == 0 {
                (0, next)
            } else {
                read_var_u32(data, next)?
            };
            let (offset_expr, at) = read_const_expr(data, after)?;
            let end = skip_bytes(data, at)?;
            Ok((Data { kind: DataKind::Active { memory_index, offset_expr } }, end))
        } else {
            Err(BinaryReaderError::new(Reason::IntegerTooLarge, pos))
        }
    }
}

/// The mode of an element segment at `pos`, for the form `form`.
#[verifier::opaque]
pub open spec fn element_kind_at(s: Seq<u8>, pos: usize, form: u32) -> Read<ElementKindView> {
    if form % 2 == 1 {
        Ok(
            (
                if (form / 2) % 2 == 1 {
                    ElementKindView::Declared
                } else {
                    ElementKindView::Passive
                },
                pos,
            ),
        )
    } else {
        let table: Read<Option<u32>> = if (form / 2) % 2 == 1 {
            match var_u32(s, pos) {
                Err(e) => Err(e),
                Ok((index, next)) => Ok((Some(index), next)),
            }
        } else {
            Ok((None, pos))
        };
        match table {
            Err(e) => Err(e),
            Ok((table_index, next)) => match const_expr_at(s, next) {
                Err(e) => Err(e),
                Ok((offset_expr, end)) => Ok(
                    (ElementKindView::Active { table_index, offset_expr }, end),
                ),
            },
        }
    }
}

/// The entries of an element segment at `pos`, for the form `form`.
#[verifier::opaque]
pub open spec fn element_items_at(s: Seq<u8>, pos: usize, form: u32) -> Read<ElementItemsView> {
    if (form / 4) % 2 == 1 {
        let ty: Read<RefType> = if form == 4 {
            Ok((RefType::spec_funcref(), pos))
        } else {
            ref_type_at(s, pos)
        };
        match ty {
            Err(e) => Err(e),
            Ok((element_type, next)) => match list_at(reader::<ConstExpr>(), s, next) {
                Err(e) => Err(e),
                Ok((exprs, end)) => Ok((ElementItemsView::Expressions(element_type, exprs), end)),
            },
        }
    } else {
        let kind: Read<u8> = if form == 0 {
            Ok((0u8, pos))
        } else {
            byte_at(s, pos)
        };
        match kind {
            Err(e) => Err(e),
            Ok((b, next)) => if b != 0 {
                failed(Reason::InvalidByte(b), pos)
            } else {
                match list_at(reader::<FuncItem>(), s, next) {
                    Err(e) => Err(e),
                    Ok((items, end)) => Ok((ElementItemsView::Functions(items), end)),
                }
            },
        }
    }
}

fn read_element_kind(data: &[u8], pos: usize, form: u32) -> (res: Read<ElementKind>)
    requires
        pos <= data@.len(),
    ensures
        match element_kind_at(data@, pos, form) {
            Ok((v, end)) => res is Ok && res->Ok_0.1 == end && element_kind_view(res->Ok_0.0)
                == v,
            Err(e) => res is Err && res->Err_0 == e,
        },
        res is Ok ==> pos <= res->Ok_0.1 <= data@.len(),
{
    reveal(element_kind_at);
    if form % 2 == 1 {
        if (form / 2) % 2 == 1 {
            Ok((ElementKind::Declared, pos))
        } else {
            Ok((ElementKind::Passive, pos))
        }
    } else {
        let (table_index, next): (Option<u32>, usize) = if (form / 2) % 2 == 1 {
            let (index, next) = read_var_u32(data, pos)?;
            (Some(index), next)
        } else {
            (None, pos)
        };
        let (offset_expr, end) = read_const_expr(data, next)?;
        Ok((ElementKind::Active { table_index, offset_expr }, end))
    }
}

fn read_element_items(data: &[u8], pos: usize, form: u32) -> (res: Read<ElementItems>)
    requires
        pos <= data@.len(),
    ensures
        match element_items_at(data@, pos, form) {
            Ok((v, end)) => res is Ok && res->Ok_0.1 == end && element_items_view(res->Ok_0.0)
                == v,
            Err(e) => res is Err && res->Err_0 == e,
        },
        res is Ok ==> pos < res->Ok_0.1 <= data@.len(),
{
    reveal(element_items_at);
    if (form / 4) % 2 == 1 {
        let (element_type, next): (RefType, usize) = if form == 4 {
            (RefType::funcref(), pos)
        } else {
            read_ref_type(data, pos)?
        };
        let (exprs, end) = read_items::<ConstExpr>(data, next)?;
        Ok((ElementItems::Expressions(element_type, exprs), end))
    } else {
        let (b, next): (u8, usize) = if form == 0 {
            (0, pos)
        } else {
            read_u8(data, pos)?
        };
        if b != 0 {
            return Err(BinaryReaderError::new(Reason::InvalidByte(b), pos));
        }
        let (items, end) = read_items::<FuncItem>(data, next)?;
        assert(items.deep_view() =~= items@);
        Ok((ElementItems::Functions(items), end))
    }
}

impl Decode for Element {
    /// An element segment: a number from 0 to 7 for its form, its mode, and
    /// its entries. In the form, 1 stands for a segment that is not active,
    /// 2 for a table index in an active segment and for a declared one among
    /// the others, and 4 for entries that are initializers.
    open spec fn at(s: Seq<u8>, pos: usize) -> Read<ElementView> {
        match var_u32(s, pos) {
            Err(e) => Err(e),
            Ok((form, next)) => if form >= 8 {
                failed(Reason::IntegerTooLarge, pos)
            } else {
                match element_kind_at(s, next, form) {
                    Err(e) => Err(e),
                    Ok((kind, after)) => match element_items_at(s, after, form) {
                        Err(e) => Err(e),
                        Ok((items, end)) => Ok((ElementView { kind, items }, end)),
                    },
                }
            },
        }
    }

    fn read(data: &[u8], pos: usize) -> (res: Read<Element>) {
        let (form, next) = read_var_u32(data, pos)?;
        if form >= 8 {
            return Err(BinaryReaderError::new(Reason::IntegerTooLarge, pos));
        }
        let (kind, after) = read_element_kind(data, next, form)?;
        let (items, end) = read_element_items(data, after, form)?;
        Ok((Element { kind, items }, end))
    }
}

} // verus!
