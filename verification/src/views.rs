//! The mathematical values of the payloads.

use vstd::prelude::*;
use crate::decode_expr::ConstExprView;
use crate::payload::{
    Data, DataKind, Element, ElementItems, ElementKind, Export, FuncItem, Global, Import, Table,
    TableInit,
};
use crate::types::{
    ExternalKind, GlobalType, MemoryType, RecGroup, RefType, SubTypeView, TableType, TagType,
    TypeRef,
};
use crate::validator::{Located, Payload};

verus! {

pub struct ImportItemView {
    pub module: Seq<char>,
    pub name: Seq<char>,
    pub ty: TypeRef,
}

pub struct ExportItemView {
    pub name: Seq<char>,
    pub kind: ExternalKind,
    pub index: u32,
}

pub struct GlobalView {
    pub ty: GlobalType,
    pub init_expr: ConstExprView,
}

pub struct TableView {
    pub ty: TableType,
    /// The initializer of the elements, where there is one.
    pub init: Option<ConstExprView>,
}

pub enum DataView {
    Passive,
    Active { memory_index: u32, offset_expr: ConstExprView },
}

pub enum ElementKindView {
    Passive,
    Active { table_index: Option<u32>, offset_expr: ConstExprView },
    Declared,
}

pub enum ElementItemsView {
    Functions(Seq<FuncItem>),
    Expressions(RefType, Seq<ConstExprView>),
}

pub struct ElementView {
    pub kind: ElementKindView,
    pub items: ElementItemsView,
}

pub struct LocatedView<V> {
    pub offset: usize,
    pub item: V,
}

pub enum PayloadView {
    Version { num: u16, offset: usize },
    TypeSection { offset: usize, groups: Seq<LocatedView<Seq<SubTypeView>>> },
    ImportSection { offset: usize, imports: Seq<LocatedView<ImportItemView>> },
    FunctionSection { offset: usize, functions: Seq<LocatedView<u32>> },
    TableSection { offset: usize, tables: Seq<LocatedView<TableView>> },
    MemorySection { offset: usize, memories: Seq<LocatedView<MemoryType>> },
    TagSection { offset: usize, tags: Seq<LocatedView<TagType>> },
    GlobalSection { offset: usize, globals: Seq<LocatedView<GlobalView>> },
    ExportSection { offset: usize, exports: Seq<LocatedView<ExportItemView>> },
    StartSection { func: u32, offset: usize },
    ElementSection { offset: usize, elements: Seq<LocatedView<ElementView>> },
    DataCountSection { count: u32, offset: usize },
    CodeSectionStart { count: u32, offset: usize },
    CodeSectionEntry { body: Seq<u8>, offset: usize },
    DataSection { offset: usize, data: Seq<LocatedView<DataView>> },
    CustomSection { offset: usize },
    End { offset: usize },
}

impl DeepView for RecGroup {
    type V = Seq<SubTypeView>;

    open spec fn deep_view(&self) -> Seq<SubTypeView> {
        self@
    }
}

impl DeepView for MemoryType {
    type V = MemoryType;

    open spec fn deep_view(&self) -> MemoryType {
        *self
    }
}

impl DeepView for TagType {
    type V = TagType;

    open spec fn deep_view(&self) -> TagType {
        *self
    }
}

impl DeepView for FuncItem {
    type V = FuncItem;

    open spec fn deep_view(&self) -> FuncItem {
        *self
    }
}

impl DeepView for Import {
    type V = ImportItemView;

    open spec fn deep_view(&self) -> ImportItemView {
        ImportItemView { module: self.module@, name: self.name@, ty: self.ty }
    }
}

impl DeepView for Export {
    type V = ExportItemView;

    open spec fn deep_view(&self) -> ExportItemView {
        ExportItemView { name: self.name@, kind: self.kind, index: self.index }
    }
}

impl DeepView for Global {
    type V = GlobalView;

    open spec fn deep_view(&self) -> GlobalView {
        GlobalView { ty: self.ty, init_expr: self.init_expr.deep_view() }
    }
}

impl DeepView for Table {
    type V = TableView;

    open spec fn deep_view(&self) -> TableView {
        TableView {
            ty: self.ty,
            init: match self.init {
                TableInit::RefNull => None,
                TableInit::Expr(e) => Some(e.deep_view()),
            },
        }
    }
}

impl DeepView for Data {
    type V = DataView;

    open spec fn deep_view(&self) -> DataView {
        match self.kind {
            DataKind::Passive => DataView::Passive,
            DataKind::Active { memory_index, offset_expr } => DataView::Active {
                memory_index,
                offset_expr: offset_expr.deep_view(),
            },
        }
    }
}

/// The mathematical value of the mode of an element segment.
pub open spec fn element_kind_view(kind: ElementKind) -> ElementKindView {
    match kind {
        ElementKind::Passive => ElementKindView::Passive,
        ElementKind::Declared => ElementKindView::Declared,
        ElementKind::Active { table_index, offset_expr } => ElementKindView::Active {
            table_index,
            offset_expr: offset_expr.deep_view(),
        },
    }
}

/// The mathematical value of the entries of an element segment.
pub open spec fn element_items_view(items: ElementItems) -> ElementItemsView {
    match items {
        ElementItems::Functions(items) => ElementItemsView::Functions(items@),
        ElementItems::Expressions(ty, exprs) => ElementItemsView::Expressions(
            ty,
            exprs.deep_view(),
        ),
    }
}

impl DeepView for Element {
    type V = ElementView;

    open spec fn deep_view(&self) -> ElementView {
        ElementView {
            kind: element_kind_view(self.kind),
            items: element_items_view(self.items),
        }
    }
}

impl<T: DeepView> DeepView for Located<T> {
    type V = LocatedView<T::V>;

    open spec fn deep_view(&self) -> LocatedView<T::V> {
        LocatedView { offset: self.offset, item: self.item.deep_view() }
    }
}

impl DeepView for Payload {
    type V = PayloadView;

    open spec fn deep_view(&self) -> PayloadView {
        match *self {
            Payload::Version { num, offset } => PayloadView::Version { num, offset },
            Payload::TypeSection { offset, groups } => PayloadView::TypeSection {
                offset,
                groups: groups.deep_view(),
            },
            Payload::ImportSection { offset, imports } => PayloadView::ImportSection {
                offset,
                imports: imports.deep_view(),
            },
            Payload::FunctionSection { offset, functions } => PayloadView::FunctionSection {
                offset,
                functions: functions.deep_view(),
            },
            Payload::TableSection { offset, tables } => PayloadView::TableSection {
                offset,
                tables: tables.deep_view(),
            },
            Payload::MemorySection { offset, memories } => PayloadView::MemorySection {
                offset,
                memories: memories.deep_view(),
            },
            Payload::TagSection { offset, tags } => PayloadView::TagSection {
                offset,
                tags: tags.deep_view(),
            },
            Payload::GlobalSection { offset, globals } => PayloadView::GlobalSection {
                offset,
                globals: globals.deep_view(),
            },
            Payload::ExportSection { offset, exports } => PayloadView::ExportSection {
                offset,
                exports: exports.deep_view(),
            },
            Payload::StartSection { func, offset } => PayloadView::StartSection { func, offset },
            Payload::ElementSection { offset, elements } => PayloadView::ElementSection {
                offset,
                elements: elements.deep_view(),
            },
            Payload::DataCountSection { count, offset } => PayloadView::DataCountSection {
                count,
                offset,
            },
            Payload::CodeSectionStart { count, offset } => PayloadView::CodeSectionStart {
                count,
                offset,
            },
            Payload::CodeSectionEntry { body, offset } => PayloadView::CodeSectionEntry {
                body: body@,
                offset,
            },
            Payload::DataSection { offset, data } => PayloadView::DataSection {
                offset,
                data: data.deep_view(),
            },
            Payload::CustomSection { offset } => PayloadView::CustomSection { offset },
            Payload::End { offset } => PayloadView::End { offset },
        }
    }
}

} // verus!
