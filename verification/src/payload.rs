//! What the sections of a module hold, as the validator receives it.

use vstd::prelude::*;
use crate::operators::ConstExpr;
use crate::types::{ExternalKind, GlobalType, RefType, TableType, TypeRef};

verus! {

/// An entry of the import section.
#[derive(Clone, Debug)]
pub struct Import {
    pub module: String,
    pub name: String,
    pub ty: TypeRef,
}

/// An entry of the export section.
#[derive(Clone, Debug)]
pub struct Export {
    pub name: String,
    pub kind: ExternalKind,
    pub index: u32,
}

/// An entry of the global section.
#[derive(Clone, Debug)]
pub struct Global {
    pub ty: GlobalType,
    pub init_expr: ConstExpr,
}

/// How a table gets its initial elements.
#[derive(Clone, Debug)]
pub enum TableInit {
    /// Every element is null.
    RefNull,
    /// Every element is the value of the expression.
    Expr(ConstExpr),
}

/// An entry of the table section.
#[derive(Clone, Debug)]
pub struct Table {
    pub ty: TableType,
    pub init: TableInit,
}

#[derive(Clone, Debug)]
pub enum DataKind {
    /// The segment is copied by an instruction.
    Passive,
    /// The segment is copied into a memory when the module is instantiated.
    Active { memory_index: u32, offset_expr: ConstExpr },
}

/// An entry of the data section. The bytes of the segment play no part in
/// validation.
#[derive(Clone, Debug)]
pub struct Data {
    pub kind: DataKind,
}

#[derive(Clone, Debug)]
pub enum ElementKind {
    /// The segment is copied by an instruction.
    Passive,
    /// The segment is copied into a table when the module is instantiated.
    /// Without a table index it goes into table 0.
    Active { table_index: Option<u32>, offset_expr: ConstExpr },
    /// The segment only declares functions as referenced.
    Declared,
}

/// An index of a function in an element segment, with its position in the
/// input.
#[derive(Clone, Copy, Debug, PartialEq, Eq, Structural)]
pub struct FuncItem {
    pub offset: usize,
    pub index: u32,
}

#[derive(Clone, Debug)]
pub enum ElementItems {
    /// The elements are references to these functions.
    Functions(Vec<FuncItem>),
    /// The elements are the values of these expressions, of the given type.
    Expressions(RefType, Vec<ConstExpr>),
}

/// An entry of the element section.
#[derive(Clone, Debug)]
pub struct Element {
    pub kind: ElementKind,
    pub items: ElementItems,
}

} // verus!
