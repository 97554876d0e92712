//! The types a module is made of: value types, the types of its entities, and
//! the payloads a section hands to the validator.

use vstd::prelude::*;

verus! {

/// Identifier of a type held by a [`crate::type_list::TypeList`].
#[derive(Clone, Copy, Debug, PartialEq, Eq, Structural)]
pub struct CoreTypeId {
    pub index: u32,
}

/// How a heap type names a defined type.
#[derive(Clone, Copy, Debug, PartialEq, Eq, Structural)]
pub enum UnpackedIndex {
    /// An index into the type space of the module being validated: the form a
    /// binary uses.
    Module(u32),
    /// A position inside the recursion group that holds the reference.
    RecGroup(u32),
    /// An identifier assigned by the type list: the form stored types use.
    Id(CoreTypeId),
}

#[derive(Clone, Copy, Debug, PartialEq, Eq, Structural)]
pub enum AbstractHeapType {
    Func,
    Extern,
    Any,
    /// The heap type `none`: the bottom of the hierarchy under `any`.
    NoAny,
    NoExtern,
    NoFunc,
    Eq,
    Struct,
    Array,
    I31,
    Exn,
    NoExn,
    Cont,
    NoCont,
}

#[derive(Clone, Copy, Debug, PartialEq, Eq, Structural)]
pub enum HeapType {
    Abstract { shared: bool, ty: AbstractHeapType },
    Concrete(UnpackedIndex),
}

#[derive(Clone, Copy, Debug, PartialEq, Eq, Structural)]
pub struct RefType {
    pub nullable: bool,
    pub heap_type: HeapType,
}

#[derive(Clone, Copy, Debug, PartialEq, Eq, Structural)]
pub enum ValType {
    I32,
    I64,
    F32,
    F64,
    V128,
    Ref(RefType),
}

/// What a struct field or an array element holds.
#[derive(Clone, Copy, Debug, PartialEq, Eq, Structural)]
pub enum StorageType {
    I8,
    I16,
    Val(ValType),
}

#[derive(Clone, Copy, Debug, PartialEq, Eq, Structural)]
pub struct FieldType {
    pub element_type: StorageType,
    pub mutable: bool,
}

#[derive(Clone, Debug)]
pub struct FuncType {
    pub params: Vec<ValType>,
    pub results: Vec<ValType>,
}

#[derive(Clone, Debug)]
pub struct StructType {
    pub fields: Vec<FieldType>,
}

#[derive(Clone, Debug)]
pub enum CompositeInnerType {
    Func(FuncType),
    Array(FieldType),
    Struct(StructType),
}

#[derive(Clone, Debug)]
pub struct CompositeType {
    pub inner: CompositeInnerType,
    pub shared: bool,
}

/// One type definition: a composite type with its declared supertype.
#[derive(Clone, Debug)]
pub struct SubType {
    pub is_final: bool,
    pub supertype_idx: Option<UnpackedIndex>,
    pub composite_type: CompositeType,
}

/// Types that are defined together and may refer to one another.
#[derive(Clone, Debug)]
pub struct RecGroup {
    pub types: Vec<SubType>,
}

/// The mathematical value of a composite type.
pub enum CompositeView {
    Func { params: Seq<ValType>, results: Seq<ValType> },
    Array(FieldType),
    Struct { fields: Seq<FieldType> },
}

/// The mathematical value of a [`SubType`].
pub struct SubTypeView {
    pub is_final: bool,
    pub supertype_idx: Option<UnpackedIndex>,
    pub shared: bool,
    pub inner: CompositeView,
}

impl View for CompositeInnerType {
    type V = CompositeView;

    open spec fn view(&self) -> CompositeView {
        match *self {
            CompositeInnerType::Func(f) => CompositeView::Func {
                params: f.params@,
                results: f.results@,
            },
            CompositeInnerType::Array(a) => CompositeView::Array(a),
            CompositeInnerType::Struct(s) => CompositeView::Struct { fields: s.fields@ },
        }
    }
}

impl View for SubType {
    type V = SubTypeView;

    open spec fn view(&self) -> SubTypeView {
        SubTypeView {
            is_final: self.is_final,
            supertype_idx: self.supertype_idx,
            shared: self.composite_type.shared,
            inner: self.composite_type.inner@,
        }
    }
}

/// The values of a sequence of type definitions.
pub open spec fn sub_type_views(types: Seq<SubType>) -> Seq<SubTypeView> {
    Seq::new(types.len(), |i: int| types[i]@)
}

impl View for RecGroup {
    type V = Seq<SubTypeView>;

    open spec fn view(&self) -> Seq<SubTypeView> {
        sub_type_views(self.types@)
    }
}

#[derive(Clone, Copy, Debug, PartialEq, Eq, Structural)]
pub struct TableType {
    pub element_type: RefType,
    /// Whether the table is indexed by `i64`.
    pub table64: bool,
    pub initial: u64,
    pub maximum: Option<u64>,
    pub shared: bool,
}

#[derive(Clone, Copy, Debug, PartialEq, Eq, Structural)]
pub struct MemoryType {
    /// Whether the memory is indexed by `i64`.
    pub memory64: bool,
    pub shared: bool,
    /// Initial size in pages.
    pub initial: u64,
    /// Largest size in pages, if bounded.
    pub maximum: Option<u64>,
    /// Binary logarithm of the page size, where the memory declares one.
    pub page_size_log2: Option<u32>,
}

#[derive(Clone, Copy, Debug, PartialEq, Eq, Structural)]
pub struct GlobalType {
    pub content_type: ValType,
    pub mutable: bool,
    pub shared: bool,
}

#[derive(Clone, Copy, Debug, PartialEq, Eq, Structural)]
pub struct TagType {
    /// Module type index of the tag's function type.
    pub func_type_idx: u32,
}

/// The type of an import as a binary states it.
#[derive(Clone, Copy, Debug, PartialEq, Eq, Structural)]
pub enum TypeRef {
    Func(u32),
    Table(TableType),
    Memory(MemoryType),
    Global(GlobalType),
    Tag(TagType),
}

/// The type of an imported or exported entity.
#[derive(Clone, Copy, Debug, PartialEq, Eq, Structural)]
pub enum EntityType {
    Func(CoreTypeId),
    Table(TableType),
    Memory(MemoryType),
    Global(GlobalType),
    Tag(CoreTypeId),
}

#[derive(Clone, Copy, Debug, PartialEq, Eq, Structural)]
pub enum ExternalKind {
    Func,
    Table,
    Memory,
    Global,
    Tag,
}

impl AbstractHeapType {
    /// Subtyping among the abstract heap types.
    pub open spec fn spec_is_subtype_of(self, other: AbstractHeapType) -> bool {
        self == other || match (self, other) {
            (AbstractHeapType::Eq, AbstractHeapType::Any) => true,
            (AbstractHeapType::I31, AbstractHeapType::Any) => true,
            (AbstractHeapType::Struct, AbstractHeapType::Any) => true,
            (AbstractHeapType::Array, AbstractHeapType::Any) => true,
            (AbstractHeapType::NoAny, AbstractHeapType::Any) => true,
            (AbstractHeapType::I31, AbstractHeapType::Eq) => true,
            (AbstractHeapType::Struct, AbstractHeapType::Eq) => true,
            (AbstractHeapType::Array, AbstractHeapType::Eq) => true,
            (AbstractHeapType::NoAny, AbstractHeapType::Eq) => true,
            (AbstractHeapType::NoAny, AbstractHeapType::I31) => true,
            (AbstractHeapType::NoAny, AbstractHeapType::Array) => true,
            (AbstractHeapType::NoAny, AbstractHeapType::Struct) => true,
            (AbstractHeapType::NoExtern, AbstractHeapType::Extern) => true,
            (AbstractHeapType::NoFunc, AbstractHeapType::Func) => true,
            (AbstractHeapType::NoExn, AbstractHeapType::Exn) => true,
            (AbstractHeapType::NoCont, AbstractHeapType::Cont) => true,
            _ => false,
        }
    }

    #[verifier::when_used_as_spec(spec_is_subtype_of)]
    pub fn is_subtype_of(self, other: AbstractHeapType) -> (r: bool)
        ensures
            r == self.spec_is_subtype_of(other),
    {
        if self == other {
            return true;
        }
        match (self, other) {
            (AbstractHeapType::Eq, AbstractHeapType::Any) => true,
            (AbstractHeapType::I31, AbstractHeapType::Any) => true,
            (AbstractHeapType::Struct, AbstractHeapType::Any) => true,
            (AbstractHeapType::Array, AbstractHeapType::Any) => true,
            (AbstractHeapType::NoAny, AbstractHeapType::Any) => true,
            (AbstractHeapType::I31, AbstractHeapType::Eq) => true,
            (AbstractHeapType::Struct, AbstractHeapType::Eq) => true,
            (AbstractHeapType::Array, AbstractHeapType::Eq) => true,
            (AbstractHeapType::NoAny, AbstractHeapType::Eq) => true,
            (AbstractHeapType::NoAny, AbstractHeapType::I31) => true,
            (AbstractHeapType::NoAny, AbstractHeapType::Array) => true,
            (AbstractHeapType::NoAny, AbstractHeapType::Struct) => true,
            (AbstractHeapType::NoExtern, AbstractHeapType::Extern) => true,
            (AbstractHeapType::NoFunc, AbstractHeapType::Func) => true,
            (AbstractHeapType::NoExn, AbstractHeapType::Exn) => true,
            (AbstractHeapType::NoCont, AbstractHeapType::Cont) => true,
            _ => false,
        }
    }

    /// The top of the hierarchy that holds `self`.
    pub open spec fn spec_top(self) -> AbstractHeapType {
        match self {
            AbstractHeapType::Func | AbstractHeapType::NoFunc => AbstractHeapType::Func,
            AbstractHeapType::Extern | AbstractHeapType::NoExtern => AbstractHeapType::Extern,
            AbstractHeapType::Any
            | AbstractHeapType::Eq
            | AbstractHeapType::Struct
            | AbstractHeapType::Array
            | AbstractHeapType::I31
            | AbstractHeapType::NoAny => AbstractHeapType::Any,
            AbstractHeapType::Exn | AbstractHeapType::NoExn => AbstractHeapType::Exn,
            AbstractHeapType::Cont | AbstractHeapType::NoCont => AbstractHeapType::Cont,
        }
    }

    #[verifier::when_used_as_spec(spec_top)]
    pub fn top(self) -> (r: AbstractHeapType)
        ensures
            r == self.spec_top(),
    {
        match self {
            AbstractHeapType::Func | AbstractHeapType::NoFunc => AbstractHeapType::Func,
            AbstractHeapType::Extern | AbstractHeapType::NoExtern => AbstractHeapType::Extern,
            AbstractHeapType::Any
            | AbstractHeapType::Eq
            | AbstractHeapType::Struct
            | AbstractHeapType::Array
            | AbstractHeapType::I31
            | AbstractHeapType::NoAny => AbstractHeapType::Any,
            AbstractHeapType::Exn | AbstractHeapType::NoExn => AbstractHeapType::Exn,
            AbstractHeapType::Cont | AbstractHeapType::NoCont => AbstractHeapType::Cont,
        }
    }
}

impl RefType {
    /// The type `funcref`: a nullable reference to any function.
    pub open spec fn spec_funcref() -> RefType {
        RefType {
            nullable: true,
            heap_type: HeapType::Abstract { shared: false, ty: AbstractHeapType::Func },
        }
    }

    #[verifier::when_used_as_spec(spec_funcref)]
    pub fn funcref() -> (r: RefType)
        ensures
            r == RefType::spec_funcref(),
    {
        RefType {
            nullable: true,
            heap_type: HeapType::Abstract { shared: false, ty: AbstractHeapType::Func },
        }
    }

    /// Whether a table of this type has a default element.
    pub fn is_nullable(&self) -> (r: bool)
        ensures
            r == self.nullable,
    {
        self.nullable
    }
}

impl ValType {
    /// Whether a value of this type exists without an initializer.
    pub open spec fn spec_is_defaultable(&self) -> bool {
        match *self {
            ValType::Ref(r) => r.nullable,
            _ => true,
        }
    }

    #[verifier::when_used_as_spec(spec_is_defaultable)]
    pub fn is_defaultable(&self) -> (r: bool)
        ensures
            r == self.spec_is_defaultable(),
    {
        match self {
            ValType::Ref(r) => r.nullable,
            _ => true,
        }
    }
}

impl StorageType {
    /// The type a stored value has on the operand stack.
    pub open spec fn spec_unpack(&self) -> ValType {
        match *self {
            StorageType::Val(v) => v,
            _ => ValType::I32,
        }
    }

    #[verifier::when_used_as_spec(spec_unpack)]
    pub fn unpack(&self) -> (r: ValType)
        ensures
            r == self.spec_unpack(),
    {
        match self {
            StorageType::Val(v) => *v,
            _ => ValType::I32,
        }
    }

    pub open spec fn spec_is_defaultable(&self) -> bool {
        match *self {
            StorageType::Val(v) => v.spec_is_defaultable(),
            _ => true,
        }
    }

    #[verifier::when_used_as_spec(spec_is_defaultable)]
    pub fn is_defaultable(&self) -> (r: bool)
        ensures
            r == self.spec_is_defaultable(),
    {
        match self {
            StorageType::Val(v) => v.is_defaultable(),
            _ => true,
        }
    }
}

impl TableType {
    /// The type of an index into the table.
    pub open spec fn spec_index_type(&self) -> ValType {
        if self.table64 {
            ValType::I64
        } else {
            ValType::I32
        }
    }

    #[verifier::when_used_as_spec(spec_index_type)]
    pub fn index_type(&self) -> (r: ValType)
        ensures
            r == self.spec_index_type(),
    {
        if self.table64 {
            ValType::I64
        } else {
            ValType::I32
        }
    }
}

impl MemoryType {
    /// The type of an address in the memory.
    pub open spec fn spec_index_type(&self) -> ValType {
        if self.memory64 {
            ValType::I64
        } else {
            ValType::I32
        }
    }

    #[verifier::when_used_as_spec(spec_index_type)]
    pub fn index_type(&self) -> (r: ValType)
        ensures
            r == self.spec_index_type(),
    {
        if self.memory64 {
            ValType::I64
        } else {
            ValType::I32
        }
    }
}

} // verus!
