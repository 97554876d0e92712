//! The failures validation reports.

use vstd::prelude::*;
use crate::features::Feature;
use crate::operators::Operator;
use crate::types::ValType;

verus! {

/// The classes of failure.
#[derive(Clone, Copy, Debug, PartialEq, Eq, Structural)]
pub enum ErrorKind {
    /// The input does not have the shape it declares.
    Malformed,
    /// An index refers to an entity that does not exist.
    OutOfBounds,
    /// A value or entity has another type than its place asks for.
    TypeMismatch,
    /// The module holds more than the implementation limits allow.
    LimitExceeded,
    /// The construct needs a proposal that is switched off.
    FeatureDisabled,
    /// A section arrives out of order or a second time.
    MisplacedSection,
    /// Two exports have one name.
    DuplicateExport,
    /// The limits of a table or memory are not allowed.
    InvalidLimits,
    /// An initializer uses an instruction that cannot be evaluated statically.
    NonConstantOperator,
    /// A shared entity holds something that is not shared.
    SharedMismatch,
}

/// The index spaces of a module and the other things it counts.
#[derive(Clone, Copy, Debug, PartialEq, Eq, Structural)]
pub enum IndexSpace {
    Types,
    Functions,
    Tables,
    Memories,
    Globals,
    Tags,
    Imports,
    Exports,
    ElementSegments,
    DataSegments,
    Locals,
}

/// What exactly went wrong.
#[derive(Clone, Copy, Debug, PartialEq, Eq, Structural)]
pub enum Reason {
    /// The input ends inside of what it declares.
    UnexpectedEof,
    /// The input does not begin with the four bytes that mark a module.
    BadMagic,
    /// An integer goes on beyond the bytes its type allows.
    IntegerTooLong,
    /// An integer does not fit its type.
    IntegerTooLarge,
    /// A name is not valid UTF-8.
    InvalidUtf8,
    /// A name is longer than allowed.
    StringTooLong,
    /// A byte that says what follows has a value that stands for nothing.
    InvalidByte(u8),
    /// A section has an identifier that stands for nothing.
    UnknownSection(u8),
    /// A section or a code body does not have the size it declares.
    SizeMismatch,
    /// An instruction of an initializer that this library does not know.
    UnknownOperator(u8),
    /// A payload arrived before the version header.
    MissingHeader,
    /// The version header arrived a second time.
    HeaderOutOfOrder,
    /// The version header names a version other than 1.
    UnknownVersion(u16),
    /// A heap type in the input is already resolved.
    ResolvedIndexInInput,
    /// A recursion group is empty, refers to a type out of range, or declares
    /// a supertype that is final, of another kind or not defined before.
    MalformedRecGroup,
    /// A function type has more parameters or results than allowed.
    FunctionSignatureTooLong,
    /// A struct type has more fields than allowed.
    TooManyStructFields,
    /// A constant expression does not finish with `end`.
    MissingEnd,
    /// A constant expression goes on after its `end`.
    OperatorsAfterEnd,
    /// The code section does not hold one body per defined function.
    InconsistentCodeCount,
    /// The data section does not hold as many segments as were announced.
    InconsistentDataCount,
    /// `index` does not exist in `space`.
    Unknown { space: IndexSpace, index: u32 },
    /// The type at this module index is not a function type.
    NotFunctionType(u32),
    /// The type at this module index is not a struct type.
    NotStructType(u32),
    /// The type at this module index is not an array type.
    NotArrayType(u32),
    /// A table without an initializer has an element type without a default.
    NonDefaultableElement,
    /// A struct field or array element has no default value.
    NonDefaultableField,
    /// The element type of a segment does not fit the table it initializes.
    ElementTypeMismatch,
    /// An instruction found another operand than it takes.
    OperandMismatch { expected: ValType, actual: ValType },
    /// An instruction found another operand than the reference it takes.
    ExpectedReference { actual: ValType },
    /// An instruction found the operand stack empty.
    MissingOperand { expected: ValType },
    /// Operands were left on the stack at the end of the expression.
    ValuesRemaining,
    /// The start function takes parameters or returns results.
    InvalidStartFunction,
    /// `space` would hold more entries than allowed.
    TooMany(IndexSpace),
    /// An element segment has more entries than a table may hold.
    TooManyElements,
    /// The accumulated type size reached the ceiling.
    TypeSizeExceeded,
    /// The type list cannot hold more types.
    TypeListFull,
    /// The construct needs `feature`.
    Disabled(Feature),
    /// A section came after one that must follow it.
    SectionOutOfOrder,
    /// A section came a second time.
    DuplicateSection,
    /// A payload came after the end of the module.
    AfterEnd,
    /// A code body came outside the code section or after its last body.
    UnexpectedCodeBody,
    /// An export name was used before.
    DuplicateExportName,
    /// A pair of names was imported more than once, where each pair may be
    /// imported once only.
    DuplicateImportName,
    /// The initial size is greater than the maximum.
    MinimumExceedsMaximum,
    /// A table may grow beyond what its index type can address.
    TableTooLarge,
    /// A memory may grow beyond what its index type can address.
    MemoryTooLarge,
    /// A shared memory states no maximum.
    SharedMemoryWithoutMaximum,
    /// A page size other than one byte or 64 KiB.
    InvalidPageSize,
    /// The instruction is not allowed in a constant expression.
    NonConstant(Operator),
    /// `global.get` of a global the module defines itself.
    LocalGlobalGet(u32),
    /// `global.get` of a mutable global.
    MutableGlobalGet(u32),
    /// A shared table holds elements that are not shared.
    SharedTableElement,
    /// A shared global holds a value that is not shared.
    SharedGlobalContent,
}

impl Reason {
    /// The class a failure belongs to.
    pub open spec fn spec_kind(&self) -> ErrorKind {
        match *self {
            Reason::UnknownVersion(_)
            | Reason::UnexpectedEof
            | Reason::BadMagic
            | Reason::IntegerTooLong
            | Reason::IntegerTooLarge
            | Reason::InvalidUtf8
            | Reason::InvalidByte(_)
            | Reason::UnknownSection(_)
            | Reason::SizeMismatch
            | Reason::UnknownOperator(_)
            | Reason::DuplicateImportName
            | Reason::ResolvedIndexInInput
            | Reason::MalformedRecGroup
            | Reason::MissingEnd
            | Reason::OperatorsAfterEnd
            | Reason::InconsistentCodeCount
            | Reason::InconsistentDataCount
            | Reason::UnexpectedCodeBody => ErrorKind::Malformed,
            Reason::Unknown { .. } => ErrorKind::OutOfBounds,
            Reason::NotFunctionType(_)
            | Reason::NotStructType(_)
            | Reason::NotArrayType(_)
            | Reason::NonDefaultableElement
            | Reason::NonDefaultableField
            | Reason::ElementTypeMismatch
            | Reason::OperandMismatch { .. }
            | Reason::ExpectedReference { .. }
            | Reason::MissingOperand { .. }
            | Reason::ValuesRemaining
            | Reason::InvalidStartFunction => ErrorKind::TypeMismatch,
            Reason::TooMany(_)
            | Reason::StringTooLong
            | Reason::TooManyElements
            | Reason::TypeSizeExceeded
            | Reason::TypeListFull
            | Reason::FunctionSignatureTooLong
            | Reason::TooManyStructFields => ErrorKind::LimitExceeded,
            Reason::Disabled(_) => ErrorKind::FeatureDisabled,
            Reason::MissingHeader
            | Reason::HeaderOutOfOrder
            | Reason::SectionOutOfOrder
            | Reason::DuplicateSection
            | Reason::AfterEnd => ErrorKind::MisplacedSection,
            Reason::DuplicateExportName => ErrorKind::DuplicateExport,
            Reason::MinimumExceedsMaximum
            | Reason::TableTooLarge
            | Reason::MemoryTooLarge
            | Reason::SharedMemoryWithoutMaximum
            | Reason::InvalidPageSize => ErrorKind::InvalidLimits,
            Reason::NonConstant(_) | Reason::LocalGlobalGet(_) | Reason::MutableGlobalGet(_) =>
                ErrorKind::NonConstantOperator,
            Reason::SharedTableElement | Reason::SharedGlobalContent => ErrorKind::SharedMismatch,
        }
    }

    #[verifier::when_used_as_spec(spec_kind)]
    pub fn kind(&self) -> (k: ErrorKind)
        ensures
            k == self.spec_kind(),
    {
        match self {
            Reason::UnknownVersion(_)
            | Reason::UnexpectedEof
            | Reason::BadMagic
            | Reason::IntegerTooLong
            | Reason::IntegerTooLarge
            | Reason::InvalidUtf8
            | Reason::InvalidByte(_)
            | Reason::UnknownSection(_)
            | Reason::SizeMismatch
            | Reason::UnknownOperator(_)
            | Reason::DuplicateImportName
            | Reason::ResolvedIndexInInput
            | Reason::MalformedRecGroup
            | Reason::MissingEnd
            | Reason::OperatorsAfterEnd
            | Reason::InconsistentCodeCount
            | Reason::InconsistentDataCount
            | Reason::UnexpectedCodeBody => ErrorKind::Malformed,
            Reason::Unknown { .. } => ErrorKind::OutOfBounds,
            Reason::NotFunctionType(_)
            | Reason::NotStructType(_)
            | Reason::NotArrayType(_)
            | Reason::NonDefaultableElement
            | Reason::NonDefaultableField
            | Reason::ElementTypeMismatch
            | Reason::OperandMismatch { .. }
            | Reason::ExpectedReference { .. }
            | Reason::MissingOperand { .. }
            | Reason::ValuesRemaining
            | Reason::InvalidStartFunction => ErrorKind::TypeMismatch,
            Reason::TooMany(_)
            | Reason::StringTooLong
            | Reason::TooManyElements
            | Reason::TypeSizeExceeded
            | Reason::TypeListFull
            | Reason::FunctionSignatureTooLong
            | Reason::TooManyStructFields => ErrorKind::LimitExceeded,
            Reason::Disabled(_) => ErrorKind::FeatureDisabled,
            Reason::MissingHeader
            | Reason::HeaderOutOfOrder
            | Reason::SectionOutOfOrder
            | Reason::DuplicateSection
            | Reason::AfterEnd => ErrorKind::MisplacedSection,
            Reason::DuplicateExportName => ErrorKind::DuplicateExport,
            Reason::MinimumExceedsMaximum
            | Reason::TableTooLarge
            | Reason::MemoryTooLarge
            | Reason::SharedMemoryWithoutMaximum
            | Reason::InvalidPageSize => ErrorKind::InvalidLimits,
            Reason::NonConstant(_) | Reason::LocalGlobalGet(_) | Reason::MutableGlobalGet(_) =>
                ErrorKind::NonConstantOperator,
            Reason::SharedTableElement | Reason::SharedGlobalContent => ErrorKind::SharedMismatch,
        }
    }
}

impl Reason {
    /// What went wrong, in words.
    pub open spec fn spec_description(&self) -> &'static str {
        match *self {
            Reason::UnexpectedEof => "unexpected end-of-file",
            Reason::BadMagic => "magic header not detected: bad magic number",
            Reason::IntegerTooLong => "invalid integer: integer representation too long",
            Reason::IntegerTooLarge => "invalid integer: integer too large",
            Reason::InvalidUtf8 => "malformed UTF-8 encoding",
            Reason::StringTooLong => "string size out of bounds",
            Reason::InvalidByte(_) => "invalid leading byte",
            Reason::UnknownSection(_) => "malformed section id",
            Reason::SizeMismatch => "section size mismatch: unexpected data at the end",
            Reason::UnknownOperator(_) => "illegal opcode in constant expression",
            Reason::MissingHeader => "unexpected section before header was parsed",
            Reason::HeaderOutOfOrder => "wasm version header out of order",
            Reason::UnknownVersion(_) => "unknown binary version",
            Reason::ResolvedIndexInInput => "type index is already resolved",
            Reason::MalformedRecGroup => "malformed recursion group",
            Reason::FunctionSignatureTooLong => "function params or returns count is out of bounds",
            Reason::TooManyStructFields => "struct fields count is out of bounds",
            Reason::MissingEnd => "constant expression does not finish with `end`",
            Reason::OperatorsAfterEnd => "operators remaining after end of expression",
            Reason::InconsistentCodeCount => "function and code section have inconsistent lengths",
            Reason::InconsistentDataCount => "data count and data section have inconsistent lengths",
            Reason::Unknown { space, .. } => match space {
                IndexSpace::Types => "unknown type: type index out of bounds",
                IndexSpace::Functions => "unknown function: func index out of bounds",
                IndexSpace::Tables => "unknown table: table index out of bounds",
                IndexSpace::Memories => "unknown memory: memory index out of bounds",
                IndexSpace::Globals => "unknown global: global index out of bounds",
                IndexSpace::Tags => "unknown tag: tag index out of bounds",
                _ => "index out of bounds",
            },
            Reason::NotFunctionType(_) => "type index is not a function type",
            Reason::NotStructType(_) => "type index is not a struct type",
            Reason::NotArrayType(_) => "type index is not an array type",
            Reason::NonDefaultableElement => "type mismatch: non-defaultable element type",
            Reason::NonDefaultableField => "type mismatch: field type is not defaultable",
            Reason::ElementTypeMismatch => "type mismatch: invalid element type for table type",
            Reason::OperandMismatch { .. } => "type mismatch: operand has another type than expected",
            Reason::ExpectedReference { .. } => "type mismatch: expected a reference",
            Reason::MissingOperand { .. } => "type mismatch: expected an operand but nothing on stack",
            Reason::ValuesRemaining => "type mismatch: values remaining on stack at end of block",
            Reason::InvalidStartFunction => "invalid start function type",
            Reason::TooMany(space) => match space {
                IndexSpace::Types => "types count exceeds limit",
                IndexSpace::Functions => "functions count exceeds limit",
                IndexSpace::Tables => "tables count exceeds limit",
                IndexSpace::Memories => "memories count exceeds limit",
                IndexSpace::Globals => "globals count exceeds limit",
                IndexSpace::Tags => "tags count exceeds limit",
                IndexSpace::Imports => "imports count exceeds limit",
                IndexSpace::Exports => "exports count exceeds limit",
                IndexSpace::ElementSegments => "element segments count exceeds limit",
                IndexSpace::DataSegments => "data segments count exceeds limit",
                IndexSpace::Locals => "too many locals: locals exceed maximum",
            },
            Reason::TooManyElements => "number of elements is out of bounds",
            Reason::TypeSizeExceeded => "effective type size exceeds the limit",
            Reason::TypeListFull => "the type list is full",
            Reason::Disabled(_) => "a proposal that is needed is not enabled",
            Reason::SectionOutOfOrder => "section out of order",
            Reason::DuplicateSection => "section occurs more than once",
            Reason::AfterEnd => "unexpected section after parsing has completed",
            Reason::UnexpectedCodeBody => "code section entry exceeds number of functions",
            Reason::DuplicateExportName => "duplicate export name",
            Reason::DuplicateImportName => "module has a duplicate import name",
            Reason::MinimumExceedsMaximum => "size minimum must not be greater than maximum",
            Reason::TableTooLarge => "table size is more than its index type can address",
            Reason::MemoryTooLarge => "memory size is more than its index type can address",
            Reason::SharedMemoryWithoutMaximum => "shared memory must have maximum size",
            Reason::InvalidPageSize => "invalid custom page size",
            Reason::NonConstant(_) => "constant expression required: non-constant operator",
            Reason::LocalGlobalGet(_) =>
                "constant expression required: global.get of locally defined global",
            Reason::MutableGlobalGet(_) =>
                "constant expression required: global.get of mutable global",
            Reason::SharedTableElement => "shared tables must have a shared element type",
            Reason::SharedGlobalContent => "shared globals must have a shared value type",
        }
    }

    #[verifier::when_used_as_spec(spec_description)]
    pub fn description(&self) -> (text: &'static str)
        ensures
            text == self.spec_description(),
    {
        match *self {
            Reason::UnexpectedEof => "unexpected end-of-file",
            Reason::BadMagic => "magic header not detected: bad magic number",
            Reason::IntegerTooLong => "invalid integer: integer representation too long",
            Reason::IntegerTooLarge => "invalid integer: integer too large",
            Reason::InvalidUtf8 => "malformed UTF-8 encoding",
            Reason::StringTooLong => "string size out of bounds",
            Reason::InvalidByte(_) => "invalid leading byte",
            Reason::UnknownSection(_) => "malformed section id",
            Reason::SizeMismatch => "section size mismatch: unexpected data at the end",
            Reason::UnknownOperator(_) => "illegal opcode in constant expression",
            Reason::MissingHeader => "unexpected section before header was parsed",
            Reason::HeaderOutOfOrder => "wasm version header out of order",
            Reason::UnknownVersion(_) => "unknown binary version",
            Reason::ResolvedIndexInInput => "type index is already resolved",
            Reason::MalformedRecGroup => "malformed recursion group",
            Reason::FunctionSignatureTooLong => "function params or returns count is out of bounds",
            Reason::TooManyStructFields => "struct fields count is out of bounds",
            Reason::MissingEnd => "constant expression does not finish with `end`",
            Reason::OperatorsAfterEnd => "operators remaining after end of expression",
            Reason::InconsistentCodeCount => "function and code section have inconsistent lengths",
            Reason::InconsistentDataCount => "data count and data section have inconsistent lengths",
            Reason::Unknown { space, .. } => match space {
                IndexSpace::Types => "unknown type: type index out of bounds",
                IndexSpace::Functions => "unknown function: func index out of bounds",
                IndexSpace::Tables => "unknown table: table index out of bounds",
                IndexSpace::Memories => "unknown memory: memory index out of bounds",
                IndexSpace::Globals => "unknown global: global index out of bounds",
                IndexSpace::Tags => "unknown tag: tag index out of bounds",
                _ => "index out of bounds",
            },
            Reason::NotFunctionType(_) => "type index is not a function type",
            Reason::NotStructType(_) => "type index is not a struct type",
            Reason::NotArrayType(_) => "type index is not an array type",
            Reason::NonDefaultableElement => "type mismatch: non-defaultable element type",
            Reason::NonDefaultableField => "type mismatch: field type is not defaultable",
            Reason::ElementTypeMismatch => "type mismatch: invalid element type for table type",
            Reason::OperandMismatch { .. } => "type mismatch: operand has another type than expected",
            Reason::ExpectedReference { .. } => "type mismatch: expected a reference",
            Reason::MissingOperand { .. } => "type mismatch: expected an operand but nothing on stack",
            Reason::ValuesRemaining => "type mismatch: values remaining on stack at end of block",
            Reason::InvalidStartFunction => "invalid start function type",
            Reason::TooMany(space) => match space {
                IndexSpace::Types => "types count exceeds limit",
                IndexSpace::Functions => "functions count exceeds limit",
                IndexSpace::Tables => "tables count exceeds limit",
                IndexSpace::Memories => "memories count exceeds limit",
                IndexSpace::Globals => "globals count exceeds limit",
                IndexSpace::Tags => "tags count exceeds limit",
                IndexSpace::Imports => "imports count exceeds limit",
                IndexSpace::Exports => "exports count exceeds limit",
                IndexSpace::ElementSegments => "element segments count exceeds limit",
                IndexSpace::DataSegments => "data segments count exceeds limit",
                IndexSpace::Locals => "too many locals: locals exceed maximum",
            },
            Reason::TooManyElements => "number of elements is out of bounds",
            Reason::TypeSizeExceeded => "effective type size exceeds the limit",
            Reason::TypeListFull => "the type list is full",
            Reason::Disabled(_) => "a proposal that is needed is not enabled",
            Reason::SectionOutOfOrder => "section out of order",
            Reason::DuplicateSection => "section occurs more than once",
            Reason::AfterEnd => "unexpected section after parsing has completed",
            Reason::UnexpectedCodeBody => "code section entry exceeds number of functions",
            Reason::DuplicateExportName => "duplicate export name",
            Reason::DuplicateImportName => "module has a duplicate import name",
            Reason::MinimumExceedsMaximum => "size minimum must not be greater than maximum",
            Reason::TableTooLarge => "table size is more than its index type can address",
            Reason::MemoryTooLarge => "memory size is more than its index type can address",
            Reason::SharedMemoryWithoutMaximum => "shared memory must have maximum size",
            Reason::InvalidPageSize => "invalid custom page size",
            Reason::NonConstant(_) => "constant expression required: non-constant operator",
            Reason::LocalGlobalGet(_) =>
                "constant expression required: global.get of locally defined global",
            Reason::MutableGlobalGet(_) =>
                "constant expression required: global.get of mutable global",
            Reason::SharedTableElement => "shared tables must have a shared element type",
            Reason::SharedGlobalContent => "shared globals must have a shared value type",
        }
    }
}

/// A validation failure: what went wrong, and at which byte of the input.
#[derive(Clone, Copy, Debug, PartialEq, Eq, Structural)]
pub struct BinaryReaderError {
    pub reason: Reason,
    pub offset: usize,
}

impl BinaryReaderError {
    pub fn new(reason: Reason, offset: usize) -> (e: BinaryReaderError)
        ensures
            e == (BinaryReaderError { reason, offset }),
    {
        BinaryReaderError { reason, offset }
    }

    pub open spec fn spec_kind(&self) -> ErrorKind {
        self.reason.spec_kind()
    }

    /// The class of the failure.
    #[verifier::when_used_as_spec(spec_kind)]
    pub fn kind(&self) -> (k: ErrorKind)
        ensures
            k == self.spec_kind(),
    {
        self.reason.kind()
    }

    /// What went wrong, in words.
    pub fn message(&self) -> (text: &'static str)
        ensures
            text == self.reason.spec_description(),
    {
        self.reason.description()
    }

    /// The position in the input at which validation failed.
    pub fn offset(&self) -> (o: usize)
        ensures
            o == self.offset,
    {
        self.offset
    }
}

/// The failure `reason` at `offset`, as a result.
pub open spec fn fail<T>(reason: Reason, offset: usize) -> Result<T, BinaryReaderError> {
    Err(BinaryReaderError { reason, offset })
}

} // verus!
