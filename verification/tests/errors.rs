use wasm_validator::error::{BinaryReaderError, ErrorKind, IndexSpace, Reason};
use wasm_validator::features::Feature;
use wasm_validator::operators::Operator;
use wasm_validator::types::ValType;

#[test]
fn every_failure_has_its_class() {
    let mismatch = Reason::OperandMismatch { expected: ValType::I32, actual: ValType::I64 };
    let cases = [
        (Reason::MissingHeader, ErrorKind::MisplacedSection),
        (Reason::HeaderOutOfOrder, ErrorKind::MisplacedSection),
        (Reason::SectionOutOfOrder, ErrorKind::MisplacedSection),
        (Reason::DuplicateSection, ErrorKind::MisplacedSection),
        (Reason::AfterEnd, ErrorKind::MisplacedSection),
        (Reason::UnknownVersion(3), ErrorKind::Malformed),
        (Reason::ResolvedIndexInInput, ErrorKind::Malformed),
        (Reason::MalformedRecGroup, ErrorKind::Malformed),
        (Reason::MissingEnd, ErrorKind::Malformed),
        (Reason::OperatorsAfterEnd, ErrorKind::Malformed),
        (Reason::InconsistentCodeCount, ErrorKind::Malformed),
        (Reason::InconsistentDataCount, ErrorKind::Malformed),
        (Reason::UnexpectedCodeBody, ErrorKind::Malformed),
        (Reason::Unknown { space: IndexSpace::Tags, index: 1 }, ErrorKind::OutOfBounds),
        (Reason::NotFunctionType(0), ErrorKind::TypeMismatch),
        (Reason::NotStructType(0), ErrorKind::TypeMismatch),
        (Reason::NotArrayType(0), ErrorKind::TypeMismatch),
        (Reason::NonDefaultableElement, ErrorKind::TypeMismatch),
        (Reason::NonDefaultableField, ErrorKind::TypeMismatch),
        (Reason::ElementTypeMismatch, ErrorKind::TypeMismatch),
        (mismatch, ErrorKind::TypeMismatch),
        (Reason::ExpectedReference { actual: ValType::I32 }, ErrorKind::TypeMismatch),
        (Reason::MissingOperand { expected: ValType::I32 }, ErrorKind::TypeMismatch),
        (Reason::ValuesRemaining, ErrorKind::TypeMismatch),
        (Reason::InvalidStartFunction, ErrorKind::TypeMismatch),
        (Reason::TooMany(IndexSpace::Tables), ErrorKind::LimitExceeded),
        (Reason::TooManyElements, ErrorKind::LimitExceeded),
        (Reason::TypeSizeExceeded, ErrorKind::LimitExceeded),
        (Reason::TypeListFull, ErrorKind::LimitExceeded),
        (Reason::FunctionSignatureTooLong, ErrorKind::LimitExceeded),
        (Reason::TooManyStructFields, ErrorKind::LimitExceeded),
        (Reason::Disabled(Feature::Gc), ErrorKind::FeatureDisabled),
        (Reason::DuplicateExportName, ErrorKind::DuplicateExport),
        (Reason::MinimumExceedsMaximum, ErrorKind::InvalidLimits),
        (Reason::TableTooLarge, ErrorKind::InvalidLimits),
        (Reason::MemoryTooLarge, ErrorKind::InvalidLimits),
        (Reason::SharedMemoryWithoutMaximum, ErrorKind::InvalidLimits),
        (Reason::InvalidPageSize, ErrorKind::InvalidLimits),
        (Reason::NonConstant(Operator::Nop), ErrorKind::NonConstantOperator),
        (Reason::LocalGlobalGet(0), ErrorKind::NonConstantOperator),
        (Reason::MutableGlobalGet(0), ErrorKind::NonConstantOperator),
        (Reason::SharedTableElement, ErrorKind::SharedMismatch),
        (Reason::SharedGlobalContent, ErrorKind::SharedMismatch),
    ];
    for (reason, kind) in cases {
        assert_eq!(reason.kind(), kind);
        let error = BinaryReaderError::new(reason, 12);
        assert_eq!(error.kind(), kind);
        assert_eq!(error.offset(), 12);
        assert_eq!(error.reason, reason);
        assert!(!error.message().is_empty());
        assert_eq!(error.message(), reason.description());
    }
}

#[test]
fn failures_in_words() {
    assert_eq!(Reason::DuplicateExportName.description(), "duplicate export name");
    assert_eq!(
        Reason::Unknown { space: IndexSpace::Tables, index: 4 }.description(),
        "unknown table: table index out of bounds"
    );
    assert_eq!(Reason::TooMany(IndexSpace::Tables).description(), "tables count exceeds limit");
    assert_eq!(
        Reason::SharedMemoryWithoutMaximum.description(),
        "shared memory must have maximum size"
    );
    assert_eq!(
        Reason::MutableGlobalGet(1).description(),
        "constant expression required: global.get of mutable global"
    );
    assert_eq!(
        BinaryReaderError::new(Reason::MinimumExceedsMaximum, 0).message(),
        "size minimum must not be greater than maximum"
    );
}
