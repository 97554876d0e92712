//! The set of WebAssembly proposals a validator accepts.

use vstd::prelude::*;
use crate::types::{AbstractHeapType, HeapType, RefType, ValType};

verus! {

pub const MUTABLE_GLOBAL: u32 = 0x1;

pub const SATURATING_FLOAT_TO_INT: u32 = 0x2;

pub const SIGN_EXTENSION: u32 = 0x4;

pub const REFERENCE_TYPES: u32 = 0x8;

pub const MULTI_VALUE: u32 = 0x10;

pub const BULK_MEMORY: u32 = 0x20;

pub const SIMD: u32 = 0x40;

pub const RELAXED_SIMD: u32 = 0x80;

pub const THREADS: u32 = 0x100;

pub const SHARED_EVERYTHING_THREADS: u32 = 0x200;

pub const TAIL_CALL: u32 = 0x400;

pub const FLOATS: u32 = 0x800;

pub const MULTI_MEMORY: u32 = 0x1000;

pub const EXCEPTIONS: u32 = 0x2000;

pub const MEMORY64: u32 = 0x4000;

pub const EXTENDED_CONST: u32 = 0x8000;

pub const FUNCTION_REFERENCES: u32 = 0x1_0000;

pub const MEMORY_CONTROL: u32 = 0x2_0000;

pub const GC: u32 = 0x4_0000;

pub const CUSTOM_PAGE_SIZES: u32 = 0x8_0000;

pub const LEGACY_EXCEPTIONS: u32 = 0x10_0000;

pub const GC_TYPES: u32 = 0x20_0000;

pub const STACK_SWITCHING: u32 = 0x40_0000;

pub const WIDE_ARITHMETIC: u32 = 0x80_0000;

/// Every proposal.
pub const ALL: u32 = 0xff_ffff;

/// The first release of WebAssembly.
pub const WASM1: u32 = FLOATS | GC_TYPES;

/// The first release together with mutable globals in imports and exports.
pub const MVP: u32 = WASM1 | MUTABLE_GLOBAL;

/// The second release.
pub const WASM2: u32 = WASM1 | BULK_MEMORY | REFERENCE_TYPES | SIGN_EXTENSION | MUTABLE_GLOBAL
    | SATURATING_FLOAT_TO_INT | MULTI_VALUE | SIMD;

/// The third release.
pub const WASM3: u32 = WASM2 | GC | TAIL_CALL | EXTENDED_CONST | FUNCTION_REFERENCES | MULTI_MEMORY
    | RELAXED_SIMD | EXCEPTIONS | MEMORY64;

/// The "lime1" target: the first release and the small proposals that every
/// engine has.
pub const LIME1: u32 = WASM1 | MUTABLE_GLOBAL | SATURATING_FLOAT_TO_INT | SIGN_EXTENSION
    | MULTI_VALUE | EXTENDED_CONST;

/// What a validator accepts unless told otherwise: the proposals that have
/// reached the fourth phase of standardization.
pub const DEFAULT: u32 = WASM3 | THREADS;

/// One proposal.
#[derive(Clone, Copy, Debug, PartialEq, Eq, Structural)]
pub enum Feature {
    MutableGlobal,
    SaturatingFloatToInt,
    SignExtension,
    ReferenceTypes,
    MultiValue,
    BulkMemory,
    Simd,
    RelaxedSimd,
    Threads,
    SharedEverythingThreads,
    TailCall,
    Floats,
    MultiMemory,
    Exceptions,
    Memory64,
    ExtendedConst,
    FunctionReferences,
    MemoryControl,
    Gc,
    CustomPageSizes,
    LegacyExceptions,
    GcTypes,
    StackSwitching,
    WideArithmetic,
}

impl Feature {
    /// The bit that stands for the proposal.
    pub open spec fn spec_mask(self) -> u32 {
        match self {
            Feature::MutableGlobal => MUTABLE_GLOBAL,
            Feature::SaturatingFloatToInt => SATURATING_FLOAT_TO_INT,
            Feature::SignExtension => SIGN_EXTENSION,
            Feature::ReferenceTypes => REFERENCE_TYPES,
            Feature::MultiValue => MULTI_VALUE,
            Feature::BulkMemory => BULK_MEMORY,
            Feature::Simd => SIMD,
            Feature::RelaxedSimd => RELAXED_SIMD,
            Feature::Threads => THREADS,
            Feature::SharedEverythingThreads => SHARED_EVERYTHING_THREADS,
            Feature::TailCall => TAIL_CALL,
            Feature::Floats => FLOATS,
            Feature::MultiMemory => MULTI_MEMORY,
            Feature::Exceptions => EXCEPTIONS,
            Feature::Memory64 => MEMORY64,
            Feature::ExtendedConst => EXTENDED_CONST,
            Feature::FunctionReferences => FUNCTION_REFERENCES,
            Feature::MemoryControl => MEMORY_CONTROL,
            Feature::Gc => GC,
            Feature::CustomPageSizes => CUSTOM_PAGE_SIZES,
            Feature::LegacyExceptions => LEGACY_EXCEPTIONS,
            Feature::GcTypes => GC_TYPES,
            Feature::StackSwitching => STACK_SWITCHING,
            Feature::WideArithmetic => WIDE_ARITHMETIC,
        }
    }

    #[verifier::when_used_as_spec(spec_mask)]
    pub fn mask(self) -> (m: u32)
        ensures
            m == self.spec_mask(),
    {
        match self {
            Feature::MutableGlobal => MUTABLE_GLOBAL,
            Feature::SaturatingFloatToInt => SATURATING_FLOAT_TO_INT,
            Feature::SignExtension => SIGN_EXTENSION,
            Feature::ReferenceTypes => REFERENCE_TYPES,
            Feature::MultiValue => MULTI_VALUE,
            Feature::BulkMemory => BULK_MEMORY,
            Feature::Simd => SIMD,
            Feature::RelaxedSimd => RELAXED_SIMD,
            Feature::Threads => THREADS,
            Feature::SharedEverythingThreads => SHARED_EVERYTHING_THREADS,
            Feature::TailCall => TAIL_CALL,
            Feature::Floats => FLOATS,
            Feature::MultiMemory => MULTI_MEMORY,
            Feature::Exceptions => EXCEPTIONS,
            Feature::Memory64 => MEMORY64,
            Feature::ExtendedConst => EXTENDED_CONST,
            Feature::FunctionReferences => FUNCTION_REFERENCES,
            Feature::MemoryControl => MEMORY_CONTROL,
            Feature::Gc => GC,
            Feature::CustomPageSizes => CUSTOM_PAGE_SIZES,
            Feature::LegacyExceptions => LEGACY_EXCEPTIONS,
            Feature::GcTypes => GC_TYPES,
            Feature::StackSwitching => STACK_SWITCHING,
            Feature::WideArithmetic => WIDE_ARITHMETIC,
        }
    }
}

/// Whether every bit of `mask` is set in `bits`.
pub open spec fn bits_hold(bits: u32, mask: u32) -> bool {
    bits & mask == mask
}

/// Whether `bits` holds `needed` wherever it holds `feature`.
pub open spec fn bits_imply(bits: u32, feature: u32, needed: u32) -> bool {
    bits_hold(bits, feature) ==> bits_hold(bits, needed)
}

/// Whether each proposal in `bits` comes with the proposals it builds on.
pub open spec fn bits_consistent(bits: u32) -> bool {
    &&& bits_imply(bits, SHARED_EVERYTHING_THREADS, THREADS)
    &&& bits_imply(bits, GC, FUNCTION_REFERENCES)
    &&& bits_imply(bits, GC, GC_TYPES)
    &&& bits_imply(bits, FUNCTION_REFERENCES, REFERENCE_TYPES)
    &&& bits_imply(bits, RELAXED_SIMD, SIMD)
    &&& bits_imply(bits, LEGACY_EXCEPTIONS, EXCEPTIONS)
}

/// A set of proposals.
#[derive(Clone, Copy, Debug, PartialEq, Eq, Structural)]
pub struct WasmFeatures {
    pub bits: u32,
}

impl WasmFeatures {
    /// Whether the set holds `feature`.
    pub open spec fn has(self, feature: Feature) -> bool {
        bits_hold(self.bits, feature.spec_mask())
    }

    /// Whether everything in `self` is in `other`.
    pub open spec fn subset_of(self, other: WasmFeatures) -> bool {
        self.bits & other.bits == self.bits
    }

    /// Whether each proposal in the set comes with the proposals it builds on:
    /// garbage collection with typed function references and the types of the
    /// proposal, typed function references with reference types, relaxed SIMD
    /// with SIMD, shared-everything threads with threads, and the first
    /// exception instructions with exceptions.
    pub open spec fn spec_is_consistent(&self) -> bool {
        bits_consistent(self.bits)
    }

    /// The set with exactly the proposals of `bits`; bits that stand for no
    /// proposal are dropped.
    pub fn from_bits_truncate(bits: u32) -> (f: WasmFeatures)
        ensures
            f.bits == bits & ALL,
    {
        WasmFeatures { bits: bits & ALL }
    }

    /// The set with exactly the proposals of `bits`, where every bit stands
    /// for a proposal and each proposal comes with the proposals it builds
    /// on.
    pub fn from_bits(bits: u32) -> (f: Option<WasmFeatures>)
        ensures
            f == if bits & ALL == bits && bits_consistent(bits) {
                Some(WasmFeatures { bits })
            } else {
                None
            },
    {
        let set = WasmFeatures { bits };
        if (bits & ALL) == bits && set.is_consistent() {
            Some(set)
        } else {
            None
        }
    }

    pub fn bits(&self) -> (b: u32)
        ensures
            b == self.bits,
    {
        self.bits
    }

    pub fn empty() -> (f: WasmFeatures)
        ensures
            f.bits == 0,
            f.spec_is_consistent(),
    {
        assert(bits_consistent(0)) by (bit_vector);
        WasmFeatures { bits: 0 }
    }

    pub fn all() -> (f: WasmFeatures)
        ensures
            f.bits == ALL,
            f.spec_is_consistent(),
    {
        assert(bits_consistent(ALL)) by (bit_vector);
        WasmFeatures { bits: ALL }
    }

    pub fn mvp() -> (f: WasmFeatures)
        ensures
            f.bits == MVP,
            f.spec_is_consistent(),
    {
        assert(bits_consistent(MVP)) by (bit_vector);
        WasmFeatures { bits: MVP }
    }

    pub fn wasm1() -> (f: WasmFeatures)
        ensures
            f.bits == WASM1,
            f.spec_is_consistent(),
    {
        assert(bits_consistent(WASM1)) by (bit_vector);
        WasmFeatures { bits: WASM1 }
    }

    pub fn wasm2() -> (f: WasmFeatures)
        ensures
            f.bits == WASM2,
            f.spec_is_consistent(),
    {
        assert(bits_consistent(WASM2)) by (bit_vector);
        WasmFeatures { bits: WASM2 }
    }

    pub fn wasm3() -> (f: WasmFeatures)
        ensures
            f.bits == WASM3,
            f.spec_is_consistent(),
    {
        assert(bits_consistent(WASM3)) by (bit_vector);
        WasmFeatures { bits: WASM3 }
    }

    pub fn lime1() -> (f: WasmFeatures)
        ensures
            f.bits == LIME1,
            f.spec_is_consistent(),
    {
        assert(bits_consistent(LIME1)) by (bit_vector);
        WasmFeatures { bits: LIME1 }
    }

    /// Whether each proposal in the set comes with the proposals it builds on.
    #[verifier::when_used_as_spec(spec_is_consistent)]
    pub fn is_consistent(&self) -> (r: bool)
        ensures
            r == self.spec_is_consistent(),
    {
        let b: u32 = self.bits;
        ((b & SHARED_EVERYTHING_THREADS) != SHARED_EVERYTHING_THREADS || (b & THREADS) == THREADS)
            && ((b & GC) != GC || (b & FUNCTION_REFERENCES) == FUNCTION_REFERENCES) && ((b & GC)
            != GC || (b & GC_TYPES) == GC_TYPES) && ((b & FUNCTION_REFERENCES)
            != FUNCTION_REFERENCES || (b & REFERENCE_TYPES) == REFERENCE_TYPES) && ((b
            & RELAXED_SIMD) != RELAXED_SIMD || (b & SIMD) == SIMD) && ((b & LEGACY_EXCEPTIONS)
            != LEGACY_EXCEPTIONS || (b & EXCEPTIONS) == EXCEPTIONS)
    }

    /// Whether the set holds `feature`.
    pub fn contains(&self, feature: Feature) -> (r: bool)
        ensures
            r == self.has(feature),
    {
        let m: u32 = feature.mask();
        (self.bits & m) == m
    }

    /// The set with the proposals of `other` added.
    pub fn union(self, other: WasmFeatures) -> (f: WasmFeatures)
        ensures
            f.bits == self.bits | other.bits,
    {
        WasmFeatures { bits: self.bits | other.bits }
    }

    /// The set without the proposals of `other`.
    pub fn difference(self, other: WasmFeatures) -> (f: WasmFeatures)
        ensures
            f.bits == self.bits & !other.bits,
    {
        WasmFeatures { bits: self.bits & !other.bits }
    }

    pub fn mutable_global(&self) -> (r: bool)
        ensures
            r == self.has(Feature::MutableGlobal),
    {
        (self.bits & MUTABLE_GLOBAL) == MUTABLE_GLOBAL
    }

    pub fn reference_types(&self) -> (r: bool)
        ensures
            r == self.has(Feature::ReferenceTypes),
    {
        (self.bits & REFERENCE_TYPES) == REFERENCE_TYPES
    }

    pub fn bulk_memory(&self) -> (r: bool)
        ensures
            r == self.has(Feature::BulkMemory),
    {
        (self.bits & BULK_MEMORY) == BULK_MEMORY
    }

    pub fn simd(&self) -> (r: bool)
        ensures
            r == self.has(Feature::Simd),
    {
        (self.bits & SIMD) == SIMD
    }

    pub fn threads(&self) -> (r: bool)
        ensures
            r == self.has(Feature::Threads),
    {
        (self.bits & THREADS) == THREADS
    }

    pub fn shared_everything_threads(&self) -> (r: bool)
        ensures
            r == self.has(Feature::SharedEverythingThreads),
    {
        (self.bits & SHARED_EVERYTHING_THREADS) == SHARED_EVERYTHING_THREADS
    }

    pub fn floats(&self) -> (r: bool)
        ensures
            r == self.has(Feature::Floats),
    {
        (self.bits & FLOATS) == FLOATS
    }

    pub fn multi_memory(&self) -> (r: bool)
        ensures
            r == self.has(Feature::MultiMemory),
    {
        (self.bits & MULTI_MEMORY) == MULTI_MEMORY
    }

    pub fn exceptions(&self) -> (r: bool)
        ensures
            r == self.has(Feature::Exceptions),
    {
        (self.bits & EXCEPTIONS) == EXCEPTIONS
    }

    pub fn memory64(&self) -> (r: bool)
        ensures
            r == self.has(Feature::Memory64),
    {
        (self.bits & MEMORY64) == MEMORY64
    }

    pub fn extended_const(&self) -> (r: bool)
        ensures
            r == self.has(Feature::ExtendedConst),
    {
        (self.bits & EXTENDED_CONST) == EXTENDED_CONST
    }

    pub fn function_references(&self) -> (r: bool)
        ensures
            r == self.has(Feature::FunctionReferences),
    {
        (self.bits & FUNCTION_REFERENCES) == FUNCTION_REFERENCES
    }

    pub fn gc(&self) -> (r: bool)
        ensures
            r == self.has(Feature::Gc),
    {
        (self.bits & GC) == GC
    }

    pub fn custom_page_sizes(&self) -> (r: bool)
        ensures
            r == self.has(Feature::CustomPageSizes),
    {
        (self.bits & CUSTOM_PAGE_SIZES) == CUSTOM_PAGE_SIZES
    }

    pub fn gc_types(&self) -> (r: bool)
        ensures
            r == self.has(Feature::GcTypes),
    {
        (self.bits & GC_TYPES) == GC_TYPES
    }

    pub fn stack_switching(&self) -> (r: bool)
        ensures
            r == self.has(Feature::StackSwitching),
    {
        (self.bits & STACK_SWITCHING) == STACK_SWITCHING
    }

    /// The proposal that is missing for the abstract heap type `ty` in a
    /// reference of the given nullability, if one is.
    pub open spec fn missing_for_abstract(self, nullable: bool, shared: bool, ty: AbstractHeapType)
        -> Option<Feature> {
        if shared && !self.has(Feature::SharedEverythingThreads) {
            Some(Feature::SharedEverythingThreads)
        } else if !self.has(Feature::GcTypes) && ty != AbstractHeapType::Func && ty
            != AbstractHeapType::Exn {
            Some(Feature::GcTypes)
        } else {
            match ty {
                AbstractHeapType::Func | AbstractHeapType::Extern => if nullable || self.has(
                    Feature::FunctionReferences,
                ) {
                    None
                } else {
                    Some(Feature::FunctionReferences)
                },
                AbstractHeapType::Exn | AbstractHeapType::NoExn => if self.has(
                    Feature::Exceptions,
                ) {
                    None
                } else {
                    Some(Feature::Exceptions)
                },
                AbstractHeapType::Cont | AbstractHeapType::NoCont => if self.has(
                    Feature::StackSwitching,
                ) {
                    None
                } else {
                    Some(Feature::StackSwitching)
                },
                _ => if self.has(Feature::Gc) {
                    None
                } else {
                    Some(Feature::Gc)
                },
            }
        }
    }

    /// The proposal that is missing for the reference type `r`, if one is.
    ///
    /// Every reference needs reference types. A reference to a defined type
    /// needs typed function references or garbage collection. `funcref` and
    /// `externref` need no more; their non-nullable forms need typed function
    /// references.
    pub open spec fn missing_for_ref_type(self, r: RefType) -> Option<Feature> {
        if !self.has(Feature::ReferenceTypes) {
            Some(Feature::ReferenceTypes)
        } else {
            match r.heap_type {
                HeapType::Concrete(_) => if self.has(Feature::FunctionReferences) || self.has(
                    Feature::Gc,
                ) {
                    None
                } else {
                    Some(Feature::FunctionReferences)
                },
                HeapType::Abstract { shared, ty } => self.missing_for_abstract(
                    r.nullable,
                    shared,
                    ty,
                ),
            }
        }
    }

    /// The proposal that is missing for the value type `ty`, if one is.
    pub open spec fn missing_for_value_type(self, ty: ValType) -> Option<Feature> {
        match ty {
            ValType::I32 | ValType::I64 => None,
            ValType::F32 | ValType::F64 => if self.has(Feature::Floats) {
                None
            } else {
                Some(Feature::Floats)
            },
            ValType::V128 => if self.has(Feature::Simd) {
                None
            } else {
                Some(Feature::Simd)
            },
            ValType::Ref(r) => self.missing_for_ref_type(r),
        }
    }

    /// Checks that the set admits the reference type `r`; the error is the
    /// proposal that would admit it.
    pub fn check_ref_type(&self, r: RefType) -> (res: Result<(), Feature>)
        ensures
            res == match self.missing_for_ref_type(r) {
                None => Ok::<(), Feature>(()),
                Some(f) => Err(f),
            },
    {
        if !self.reference_types() {
            return Err(Feature::ReferenceTypes);
        }
        match r.heap_type {
            HeapType::Concrete(_) => {
                if self.function_references() || self.gc() {
                    Ok(())
                } else {
                    Err(Feature::FunctionReferences)
                }
            },
            HeapType::Abstract { shared, ty } => {
                if shared && !self.shared_everything_threads() {
                    return Err(Feature::SharedEverythingThreads);
                }
                if !self.gc_types() && ty != AbstractHeapType::Func && ty
                    != AbstractHeapType::Exn {
                    return Err(Feature::GcTypes);
                }
                match ty {
                    AbstractHeapType::Func | AbstractHeapType::Extern => {
                        if r.nullable || self.function_references() {
                            Ok(())
                        } else {
                            Err(Feature::FunctionReferences)
                        }
                    },
                    AbstractHeapType::Exn | AbstractHeapType::NoExn => {
                        if self.exceptions() {
                            Ok(())
                        } else {
                            Err(Feature::Exceptions)
                        }
                    },
                    AbstractHeapType::Cont | AbstractHeapType::NoCont => {
                        if self.stack_switching() {
                            Ok(())
                        } else {
                            Err(Feature::StackSwitching)
                        }
                    },
                    _ => {
                        if self.gc() {
                            Ok(())
                        } else {
                            Err(Feature::Gc)
                        }
                    },
                }
            },
        }
    }

    /// Checks that the set admits the value type `ty`; the error is the
    /// proposal that would admit it.
    pub fn check_value_type(&self, ty: ValType) -> (res: Result<(), Feature>)
        ensures
            res == match self.missing_for_value_type(ty) {
                None => Ok::<(), Feature>(()),
                Some(f) => Err(f),
            },
    {
        match ty {
            ValType::I32 | ValType::I64 => Ok(()),
            ValType::F32 | ValType::F64 => {
                if self.floats() {
                    Ok(())
                } else {
                    Err(Feature::Floats)
                }
            },
            ValType::V128 => {
                if self.simd() {
                    Ok(())
                } else {
                    Err(Feature::Simd)
                }
            },
            ValType::Ref(r) => self.check_ref_type(r),
        }
    }
}

impl Default for WasmFeatures {
    fn default() -> (f: WasmFeatures)
        ensures
            f.bits == DEFAULT,
            f.spec_is_consistent(),
    {
        assert(bits_consistent(DEFAULT)) by (bit_vector);
        WasmFeatures { bits: DEFAULT }
    }
}

/// A mask that is set in `f` is set in every set that includes `f`.
pub proof fn lemma_bits_monotone(f: u32, g: u32, mask: u32)
    by (bit_vector)
    requires
        f & g == f,
        f & mask == mask,
    ensures
        g & mask == mask,
{
}

/// A larger set has every proposal of a smaller one.
pub proof fn lemma_subset_has(f: WasmFeatures, g: WasmFeatures)
    requires
        f.subset_of(g),
    ensures
        forall|x: Feature| f.has(x) ==> #[trigger] g.has(x),
{
    assert forall|x: Feature| f.has(x) implies #[trigger] g.has(x) by {
        lemma_bits_monotone(f.bits, g.bits, x.spec_mask());
    }
}

/// A value type that a set of proposals admits is admitted by every larger set.
pub proof fn lemma_value_type_monotone(f: WasmFeatures, g: WasmFeatures, ty: ValType)
    requires
        f.subset_of(g),
        f.missing_for_value_type(ty) is None,
    ensures
        g.missing_for_value_type(ty) is None,
{
    lemma_subset_has(f, g);
}

/// A reference type that a set of proposals admits is admitted by every larger
/// set.
pub proof fn lemma_ref_type_monotone(f: WasmFeatures, g: WasmFeatures, r: RefType)
    requires
        f.subset_of(g),
        f.missing_for_ref_type(r) is None,
    ensures
        g.missing_for_ref_type(r) is None,
{
    lemma_subset_has(f, g);
}

} // verus!
