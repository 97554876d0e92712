//! Reading a choice of proposals from text.
//!
//! The text is a list of names with commas between them. A name switches a
//! proposal on, and off where `-` stands before it; `all` stands for every
//! proposal; the name of a release takes exactly the proposals of that
//! release. White space around a name and empty entries are passed over.

use vstd::prelude::*;
use vstd::string::StrSliceExecFns;
use crate::cli::FeatureAction;
use crate::features::{ALL, Feature, LIME1, MVP, WASM1, WASM2, WASM3, WasmFeatures};

verus! {

/// Whether a character is white space.
pub open spec fn spec_is_space(c: char) -> bool {
    let n = c as u32;
    (0x9 <= n <= 0xd) || n == 0x20 || n == 0x85 || n == 0xa0 || n == 0x1680 || (0x2000 <= n
        <= 0x200a) || n == 0x2028 || n == 0x2029 || n == 0x202f || n == 0x205f || n == 0x3000
}

#[verifier::when_used_as_spec(spec_is_space)]
pub fn is_space(c: char) -> (r: bool)
    ensures
        r == spec_is_space(c),
{
    let n: u32 = c as u32;
    (0x9 <= n && n <= 0xd) || n == 0x20 || n == 0x85 || n == 0xa0 || n == 0x1680 || (0x2000 <= n
        && n <= 0x200a) || n == 0x2028 || n == 0x2029 || n == 0x202f || n == 0x205f || n
        == 0x3000
}

/// The text without the white space at its start.
pub open spec fn trim_start(s: Seq<char>) -> Seq<char>
    decreases s.len(),
{
    if s.len() > 0 && spec_is_space(s[0]) {
        trim_start(s.drop_first())
    } else {
        s
    }
}

/// The text without the white space at its end.
pub open spec fn trim_end(s: Seq<char>) -> Seq<char>
    decreases s.len(),
{
    if s.len() > 0 && spec_is_space(s.last()) {
        trim_end(s.drop_last())
    } else {
        s
    }
}

/// The text without the white space around it.
pub open spec fn trim(s: Seq<char>) -> Seq<char> {
    trim_end(trim_start(s))
}

/// The position of the first comma from `i` on, or the length of the text
/// where there is none.
pub open spec fn next_comma(s: Seq<char>, i: int) -> int
    decreases s.len() - i,
{
    if i < 0 || i >= s.len() || s[i] == ',' {
        i
    } else {
        next_comma(s, i + 1)
    }
}

/// The proposals in the order of their names in a list of valid names.
pub open spec fn spec_all_features() -> Seq<Feature> {
    seq![
        Feature::MutableGlobal,
        Feature::SaturatingFloatToInt,
        Feature::SignExtension,
        Feature::ReferenceTypes,
        Feature::MultiValue,
        Feature::BulkMemory,
        Feature::Simd,
        Feature::RelaxedSimd,
        Feature::Threads,
        Feature::SharedEverythingThreads,
        Feature::TailCall,
        Feature::Floats,
        Feature::MultiMemory,
        Feature::Exceptions,
        Feature::Memory64,
        Feature::ExtendedConst,
        Feature::FunctionReferences,
        Feature::MemoryControl,
        Feature::Gc,
        Feature::CustomPageSizes,
        Feature::LegacyExceptions,
        Feature::GcTypes,
        Feature::StackSwitching,
        Feature::WideArithmetic,
    ]
}

/// Every proposal.
pub fn all_features() -> (v: Vec<Feature>)
    ensures
        v@ == spec_all_features(),
{
    let v = vec![
        Feature::MutableGlobal,
        Feature::SaturatingFloatToInt,
        Feature::SignExtension,
        Feature::ReferenceTypes,
        Feature::MultiValue,
        Feature::BulkMemory,
        Feature::Simd,
        Feature::RelaxedSimd,
        Feature::Threads,
        Feature::SharedEverythingThreads,
        Feature::TailCall,
        Feature::Floats,
        Feature::MultiMemory,
        Feature::Exceptions,
        Feature::Memory64,
        Feature::ExtendedConst,
        Feature::FunctionReferences,
        Feature::MemoryControl,
        Feature::Gc,
        Feature::CustomPageSizes,
        Feature::LegacyExceptions,
        Feature::GcTypes,
        Feature::StackSwitching,
        Feature::WideArithmetic,
    ];
    assert(v@ =~= spec_all_features());
    v
}

/// The name of a proposal.
pub open spec fn spec_feature_name(f: Feature) -> &'static str {
    match f {
        Feature::MutableGlobal => "mutable-global",
        Feature::SaturatingFloatToInt => "saturating-float-to-int",
        Feature::SignExtension => "sign-extension",
        Feature::ReferenceTypes => "reference-types",
        Feature::MultiValue => "multi-value",
        Feature::BulkMemory => "bulk-memory",
        Feature::Simd => "simd",
        Feature::RelaxedSimd => "relaxed-simd",
        Feature::Threads => "threads",
        Feature::SharedEverythingThreads => "shared-everything-threads",
        Feature::TailCall => "tail-call",
        Feature::Floats => "floats",
        Feature::MultiMemory => "multi-memory",
        Feature::Exceptions => "exceptions",
        Feature::Memory64 => "memory64",
        Feature::ExtendedConst => "extended-const",
        Feature::FunctionReferences => "function-references",
        Feature::MemoryControl => "memory-control",
        Feature::Gc => "gc",
        Feature::CustomPageSizes => "custom-page-sizes",
        Feature::LegacyExceptions => "legacy-exceptions",
        Feature::GcTypes => "gc-types",
        Feature::StackSwitching => "stack-switching",
        Feature::WideArithmetic => "wide-arithmetic",
    }
}

#[verifier::when_used_as_spec(spec_feature_name)]
pub fn feature_name(f: Feature) -> (name: &'static str)
    ensures
        name == spec_feature_name(f),
{
    match f {
        Feature::MutableGlobal => "mutable-global",
        Feature::SaturatingFloatToInt => "saturating-float-to-int",
        Feature::SignExtension => "sign-extension",
        Feature::ReferenceTypes => "reference-types",
        Feature::MultiValue => "multi-value",
        Feature::BulkMemory => "bulk-memory",
        Feature::Simd => "simd",
        Feature::RelaxedSimd => "relaxed-simd",
        Feature::Threads => "threads",
        Feature::SharedEverythingThreads => "shared-everything-threads",
        Feature::TailCall => "tail-call",
        Feature::Floats => "floats",
        Feature::MultiMemory => "multi-memory",
        Feature::Exceptions => "exceptions",
        Feature::Memory64 => "memory64",
        Feature::ExtendedConst => "extended-const",
        Feature::FunctionReferences => "function-references",
        Feature::MemoryControl => "memory-control",
        Feature::Gc => "gc",
        Feature::CustomPageSizes => "custom-page-sizes",
        Feature::LegacyExceptions => "legacy-exceptions",
        Feature::GcTypes => "gc-types",
        Feature::StackSwitching => "stack-switching",
        Feature::WideArithmetic => "wide-arithmetic",
    }
}

/// What a name stands for.
#[derive(Clone, Copy, Debug, PartialEq, Eq, Structural)]
pub enum Named {
    /// One proposal.
    Flag(Feature),
    /// The proposals of a release.
    Group(WasmFeatures),
    /// Every proposal.
    All,
}

/// The first proposal from position `i` of the list on that has the name
/// `name`.
pub open spec fn flag_named(name: Seq<char>, i: int) -> Option<Feature>
    decreases spec_all_features().len() - i,
{
    if i < 0 || i >= spec_all_features().len() {
        None
    } else if spec_feature_name(spec_all_features()[i])@ == name {
        Some(spec_all_features()[i])
    } else {
        flag_named(name, i + 1)
    }
}

/// What a name stands for, if for anything: a proposal, a release, or all
/// proposals.
pub open spec fn lookup(name: Seq<char>) -> Option<Named> {
    match flag_named(name, 0) {
        Some(f) => Some(Named::Flag(f)),
        None => if name == "mvp"@ {
            Some(Named::Group(WasmFeatures { bits: MVP }))
        } else if name == "wasm1"@ {
            Some(Named::Group(WasmFeatures { bits: WASM1 }))
        } else if name == "wasm2"@ {
            Some(Named::Group(WasmFeatures { bits: WASM2 }))
        } else if name == "wasm3"@ {
            Some(Named::Group(WasmFeatures { bits: WASM3 }))
        } else if name == "lime1"@ {
            Some(Named::Group(WasmFeatures { bits: LIME1 }))
        } else if name == "all"@ {
            Some(Named::All)
        } else {
            None
        },
    }
}

/// Why an entry of the text is refused.
#[derive(Clone, Debug)]
pub enum FeatureParseError {
    /// The name stands for nothing.
    Unknown(Vec<char>),
    /// The name of a release with `-` before it: a release can only be
    /// chosen.
    CannotDisable(Vec<char>),
}

/// The mathematical value of a [`FeatureParseError`].
pub enum ParseFailure {
    Unknown(Seq<char>),
    CannotDisable(Seq<char>),
}

impl View for FeatureParseError {
    type V = ParseFailure;

    open spec fn view(&self) -> ParseFailure {
        match *self {
            FeatureParseError::Unknown(name) => ParseFailure::Unknown(name@),
            FeatureParseError::CannotDisable(name) => ParseFailure::CannotDisable(name@),
        }
    }
}

/// The step that one entry of the text asks for. The entry is not empty.
pub open spec fn parse_part(part: Seq<char>) -> Result<FeatureAction, ParseFailure> {
    let enable = !(part.len() > 0 && part[0] == '-');
    let name = if enable {
        part
    } else {
        part.skip(1)
    };
    match lookup(name) {
        Some(Named::Flag(f)) => Ok(
            if enable {
                FeatureAction::Enable(WasmFeatures { bits: f.spec_mask() })
            } else {
                FeatureAction::Disable(WasmFeatures { bits: f.spec_mask() })
            },
        ),
        Some(Named::Group(features)) => if enable {
            Ok(FeatureAction::Reset(features))
        } else {
            Err(ParseFailure::CannotDisable(name))
        },
        Some(Named::All) => Ok(
            if enable {
                FeatureAction::Enable(WasmFeatures { bits: ALL })
            } else {
                FeatureAction::Disable(WasmFeatures { bits: ALL })
            },
        ),
        None => Err(ParseFailure::Unknown(name)),
    }
}

/// The steps that follow `found`, unless they fail.
pub open spec fn after(found: Seq<FeatureAction>, rest: Result<Seq<FeatureAction>, ParseFailure>)
    -> Result<Seq<FeatureAction>, ParseFailure> {
    match rest {
        Ok(more) => Ok(found + more),
        Err(e) => Err(e),
    }
}

/// The steps that the text from position `start` on asks for, where an entry
/// begins at `start`; or the first entry that is refused.
pub open spec fn parse_from(s: Seq<char>, start: int) -> Result<Seq<FeatureAction>, ParseFailure>
    decreases s.len() - start,
{
    if start < 0 || start > s.len() {
        Ok(Seq::empty())
    } else {
        let end = next_comma(s, start);
        let part = trim(s.subrange(start, end));
        let first = if part.len() == 0 {
            Ok(Seq::empty())
        } else {
            match parse_part(part) {
                Ok(action) => Ok(seq![action]),
                Err(e) => Err(e),
            }
        };
        match first {
            Err(e) => Err(e),
            Ok(found) => if start <= end < s.len() {
                after(found, parse_from(s, end + 1))
            } else {
                Ok(found)
            },
        }
    }
}

/// The position of the first comma from `start` on.
fn find_comma(s: &Vec<char>, start: usize) -> (end: usize)
    requires
        start <= s@.len(),
    ensures
        end == next_comma(s@, start as int),
        start <= end <= s@.len(),
{
    let mut i: usize = start;
    while i < s.len() && s[i] != ','
        invariant
            start <= i <= s@.len(),
            next_comma(s@, start as int) == next_comma(s@, i as int),
        decreases s@.len() - i,
    {
        i += 1;
    }
    i
}

/// The bounds of the text between `start` and `end` without the white space
/// around it.
fn trim_bounds(s: &Vec<char>, start: usize, end: usize) -> (bounds: (usize, usize))
    requires
        start <= end <= s@.len(),
    ensures
        start <= bounds.0 <= bounds.1 <= end,
        s@.subrange(bounds.0 as int, bounds.1 as int) == trim(
            s@.subrange(start as int, end as int),
        ),
{
    let mut lo: usize = start;
    while lo < end && is_space(s[lo])
        invariant
            start <= lo <= end <= s@.len(),
            trim_start(s@.subrange(start as int, end as int)) == trim_start(
                s@.subrange(lo as int, end as int),
            ),
        decreases end - lo,
    {
        assert(s@.subrange(lo as int, end as int).drop_first() =~= s@.subrange(
            lo + 1,
            end as int,
        ));
        lo += 1;
    }
    let mut hi: usize = end;
    while lo < hi && is_space(s[hi - 1])
        invariant
            lo <= hi <= end <= s@.len(),
            trim_end(s@.subrange(lo as int, end as int)) == trim_end(
                s@.subrange(lo as int, hi as int),
            ),
        decreases hi - lo,
    {
        assert(s@.subrange(lo as int, hi as int).drop_last() =~= s@.subrange(
            lo as int,
            hi - 1,
        ));
        hi -= 1;
    }
    (lo, hi)
}

/// Whether the text between `lo` and `hi` is `name`.
fn is_name(s: &Vec<char>, lo: usize, hi: usize, name: &str) -> (r: bool)
    requires
        lo <= hi <= s@.len(),
    ensures
        r == (s@.subrange(lo as int, hi as int) == name@),
{
    let n: usize = name.unicode_len();
    if hi - lo != n {
        return false;
    }
    let mut i: usize = 0;
    while i < n
        invariant
            i <= n,
            n == name@.len(),
            hi - lo == n,
            lo <= hi <= s@.len(),
            forall|j: int| 0 <= j < i ==> s@[lo + j] == name@[j],
        decreases n - i,
    {
        if s[lo + i] != name.get_char(i) {
            assert(s@.subrange(lo as int, hi as int)[i as int] != name@[i as int]);
            return false;
        }
        i += 1;
    }
    assert(s@.subrange(lo as int, hi as int) =~= name@);
    true
}

/// What the text between `lo` and `hi` stands for.
fn look_up(s: &Vec<char>, lo: usize, hi: usize) -> (r: Option<Named>)
    requires
        lo <= hi <= s@.len(),
    ensures
        r == lookup(s@.subrange(lo as int, hi as int)),
{
    let ghost name = s@.subrange(lo as int, hi as int);
    let all = all_features();
    let mut i: usize = 0;
    while i < all.len()
        invariant
            i <= all.len(),
            all@ == spec_all_features(),
            lo <= hi <= s@.len(),
            name == s@.subrange(lo as int, hi as int),
            flag_named(name, 0) == flag_named(name, i as int),
        decreases all.len() - i,
    {
        if is_name(s, lo, hi, feature_name(all[i])) {
            return Some(Named::Flag(all[i]));
        }
        i += 1;
    }
    if is_name(s, lo, hi, "mvp") {
        Some(Named::Group(WasmFeatures::mvp()))
    } else if is_name(s, lo, hi, "wasm1") {
        Some(Named::Group(WasmFeatures::wasm1()))
    } else if is_name(s, lo, hi, "wasm2") {
        Some(Named::Group(WasmFeatures::wasm2()))
    } else if is_name(s, lo, hi, "wasm3") {
        Some(Named::Group(WasmFeatures::wasm3()))
    } else if is_name(s, lo, hi, "lime1") {
        Some(Named::Group(WasmFeatures::lime1()))
    } else if is_name(s, lo, hi, "all") {
        Some(Named::All)
    } else {
        None
    }
}

/// A copy of the text between `lo` and `hi`.
fn copy_range(s: &Vec<char>, lo: usize, hi: usize) -> (v: Vec<char>)
    requires
        lo <= hi <= s@.len(),
    ensures
        v@ == s@.subrange(lo as int, hi as int),
{
    let mut v: Vec<char> = Vec::new();
    let mut i: usize = lo;
    while i < hi
        invariant
            lo <= i <= hi <= s@.len(),
            v@ == s@.subrange(lo as int, i as int),
        decreases hi - i,
    {
        v.push(s[i]);
        assert(v@ =~= s@.subrange(lo as int, i + 1));
        i += 1;
    }
    v
}

/// The step that the entry between `lo` and `hi` asks for.
fn parse_entry(s: &Vec<char>, lo: usize, hi: usize) -> (res: Result<
    FeatureAction,
    FeatureParseError,
>)
    requires
        lo < hi <= s@.len(),
    ensures
        match parse_part(s@.subrange(lo as int, hi as int)) {
            Ok(action) => res == Ok::<FeatureAction, FeatureParseError>(action),
            Err(e) => res is Err && res->Err_0@ == e,
        },
{
    let ghost part = s@.subrange(lo as int, hi as int);
    let enable: bool = s[lo] != '-';
    let from: usize = if enable {
        lo
    } else {
        lo + 1
    };
    assert(part[0] == s@[lo as int]);
    assert(part.skip(1) =~= s@.subrange(lo + 1, hi as int));
    match look_up(s, from, hi) {
        Some(Named::Flag(f)) => {
            let features = WasmFeatures { bits: f.mask() };
            if enable {
                Ok(FeatureAction::Enable(features))
            } else {
                Ok(FeatureAction::Disable(features))
            }
        },
        Some(Named::Group(features)) => {
            if enable {
                Ok(FeatureAction::Reset(features))
            } else {
                Err(FeatureParseError::CannotDisable(copy_range(s, from, hi)))
            }
        },
        Some(Named::All) => {
            if enable {
                Ok(FeatureAction::Enable(WasmFeatures::all()))
            } else {
                Ok(FeatureAction::Disable(WasmFeatures::all()))
            }
        },
        None => Err(FeatureParseError::Unknown(copy_range(s, from, hi))),
    }
}

/// The characters of a text.
fn chars_of(arg: &str) -> (v: Vec<char>)
    ensures
        v@ == arg@,
{
    let n: usize = arg.unicode_len();
    let mut v: Vec<char> = Vec::new();
    let mut i: usize = 0;
    while i < n
        invariant
            i <= n,
            n == arg@.len(),
            v@ == arg@.subrange(0, i as int),
        decreases n - i,
    {
        v.push(arg.get_char(i));
        assert(v@ =~= arg@.subrange(0, i + 1));
        i += 1;
    }
    assert(arg@.subrange(0, n as int) =~= arg@);
    v
}

/// Reads the steps that a text asks for: a list of names of proposals and
/// releases with commas between them.
pub fn parse_features(arg: &str) -> (res: Result<Vec<FeatureAction>, FeatureParseError>)
    ensures
        match parse_from(arg@, 0) {
            Ok(actions) => res is Ok && res->Ok_0@ == actions,
            Err(e) => res is Err && res->Err_0@ == e,
        },
{
    let s = chars_of(arg);
    let mut ret: Vec<FeatureAction> = Vec::new();
    let mut start: usize = 0;
    assert(ret@ + Seq::<FeatureAction>::empty() =~= ret@);
    loop
        invariant
            s@ == arg@,
            start <= s@.len(),
            parse_from(s@, 0) == after(ret@, parse_from(s@, start as int)),
        decreases s@.len() - start,
    {
        let end = find_comma(&s, start);
        let (lo, hi) = trim_bounds(&s, start, end);
        let ghost found = ret@;
        if lo < hi {
            match parse_entry(&s, lo, hi) {
                Ok(action) => {
                    ret.push(action);
                },
                Err(e) => {
                    return Err(e);
                },
            }
        }
        if end >= s.len() {
            proof {
                if lo < hi {
                    assert(found + seq![ret@.last()] =~= ret@);
                } else {
                    assert(found + Seq::<FeatureAction>::empty() =~= ret@);
                }
            }
            return Ok(ret);
        }
        proof {
            let rest = parse_from(s@, end + 1);
            match rest {
                Ok(more) => {
                    if lo < hi {
                        assert(found + (seq![ret@.last()] + more) =~= ret@ + more);
                    } else {
                        assert(found + (Seq::<FeatureAction>::empty() + more) =~= ret@ + more);
                    }
                },
                Err(_) => {},
            }
        }
        start = end + 1;
    }
}

} // verus!
