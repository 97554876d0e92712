//! Reading the payloads of a module from the bytes of a binary.
//!
//! A binary begins with four bytes that mark it as a module and four bytes
//! for the version. Then come the sections: each has a byte that says which
//! section it is, its size in bytes, and its contents.

use vstd::prelude::*;
use vstd::slice::{slice_subrange, slice_to_vec};
use crate::decode_entries::{Decode, read_items, reader};
use crate::decode_types::{Read, lemma_items_len, list_at};
use crate::error::{BinaryReaderError, Reason};
use crate::payload::{Data, Element, Export, Global, Import, Table};
use crate::reader::{
    byte_at, failed, fixed_u32, read_fixed_u32, read_u8, read_var_u32, var_u32,
};
use crate::types::{MemoryType, RecGroup, TagType};
use crate::validator::{Located, Payload};
use crate::views::{LocatedView, PayloadView};

verus! {

/// A function body in the code section.
#[derive(Clone, Debug)]
pub struct CodeBody {
    /// The position in the input at which the bytes of the body begin.
    pub offset: usize,
    /// The locals and the instructions of the function.
    pub bytes: Vec<u8>,
}

impl DeepView for CodeBody {
    type V = LocatedView<Seq<u8>>;

    open spec fn deep_view(&self) -> LocatedView<Seq<u8>> {
        LocatedView { offset: self.offset, item: self.bytes@ }
    }
}

impl Decode for CodeBody {
    /// A function body: the number of its bytes, and then the bytes.
    open spec fn at(s: Seq<u8>, pos: usize) -> Read<LocatedView<Seq<u8>>> {
        match var_u32(s, pos) {
            Err(e) => Err(e),
            Ok((len, start)) => if start + len > s.len() {
                failed(Reason::UnexpectedEof, start)
            } else {
                Ok(
                    (
                        LocatedView { offset: start, item: s.subrange(start as int, start + len) },
                        (start + len) as usize,
                    ),
                )
            },
        }
    }

    fn read(data: &[u8], pos: usize) -> (res: Read<CodeBody>) {
        let (len, start) = read_var_u32(data, pos)?;
        if len as usize > data.len() - start {
            return Err(BinaryReaderError::new(Reason::UnexpectedEof, start));
        }
        let bytes = slice_to_vec(slice_subrange(data, start, start + len as usize));
        Ok((CodeBody { offset: start, bytes }, start + len as usize))
    }
}

/// What a reading gives where it ends at `end`, and a failure where it does
/// not.
pub open spec fn whole<T>(r: Read<T>, end: usize) -> Result<T, BinaryReaderError> {
    match r {
        Err(e) => Err(e),
        Ok((x, at)) => if at == end {
            Ok(x)
        } else {
            failed(Reason::SizeMismatch, at)
        },
    }
}

/// The entries of a section whose contents begin at `start` and fill the
/// rest of the bytes.
pub open spec fn entries<T: Decode>(s: Seq<u8>, start: usize) -> Result<
    Seq<LocatedView<<T as DeepView>::V>>,
    BinaryReaderError,
> {
    whole(list_at(reader::<Located<T>>(), s, start), s.len() as usize)
}

/// The function bodies of the code section whose contents begin at `start`
/// and fill the rest of the bytes.
pub open spec fn code_bodies(s: Seq<u8>, start: usize) -> Result<
    Seq<LocatedView<Seq<u8>>>,
    BinaryReaderError,
> {
    whole(list_at(reader::<CodeBody>(), s, start), s.len() as usize)
}

/// The payloads of the code section: its start, and its bodies.
pub open spec fn code_payloads(offset: usize, bodies: Seq<LocatedView<Seq<u8>>>) -> Seq<
    PayloadView,
> {
    seq![PayloadView::CodeSectionStart { count: bodies.len() as u32, offset }] + Seq::new(
        bodies.len(),
        |i: int| PayloadView::CodeSectionEntry { body: bodies[i].item, offset: bodies[i].offset },
    )
}

/// The payloads of the section with the identifier `id` that begins at
/// `offset` and whose contents begin at `start` and fill the rest of the
/// bytes.
#[verifier::opaque]
pub open spec fn section_payloads(s: Seq<u8>, id: u8, offset: usize, start: usize) -> Result<
    Seq<PayloadView>,
    BinaryReaderError,
> {
    if id == 0 {
        Ok(seq![PayloadView::CustomSection { offset }])
    } else if id == 1 {
        match entries::<RecGroup>(s, start) {
            Err(e) => Err(e),
            Ok(groups) => Ok(seq![PayloadView::TypeSection { offset, groups }]),
        }
    } else if id == 2 {
        match entries::<Import>(s, start) {
            Err(e) => Err(e),
            Ok(imports) => Ok(seq![PayloadView::ImportSection { offset, imports }]),
        }
    } else if id == 3 {
        match entries::<u32>(s, start) {
            Err(e) => Err(e),
            Ok(functions) => Ok(seq![PayloadView::FunctionSection { offset, functions }]),
        }
    } else if id == 4 {
        match entries::<Table>(s, start) {
            Err(e) => Err(e),
            Ok(tables) => Ok(seq![PayloadView::TableSection { offset, tables }]),
        }
    } else if id == 5 {
        match entries::<MemoryType>(s, start) {
            Err(e) => Err(e),
            Ok(memories) => Ok(seq![PayloadView::MemorySection { offset, memories }]),
        }
    } else if id == 6 {
        match entries::<Global>(s, start) {
            Err(e) => Err(e),
            Ok(globals) => Ok(seq![PayloadView::GlobalSection { offset, globals }]),
        }
    } else if id == 7 {
        match entries::<Export>(s, start) {
            Err(e) => Err(e),
            Ok(exports) => Ok(seq![PayloadView::ExportSection { offset, exports }]),
        }
    } else if id == 8 {
        match whole(var_u32(s, start), s.len() as usize) {
            Err(e) => Err(e),
            Ok(func) => Ok(seq![PayloadView::StartSection { func, offset }]),
        }
    } else if id == 9 {
        match entries::<Element>(s, start) {
            Err(e) => Err(e),
            Ok(elements) => Ok(seq![PayloadView::ElementSection { offset, elements }]),
        }
    } else if id == 10 {
        match code_bodies(s, start) {
            Err(e) => Err(e),
            Ok(bodies) => Ok(code_payloads(offset, bodies)),
        }
    } else if id == 11 {
        match entries::<Data>(s, start) {
            Err(e) => Err(e),
            Ok(data) => Ok(seq![PayloadView::DataSection { offset, data }]),
        }
    } else if id == 12 {
        match whole(var_u32(s, start), s.len() as usize) {
            Err(e) => Err(e),
            Ok(count) => Ok(seq![PayloadView::DataCountSection { count, offset }]),
        }
    } else if id == 13 {
        match entries::<TagType>(s, start) {
            Err(e) => Err(e),
            Ok(tags) => Ok(seq![PayloadView::TagSection { offset, tags }]),
        }
    } else {
        failed(Reason::UnknownSection(id), offset)
    }
}

/// The payloads of the section at `pos`: the byte that says which section it
/// is, the size of its contents, and the contents, which are read from the
/// bytes up to their end.
pub open spec fn section_at(s: Seq<u8>, pos: usize) -> Read<Seq<PayloadView>> {
    match byte_at(s, pos) {
        Err(e) => Err(e),
        Ok((id, next)) => match var_u32(s, next) {
            Err(e) => Err(e),
            Ok((size, start)) => if start + size > s.len() {
                failed(Reason::UnexpectedEof, start)
            } else {
                match section_payloads(s.take(start + size), id, pos, start) {
                    Err(e) => Err(e),
                    Ok(payloads) => Ok((payloads, (start + size) as usize)),
                }
            },
        }
    }
}

/// The payloads of the sections from `pos` on, and of the end of the module.
pub open spec fn sections_at(s: Seq<u8>, pos: usize) -> Result<Seq<PayloadView>, BinaryReaderError>
    decreases s.len() - pos,
{
    if pos >= s.len() {
        Ok(seq![PayloadView::End { offset: pos }])
    } else {
        match section_at(s, pos) {
            Err(e) => Err(e),
            Ok((payloads, next)) => if next <= pos {
                Ok(payloads)
            } else {
                match sections_at(s, next) {
                    Err(e) => Err(e),
                    Ok(more) => Ok(payloads + more),
                }
            },
        }
    }
}

/// The payloads of a module: the header, which is the bytes `00 61 73 6d` and
/// a version of four bytes, the sections, and the end.
pub open spec fn module_payloads(s: Seq<u8>) -> Result<Seq<PayloadView>, BinaryReaderError> {
    if s.len() < 8 {
        failed(Reason::UnexpectedEof, s.len() as usize)
    } else if !(s[0] == 0x00 && s[1] == 0x61 && s[2] == 0x73 && s[3] == 0x6d) {
        failed(Reason::BadMagic, 0)
    } else if fixed_u32(s, 4)->Ok_0.0 > 0xffff {
        failed(Reason::IntegerTooLarge, 4)
    } else {
        match sections_at(s, 8) {
            Err(e) => Err(e),
            Ok(payloads) => Ok(
                seq![PayloadView::Version { num: fixed_u32(s, 4)->Ok_0.0 as u16, offset: 0 }]
                    + payloads,
            ),
        }
    }
}

/// The values of a sequence of payloads.
pub open spec fn payload_views(payloads: Seq<Payload>) -> Seq<PayloadView> {
    Seq::new(payloads.len(), |i: int| payloads[i].deep_view())
}

/// Reads the entries of a section whose contents begin at `start` and fill
/// the rest of the bytes.
fn read_entries<T: Decode>(data: &[u8], start: usize) -> (res: Result<
    Vec<Located<T>>,
    BinaryReaderError,
>)
    ensures
        match entries::<T>(data@, start) {
            Ok(v) => res is Ok && res->Ok_0.deep_view() == v,
            Err(e) => res is Err && res->Err_0 == e,
        },
{
    let (items, end) = read_items::<Located<T>>(data, start)?;
    if end != data.len() {
        return Err(BinaryReaderError::new(Reason::SizeMismatch, end));
    }
    Ok(items)
}

/// Reads a number that fills the bytes from `start` on.
fn read_whole_u32(data: &[u8], start: usize) -> (res: Result<u32, BinaryReaderError>)
    ensures
        res == whole(var_u32(data@, start), data@.len() as usize),
{
    let (v, end) = read_var_u32(data, start)?;
    if end != data.len() {
        return Err(BinaryReaderError::new(Reason::SizeMismatch, end));
    }
    Ok(v)
}

/// One payload.
fn single(payload: Payload) -> (v: Vec<Payload>)
    ensures
        payload_views(v@) == seq![payload.deep_view()],
{
    let mut v: Vec<Payload> = Vec::new();
    v.push(payload);
    assert(payload_views(v@) =~= seq![payload.deep_view()]);
    v
}

/// The payloads of the code section.
fn code_section(offset: usize, bodies: Vec<CodeBody>) -> (v: Vec<Payload>)
    requires
        bodies@.len() <= u32::MAX,
    ensures
        payload_views(v@) == code_payloads(offset, bodies.deep_view()),
{
    let ghost views = bodies.deep_view();
    let mut v: Vec<Payload> = Vec::new();
    v.push(Payload::CodeSectionStart { count: bodies.len() as u32, offset });
    for body in it: bodies.into_iter()
        invariant
            it.seq() == bodies@,
            views == bodies.deep_view(),
            v@.len() == 1 + it.index(),
            v@[0].deep_view() == (PayloadView::CodeSectionStart {
                count: bodies@.len() as u32,
                offset,
            }),
            forall|k: int|
                0 <= k < it.index() ==> (#[trigger] v@[1 + k]).deep_view()
                    == (PayloadView::CodeSectionEntry {
                    body: views[k].item,
                    offset: views[k].offset,
                }),
    {
        v.push(Payload::CodeSectionEntry { body: body.bytes, offset: body.offset });
    }
    assert(views.len() == bodies@.len());
    assert forall|i: int| 0 <= i < payload_views(v@).len() implies payload_views(v@)[i]
        == code_payloads(offset, views)[i] by {
        if i > 0 {
            assert(v@[1 + (i - 1)].deep_view() == (PayloadView::CodeSectionEntry {
                body: views[i - 1].item,
                offset: views[i - 1].offset,
            }));
        }
    }
    assert(payload_views(v@) =~= code_payloads(offset, views));
    v
}

/// Reads the payloads of the section with the identifier `id` that begins
/// at `offset` and whose contents begin at `start` and fill the rest of the
/// bytes.
fn read_section_payloads(data: &[u8], id: u8, offset: usize, start: usize) -> (res: Result<
    Vec<Payload>,
    BinaryReaderError,
>)
    ensures
        match section_payloads(data@, id, offset, start) {
            Ok(v) => res is Ok && payload_views(res->Ok_0@) == v,
            Err(e) => res is Err && res->Err_0 == e,
        },
{
    reveal(section_payloads);
    if id == 0 {
        Ok(single(Payload::CustomSection { offset }))
    } else if id == 1 {
        let groups = read_entries::<RecGroup>(data, start)?;
        Ok(single(Payload::TypeSection { offset, groups }))
    } else if id == 2 {
        let imports = read_entries::<Import>(data, start)?;
        Ok(single(Payload::ImportSection { offset, imports }))
    } else if id == 3 {
        let functions = read_entries::<u32>(data, start)?;
        Ok(single(Payload::FunctionSection { offset, functions }))
    } else if id == 4 {
        let tables = read_entries::<Table>(data, start)?;
        Ok(single(Payload::TableSection { offset, tables }))
    } else if id == 5 {
        let memories = read_entries::<MemoryType>(data, start)?;
        Ok(single(Payload::MemorySection { offset, memories }))
    } else if id == 6 {
        let globals = read_entries::<Global>(data, start)?;
        Ok(single(Payload::GlobalSection { offset, globals }))
    } else if id == 7 {
        let exports = read_entries::<Export>(data, start)?;
        Ok(single(Payload::ExportSection { offset, exports }))
    } else if id == 8 {
        let func = read_whole_u32(data, start)?;
        Ok(single(Payload::StartSection { func, offset }))
    } else if id == 9 {
        let elements = read_entries::<Element>(data, start)?;
        Ok(single(Payload::ElementSection { offset, elements }))
    } else if id == 10 {
        let (bodies, end) = read_items::<CodeBody>(data, start)?;
        if end != data.len() {
            return Err(BinaryReaderError::new(Reason::SizeMismatch, end));
        }
        proof {
            let n = var_u32(data@, start)->Ok_0.0;
            let first = var_u32(data@, start)->Ok_0.1;
            lemma_items_len(reader::<CodeBody>(), data@, first, n as nat);
            assert(bodies.deep_view().len() == bodies@.len());
        }
        Ok(code_section(offset, bodies))
    } else if id == 11 {
        let data_segments = read_entries::<Data>(data, start)?;
        Ok(single(Payload::DataSection { offset, data: data_segments }))
    } else if id == 12 {
        let count = read_whole_u32(data, start)?;
        Ok(single(Payload::DataCountSection { count, offset }))
    } else if id == 13 {
        let tags = read_entries::<TagType>(data, start)?;
        Ok(single(Payload::TagSection { offset, tags }))
    } else {
        Err(BinaryReaderError::new(Reason::UnknownSection(id), offset))
    }
}

/// Reads the payloads of the section at `pos`.
pub fn read_section(data: &[u8], pos: usize) -> (res: Read<Vec<Payload>>)
    ensures
        match section_at(data@, pos) {
            Ok((v, end)) => res is Ok && payload_views(res->Ok_0.0@) == v && res->Ok_0.1 == end,
            Err(e) => res is Err && res->Err_0 == e,
        },
        res is Ok ==> pos < res->Ok_0.1 <= data@.len(),
{
    let (id, next) = read_u8(data, pos)?;
    let (size, start) = read_var_u32(data, next)?;
    if size as usize > data.len() - start {
        return Err(BinaryReaderError::new(Reason::UnexpectedEof, start));
    }
    let end: usize = start + size as usize;
    let contents = slice_subrange(data, 0, end);
    assert(contents@ =~= data@.take(end as int));
    let payloads = read_section_payloads(contents, id, pos, start)?;
    Ok((payloads, end))
}

/// Reads the payloads of a module from the bytes of a binary.
pub fn decode(data: &[u8]) -> (res: Result<Vec<Payload>, BinaryReaderError>)
    ensures
        match module_payloads(data@) {
            Ok(v) => res is Ok && payload_views(res->Ok_0@) == v,
            Err(e) => res is Err && res->Err_0 == e,
        },
{
    if data.len() < 8 {
        return Err(BinaryReaderError::new(Reason::UnexpectedEof, data.len()));
    }
    if !(data[0] == 0x00 && data[1] == 0x61 && data[2] == 0x73 && data[3] == 0x6d) {
        return Err(BinaryReaderError::new(Reason::BadMagic, 0));
    }
    let version: u32 = match read_fixed_u32(data, 4) {
        Ok((v, _)) => v,
        Err(_) => vstd::pervasive::unreached(),
    };
    if version > 0xffff {
        return Err(BinaryReaderError::new(Reason::IntegerTooLarge, 4));
    }
    let mut out: Vec<Payload> = Vec::new();
    out.push(Payload::Version { num: version as u16, offset: 0 });
    let ghost head = payload_views(out@);
    assert(head =~= seq![PayloadView::Version { num: version as u16, offset: 0 }]);
    let mut at: usize = 8;
    let ghost mut found: Seq<PayloadView> = Seq::empty();
    assert(payload_views(out@) =~= head + found);
    assert(found + sections_at(data@, 8)->Ok_0 =~= sections_at(data@, 8)->Ok_0);
    while at < data.len()
        invariant
            8 <= at <= data@.len(),
            head == seq![PayloadView::Version { num: version as u16, offset: 0 }],
            payload_views(out@) == head + found,
            sections_at(data@, 8) == match sections_at(data@, at) {
                Ok(more) => Ok::<Seq<PayloadView>, BinaryReaderError>(found + more),
                Err(e) => Err(e),
            },
            module_payloads(data@) == match sections_at(data@, 8) {
                Ok(payloads) => Ok::<Seq<PayloadView>, BinaryReaderError>(head + payloads),
                Err(e) => Err(e),
            },
        decreases data@.len() - at,
    {
        let (mut payloads, next) = read_section(data, at)?;
        let ghost before = out@;
        let ghost added = payload_views(payloads@);
        proof {
            match sections_at(data@, next) {
                Ok(more) => {
                    assert(found + (added + more) =~= (found + added) + more);
                },
                Err(_) => {},
            }
        }
        out.append(&mut payloads);
        proof {
            assert(payload_views(out@) =~= payload_views(before) + added);
            assert(head + found + added =~= head + (found + added));
            found = found + added;
        }
        at = next;
    }
    let ghost before = out@;
    out.push(Payload::End { offset: at });
    proof {
        let last = seq![PayloadView::End { offset: at }];
        assert(payload_views(out@) =~= payload_views(before) + last);
        assert(head + found + last =~= head + (found + last));
        assert(sections_at(data@, at) == Ok::<Seq<PayloadView>, BinaryReaderError>(last));
    }
    Ok(out)
}

} // verus!
