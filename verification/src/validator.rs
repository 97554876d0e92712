//! The validator of a module: the order of the sections, and what each of
//! them does to the index spaces.

use vstd::prelude::*;
use crate::const_expr::outcome;
use crate::error::{BinaryReaderError, IndexSpace, Reason};
use crate::features::{Feature, WasmFeatures};
use crate::limits::{
    MAX_WASM_DATA_SEGMENTS, MAX_WASM_ELEMENT_SEGMENTS, MAX_WASM_EXPORTS, MAX_WASM_FUNCTIONS,
    MAX_WASM_GLOBALS, MAX_WASM_IMPORTS, MAX_WASM_TAGS, MAX_WASM_TYPES, fits,
};
use crate::module::ModuleView;
use crate::payload::{Data, Element, Export, Global, Import, Table};
use crate::type_list::{TypeListView};
use crate::types::{MemoryType, RecGroup, TagType};

verus! {

/// Something with its position in the input.
#[derive(Clone, Debug)]
pub struct Located<T> {
    pub offset: usize,
    pub item: T,
}

/// What the parser hands to the validator: the header, one section, one code
/// body, or the end of the module. Every payload comes with its position in
/// the input.
#[derive(Clone, Debug)]
pub enum Payload {
    Version { num: u16, offset: usize },
    TypeSection { offset: usize, groups: Vec<Located<RecGroup>> },
    ImportSection { offset: usize, imports: Vec<Located<Import>> },
    FunctionSection { offset: usize, functions: Vec<Located<u32>> },
    TableSection { offset: usize, tables: Vec<Located<Table>> },
    MemorySection { offset: usize, memories: Vec<Located<MemoryType>> },
    TagSection { offset: usize, tags: Vec<Located<TagType>> },
    GlobalSection { offset: usize, globals: Vec<Located<Global>> },
    ExportSection { offset: usize, exports: Vec<Located<Export>> },
    StartSection { func: u32, offset: usize },
    ElementSection { offset: usize, elements: Vec<Located<Element>> },
    DataCountSection { count: u32, offset: usize },
    /// The start of the code section, with the number of bodies it holds.
    CodeSectionStart { count: u32, offset: usize },
    /// One body of the code section: its locals and its instructions.
    CodeSectionEntry { body: Vec<u8>, offset: usize },
    DataSection { offset: usize, data: Vec<Located<Data>> },
    CustomSection { offset: usize },
    End { offset: usize },
}

/// The place of a section in the order of sections.
#[derive(Clone, Copy, Debug, PartialEq, Eq, Structural)]
pub enum Order {
    Initial,
    Type,
    Import,
    Function,
    Table,
    Memory,
    Tag,
    Global,
    Export,
    Start,
    Element,
    DataCount,
    Code,
    Data,
}

impl Order {
    /// The position in the order of sections.
    pub open spec fn spec_rank(&self) -> u8 {
        match *self {
            Order::Initial => 0,
            Order::Type => 1,
            Order::Import => 2,
            Order::Function => 3,
            Order::Table => 4,
            Order::Memory => 5,
            Order::Tag => 6,
            Order::Global => 7,
            Order::Export => 8,
            Order::Start => 9,
            Order::Element => 10,
            Order::DataCount => 11,
            Order::Code => 12,
            Order::Data => 13,
        }
    }

    #[verifier::when_used_as_spec(spec_rank)]
    pub fn rank(&self) -> (r: u8)
        ensures
            r == self.spec_rank(),
    {
        match *self {
            Order::Initial => 0,
            Order::Type => 1,
            Order::Import => 2,
            Order::Function => 3,
            Order::Table => 4,
            Order::Memory => 5,
            Order::Tag => 6,
            Order::Global => 7,
            Order::Export => 8,
            Order::Start => 9,
            Order::Element => 10,
            Order::DataCount => 11,
            Order::Code => 12,
            Order::Data => 13,
        }
    }
}

/// How far the validator has come.
#[derive(Clone, Copy, Debug, PartialEq, Eq, Structural)]
pub enum State {
    /// The header has not been seen.
    Unparsed,
    /// The sections of the module are being read.
    Module,
    /// The end of the module was seen.
    End,
}

/// What the validator asks its caller to do after a payload.
#[derive(Clone, Copy, Debug, PartialEq, Eq, Structural)]
pub enum Event {
    /// Nothing: the payload was checked and taken in.
    Absorbed,
    /// Check the body that came with the payload: it belongs to the function
    /// `index`, whose type has the module index `ty`.
    Func { index: u32, ty: u32 },
    /// Nothing: the module is complete.
    Finished,
}

/// The index spaces of a module and the type list behind them.
pub struct Spaces {
    pub module: ModuleView,
    pub types: TypeListView,
}

/// The outcome of a sequence of entries: each is applied to what the entries
/// before it left, and the first failure ends it.
pub open spec fn fold_entries<T>(
    step: spec_fn(Spaces, T) -> Result<Spaces, BinaryReaderError>,
    start: Spaces,
    items: Seq<T>,
) -> Result<Spaces, BinaryReaderError>
    decreases items.len(),
{
    if items.len() == 0 {
        Ok(start)
    } else {
        match step(start, items[0]) {
            Err(e) => Err(e),
            Ok(next) => fold_entries(step, next, items.drop_first()),
        }
    }
}

/// `module` with everything else of `s` as it is.
pub open spec fn moved(s: Spaces, reason: Option<Reason>, offset: usize, module: ModuleView)
    -> Result<Spaces, BinaryReaderError> {
    match reason {
        Some(r) => Err(BinaryReaderError { reason: r, offset }),
        None => Ok(Spaces { module, types: s.types }),
    }
}

/// `module` with everything else of `s` as it is, unless there is a failure.
pub open spec fn moved_on(s: Spaces, error: Option<BinaryReaderError>, module: ModuleView)
    -> Result<Spaces, BinaryReaderError> {
    match error {
        Some(e) => Err(e),
        None => Ok(Spaces { module, types: s.types }),
    }
}

pub open spec fn type_entry(s: Spaces, e: Located<RecGroup>) -> Result<Spaces, BinaryReaderError> {
    match s.module.add_types_reason(s.types, e.item@, true) {
        Some(r) => Err(BinaryReaderError { reason: r, offset: e.offset }),
        None => Ok(
            Spaces {
                module: s.module.with_types(s.types, e.item@),
                types: s.types.with_group(s.module.canon_group(e.item@)),
            },
        ),
    }
}

pub open spec fn import_entry(s: Spaces, e: Located<Import>) -> Result<Spaces, BinaryReaderError> {
    moved(
        s,
        s.module.import_reason(s.types.types, e.item.ty),
        e.offset,
        s.module.with_import(s.types.types, e.item.module@, e.item.name@, e.item.ty),
    )
}

pub open spec fn function_entry(s: Spaces, e: Located<u32>) -> Result<Spaces, BinaryReaderError> {
    moved(
        s,
        s.module.func_type_reason(s.types.types, e.item),
        e.offset,
        s.module.with_function(e.item),
    )
}

pub open spec fn table_entry(s: Spaces, e: Located<Table>) -> Result<Spaces, BinaryReaderError> {
    moved_on(
        s,
        s.module.table_error(s.types.types, &e.item, e.offset),
        s.module.with_table(&e.item),
    )
}

pub open spec fn memory_entry(s: Spaces, e: Located<MemoryType>) -> Result<
    Spaces,
    BinaryReaderError,
> {
    moved(s, s.module.memory_type_reason(e.item), e.offset, s.module.with_memory(e.item))
}

pub open spec fn tag_entry(s: Spaces, e: Located<TagType>) -> Result<Spaces, BinaryReaderError> {
    moved(s, s.module.tag_type_reason(s.types.types, e.item), e.offset, s.module.with_tag(e.item))
}

pub open spec fn global_entry(s: Spaces, e: Located<Global>) -> Result<Spaces, BinaryReaderError> {
    moved_on(
        s,
        s.module.global_error(s.types.types, &e.item, e.offset),
        s.module.with_global(&e.item),
    )
}

/// An export: the entity it names is looked up, and then it is added under
/// its name.
pub open spec fn export_entry(s: Spaces, e: Located<Export>) -> Result<Spaces, BinaryReaderError> {
    match s.module.export_reason(e.item.kind, e.item.index) {
        Some(r) => Err(BinaryReaderError { reason: r, offset: e.offset }),
        None => {
            let entity = s.module.export_entity(e.item.kind, e.item.index);
            let looked_up = s.module.with_exported(e.item.kind, e.item.index);
            moved(
                s,
                looked_up.add_export_reason(s.types.types, e.item.name@, entity, false),
                e.offset,
                looked_up.with_export(s.types.types, e.item.name@, entity),
            )
        },
    }
}

pub open spec fn element_entry(s: Spaces, e: Located<Element>) -> Result<
    Spaces,
    BinaryReaderError,
> {
    moved_on(
        s,
        s.module.element_error(s.types.types, &e.item, e.offset),
        s.module.with_element(&e.item),
    )
}

pub open spec fn data_entry(s: Spaces, e: Located<Data>) -> Result<Spaces, BinaryReaderError> {
    moved_on(s, s.module.data_error(s.types.types, &e.item, e.offset), s.module)
}

pub open spec fn type_step() -> spec_fn(Spaces, Located<RecGroup>) -> Result<Spaces, BinaryReaderError> {
    |s: Spaces, e: Located<RecGroup>| type_entry(s, e)
}

pub open spec fn import_step() -> spec_fn(Spaces, Located<Import>) -> Result<Spaces, BinaryReaderError> {
    |s: Spaces, e: Located<Import>| import_entry(s, e)
}

pub open spec fn function_step() -> spec_fn(Spaces, Located<u32>) -> Result<Spaces, BinaryReaderError> {
    |s: Spaces, e: Located<u32>| function_entry(s, e)
}

pub open spec fn table_step() -> spec_fn(Spaces, Located<Table>) -> Result<Spaces, BinaryReaderError> {
    |s: Spaces, e: Located<Table>| table_entry(s, e)
}

pub open spec fn memory_step() -> spec_fn(Spaces, Located<MemoryType>) -> Result<Spaces, BinaryReaderError> {
    |s: Spaces, e: Located<MemoryType>| memory_entry(s, e)
}

pub open spec fn tag_step() -> spec_fn(Spaces, Located<TagType>) -> Result<Spaces, BinaryReaderError> {
    |s: Spaces, e: Located<TagType>| tag_entry(s, e)
}

pub open spec fn global_step() -> spec_fn(Spaces, Located<Global>) -> Result<Spaces, BinaryReaderError> {
    |s: Spaces, e: Located<Global>| global_entry(s, e)
}

pub open spec fn export_step() -> spec_fn(Spaces, Located<Export>) -> Result<Spaces, BinaryReaderError> {
    |s: Spaces, e: Located<Export>| export_entry(s, e)
}

pub open spec fn element_step() -> spec_fn(Spaces, Located<Element>) -> Result<Spaces, BinaryReaderError> {
    |s: Spaces, e: Located<Element>| element_entry(s, e)
}

pub open spec fn data_step() -> spec_fn(Spaces, Located<Data>) -> Result<Spaces, BinaryReaderError> {
    |s: Spaces, e: Located<Data>| data_entry(s, e)
}

/// Why `count` more entries do not fit into a space of `len` entries, if they
/// do not.
pub open spec fn count_reason(len: nat, count: nat, max: usize, space: IndexSpace) -> Option<
    Reason,
> {
    if fits(len as int, count as int, max as int) {
        None
    } else {
        Some(Reason::TooMany(space))
    }
}

/// The mathematical value of a [`Validator`].
pub struct ValidatorView {
    pub state: State,
    /// The last section that was seen.
    pub order: Order,
    pub module: ModuleView,
    pub types: TypeListView,
    /// Whether the module is frozen.
    pub frozen: bool,
    /// Inside the code section, the number of bodies that are still to come.
    pub code_bodies_left: Option<u32>,
    /// The number of segments in the data section, once it was seen.
    pub data_seen: Option<nat>,
}

impl ValidatorView {
    /// The validator before the header, for the proposals `features`.
    pub open spec fn initial(features: WasmFeatures) -> ValidatorView {
        ValidatorView {
            state: State::Unparsed,
            order: Order::Initial,
            module: ModuleView::empty(features),
            types: TypeListView { types: Seq::empty(), starts: Seq::empty() },
            frozen: false,
            code_bodies_left: None,
            data_seen: None,
        }
    }

    /// Why nothing of a module can come now, if nothing can: the header is
    /// missing, or the module is over.
    pub open spec fn state_reason(self) -> Option<Reason> {
        match self.state {
            State::Unparsed => Some(Reason::MissingHeader),
            State::Module => None,
            State::End => Some(Reason::AfterEnd),
        }
    }

    /// Why the section with the place `order` cannot come now, if it
    /// cannot: nothing of a module can, or the section was seen before, or a
    /// section that must follow it was.
    pub open spec fn order_reason(self, order: Order) -> Option<Reason> {
        if self.state_reason() is Some {
            self.state_reason()
        } else if self.order == order {
            Some(Reason::DuplicateSection)
        } else if self.order.spec_rank() > order.spec_rank() {
            Some(Reason::SectionOutOfOrder)
        } else {
            None
        }
    }

    /// The validator after a section of entries, or its first failure: the
    /// section must be in order, its entries must fit into their space, and
    /// the entries are applied one after the other.
    pub open spec fn section<T>(
        self,
        order: Order,
        offset: usize,
        limit: Option<Reason>,
        step: spec_fn(Spaces, T) -> Result<Spaces, BinaryReaderError>,
        items: Seq<T>,
    ) -> Result<ValidatorView, BinaryReaderError> {
        if self.order_reason(order) is Some {
            Err(BinaryReaderError { reason: self.order_reason(order)->0, offset })
        } else if limit is Some {
            Err(BinaryReaderError { reason: limit->0, offset })
        } else {
            self.after_entries(
                order,
                fold_entries(step, Spaces { module: self.module, types: self.types }, items),
            )
        }
    }

    /// The validator after the entries of the section with the place `order`
    /// left the index spaces `folded`.
    pub open spec fn after_entries(self, order: Order, folded: Result<Spaces, BinaryReaderError>)
        -> Result<ValidatorView, BinaryReaderError> {
        match folded {
            Err(e) => Err(e),
            Ok(s) => Ok(ValidatorView { order, module: s.module, types: s.types, ..self }),
        }
    }

    /// The number of functions that the module defines itself.
    pub open spec fn defined_functions(self) -> int {
        self.module.functions.len() - self.module.num_imported_functions
    }

    /// The index of the function that the next code body belongs to: the
    /// bodies belong to the last functions of the module, in their order.
    pub open spec fn next_body(self) -> int {
        self.module.functions.len() - self.code_bodies_left->0
    }

    /// Why a data section of `count` segments is refused, if it is: another
    /// number was announced, or there are too many.
    pub open spec fn data_limit(self, count: nat) -> Option<Reason> {
        if self.module.data_count is Some && self.module.data_count->0 != count {
            Some(Reason::InconsistentDataCount)
        } else {
            count_reason(0, count, MAX_WASM_DATA_SEGMENTS, IndexSpace::DataSegments)
        }
    }

    /// Why the start function is refused, if it is: there is no such
    /// function, or it takes parameters or gives results.
    pub open spec fn start_reason(self, func: u32) -> Option<Reason> {
        if func >= self.module.functions.len() {
            Some(Reason::Unknown { space: IndexSpace::Functions, index: func })
        } else {
            let ty = self.types.types[self.module.types[self.module.functions[func as int] as int].index as int];
            if ty.inner->params.len() == 0 && ty.inner->results.len() == 0 {
                None
            } else {
                Some(Reason::InvalidStartFunction)
            }
        }
    }

    /// Why the end of the module is refused, if it is: functions are defined
    /// and bodies are missing, or the data count section announced another
    /// number of segments than the data section holds.
    pub open spec fn end_reason(self) -> Option<Reason> {
        if self.state_reason() is Some {
            self.state_reason()
        } else if self.code_bodies_left is None && self.defined_functions() > 0 {
            Some(Reason::InconsistentCodeCount)
        } else if self.code_bodies_left is Some && self.code_bodies_left->0 > 0 {
            Some(Reason::InconsistentCodeCount)
        } else if self.module.data_count is Some && self.module.data_count->0 != (
        match self.data_seen {
            Some(n) => n,
            None => 0,
        }) {
            Some(Reason::InconsistentDataCount)
        } else {
            None
        }
    }

    /// Why a code body is refused, if it is: the code section is not being
    /// read, or all its bodies have come.
    pub open spec fn body_reason(self) -> Option<Reason> {
        if self.state_reason() is Some {
            self.state_reason()
        } else if self.order != Order::Code || self.code_bodies_left is None
            || self.code_bodies_left->0 == 0 {
            Some(Reason::UnexpectedCodeBody)
        } else {
            None
        }
    }

    /// The validator after a payload and what the caller is to do, or the
    /// failure of the payload.
    ///
    /// The header comes first and once. The sections come in their order,
    /// each at most once; custom sections may come anywhere after the
    /// header. The start of the code section freezes the module. After the
    /// end nothing is accepted.
    #[verifier::opaque]
    pub open spec fn step(self, payload: &Payload) -> Result<
        (ValidatorView, Event),
        BinaryReaderError,
    > {
        match *payload {
            Payload::Version { num, offset } => if self.state != State::Unparsed {
                Err(BinaryReaderError { reason: Reason::HeaderOutOfOrder, offset })
            } else if num != 1 {
                Err(BinaryReaderError { reason: Reason::UnknownVersion(num), offset })
            } else {
                Ok((ValidatorView { state: State::Module, ..self }, Event::Absorbed))
            },
            Payload::TypeSection { offset, groups } => absorbed(
                self.section(
                    Order::Type,
                    offset,
                    count_reason(
                        self.module.types.len(),
                        groups@.len(),
                        MAX_WASM_TYPES,
                        IndexSpace::Types,
                    ),
                    type_step(),
                    groups@,
                ),
            ),
            Payload::ImportSection { offset, imports } => absorbed(
                self.section(
                    Order::Import,
                    offset,
                    count_reason(
                        self.module.imports.len(),
                        imports@.len(),
                        MAX_WASM_IMPORTS,
                        IndexSpace::Imports,
                    ),
                    import_step(),
                    imports@,
                ),
            ),
            Payload::FunctionSection { offset, functions } => absorbed(
                self.section(
                    Order::Function,
                    offset,
                    count_reason(
                        self.module.functions.len(),
                        functions@.len(),
                        MAX_WASM_FUNCTIONS,
                        IndexSpace::Functions,
                    ),
                    function_step(),
                    functions@,
                ),
            ),
            Payload::TableSection { offset, tables } => absorbed(
                self.section(
                    Order::Table,
                    offset,
                    count_reason(
                        self.module.tables.len(),
                        tables@.len(),
                        self.module.max_tables(),
                        IndexSpace::Tables,
                    ),
                    table_step(),
                    tables@,
                ),
            ),
            Payload::MemorySection { offset, memories } => absorbed(
                self.section(
                    Order::Memory,
                    offset,
                    count_reason(
                        self.module.memories.len(),
                        memories@.len(),
                        self.module.max_memories(),
                        IndexSpace::Memories,
                    ),
                    memory_step(),
                    memories@,
                ),
            ),
            Payload::TagSection { offset, tags } => absorbed(
                self.section(
                    Order::Tag,
                    offset,
                    if !self.module.features.has(Feature::Exceptions) {
                        Some(Reason::Disabled(Feature::Exceptions))
                    } else {
                        count_reason(
                            self.module.tags.len(),
                            tags@.len(),
                            MAX_WASM_TAGS,
                            IndexSpace::Tags,
                        )
                    },
                    tag_step(),
                    tags@,
                ),
            ),
            Payload::GlobalSection { offset, globals } => absorbed(
                self.section(
                    Order::Global,
                    offset,
                    count_reason(
                        self.module.globals.len(),
                        globals@.len(),
                        MAX_WASM_GLOBALS,
                        IndexSpace::Globals,
                    ),
                    global_step(),
                    globals@,
                ),
            ),
            Payload::ExportSection { offset, exports } => absorbed(
                self.section(
                    Order::Export,
                    offset,
                    count_reason(
                        self.module.exports.len(),
                        exports@.len(),
                        MAX_WASM_EXPORTS,
                        IndexSpace::Exports,
                    ),
                    export_step(),
                    exports@,
                ),
            ),
            Payload::StartSection { func, offset } => if self.order_reason(Order::Start) is Some {
                Err(BinaryReaderError { reason: self.order_reason(Order::Start)->0, offset })
            } else if self.start_reason(func) is Some {
                Err(BinaryReaderError { reason: self.start_reason(func)->0, offset })
            } else {
                Ok((ValidatorView { order: Order::Start, ..self }, Event::Absorbed))
            },
            Payload::ElementSection { offset, elements } => absorbed(
                self.section(
                    Order::Element,
                    offset,
                    count_reason(
                        self.module.element_types.len(),
                        elements@.len(),
                        MAX_WASM_ELEMENT_SEGMENTS,
                        IndexSpace::ElementSegments,
                    ),
                    element_step(),
                    elements@,
                ),
            ),
            Payload::DataCountSection { count, offset } => if self.order_reason(Order::DataCount)
                is Some {
                Err(BinaryReaderError { reason: self.order_reason(Order::DataCount)->0, offset })
            } else if count > MAX_WASM_DATA_SEGMENTS {
                Err(
                    BinaryReaderError {
                        reason: Reason::TooMany(IndexSpace::DataSegments),
                        offset,
                    },
                )
            } else {
                Ok(
                    (
                        ValidatorView {
                            order: Order::DataCount,
                            module: ModuleView { data_count: Some(count), ..self.module },
                            ..self
                        },
                        Event::Absorbed,
                    ),
                )
            },
            Payload::CodeSectionStart { count, offset } => if self.order_reason(Order::Code)
                is Some {
                Err(BinaryReaderError { reason: self.order_reason(Order::Code)->0, offset })
            } else if count != self.defined_functions() {
                Err(BinaryReaderError { reason: Reason::InconsistentCodeCount, offset })
            } else {
                Ok(
                    (
                        ValidatorView {
                            order: Order::Code,
                            module: ModuleView { snapshot: Some(self.types), ..self.module },
                            frozen: true,
                            code_bodies_left: Some(count),
                            ..self
                        },
                        Event::Absorbed,
                    ),
                )
            },
            Payload::CodeSectionEntry { body, offset } => if self.body_reason() is Some {
                Err(BinaryReaderError { reason: self.body_reason()->0, offset })
            } else {
                Ok(
                    (
                        ValidatorView {
                            code_bodies_left: Some((self.code_bodies_left->0 - 1) as u32),
                            ..self
                        },
                        Event::Func {
                            index: self.next_body() as u32,
                            ty: self.module.functions[self.next_body()],
                        },
                    ),
                )
            },
            Payload::DataSection { offset, data } => match self.section(
                Order::Data,
                offset,
                self.data_limit(data@.len()),
                data_step(),
                data@,
            ) {
                Err(e) => Err(e),
                Ok(v) => Ok(
                    (ValidatorView { data_seen: Some(data@.len()), ..v }, Event::Absorbed),
                ),
            },
            Payload::CustomSection { offset } => if self.state_reason() is Some {
                Err(BinaryReaderError { reason: self.state_reason()->0, offset })
            } else {
                Ok((self, Event::Absorbed))
            },
            Payload::End { offset } => if self.end_reason() is Some {
                Err(BinaryReaderError { reason: self.end_reason()->0, offset })
            } else {
                Ok((ValidatorView { state: State::End, ..self }, Event::Finished))
            },
        }
    }
}

impl ValidatorView {
    /// The validator after a sequence of payloads, or the first failure.
    pub open spec fn run(self, payloads: Seq<Payload>) -> Result<ValidatorView, BinaryReaderError>
        decreases payloads.len(),
    {
        if payloads.len() == 0 {
            Ok(self)
        } else {
            match self.step(&payloads[0]) {
                Err(e) => Err(e),
                Ok((next, _)) => next.run(payloads.drop_first()),
            }
        }
    }
}

/// Whether the payloads are those of a module that is accepted under the
/// proposals `features`: none of them fails, and the last of them ends the
/// module.
pub open spec fn validates(features: WasmFeatures, payloads: Seq<Payload>) -> bool {
    match ValidatorView::initial(features).run(payloads) {
        Ok(v) => v.state == State::End,
        Err(_) => false,
    }
}

/// A section that was taken in asks nothing of the caller.
pub open spec fn absorbed(res: Result<ValidatorView, BinaryReaderError>) -> Result<
    (ValidatorView, Event),
    BinaryReaderError,
> {
    match res {
        Ok(v) => Ok((v, Event::Absorbed)),
        Err(e) => Err(e),
    }
}

} // verus!

verus! {

/// The outcome of the entries from position `i` on is that of the entry at
/// `i` followed by the entries after it.
pub proof fn lemma_fold_next<T>(
    step: spec_fn(Spaces, T) -> Result<Spaces, BinaryReaderError>,
    s: Spaces,
    items: Seq<T>,
    i: int,
)
    requires
        0 <= i < items.len(),
    ensures
        fold_entries(step, s, items.skip(i)) == match step(s, items[i]) {
            Err(e) => Err::<Spaces, BinaryReaderError>(e),
            Ok(next) => fold_entries(step, next, items.skip(i + 1)),
        },
{
    assert(items.skip(i)[0] == items[i]);
    assert(items.skip(i).drop_first() =~= items.skip(i + 1));
}

/// After the last entry nothing changes.
pub proof fn lemma_fold_done<T>(
    step: spec_fn(Spaces, T) -> Result<Spaces, BinaryReaderError>,
    s: Spaces,
    items: Seq<T>,
)
    ensures
        fold_entries(step, s, items.skip(items.len() as int)) == Ok::<Spaces, BinaryReaderError>(s),
        items.skip(0) == items,
{
    assert(items.skip(items.len() as int).len() == 0);
    assert(items.skip(0) =~= items);
}

} // verus!
