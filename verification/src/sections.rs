//! The validator at work: taking in the payloads of a module.

use vstd::prelude::*;
use std::sync::Arc;
use crate::error::{BinaryReaderError, IndexSpace, Reason};
use crate::features::{Feature, WasmFeatures};
use crate::limits::{
    MAX_WASM_DATA_SEGMENTS, MAX_WASM_ELEMENT_SEGMENTS, MAX_WASM_EXPORTS, MAX_WASM_FUNCTIONS,
    MAX_WASM_GLOBALS, MAX_WASM_IMPORTS, MAX_WASM_TAGS, MAX_WASM_TYPES, check_max,
};
use crate::maybe_owned::MaybeOwned;
use crate::module::ModuleView;
use crate::payload::{Data, Element, Export, Global, Import, Table};
use crate::resources::{ValidatorResources, share};
use crate::state::ModuleState;
use crate::type_list::{TypeList};
use crate::types::{MemoryType, RecGroup, TagType};
use crate::validator::{
    Event, Located, Order, Payload, Spaces, State, ValidatorView, count_reason, data_step,
    element_step, export_step, fold_entries, function_step, global_step, import_step,
    lemma_fold_done, lemma_fold_next, memory_step, table_step, tag_step, type_step,
};

verus! {

/// A function whose body is to be checked.
#[derive(Debug)]
pub struct FuncToValidate {
    /// The frozen module that the body belongs to.
    pub resources: ValidatorResources,
    /// The index of the function.
    pub index: u32,
    /// The module index of the type of the function.
    pub ty: u32,
    /// The position in the input at which the body of the function begins.
    pub offset: usize,
}

/// What the validator asks its caller to do after a payload.
#[derive(Debug)]
pub enum ValidPayload {
    /// Nothing: the payload was checked and taken in.
    Accepted,
    /// Check the body of a function against the frozen module. This can be
    /// done at any time and in any order.
    Func(FuncToValidate, Vec<u8>),
    /// Nothing: the module is complete. This is its type list.
    End(Arc<TypeList>),
}

impl ValidPayload {
    /// What the caller is asked to do.
    pub open spec fn event(&self) -> Event {
        match *self {
            ValidPayload::Accepted => Event::Absorbed,
            ValidPayload::Func(f, _) => Event::Func { index: f.index, ty: f.ty },
            ValidPayload::End(_) => Event::Finished,
        }
    }
}

/// Whether no index space holds more than it may.
pub open spec fn within_limits(m: ModuleView) -> bool {
    &&& m.types.len() <= MAX_WASM_TYPES
    &&& m.functions.len() <= MAX_WASM_FUNCTIONS
    &&& m.tables.len() <= m.max_tables()
    &&& m.memories.len() <= m.max_memories()
    &&& m.globals.len() <= MAX_WASM_GLOBALS
    &&& m.tags.len() <= MAX_WASM_TAGS
    &&& m.exports.len() <= MAX_WASM_EXPORTS
    &&& m.element_types.len() <= MAX_WASM_ELEMENT_SEGMENTS
}

/// The validator of one module.
pub struct Validator {
    pub state: State,
    /// The last section that was seen.
    pub order: Order,
    /// The types of the module. They are shared once the module is frozen.
    pub types: MaybeOwned<TypeList>,
    pub module: ModuleState,
    /// Inside the code section, the number of bodies that are still to come.
    pub code_bodies_left: Option<u32>,
    /// The number of segments in the data section, once it was seen.
    pub data_seen: Option<usize>,
}

impl View for Validator {
    type V = ValidatorView;

    open spec fn view(&self) -> ValidatorView {
        ValidatorView {
            state: self.state,
            order: self.order,
            module: self.module.module_view(),
            types: self.types.value()@,
            frozen: !self.module.module.is_owned(),
            code_bodies_left: self.code_bodies_left,
            data_seen: match self.data_seen {
                Some(n) => Some(n as nat),
                None => None,
            },
        }
    }
}

impl Validator {
    /// What holds of a validator between payloads: the type list and the
    /// module are in order, every index in the module is in range, no index
    /// space holds more than it may, and the module is frozen exactly from
    /// the start of the code section on.
    pub open spec fn inv(&self) -> bool {
        &&& self.types.wf()
        &&& self.types.value().wf()
        &&& self.module.module.wf()
        &&& self@.module.wf(self@.types.types)
        &&& within_limits(self@.module)
        &&& (self.state != State::End && self.order.spec_rank() < Order::Code.spec_rank()
            ==> self.module.module.is_owned() && self.types.is_owned())
        &&& (self@.frozen ==> self@.module.snapshot == Some(self@.types))
        &&& (self.order.spec_rank() >= Order::Code.spec_rank() ==> self.state != State::Unparsed)
        &&& match self.code_bodies_left {
            Some(n) => self@.frozen && self.module.next_code_index() + n
                == self@.module.functions.len(),
            None => self.module.code_section_index is None,
        }
    }

    /// The index spaces and the type list.
    pub open spec fn spaces(&self) -> Spaces {
        Spaces { module: self@.module, types: self@.types }
    }

    /// Whether the validator is as `old` was but for the index spaces, the
    /// type list and the last section, which is `order`.
    pub open spec fn same_but_spaces(&self, old: &Validator, order: Order) -> bool {
        &&& self.state == State::Module
        &&& old.state == State::Module
        &&& self.order == order
        &&& self.code_bodies_left == old.code_bodies_left
        &&& self.data_seen == old.data_seen
        &&& self.module.module.is_owned() == old.module.module.is_owned()
        &&& self.module.code_section_index == old.module.code_section_index
    }

    /// A validator for a module under the proposals `features`.
    pub fn new(features: WasmFeatures) -> (v: Validator)
        ensures
            v.inv(),
            v@ == ValidatorView::initial(features),
    {
        let v = Validator {
            state: State::Unparsed,
            order: Order::Initial,
            types: MaybeOwned::new(TypeList::new()),
            module: ModuleState::new(features),
            code_bodies_left: None,
            data_seen: None,
        };
        assert(v@.types.types =~= Seq::empty());
        assert(v@.types.starts =~= Seq::empty());
        assert(v@.module.wf(v@.types.types));
        v
    }

    /// Moves on to the section with the place `order`.
    fn update_order(&mut self, order: Order, offset: usize) -> (res: Result<(), BinaryReaderError>)
        ensures
            res == crate::module::verdict(old(self)@.order_reason(order), offset),
            final(self).order == if res is Ok {
                order
            } else {
                old(self).order
            },
            final(self).state == old(self).state,
            final(self).types == old(self).types,
            final(self).module == old(self).module,
            final(self).code_bodies_left == old(self).code_bodies_left,
            final(self).data_seen == old(self).data_seen,
    {
        match self.state {
            State::Unparsed => {
                return Err(BinaryReaderError::new(Reason::MissingHeader, offset));
            },
            State::End => {
                return Err(BinaryReaderError::new(Reason::AfterEnd, offset));
            },
            State::Module => {},
        }
        if self.order == order {
            return Err(BinaryReaderError::new(Reason::DuplicateSection, offset));
        }
        if self.order.rank() > order.rank() {
            return Err(BinaryReaderError::new(Reason::SectionOutOfOrder, offset));
        }
        self.order = order;
        Ok(())
    }

    fn type_section(&mut self, offset: usize, groups: Vec<Located<RecGroup>>) -> (res: Result<
        (),
        BinaryReaderError,
    >)
        requires
            old(self).inv(),
        ensures
            final(self).inv(),
            match old(self)@.section(
                Order::Type,
                offset,
                count_reason(
                    old(self)@.module.types.len(),
                    groups@.len(),
                    MAX_WASM_TYPES,
                    IndexSpace::Types,
                ),
                type_step(),
                groups@,
            ) {
                Ok(v) => res is Ok && final(self)@ == v,
                Err(e) => res == Err::<(), BinaryReaderError>(e),
            },
    {
        self.update_order(Order::Type, offset)?;
        check_max(
            self.module.module.get().types.len(),
            groups.len(),
            MAX_WASM_TYPES,
            IndexSpace::Types,
            offset,
        )?;
        let ghost start = self.spaces();
        let ghost items = groups@;
        proof {
            lemma_fold_done(type_step(), start, items);
        }
        for entry in it: groups.into_iter()
            invariant
                it.seq() == items,
                self.inv(),
                self.same_but_spaces(old(self), Order::Type),
                old(self)@.section(
                    Order::Type,
                    offset,
                    count_reason(
                        old(self)@.module.types.len(),
                        groups@.len(),
                        MAX_WASM_TYPES,
                        IndexSpace::Types,
                    ),
                    type_step(),
                    groups@,
                ) == old(self)@.after_entries(
                    Order::Type,
                    fold_entries(type_step(), start, items),
                ),
                self.module.module.is_owned(),
                self.types.is_owned(),
                fold_entries(type_step(), start, items) == fold_entries(
                    type_step(),
                    self.spaces(),
                    items.skip(it.index() as int),
                ),
        {
            proof {
                lemma_fold_next(type_step(), self.spaces(), items, it.index() as int);
            }
            self.module.module.assert_mut().add_types(
                entry.item,
                self.types.assert_mut(),
                entry.offset,
                true,
            )?;
        }
        proof {
            lemma_fold_done(type_step(), self.spaces(), items);
        }
        Ok(())
    }

    fn import_section(&mut self, offset: usize, imports: Vec<Located<Import>>) -> (res: Result<
        (),
        BinaryReaderError,
    >)
        requires
            old(self).inv(),
        ensures
            final(self).inv(),
            match old(self)@.section(
                Order::Import,
                offset,
                count_reason(
                    old(self)@.module.imports.len(),
                    imports@.len(),
                    MAX_WASM_IMPORTS,
                    IndexSpace::Imports,
                ),
                import_step(),
                imports@,
            ) {
                Ok(v) => res is Ok && final(self)@ == v,
                Err(e) => res == Err::<(), BinaryReaderError>(e),
            },
    {
        self.update_order(Order::Import, offset)?;
        check_max(
            self.module.module.get().imports.len(),
            imports.len(),
            MAX_WASM_IMPORTS,
            IndexSpace::Imports,
            offset,
        )?;
        let ghost start = self.spaces();
        let ghost items = imports@;
        proof {
            lemma_fold_done(import_step(), start, items);
        }
        for entry in it: imports.into_iter()
            invariant
                it.seq() == items,
                self.inv(),
                self.same_but_spaces(old(self), Order::Import),
                old(self)@.section(
                    Order::Import,
                    offset,
                    count_reason(
                        old(self)@.module.imports.len(),
                        imports@.len(),
                        MAX_WASM_IMPORTS,
                        IndexSpace::Imports,
                    ),
                    import_step(),
                    imports@,
                ) == old(self)@.after_entries(
                    Order::Import,
                    fold_entries(import_step(), start, items),
                ),
                self.module.module.is_owned(),
                fold_entries(import_step(), start, items) == fold_entries(
                    import_step(),
                    self.spaces(),
                    items.skip(it.index() as int),
                ),
        {
            proof {
                lemma_fold_next(import_step(), self.spaces(), items, it.index() as int);
            }
            self.module.module.assert_mut().add_import(
                entry.item,
                self.types.get(),
                entry.offset,
            )?;
        }
        proof {
            lemma_fold_done(import_step(), self.spaces(), items);
        }
        Ok(())
    }

    fn function_section(&mut self, offset: usize, functions: Vec<Located<u32>>) -> (res: Result<
        (),
        BinaryReaderError,
    >)
        requires
            old(self).inv(),
        ensures
            final(self).inv(),
            match old(self)@.section(
                Order::Function,
                offset,
                count_reason(
                    old(self)@.module.functions.len(),
                    functions@.len(),
                    MAX_WASM_FUNCTIONS,
                    IndexSpace::Functions,
                ),
                function_step(),
                functions@,
            ) {
                Ok(v) => res is Ok && final(self)@ == v,
                Err(e) => res == Err::<(), BinaryReaderError>(e),
            },
    {
        self.update_order(Order::Function, offset)?;
        check_max(
            self.module.module.get().functions.len(),
            functions.len(),
            MAX_WASM_FUNCTIONS,
            IndexSpace::Functions,
            offset,
        )?;
        let ghost start = self.spaces();
        let ghost items = functions@;
        proof {
            lemma_fold_done(function_step(), start, items);
        }
        for entry in it: functions.into_iter()
            invariant
                it.seq() == items,
                self.inv(),
                self.same_but_spaces(old(self), Order::Function),
                old(self)@.section(
                    Order::Function,
                    offset,
                    count_reason(
                        old(self)@.module.functions.len(),
                        functions@.len(),
                        MAX_WASM_FUNCTIONS,
                        IndexSpace::Functions,
                    ),
                    function_step(),
                    functions@,
                ) == old(self)@.after_entries(
                    Order::Function,
                    fold_entries(function_step(), start, items),
                ),
                self.module.module.is_owned(),
                self@.module.functions.len() == start.module.functions.len() + it.index(),
                start.module.functions.len() + items.len() <= MAX_WASM_FUNCTIONS,
                fold_entries(function_step(), start, items) == fold_entries(
                    function_step(),
                    self.spaces(),
                    items.skip(it.index() as int),
                ),
        {
            proof {
                lemma_fold_next(function_step(), self.spaces(), items, it.index() as int);
            }
            self.module.module.assert_mut().add_function(
                entry.item,
                self.types.get(),
                entry.offset,
            )?;
        }
        proof {
            lemma_fold_done(function_step(), self.spaces(), items);
        }
        Ok(())
    }

    fn table_section(&mut self, offset: usize, tables: Vec<Located<Table>>) -> (res: Result<
        (),
        BinaryReaderError,
    >)
        requires
            old(self).inv(),
        ensures
            final(self).inv(),
            match old(self)@.section(
                Order::Table,
                offset,
                count_reason(
                    old(self)@.module.tables.len(),
                    tables@.len(),
                    old(self)@.module.max_tables(),
                    IndexSpace::Tables,
                ),
                table_step(),
                tables@,
            ) {
                Ok(v) => res is Ok && final(self)@ == v,
                Err(e) => res == Err::<(), BinaryReaderError>(e),
            },
    {
        self.update_order(Order::Table, offset)?;
        let max: usize = self.module.module.get().max_tables();
        check_max(
            self.module.module.get().tables.len(),
            tables.len(),
            max,
            IndexSpace::Tables,
            offset,
        )?;
        let ghost start = self.spaces();
        let ghost items = tables@;
        proof {
            lemma_fold_done(table_step(), start, items);
        }
        for entry in it: tables.into_iter()
            invariant
                it.seq() == items,
                self.inv(),
                self.same_but_spaces(old(self), Order::Table),
                old(self)@.section(
                    Order::Table,
                    offset,
                    count_reason(
                    old(self)@.module.tables.len(),
                    items.len(),
                    old(self)@.module.max_tables(),
                    IndexSpace::Tables,
                ),
                    table_step(),
                    items,
                ) == old(self)@.after_entries(
                    Order::Table,
                    fold_entries(table_step(), start, items),
                ),
                self.module.module.is_owned(),
                self@.module.features == start.module.features,
                self@.module.tables.len() == start.module.tables.len() + it.index(),
                start.module.tables.len() + items.len() <= start.module.max_tables(),
                fold_entries(table_step(), start, items) == fold_entries(
                    table_step(),
                    self.spaces(),
                    items.skip(it.index() as int),
                ),
        {
            proof {
                lemma_fold_next(table_step(), self.spaces(), items, it.index() as int);
            }
            self.module.add_table(entry.item, self.types.get(), entry.offset)?;
        }
        proof {
            lemma_fold_done(table_step(), self.spaces(), items);
        }
        Ok(())
    }

    fn memory_section(&mut self, offset: usize, memories: Vec<Located<MemoryType>>) -> (res: Result<
        (),
        BinaryReaderError,
    >)
        requires
            old(self).inv(),
        ensures
            final(self).inv(),
            match old(self)@.section(
                Order::Memory,
                offset,
                count_reason(
                    old(self)@.module.memories.len(),
                    memories@.len(),
                    old(self)@.module.max_memories(),
                    IndexSpace::Memories,
                ),
                memory_step(),
                memories@,
            ) {
                Ok(v) => res is Ok && final(self)@ == v,
                Err(e) => res == Err::<(), BinaryReaderError>(e),
            },
    {
        self.update_order(Order::Memory, offset)?;
        let max: usize = self.module.module.get().max_memories();
        check_max(
            self.module.module.get().memories.len(),
            memories.len(),
            max,
            IndexSpace::Memories,
            offset,
        )?;
        let ghost start = self.spaces();
        let ghost items = memories@;
        proof {
            lemma_fold_done(memory_step(), start, items);
        }
        for entry in it: memories.into_iter()
            invariant
                it.seq() == items,
                self.inv(),
                self.same_but_spaces(old(self), Order::Memory),
                old(self)@.section(
                    Order::Memory,
                    offset,
                    count_reason(
                    old(self)@.module.memories.len(),
                    items.len(),
                    old(self)@.module.max_memories(),
                    IndexSpace::Memories,
                ),
                    memory_step(),
                    items,
                ) == old(self)@.after_entries(
                    Order::Memory,
                    fold_entries(memory_step(), start, items),
                ),
                self.module.module.is_owned(),
                self@.module.features == start.module.features,
                self@.module.memories.len() == start.module.memories.len() + it.index(),
                start.module.memories.len() + items.len() <= start.module.max_memories(),
                fold_entries(memory_step(), start, items) == fold_entries(
                    memory_step(),
                    self.spaces(),
                    items.skip(it.index() as int),
                ),
        {
            proof {
                lemma_fold_next(memory_step(), self.spaces(), items, it.index() as int);
            }
            self.module.module.assert_mut().add_memory(entry.item, entry.offset)?;
        }
        proof {
            lemma_fold_done(memory_step(), self.spaces(), items);
        }
        Ok(())
    }

    fn tag_section(&mut self, offset: usize, tags: Vec<Located<TagType>>) -> (res: Result<
        (),
        BinaryReaderError,
    >)
        requires
            old(self).inv(),
        ensures
            final(self).inv(),
            match old(self)@.section(
                Order::Tag,
                offset,
                if !old(self)@.module.features.has(Feature::Exceptions) {
                    Some(Reason::Disabled(Feature::Exceptions))
                } else {
                    count_reason(
                        old(self)@.module.tags.len(),
                        tags@.len(),
                        MAX_WASM_TAGS,
                        IndexSpace::Tags,
                    )
                },
                tag_step(),
                tags@,
            ) {
                Ok(v) => res is Ok && final(self)@ == v,
                Err(e) => res == Err::<(), BinaryReaderError>(e),
            },
    {
        self.update_order(Order::Tag, offset)?;
        if !self.module.module.get().features.exceptions() {
            return Err(BinaryReaderError::new(Reason::Disabled(Feature::Exceptions), offset));
        }
        check_max(
            self.module.module.get().tags.len(),
            tags.len(),
            MAX_WASM_TAGS,
            IndexSpace::Tags,
            offset,
        )?;
        let ghost start = self.spaces();
        let ghost items = tags@;
        proof {
            lemma_fold_done(tag_step(), start, items);
        }
        for entry in it: tags.into_iter()
            invariant
                it.seq() == items,
                self.inv(),
                self.same_but_spaces(old(self), Order::Tag),
                old(self)@.section(
                    Order::Tag,
                    offset,
                    if !old(self)@.module.features.has(Feature::Exceptions) {
                    Some(Reason::Disabled(Feature::Exceptions))
                } else {
                    count_reason(
                        old(self)@.module.tags.len(),
                        items.len(),
                        MAX_WASM_TAGS,
                        IndexSpace::Tags,
                    )
                },
                    tag_step(),
                    items,
                ) == old(self)@.after_entries(
                    Order::Tag,
                    fold_entries(tag_step(), start, items),
                ),
                self.module.module.is_owned(),
                self@.module.features == start.module.features,
                self@.module.tags.len() == start.module.tags.len() + it.index(),
                start.module.tags.len() + items.len() <= MAX_WASM_TAGS,
                fold_entries(tag_step(), start, items) == fold_entries(
                    tag_step(),
                    self.spaces(),
                    items.skip(it.index() as int),
                ),
        {
            proof {
                lemma_fold_next(tag_step(), self.spaces(), items, it.index() as int);
            }
            self.module.module.assert_mut().add_tag(
                entry.item,
                self.types.get(),
                entry.offset,
            )?;
        }
        proof {
            lemma_fold_done(tag_step(), self.spaces(), items);
        }
        Ok(())
    }

    fn global_section(&mut self, offset: usize, globals: Vec<Located<Global>>) -> (res: Result<
        (),
        BinaryReaderError,
    >)
        requires
            old(self).inv(),
        ensures
            final(self).inv(),
            match old(self)@.section(
                Order::Global,
                offset,
                count_reason(
                    old(self)@.module.globals.len(),
                    globals@.len(),
                    MAX_WASM_GLOBALS,
                    IndexSpace::Globals,
                ),
                global_step(),
                globals@,
            ) {
                Ok(v) => res is Ok && final(self)@ == v,
                Err(e) => res == Err::<(), BinaryReaderError>(e),
            },
    {
        self.update_order(Order::Global, offset)?;
        let max: usize = MAX_WASM_GLOBALS;
        check_max(
            self.module.module.get().globals.len(),
            globals.len(),
            max,
            IndexSpace::Globals,
            offset,
        )?;
        let ghost start = self.spaces();
        let ghost items = globals@;
        proof {
            lemma_fold_done(global_step(), start, items);
        }
        for entry in it: globals.into_iter()
            invariant
                it.seq() == items,
                self.inv(),
                self.same_but_spaces(old(self), Order::Global),
                old(self)@.section(
                    Order::Global,
                    offset,
                    count_reason(
                    old(self)@.module.globals.len(),
                    items.len(),
                    MAX_WASM_GLOBALS,
                    IndexSpace::Globals,
                ),
                    global_step(),
                    items,
                ) == old(self)@.after_entries(
                    Order::Global,
                    fold_entries(global_step(), start, items),
                ),
                self.module.module.is_owned(),
                self@.module.features == start.module.features,
                self@.module.globals.len() == start.module.globals.len() + it.index(),
                start.module.globals.len() + items.len() <= MAX_WASM_GLOBALS,
                fold_entries(global_step(), start, items) == fold_entries(
                    global_step(),
                    self.spaces(),
                    items.skip(it.index() as int),
                ),
        {
            proof {
                lemma_fold_next(global_step(), self.spaces(), items, it.index() as int);
            }
            self.module.add_global(entry.item, self.types.get(), entry.offset)?;
        }
        proof {
            lemma_fold_done(global_step(), self.spaces(), items);
        }
        Ok(())
    }

    fn export_section(&mut self, offset: usize, exports: Vec<Located<Export>>) -> (res: Result<
        (),
        BinaryReaderError,
    >)
        requires
            old(self).inv(),
        ensures
            final(self).inv(),
            match old(self)@.section(
                Order::Export,
                offset,
                count_reason(
                    old(self)@.module.exports.len(),
                    exports@.len(),
                    MAX_WASM_EXPORTS,
                    IndexSpace::Exports,
                ),
                export_step(),
                exports@,
            ) {
                Ok(v) => res is Ok && final(self)@ == v,
                Err(e) => res == Err::<(), BinaryReaderError>(e),
            },
    {
        self.update_order(Order::Export, offset)?;
        let max: usize = MAX_WASM_EXPORTS;
        check_max(
            self.module.module.get().exports.len(),
            exports.len(),
            max,
            IndexSpace::Exports,
            offset,
        )?;
        let ghost start = self.spaces();
        let ghost items = exports@;
        proof {
            lemma_fold_done(export_step(), start, items);
        }
        for entry in it: exports.into_iter()
            invariant
                it.seq() == items,
                self.inv(),
                self.same_but_spaces(old(self), Order::Export),
                old(self)@.section(
                    Order::Export,
                    offset,
                    count_reason(
                    old(self)@.module.exports.len(),
                    items.len(),
                    MAX_WASM_EXPORTS,
                    IndexSpace::Exports,
                ),
                    export_step(),
                    items,
                ) == old(self)@.after_entries(
                    Order::Export,
                    fold_entries(export_step(), start, items),
                ),
                self.module.module.is_owned(),
                self@.module.features == start.module.features,
                self@.module.exports.len() == start.module.exports.len() + it.index(),
                start.module.exports.len() + items.len() <= MAX_WASM_EXPORTS,
                fold_entries(export_step(), start, items) == fold_entries(
                    export_step(),
                    self.spaces(),
                    items.skip(it.index() as int),
                ),
        {
            proof {
                lemma_fold_next(export_step(), self.spaces(), items, it.index() as int);
            }
            let module = self.module.module.assert_mut();
            let ty = module.export_to_entity_type(&entry.item, entry.offset)?;
            module.add_export(
                entry.item.name.as_str(),
                ty,
                entry.offset,
                false,
                self.types.get(),
            )?;
        }
        proof {
            lemma_fold_done(export_step(), self.spaces(), items);
        }
        Ok(())
    }

    fn element_section(&mut self, offset: usize, elements: Vec<Located<Element>>) -> (res: Result<
        (),
        BinaryReaderError,
    >)
        requires
            old(self).inv(),
        ensures
            final(self).inv(),
            match old(self)@.section(
                Order::Element,
                offset,
                count_reason(
                    old(self)@.module.element_types.len(),
                    elements@.len(),
                    MAX_WASM_ELEMENT_SEGMENTS,
                    IndexSpace::ElementSegments,
                ),
                element_step(),
                elements@,
            ) {
                Ok(v) => res is Ok && final(self)@ == v,
                Err(e) => res == Err::<(), BinaryReaderError>(e),
            },
    {
        self.update_order(Order::Element, offset)?;
        let max: usize = MAX_WASM_ELEMENT_SEGMENTS;
        check_max(
            self.module.module.get().element_types.len(),
            elements.len(),
            max,
            IndexSpace::ElementSegments,
            offset,
        )?;
        let ghost start = self.spaces();
        let ghost items = elements@;
        proof {
            lemma_fold_done(element_step(), start, items);
        }
        for entry in it: elements.into_iter()
            invariant
                it.seq() == items,
                self.inv(),
                self.same_but_spaces(old(self), Order::Element),
                old(self)@.section(
                    Order::Element,
                    offset,
                    count_reason(
                    old(self)@.module.element_types.len(),
                    items.len(),
                    MAX_WASM_ELEMENT_SEGMENTS,
                    IndexSpace::ElementSegments,
                ),
                    element_step(),
                    items,
                ) == old(self)@.after_entries(
                    Order::Element,
                    fold_entries(element_step(), start, items),
                ),
                self.module.module.is_owned(),
                self@.module.features == start.module.features,
                self@.module.element_types.len() == start.module.element_types.len() + it.index(),
                start.module.element_types.len() + items.len() <= MAX_WASM_ELEMENT_SEGMENTS,
                fold_entries(element_step(), start, items) == fold_entries(
                    element_step(),
                    self.spaces(),
                    items.skip(it.index() as int),
                ),
        {
            proof {
                lemma_fold_next(element_step(), self.spaces(), items, it.index() as int);
            }
            self.module.add_element_segment(entry.item, self.types.get(), entry.offset)?;
        }
        proof {
            lemma_fold_done(element_step(), self.spaces(), items);
        }
        Ok(())
    }

    fn data_section(&mut self, offset: usize, data: Vec<Located<Data>>) -> (res: Result<
        (),
        BinaryReaderError,
    >)
        requires
            old(self).inv(),
        ensures
            final(self).inv(),
            match old(self)@.section(
                Order::Data,
                offset,
                old(self)@.data_limit(data@.len()),
                data_step(),
                data@,
            ) {
                Ok(v) => res is Ok && final(self)@ == (ValidatorView {
                    data_seen: Some(data@.len()),
                    ..v
                }),
                Err(e) => res == Err::<(), BinaryReaderError>(e),
            },
    {
        self.update_order(Order::Data, offset)?;
        let count: usize = data.len();
        if let Some(announced) = self.module.module.get().data_count {
            if announced as usize != count {
                return Err(BinaryReaderError::new(Reason::InconsistentDataCount, offset));
            }
        }
        check_max(0, count, MAX_WASM_DATA_SEGMENTS, IndexSpace::DataSegments, offset)?;
        let ghost start = self.spaces();
        let ghost items = data@;
        proof {
            lemma_fold_done(data_step(), start, items);
        }
        for entry in it: data.into_iter()
            invariant
                it.seq() == items,
                count == items.len(),
                self.inv(),
                self.same_but_spaces(old(self), Order::Data),
                old(self)@.section(
                    Order::Data,
                    offset,
                    old(self)@.data_limit(items.len()),
                    data_step(),
                    items,
                ) == old(self)@.after_entries(
                    Order::Data,
                    fold_entries(data_step(), start, items),
                ),
                fold_entries(data_step(), start, items) == fold_entries(
                    data_step(),
                    self.spaces(),
                    items.skip(it.index() as int),
                ),
        {
            proof {
                lemma_fold_next(data_step(), self.spaces(), items, it.index() as int);
            }
            self.module.add_data_segment(entry.item, self.types.get(), entry.offset)?;
        }
        proof {
            lemma_fold_done(data_step(), self.spaces(), items);
        }
        self.data_seen = Some(count);
        Ok(())
    }

    fn start_section(&mut self, func: u32, offset: usize) -> (res: Result<(), BinaryReaderError>)
        requires
            old(self).inv(),
        ensures
            final(self).inv(),
            match old(self)@.step(&Payload::StartSection { func, offset }) {
                Ok((v, _)) => res is Ok && final(self)@ == v,
                Err(e) => res == Err::<(), BinaryReaderError>(e),
            },
    {
        reveal(ValidatorView::step);
        self.update_order(Order::Start, offset)?;
        let ty = self.module.module.get().get_func_type(func, self.types.get(), offset)?;
        if ty.params.len() != 0 || ty.results.len() != 0 {
            return Err(BinaryReaderError::new(Reason::InvalidStartFunction, offset));
        }
        Ok(())
    }

    fn data_count_section(&mut self, count: u32, offset: usize) -> (res: Result<
        (),
        BinaryReaderError,
    >)
        requires
            old(self).inv(),
        ensures
            final(self).inv(),
            match old(self)@.step(&Payload::DataCountSection { count, offset }) {
                Ok((v, _)) => res is Ok && final(self)@ == v,
                Err(e) => res == Err::<(), BinaryReaderError>(e),
            },
    {
        reveal(ValidatorView::step);
        self.update_order(Order::DataCount, offset)?;
        if count as usize > MAX_WASM_DATA_SEGMENTS {
            return Err(BinaryReaderError::new(Reason::TooMany(IndexSpace::DataSegments), offset));
        }
        let module = self.module.module.assert_mut();
        module.data_count = Some(count);
        Ok(())
    }

    /// Begins the code section: the module is frozen, and from now on it is
    /// shared with the checks of the function bodies.
    fn code_section_start(&mut self, count: u32, offset: usize) -> (res: Result<
        (),
        BinaryReaderError,
    >)
        requires
            old(self).inv(),
        ensures
            final(self).inv(),
            match old(self)@.step(&Payload::CodeSectionStart { count, offset }) {
                Ok((v, _)) => res is Ok && final(self)@ == v,
                Err(e) => res == Err::<(), BinaryReaderError>(e),
            },
    {
        reveal(ValidatorView::step);
        self.update_order(Order::Code, offset)?;
        let module = self.module.module.get();
        let defined: usize = module.functions.len() - module.num_imported_functions as usize;
        if count as usize != defined {
            return Err(BinaryReaderError::new(Reason::InconsistentCodeCount, offset));
        }
        let snapshot = share(self.types.arc());
        let module = self.module.module.assert_mut();
        module.snapshot = Some(snapshot);
        self.module.module.make_shared();
        self.code_bodies_left = Some(count);
        Ok(())
    }

    /// Takes a code body and hands out what the check of the body needs.
    fn code_section_entry(&mut self, offset: usize) -> (res: Result<
        FuncToValidate,
        BinaryReaderError,
    >)
        requires
            old(self).inv(),
        ensures
            final(self).inv(),
            match res {
                Ok(f) => old(self)@.body_reason() is None && final(self)@ == (ValidatorView {
                    code_bodies_left: Some((old(self)@.code_bodies_left->0 - 1) as u32),
                    ..old(self)@
                }) && f.offset == offset && f.index == old(self)@.next_body() && f.ty
                    == old(self)@.module.functions[old(self)@.next_body()] && f.resources.wf()
                    && f.resources@ == old(self)@.module,
                Err(e) => Some(e.reason) == old(self)@.body_reason() && e.offset == offset,
            },
    {
        match self.state {
            State::Unparsed => {
                return Err(BinaryReaderError::new(Reason::MissingHeader, offset));
            },
            State::End => {
                return Err(BinaryReaderError::new(Reason::AfterEnd, offset));
            },
            State::Module => {},
        }
        let left: u32 = match self.code_bodies_left {
            Some(n) => n,
            None => 0,
        };
        if self.order != Order::Code || left == 0 {
            return Err(BinaryReaderError::new(Reason::UnexpectedCodeBody, offset));
        }
        let (index, ty) = self.module.next_code_index_and_type();
        self.code_bodies_left = Some(left - 1);
        let resources = ValidatorResources::new(share(self.module.module.arc()));
        Ok(FuncToValidate { resources, index, ty, offset })
    }

    /// Ends the module.
    fn end(&mut self, offset: usize) -> (res: Result<Arc<TypeList>, BinaryReaderError>)
        requires
            old(self).inv(),
        ensures
            final(self).inv(),
            match res {
                Ok(types) => old(self)@.end_reason() is None && final(self)@ == (ValidatorView {
                    state: State::End,
                    ..old(self)@
                }) && (*types)@ == old(self)@.types && types.wf(),
                Err(e) => Some(e.reason) == old(self)@.end_reason() && e.offset == offset,
            },
    {
        match self.state {
            State::Unparsed => {
                return Err(BinaryReaderError::new(Reason::MissingHeader, offset));
            },
            State::End => {
                return Err(BinaryReaderError::new(Reason::AfterEnd, offset));
            },
            State::Module => {},
        }
        let module = self.module.module.get();
        match self.code_bodies_left {
            None => {
                if module.functions.len() > module.num_imported_functions as usize {
                    return Err(BinaryReaderError::new(Reason::InconsistentCodeCount, offset));
                }
            },
            Some(n) => {
                if n > 0 {
                    return Err(BinaryReaderError::new(Reason::InconsistentCodeCount, offset));
                }
            },
        }
        if let Some(announced) = module.data_count {
            let seen: usize = match self.data_seen {
                Some(n) => n,
                None => 0,
            };
            if announced as usize != seen {
                return Err(BinaryReaderError::new(Reason::InconsistentDataCount, offset));
            }
        }
        let types = share(self.types.arc());
        self.state = State::End;
        Ok(types)
    }

    /// Takes the header of the module.
    fn version(&mut self, num: u16, offset: usize) -> (res: Result<(), BinaryReaderError>)
        requires
            old(self).inv(),
        ensures
            final(self).inv(),
            match old(self)@.step(&Payload::Version { num, offset }) {
                Ok((v, _)) => res is Ok && final(self)@ == v,
                Err(e) => res == Err::<(), BinaryReaderError>(e),
            },
    {
        reveal(ValidatorView::step);
        match self.state {
            State::Unparsed => {},
            _ => {
                return Err(BinaryReaderError::new(Reason::HeaderOutOfOrder, offset));
            },
        }
        if num != 1 {
            return Err(BinaryReaderError::new(Reason::UnknownVersion(num), offset));
        }
        self.state = State::Module;
        Ok(())
    }

    /// Checks a payload and takes it in.
    ///
    /// The payloads of a module must come in the order of the input. After a
    /// failure the validator is of no more use.
    pub fn payload(&mut self, payload: Payload) -> (res: Result<ValidPayload, BinaryReaderError>)
        requires
            old(self).inv(),
        ensures
            final(self).inv(),
            match old(self)@.step(&payload) {
                Ok((v, event)) => res is Ok && final(self)@ == v && res->Ok_0.event() == event,
                Err(e) => res is Err && res->Err_0 == e,
            },
            match res {
                Ok(ValidPayload::Func(f, body)) => f.resources.wf() && f.resources@
                    == final(self)@.module && payload is CodeSectionEntry && body@
                    == payload->CodeSectionEntry_body@ && f.offset
                    == payload->CodeSectionEntry_offset,
                Ok(ValidPayload::End(types)) => (*types)@ == final(self)@.types && types.wf(),
                _ => true,
            },
    {
        reveal(ValidatorView::step);
        match payload {
            Payload::Version { num, offset } => {
                self.version(num, offset)?;
                Ok(ValidPayload::Accepted)
            },
            Payload::TypeSection { offset, groups } => {
                self.type_section(offset, groups)?;
                Ok(ValidPayload::Accepted)
            },
            Payload::ImportSection { offset, imports } => {
                self.import_section(offset, imports)?;
                Ok(ValidPayload::Accepted)
            },
            Payload::FunctionSection { offset, functions } => {
                self.function_section(offset, functions)?;
                Ok(ValidPayload::Accepted)
            },
            Payload::TableSection { offset, tables } => {
                self.table_section(offset, tables)?;
                Ok(ValidPayload::Accepted)
            },
            Payload::MemorySection { offset, memories } => {
                self.memory_section(offset, memories)?;
                Ok(ValidPayload::Accepted)
            },
            Payload::TagSection { offset, tags } => {
                self.tag_section(offset, tags)?;
                Ok(ValidPayload::Accepted)
            },
            Payload::GlobalSection { offset, globals } => {
                self.global_section(offset, globals)?;
                Ok(ValidPayload::Accepted)
            },
            Payload::ExportSection { offset, exports } => {
                self.export_section(offset, exports)?;
                Ok(ValidPayload::Accepted)
            },
            Payload::StartSection { func, offset } => {
                self.start_section(func, offset)?;
                Ok(ValidPayload::Accepted)
            },
            Payload::ElementSection { offset, elements } => {
                self.element_section(offset, elements)?;
                Ok(ValidPayload::Accepted)
            },
            Payload::DataCountSection { count, offset } => {
                self.data_count_section(count, offset)?;
                Ok(ValidPayload::Accepted)
            },
            Payload::CodeSectionStart { count, offset } => {
                self.code_section_start(count, offset)?;
                Ok(ValidPayload::Accepted)
            },
            Payload::CodeSectionEntry { body, offset } => {
                let func = self.code_section_entry(offset)?;
                Ok(ValidPayload::Func(func, body))
            },
            Payload::DataSection { offset, data } => {
                self.data_section(offset, data)?;
                Ok(ValidPayload::Accepted)
            },
            Payload::CustomSection { offset } => {
                match self.state {
                    State::Unparsed => Err(BinaryReaderError::new(Reason::MissingHeader, offset)),
                    State::End => Err(BinaryReaderError::new(Reason::AfterEnd, offset)),
                    State::Module => Ok(ValidPayload::Accepted),
                }
            },
            Payload::End { offset } => {
                let types = self.end(offset)?;
                Ok(ValidPayload::End(types))
            },
        }
    }
}

} // verus!
