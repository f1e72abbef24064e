//! The translated module: the declarations of a guest binary, in the form
//! that later stages read.

use crate::signature::{Signature, SignatureView};
use crate::tunables::Tunables;
use cranelift_wasm::{FuncIndex, Global, GlobalIndex, SignatureIndex, Table, TableIndex};
use vstd::hash_map::StringHashMap;
use vstd::prelude::*;

verus! {

/// The number of bytes in a page of linear memory.
pub const WASM_PAGE_SIZE: u32 = 0x10000;

/// A linear memory, as a module declares it.
#[derive(Clone, Copy, Debug, PartialEq, Eq, Hash, Structural)]
pub struct Memory {
    /// The number of pages that the memory starts with.
    pub minimum: u32,
    /// The number of pages that the memory may grow to, if the module bounds it.
    pub maximum: Option<u32>,
    /// Whether threads may share the memory.
    pub shared: bool,
}

/// How the address space of a linear memory is laid out.
#[derive(Clone, Copy, Debug, PartialEq, Eq, Hash, Structural)]
pub enum MemoryStyle {
    /// The memory starts at its declared minimum and may be moved when it
    /// grows, so every access is checked against its current size.
    Dynamic,
    /// `bound` pages are reserved up front and the memory never moves, so an
    /// access below the bound needs no check.
    Static {
        /// The number of pages reserved.
        bound: u32,
    },
}

impl MemoryStyle {
    /// The style of a memory and the size of the guard region behind it.
    ///
    /// A memory is static where the module bounds it, the bound is within the
    /// static reservation, and the memory starts within it. Every other
    /// memory is dynamic.
    pub open spec fn spec_for_memory(memory: Memory, tunables: Tunables) -> (MemoryStyle, u64) {
        if memory.maximum is Some && memory.maximum->0 <= tunables.static_memory_bound
            && memory.minimum <= tunables.static_memory_bound {
            (
                MemoryStyle::Static { bound: tunables.static_memory_bound },
                tunables.static_memory_offset_guard_size,
            )
        } else {
            (MemoryStyle::Dynamic, tunables.dynamic_memory_offset_guard_size)
        }
    }

    /// Decides the style of a memory and the size of its guard region.
    pub fn for_memory(memory: Memory, tunables: &Tunables) -> (decision: (MemoryStyle, u64))
        ensures
            decision == Self::spec_for_memory(memory, *tunables),
    {
        if let Some(maximum) = memory.maximum {
            if maximum <= tunables.static_memory_bound && memory.minimum
                <= tunables.static_memory_bound {
                return (
                    MemoryStyle::Static { bound: tunables.static_memory_bound },
                    tunables.static_memory_offset_guard_size,
                );
            }
        }
        (MemoryStyle::Dynamic, tunables.dynamic_memory_offset_guard_size)
    }
}

/// A linear memory together with the layout chosen for it.
#[derive(Clone, Copy, Debug, PartialEq, Eq, Hash, Structural)]
pub struct MemoryPlan {
    /// The memory, as declared.
    pub memory: Memory,
    /// How its address space is laid out.
    pub style: MemoryStyle,
    /// The size in bytes of the guard region behind it.
    pub offset_guard_size: u64,
}

impl MemoryPlan {
    /// The plan for a memory under the given tunables.
    pub open spec fn spec_for_memory(memory: Memory, tunables: Tunables) -> MemoryPlan {
        let decision = MemoryStyle::spec_for_memory(memory, tunables);
        MemoryPlan { memory, style: decision.0, offset_guard_size: decision.1 }
    }

    /// Draws up the plan for a memory.
    pub fn for_memory(memory: Memory, tunables: &Tunables) -> (plan: MemoryPlan)
        ensures
            plan == Self::spec_for_memory(memory, *tunables),
    {
        let (style, offset_guard_size) = MemoryStyle::for_memory(memory, tunables);
        MemoryPlan { memory, style, offset_guard_size }
    }

    /// The number of pages of address space that the plan sets aside for the
    /// memory itself.
    pub open spec fn reserved_pages(self) -> nat {
        match self.style {
            MemoryStyle::Dynamic => self.memory.minimum as nat,
            MemoryStyle::Static { bound } => bound as nat,
        }
    }

    /// The number of bytes of address space that the plan reserves up front:
    /// the pages of the memory and the guard region behind them.
    pub open spec fn reserved_size(self) -> nat {
        self.reserved_pages() * (WASM_PAGE_SIZE as nat) + self.offset_guard_size as nat
    }

    /// Whether accesses need no check against the current size of the memory.
    pub open spec fn elides_bounds_checks(self) -> bool {
        self.style is Static
    }
}

/// The plan of a memory depends on the memory and the tunables alone, and a
/// memory without a declared maximum is dynamic: what is reserved for it is
/// its minimum and the guard region of dynamic memories.
pub proof fn lemma_plan_of_unbounded_memory(minimum: u32, shared: bool, tunables: Tunables)
    ensures
        ({
            let memory = Memory { minimum, maximum: None, shared };
            let plan = MemoryPlan::spec_for_memory(memory, tunables);
            &&& plan == MemoryPlan {
                memory,
                style: MemoryStyle::Dynamic,
                offset_guard_size: tunables.dynamic_memory_offset_guard_size,
            }
            &&& plan.reserved_size() == minimum * 0x10000
                + tunables.dynamic_memory_offset_guard_size
            &&& !plan.elides_bounds_checks()
        }),
{
}

/// A plan elides bounds checks only where the pages it reserves hold the
/// memory at its minimum and at every size it may grow to.
pub proof fn lemma_static_plan_covers_memory(memory: Memory, tunables: Tunables)
    ensures
        ({
            let plan = MemoryPlan::spec_for_memory(memory, tunables);
            plan.elides_bounds_checks() ==> {
                &&& memory.maximum is Some
                &&& memory.minimum <= plan.reserved_pages()
                &&& memory.maximum->0 <= plan.reserved_pages()
                &&& plan.reserved_pages() == tunables.static_memory_bound
                &&& plan.offset_guard_size == tunables.static_memory_offset_guard_size
            }
        }),
{
}

/// The functions that an element segment puts into a table.
#[derive(Debug)]
pub struct TableElements {
    /// The table to initialize.
    pub table_index: TableIndex,
    /// The global whose value is the base of the segment, if it has one.
    pub base: Option<GlobalIndex>,
    /// The constant offset of the segment.
    pub offset: usize,
    /// The functions to write.
    pub elements: Box<[FuncIndex]>,
}

/// What an element segment holds.
pub struct TableElementsView {
    /// The table to initialize.
    pub table_index: TableIndex,
    /// The global whose value is the base of the segment, if it has one.
    pub base: Option<GlobalIndex>,
    /// The constant offset of the segment.
    pub offset: usize,
    /// The functions to write.
    pub elements: Seq<FuncIndex>,
}

impl View for TableElements {
    type V = TableElementsView;

    open spec fn view(&self) -> TableElementsView {
        TableElementsView {
            table_index: self.table_index,
            base: self.base,
            offset: self.offset,
            elements: self.elements@,
        }
    }
}

/// A translated module.
pub struct Module {
    /// The signatures, each with the context parameter in front.
    pub signatures: Vec<Signature>,
    /// The module and field name of each imported function.
    pub imported_funcs: Vec<(String, String)>,
    /// The signature of each function, the imported ones first.
    pub functions: Vec<SignatureIndex>,
    /// The tables.
    pub tables: Vec<Table>,
    /// The plan of each linear memory.
    pub memory_plans: Vec<MemoryPlan>,
    /// The global variables.
    pub globals: Vec<Global>,
    /// The exported functions by name.
    pub exports: StringHashMap<FuncIndex>,
    /// The element segments.
    pub table_elements: Vec<TableElements>,
}

/// What a module holds.
pub struct ModuleView {
    /// The signatures, by signature index.
    pub signatures: Seq<SignatureView>,
    /// The module and field name of each imported function, by function index.
    pub imported_funcs: Seq<(Seq<char>, Seq<char>)>,
    /// The signature of each function, by function index.
    pub functions: Seq<SignatureIndex>,
    /// The tables, by table index.
    pub tables: Seq<Table>,
    /// The memory plans, by memory index.
    pub memory_plans: Seq<MemoryPlan>,
    /// The globals, by global index.
    pub globals: Seq<Global>,
    /// The exported functions, by name.
    pub exports: Map<Seq<char>, FuncIndex>,
    /// The element segments, in the order of their declaration.
    pub table_elements: Seq<TableElementsView>,
}

impl ModuleView {
    /// The module without any declaration.
    pub open spec fn empty() -> ModuleView {
        ModuleView {
            signatures: Seq::empty(),
            imported_funcs: Seq::empty(),
            functions: Seq::empty(),
            tables: Seq::empty(),
            memory_plans: Seq::empty(),
            globals: Seq::empty(),
            exports: Map::empty(),
            table_elements: Seq::empty(),
        }
    }
}

impl View for Module {
    type V = ModuleView;

    open spec fn view(&self) -> ModuleView {
        ModuleView {
            signatures: Seq::new(self.signatures@.len(), |i: int| self.signatures@[i]@),
            imported_funcs: Seq::new(
                self.imported_funcs@.len(),
                |i: int| (self.imported_funcs@[i].0@, self.imported_funcs@[i].1@),
            ),
            functions: self.functions@,
            tables: self.tables@,
            memory_plans: self.memory_plans@,
            globals: self.globals@,
            exports: self.exports@,
            table_elements: Seq::new(self.table_elements@.len(), |i: int| self.table_elements@[i]@),
        }
    }
}

impl Module {
    /// Creates a module without any declaration.
    pub fn new() -> (module: Module)
        ensures
            module@ == ModuleView::empty(),
    {
        let module = Module {
            signatures: Vec::new(),
            imported_funcs: Vec::new(),
            functions: Vec::new(),
            tables: Vec::new(),
            memory_plans: Vec::new(),
            globals: Vec::new(),
            exports: StringHashMap::new(),
            table_elements: Vec::new(),
        };
        assert(module@.signatures =~= Seq::empty());
        assert(module@.imported_funcs =~= Seq::empty());
        assert(module@.table_elements =~= Seq::empty());
        module
    }
}

} // verus!
