//! Configuration of the memory planner.

use vstd::prelude::*;

verus! {

/// Tunable parameters that govern how linear memories are laid out.
#[derive(Clone, Copy, Debug, PartialEq, Eq, Structural)]
pub struct Tunables {
    /// For static heaps, the number of wasm pages of address space to reserve.
    pub static_memory_bound: u32,
    /// The size in bytes of the guard region that follows a static heap.
    pub static_memory_offset_guard_size: u64,
    /// The size in bytes of the guard region that follows a dynamic heap.
    pub dynamic_memory_offset_guard_size: u64,
}

} // verus!
