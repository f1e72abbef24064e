use wasmjit_environ::module::{Memory, MemoryPlan, MemoryStyle, WASM_PAGE_SIZE};
use wasmjit_environ::tunables::Tunables;

fn planner_tunables() -> Tunables {
    Tunables {
        static_memory_bound: 0x1_0000,
        static_memory_offset_guard_size: 0x8000_0000,
        dynamic_memory_offset_guard_size: 0x1_0000,
    }
}

#[test]
fn page_size_is_64_kib() {
    assert_eq!(WASM_PAGE_SIZE, 65536);
}

#[test]
fn memory_without_maximum_is_dynamic() {
    let memory = Memory { minimum: 17, maximum: None, shared: false };
    let plan = MemoryPlan::for_memory(memory, &planner_tunables());
    assert_eq!(plan.memory, memory);
    assert_eq!(plan.style, MemoryStyle::Dynamic);
    assert_eq!(plan.offset_guard_size, 0x1_0000);
}

#[test]
fn memory_without_maximum_is_dynamic_for_every_minimum() {
    for minimum in [0u32, 1, 0x1_0000, 0x1_0001, u32::MAX] {
        let memory = Memory { minimum, maximum: None, shared: false };
        let plan = MemoryPlan::for_memory(memory, &planner_tunables());
        assert_eq!(
            plan,
            MemoryPlan { memory, style: MemoryStyle::Dynamic, offset_guard_size: 0x1_0000 }
        );
    }
}

#[test]
fn bounded_memory_within_the_static_bound_is_static() {
    let memory = Memory { minimum: 1, maximum: Some(10), shared: false };
    let plan = MemoryPlan::for_memory(memory, &planner_tunables());
    assert_eq!(plan.memory, memory);
    assert_eq!(plan.style, MemoryStyle::Static { bound: 0x1_0000 });
    assert_eq!(plan.offset_guard_size, 0x8000_0000);
}

#[test]
fn maximum_equal_to_the_static_bound_is_static() {
    let memory = Memory { minimum: 0, maximum: Some(0x1_0000), shared: false };
    let plan = MemoryPlan::for_memory(memory, &planner_tunables());
    assert_eq!(plan.style, MemoryStyle::Static { bound: 0x1_0000 });
    assert_eq!(plan.offset_guard_size, 0x8000_0000);
}

#[test]
fn maximum_above_the_static_bound_is_dynamic() {
    let memory = Memory { minimum: 0, maximum: Some(0x1_0001), shared: false };
    let plan = MemoryPlan::for_memory(memory, &planner_tunables());
    assert_eq!(plan.style, MemoryStyle::Dynamic);
    assert_eq!(plan.offset_guard_size, 0x1_0000);
}

#[test]
fn minimum_above_the_static_bound_is_dynamic() {
    let tunables = Tunables {
        static_memory_bound: 4,
        static_memory_offset_guard_size: 100,
        dynamic_memory_offset_guard_size: 200,
    };
    let memory = Memory { minimum: 5, maximum: Some(3), shared: false };
    let plan = MemoryPlan::for_memory(memory, &tunables);
    assert_eq!(plan.style, MemoryStyle::Dynamic);
    assert_eq!(plan.offset_guard_size, 200);
}

#[test]
fn style_and_guard_size_are_decided_together() {
    let tunables = Tunables {
        static_memory_bound: 4,
        static_memory_offset_guard_size: 100,
        dynamic_memory_offset_guard_size: 200,
    };
    let bounded = Memory { minimum: 1, maximum: Some(4), shared: true };
    assert_eq!(
        MemoryStyle::for_memory(bounded, &tunables),
        (MemoryStyle::Static { bound: 4 }, 100)
    );
    let unbounded = Memory { minimum: 1, maximum: None, shared: true };
    assert_eq!(MemoryStyle::for_memory(unbounded, &tunables), (MemoryStyle::Dynamic, 200));
}

#[test]
fn the_plan_keeps_the_shared_flag() {
    let memory = Memory { minimum: 2, maximum: Some(3), shared: true };
    let plan = MemoryPlan::for_memory(memory, &planner_tunables());
    assert!(plan.memory.shared);
    assert_eq!(plan.memory.minimum, 2);
    assert_eq!(plan.memory.maximum, Some(3));
}

#[test]
fn the_same_memory_gets_the_same_plan() {
    let tunables = planner_tunables();
    let first = Memory { minimum: 3, maximum: None, shared: false };
    let second = Memory { minimum: 1, maximum: Some(2), shared: false };
    let a1 = MemoryPlan::for_memory(first, &tunables);
    let b1 = MemoryPlan::for_memory(second, &tunables);
    let b2 = MemoryPlan::for_memory(second, &tunables);
    let a2 = MemoryPlan::for_memory(first, &tunables);
    assert_eq!(a1, a2);
    assert_eq!(b1, b2);
}
