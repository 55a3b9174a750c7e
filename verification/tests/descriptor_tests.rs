use dx12_hal::descriptor::{
    CpuPool, DescriptorHeapHandle, DescriptorKind, GeneralHeap, HeapError,
};

fn small_pool(capacity: u32) -> CpuPool {
    CpuPool::new(
        DescriptorKind::RenderTarget,
        DescriptorHeapHandle(5),
        0x1000,
        32,
        capacity,
    )
}

#[test]
fn slots_are_handed_out_from_the_frontier() {
    let mut pool = small_pool(2);
    let first = pool.allocate().unwrap();
    let second = pool.allocate().unwrap();
    assert_eq!(first.index, 0);
    assert_eq!(first.ptr, 0x1000);
    assert_eq!(second.index, 1);
    assert_eq!(second.ptr, 0x1000 + 32);
}

#[test]
fn exhaustion_is_recoverable() {
    let mut pool = small_pool(2);
    let first = pool.allocate().unwrap();
    let _second = pool.allocate().unwrap();
    assert_eq!(pool.allocate(), Err(HeapError::Exhausted));

    // Freeing makes the slot available again: the failure was not
    // fatal, the caller retried after releasing.
    pool.free(first);
    let recycled = pool.allocate().unwrap();
    assert_eq!(recycled.index, 0);
    assert_eq!(recycled.ptr, 0x1000);
}

#[test]
fn freed_slots_recycle_before_the_frontier_moves() {
    let mut pool = small_pool(8);
    let a = pool.allocate().unwrap();
    let _b = pool.allocate().unwrap();
    pool.free(a);
    // The freed slot comes back before slot 2 is touched.
    assert_eq!(pool.allocate().unwrap().index, 0);
    assert_eq!(pool.allocate().unwrap().index, 2);
}

#[test]
fn general_heap_addresses_both_sides_of_a_slot() {
    let heap = GeneralHeap::new(
        DescriptorHeapHandle(7),
        DescriptorKind::ShaderResource,
        64,
        1000,
        0x10_0000,
        0x90_0000,
    );
    let range = heap.at(10, 4);
    assert_eq!(range.cpu, 0x10_0000 + 10 * 64);
    assert_eq!(range.gpu, 0x90_0000 + 10 * 64);
    assert_eq!(range.count, 4);
    assert_eq!(heap.gpu_from_cpu(range.cpu), range.gpu);
}

#[test]
fn general_heap_ranges_are_consecutive_until_exhausted() {
    let mut heap = GeneralHeap::new(
        DescriptorHeapHandle(7),
        DescriptorKind::Sampler,
        32,
        10,
        0x1000,
        0x2000,
    );
    assert_eq!(heap.allocate_range(6), Ok(0));
    assert_eq!(heap.allocate_range(4), Ok(6));
    assert_eq!(heap.allocate_range(1), Err(HeapError::Exhausted));
}
