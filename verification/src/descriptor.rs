//! Descriptor-heap slot management.
//!
//! Four CPU-visible pools (render-target, depth-stencil,
//! shader-resource/unordered-access, sampler) hand out fixed-size
//! staging slots through a monotonic frontier with a free list. A pair
//! of GPU-visible "general" heaps (views, samplers) holds the working
//! set actually bound to pipelines; their stable base addresses turn a
//! slot index into matching CPU and GPU descriptor addresses.
//!
//! Exhaustion of a heap is a recoverable condition the caller may retry
//! after releasing bind groups; it is deliberately kept apart from
//! device loss.

use vstd::arithmetic::mul::lemma_mul_inequality;
use vstd::prelude::*;

verus! {

/// A native descriptor heap object.
#[derive(Clone, Copy, Debug, PartialEq, Eq, Structural)]
pub struct DescriptorHeapHandle(pub u64);

/// Kind of descriptor a heap stores.
#[derive(Clone, Copy, Debug, PartialEq, Eq, Structural)]
pub enum DescriptorKind {
    RenderTarget,
    DepthStencil,
    ShaderResource,
    Sampler,
}

/// A descriptor heap ran out of slots. The caller may release unused
/// bind groups and retry; the device is not lost.
#[derive(Clone, Copy, Debug, PartialEq, Eq, Structural)]
pub enum HeapError {
    Exhausted,
}

/// A CPU-visible descriptor slot: a back-reference into the pool that
/// issued it. The pool owns the slot's lifetime.
#[derive(Clone, Copy, Debug, PartialEq, Eq, Structural)]
pub struct Handle {
    /// Index of the slot inside its pool.
    pub index: u32,
    /// CPU descriptor address of the slot.
    pub ptr: u64,
}

/// Matching CPU and GPU descriptor addresses of a range inside a
/// GPU-visible heap.
#[derive(Clone, Copy, Debug, PartialEq, Eq, Structural)]
pub struct DualHandle {
    pub cpu: u64,
    pub gpu: u64,
    /// Number of consecutive descriptors the range covers.
    pub count: u32,
}

/// A CPU-only staging pool of one descriptor kind: slots below `next`
/// have been handed out at least once, and the free list holds those
/// returned since.
pub struct CpuPool {
    pub kind: DescriptorKind,
    pub raw: DescriptorHeapHandle,
    /// CPU address of slot zero.
    pub base_ptr: u64,
    /// Byte stride between consecutive slots.
    pub handle_size: u32,
    /// Total number of slots in the heap.
    pub capacity: u32,
    /// Monotonic frontier: slots at or above it were never handed out.
    pub next: u32,
    /// Slots below `next` currently not handed out.
    pub free_list: Vec<u32>,
}

/// The slots of a pool currently held by callers.
pub open spec fn spec_allocated(p: CpuPool) -> Set<u32> {
    Set::new(|i: u32| i < p.next && !p.free_list@.contains(i))
}

/// Well-formedness of a pool: the frontier stays within capacity, the
/// free list only recycles slots below the frontier and never lists a
/// slot twice, and the address arithmetic cannot wrap.
pub open spec fn spec_pool_wf(p: CpuPool) -> bool {
    &&& p.next <= p.capacity
    &&& forall|j: int| 0 <= j < p.free_list@.len() ==> p.free_list@[j] < p.next
    &&& forall|j: int, k: int|
        0 <= j < k < p.free_list@.len() ==> p.free_list@[j] != p.free_list@[k]
    &&& p.base_ptr + p.capacity * p.handle_size <= u64::MAX
}

impl CpuPool {
    /// A fresh pool over a native heap of `capacity` slots.
    pub fn new(
        kind: DescriptorKind,
        raw: DescriptorHeapHandle,
        base_ptr: u64,
        handle_size: u32,
        capacity: u32,
    ) -> (r: CpuPool)
        requires
            base_ptr + capacity * handle_size <= u64::MAX,
        ensures
            spec_pool_wf(r),
            r.kind == kind,
            r.raw == raw,
            r.base_ptr == base_ptr,
            r.handle_size == handle_size,
            r.capacity == capacity,
            spec_allocated(r) == Set::<u32>::empty(),
    {
        let r = CpuPool { kind, raw, base_ptr, handle_size, capacity, next: 0, free_list: Vec::new() };
        proof {
            assert(spec_allocated(r) =~= Set::<u32>::empty());
        }
        r
    }

    /// Hands out a slot no caller currently holds, recycling freed
    /// slots before advancing the frontier. Fails exactly when every
    /// slot is held.
    pub fn allocate(&mut self) -> (r: Result<Handle, HeapError>)
        requires
            spec_pool_wf(*old(self)),
        ensures
            spec_pool_wf(*final(self)),
            final(self).kind == old(self).kind,
            final(self).raw == old(self).raw,
            final(self).base_ptr == old(self).base_ptr,
            final(self).handle_size == old(self).handle_size,
            final(self).capacity == old(self).capacity,
            r is Err <==> (old(self).free_list@.len() == 0 && old(self).next == old(
                self,
            ).capacity),
            r is Err ==> final(self).next == old(self).next && final(self).free_list@ == old(
                self,
            ).free_list@ && (forall|i: u32|
                i < old(self).capacity ==> spec_allocated(*old(self)).contains(i)),
            r matches Ok(h) ==> {
                &&& h.index < old(self).capacity
                &&& !spec_allocated(*old(self)).contains(h.index)
                &&& spec_allocated(*final(self)) == spec_allocated(*old(self)).insert(h.index)
                &&& h.ptr == old(self).base_ptr + h.index * old(self).handle_size
            },
    {
        proof {
            lemma_mul_inequality(
                self.next as int,
                self.capacity as int,
                self.handle_size as int,
            );
        }
        match self.free_list.pop() {
            Some(index) => {
                proof {
                    lemma_mul_inequality(
                        index as int,
                        self.capacity as int,
                        self.handle_size as int,
                    );
                    assert(spec_allocated(*self) =~= spec_allocated(*old(self)).insert(index)) by {
                        assert(forall|i: u32|
                            old(self).free_list@.contains(i) && i != index
                                ==> #[trigger] self.free_list@.contains(i)) by {
                            assert(forall|j: int|
                                0 <= j < old(self).free_list@.len() - 1 ==> old(
                                    self,
                                ).free_list@[j] == #[trigger] self.free_list@[j]);
                            assert forall|i: u32|
                                old(self).free_list@.contains(i) && i != index
                                implies #[trigger] self.free_list@.contains(i) by {
                                let j = choose|j: int|
                                    0 <= j < old(self).free_list@.len() && old(self).free_list@[j]
                                        == i;
                                assert(j < old(self).free_list@.len() - 1);
                                assert(self.free_list@[j] == i);
                            }
                        }
                    }
                }
                let ptr = self.base_ptr + (index as u64) * (self.handle_size as u64);
                Ok(Handle { index, ptr })
            },
            None => {
                if self.next < self.capacity {
                    let index = self.next;
                    self.next = self.next + 1;
                    proof {
                        assert(spec_allocated(*self) =~= spec_allocated(*old(self)).insert(index));
                    }
                    let ptr = self.base_ptr + (index as u64) * (self.handle_size as u64);
                    Ok(Handle { index, ptr })
                } else {
                    Err(HeapError::Exhausted)
                }
            },
        }
    }

    /// Returns a held slot to the pool.
    pub fn free(&mut self, handle: Handle)
        requires
            spec_pool_wf(*old(self)),
            spec_allocated(*old(self)).contains(handle.index),
        ensures
            spec_pool_wf(*final(self)),
            final(self).kind == old(self).kind,
            final(self).raw == old(self).raw,
            final(self).base_ptr == old(self).base_ptr,
            final(self).handle_size == old(self).handle_size,
            final(self).capacity == old(self).capacity,
            spec_allocated(*final(self)) == spec_allocated(*old(self)).remove(handle.index),
    {
        self.free_list.push(handle.index);
        proof {
            let oldf = old(self).free_list@;
            let newf = self.free_list@;
            assert forall|i: u32| #[trigger] newf.contains(i) implies (oldf.contains(i) || i
                == handle.index) by {
                let j = choose|j: int| 0 <= j < newf.len() && newf[j] == i;
                if j < oldf.len() {
                    assert(oldf[j] == i);
                }
            }
            assert forall|i: u32| oldf.contains(i) implies #[trigger] newf.contains(i) by {
                let j = choose|j: int| 0 <= j < oldf.len() && oldf[j] == i;
                assert(newf[j] == i);
            }
            assert(newf[oldf.len() as int] == handle.index);
            assert(newf.contains(handle.index));
            assert(spec_allocated(*self) =~= spec_allocated(*old(self)).remove(handle.index));
        }
    }
}

/// A GPU-visible heap shared by the whole device: a monotonic range
/// allocator whose stable base addresses convert slot indices to the
/// CPU address descriptors are staged at and the GPU address they are
/// bound with.
pub struct GeneralHeap {
    pub raw: DescriptorHeapHandle,
    pub kind: DescriptorKind,
    /// Byte stride between consecutive slots.
    pub handle_size: u32,
    /// Total number of slots in the heap.
    pub total: u32,
    /// CPU address of slot zero.
    pub start_cpu: u64,
    /// GPU address of slot zero.
    pub start_gpu: u64,
    /// Monotonic frontier of handed-out slots.
    pub next: u32,
}

/// Well-formedness of a general heap: the frontier stays within the
/// heap and neither address computation can wrap.
pub open spec fn spec_general_heap_wf(h: GeneralHeap) -> bool {
    &&& h.next <= h.total
    &&& h.start_cpu + h.total * h.handle_size <= u64::MAX
    &&& h.start_gpu + h.total * h.handle_size <= u64::MAX
}

impl GeneralHeap {
    /// A fresh heap over a native shader-visible heap of `total` slots.
    pub fn new(
        raw: DescriptorHeapHandle,
        kind: DescriptorKind,
        handle_size: u32,
        total: u32,
        start_cpu: u64,
        start_gpu: u64,
    ) -> (r: GeneralHeap)
        requires
            start_cpu + total * handle_size <= u64::MAX,
            start_gpu + total * handle_size <= u64::MAX,
        ensures
            spec_general_heap_wf(r),
            r.raw == raw,
            r.kind == kind,
            r.handle_size == handle_size,
            r.total == total,
            r.start_cpu == start_cpu,
            r.start_gpu == start_gpu,
            r.next == 0,
    {
        GeneralHeap { raw, kind, handle_size, total, start_cpu, start_gpu, next: 0 }
    }

    /// CPU and GPU addresses of a range of `count` slots starting at
    /// `index`.
    pub fn at(&self, index: u32, count: u32) -> (r: DualHandle)
        requires
            spec_general_heap_wf(*self),
            index + count <= self.total,
        ensures
            r.cpu == self.start_cpu + index * self.handle_size,
            r.gpu == self.start_gpu + index * self.handle_size,
            r.count == count,
    {
        proof {
            lemma_mul_inequality(index as int, self.total as int, self.handle_size as int);
        }
        DualHandle {
            cpu: self.start_cpu + (index as u64) * (self.handle_size as u64),
            gpu: self.start_gpu + (index as u64) * (self.handle_size as u64),
            count,
        }
    }

    /// GPU address of the descriptor staged at a CPU address inside
    /// this heap.
    pub fn gpu_from_cpu(&self, cpu: u64) -> (r: u64)
        requires
            spec_general_heap_wf(*self),
            self.start_cpu <= cpu,
            cpu <= self.start_cpu + self.total * self.handle_size,
        ensures
            r == self.start_gpu + (cpu - self.start_cpu),
    {
        self.start_gpu + (cpu - self.start_cpu)
    }

    /// Reserves `count` consecutive slots at the frontier. Fails
    /// exactly when fewer than `count` slots remain.
    pub fn allocate_range(&mut self, count: u32) -> (r: Result<u32, HeapError>)
        requires
            spec_general_heap_wf(*old(self)),
        ensures
            spec_general_heap_wf(*final(self)),
            final(self).raw == old(self).raw,
            final(self).kind == old(self).kind,
            final(self).handle_size == old(self).handle_size,
            final(self).total == old(self).total,
            final(self).start_cpu == old(self).start_cpu,
            final(self).start_gpu == old(self).start_gpu,
            r is Err <==> old(self).next + count > old(self).total,
            r is Err ==> *final(self) == *old(self),
            r matches Ok(start) ==> start == old(self).next && final(self).next == old(self).next
                + count,
    {
        if count <= self.total - self.next {
            let start = self.next;
            self.next = self.next + count;
            Ok(start)
        } else {
            Err(HeapError::Exhausted)
        }
    }
}

/// A sampler: one descriptor staged in the sampler pool.
#[derive(Clone, Copy, Debug, PartialEq, Eq, Structural)]
pub struct Sampler {
    pub handle: Handle,
}

} // verus!
