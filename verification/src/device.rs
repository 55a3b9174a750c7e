//! Device-level objects: the opened device with its descriptor pools,
//! the shared read-only state encoders reference, and the command
//! encoder whose pass state drives the binding state machine.

use vstd::prelude::*;

use crate::adapter::PrivateCapabilities;
use crate::binding::PassState;
use crate::descriptor::{CpuPool, GeneralHeap, Handle};
use crate::layout::RenderPipeline;
use crate::layout::ComputePipeline;
use crate::resource::{
    CommandAllocatorHandle, CommandListHandle, CommandSignatureHandle, DeviceHandle, EventHandle,
    FenceHandle, CommandQueueHandle, NativeFormat, QueryHeapHandle, ResourceHandle,
};

verus! {

/// Fence and event used to block until the GPU goes idle.
pub struct Idler {
    pub fence: FenceHandle,
    pub event: EventHandle,
}

/// Command signatures for the indirect draw and dispatch paths.
pub struct CommandSignatures {
    pub draw: CommandSignatureHandle,
    pub draw_indexed: CommandSignatureHandle,
    pub dispatch: CommandSignatureHandle,
}

/// Read-only state shared by every encoder of a device: the feature
/// set it was opened with, the zero buffer backing missing bindings
/// (of [`crate::ZERO_BUFFER_SIZE`] bytes), the indirect command
/// signatures, and the two shader-visible heaps.
pub struct DeviceShared {
    /// Feature bitmask the device was opened with.
    pub features: u64,
    pub zero_buffer: ResourceHandle,
    pub cmd_signatures: CommandSignatures,
    pub heap_views: GeneralHeap,
    pub heap_samplers: GeneralHeap,
}

/// An opened device: the native handles, the shared state, and the
/// four CPU staging pools. The pools are reached through exclusive
/// borrows, so allocation of one kind never blocks another.
pub struct Device {
    pub raw: DeviceHandle,
    pub present_queue: CommandQueueHandle,
    pub idler: Idler,
    pub private_caps: PrivateCapabilities,
    pub shared: DeviceShared,
    pub rtv_pool: CpuPool,
    pub dsv_pool: CpuPool,
    pub srv_uav_pool: CpuPool,
    pub sampler_pool: CpuPool,
}

/// A command encoder: the allocator and list it records into, the
/// lists kept for reuse, and the pass state of the current recording
/// session.
pub struct CommandEncoder {
    pub allocator: CommandAllocatorHandle,
    pub device: DeviceHandle,
    pub list: Option<CommandListHandle>,
    pub free_lists: Vec<CommandListHandle>,
    pub pass: PassState,
}

/// A finished command list ready for submission.
pub struct CommandBuffer {
    pub raw: CommandListHandle,
}

/// A view into a texture: the staged descriptors of every view kind it
/// was created for.
pub struct TextureView {
    pub raw_format: NativeFormat,
    /// The viewed resource and its first subresource index.
    pub target_base: (ResourceHandle, u32),
    pub handle_srv: Option<Handle>,
    pub handle_uav: Option<Handle>,
    pub handle_rtv: Option<Handle>,
    pub handle_dsv_ro: Option<Handle>,
    pub handle_dsv_rw: Option<Handle>,
}

/// A native query heap and the query type it holds.
pub struct QuerySet {
    pub raw: QueryHeapHandle,
    /// Native query type code.
    pub raw_ty: u32,
}

/// A fence for cross-submission synchronisation.
pub struct Fence {
    pub raw: FenceHandle,
}

impl CommandEncoder {
    /// Binds a render pipeline: the session switches to the pipeline's
    /// layout, dirtying every slot if and only if the layout differs by
    /// identity from the one currently bound.
    pub fn set_render_pipeline_layout(&mut self, pipeline: &RenderPipeline)
        requires
            crate::binding::spec_pass_wf(old(self).pass),
            pipeline.layout.total_root_elements <= 64,
        ensures
            crate::binding::spec_pass_wf(final(self).pass),
            final(self).allocator == old(self).allocator,
            final(self).device == old(self).device,
            final(self).list == old(self).list,
            final(self).free_lists@ == old(self).free_lists@,
            old(self).pass.layout.signature == pipeline.layout.signature
                ==> final(self).pass.layout == old(self).pass.layout
                && final(self).pass.dirty_root_elements == old(self).pass.dirty_root_elements,
            old(self).pass.layout.signature != pipeline.layout.signature
                ==> final(self).pass.layout == pipeline.layout && (forall|i: u64|
                crate::binding::spec_bit_set(final(self).pass.dirty_root_elements, i) <==> i
                    < pipeline.layout.total_root_elements),
            final(self).pass.root_elements@ == old(self).pass.root_elements@,
    {
        self.pass.set_pipeline_layout(&pipeline.layout);
    }

    /// Binds a compute pipeline; the same layout-identity rule as for
    /// render pipelines.
    pub fn set_compute_pipeline_layout(&mut self, pipeline: &ComputePipeline)
        requires
            crate::binding::spec_pass_wf(old(self).pass),
            pipeline.layout.total_root_elements <= 64,
        ensures
            crate::binding::spec_pass_wf(final(self).pass),
            final(self).allocator == old(self).allocator,
            final(self).device == old(self).device,
            final(self).list == old(self).list,
            final(self).free_lists@ == old(self).free_lists@,
            old(self).pass.layout.signature == pipeline.layout.signature
                ==> final(self).pass.layout == old(self).pass.layout
                && final(self).pass.dirty_root_elements == old(self).pass.dirty_root_elements,
            old(self).pass.layout.signature != pipeline.layout.signature
                ==> final(self).pass.layout == pipeline.layout && (forall|i: u64|
                crate::binding::spec_bit_set(final(self).pass.dirty_root_elements, i) <==> i
                    < pipeline.layout.total_root_elements),
            final(self).pass.root_elements@ == old(self).pass.root_elements@,
    {
        self.pass.set_pipeline_layout(&pipeline.layout);
    }
}

} // verus!
