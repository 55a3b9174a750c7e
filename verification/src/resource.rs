//! Plain-value models of native handles and the resource types built on
//! them.
//!
//! Native objects (resources, fences, command lists, ...) are opaque to
//! the binding engine: it only stores and compares them. Each handle is
//! therefore carried as the integer value of the underlying native
//! pointer, supplied by the runtime layer that performed the native call.

use vstd::prelude::*;

verus! {

/// A native resource (buffer or texture memory).
#[derive(Clone, Copy, Debug, PartialEq, Eq, Structural)]
pub struct ResourceHandle(pub u64);

/// A native root signature.
#[derive(Clone, Copy, Debug, PartialEq, Eq, Structural)]
pub struct RootSignatureHandle(pub u64);

/// A native pipeline state object.
#[derive(Clone, Copy, Debug, PartialEq, Eq, Structural)]
pub struct PipelineStateHandle(pub u64);

/// A native command list.
#[derive(Clone, Copy, Debug, PartialEq, Eq, Structural)]
pub struct CommandListHandle(pub u64);

/// A native command allocator.
#[derive(Clone, Copy, Debug, PartialEq, Eq, Structural)]
pub struct CommandAllocatorHandle(pub u64);

/// A native command queue.
#[derive(Clone, Copy, Debug, PartialEq, Eq, Structural)]
pub struct CommandQueueHandle(pub u64);

/// A native command signature used for indirect draws and dispatches.
#[derive(Clone, Copy, Debug, PartialEq, Eq, Structural)]
pub struct CommandSignatureHandle(pub u64);

/// A native fence.
#[derive(Clone, Copy, Debug, PartialEq, Eq, Structural)]
pub struct FenceHandle(pub u64);

/// A native event used to block on a fence.
#[derive(Clone, Copy, Debug, PartialEq, Eq, Structural)]
pub struct EventHandle(pub u64);

/// A native query heap.
#[derive(Clone, Copy, Debug, PartialEq, Eq, Structural)]
pub struct QueryHeapHandle(pub u64);

/// A native device.
#[derive(Clone, Copy, Debug, PartialEq, Eq, Structural)]
pub struct DeviceHandle(pub u64);

/// A native adapter.
#[derive(Clone, Copy, Debug, PartialEq, Eq, Structural)]
pub struct AdapterHandle(pub u64);

/// A native swapchain.
#[derive(Clone, Copy, Debug, PartialEq, Eq, Structural)]
pub struct SwapChainHandle(pub u64);

/// A native waitable handle (the swapchain frame-latency object).
#[derive(Clone, Copy, Debug, PartialEq, Eq, Structural)]
pub struct WaitableHandle(pub u64);

/// A GPU-visible descriptor address inside a shader-visible heap.
#[derive(Clone, Copy, Debug, PartialEq, Eq, Structural)]
pub struct GpuDescriptor(pub u64);

/// A GPU virtual address of buffer memory.
pub type GpuAddress = u64;

/// A native texture format code, already mapped by the format layer.
#[derive(Clone, Copy, Debug, PartialEq, Eq, Structural)]
pub struct NativeFormat(pub u32);

/// Logical texture format of a presentable or sampled image.
#[derive(Clone, Copy, Debug, PartialEq, Eq, Structural)]
pub enum TextureFormat {
    Bgra8UnormSrgb,
    Bgra8Unorm,
    Rgba8UnormSrgb,
    Rgba8Unorm,
    Rgb10a2Unorm,
    Rgba16Float,
    /// Any other logical format, carried by its tag.
    Other(u32),
}

/// Storage dimensionality of a texture resource.
#[derive(Clone, Copy, Debug, PartialEq, Eq, Structural)]
pub enum TextureDimension {
    D1,
    D2,
    D3,
}

/// Extent of a texture in texels; for 1D and 2D textures the third
/// component counts array layers.
#[derive(Clone, Copy, Debug, PartialEq, Eq, Structural)]
pub struct Extent3d {
    pub width: u32,
    pub height: u32,
    pub depth_or_array_layers: u32,
}

/// A GPU buffer, with the virtual address the native layer reported for
/// its memory.
#[derive(Clone, Copy, Debug, PartialEq, Eq, Structural)]
pub struct Buffer {
    pub resource: ResourceHandle,
    pub size: u64,
    /// Base GPU virtual address of `resource`, a stable property of the
    /// allocation queried once at creation.
    pub gpu_address: GpuAddress,
}

/// A slice of a buffer bound to a pipeline.
#[derive(Clone, Copy, Debug, PartialEq, Eq)]
pub struct BufferBinding<'a> {
    pub buffer: &'a Buffer,
    pub offset: u64,
    /// Length of the bound slice; `None` means "to the end of the buffer".
    pub size: Option<u64>,
}

impl<'a> BufferBinding<'a> {
    /// Length in bytes of the bound slice.
    pub fn resolve_size(&self) -> (r: u64)
        requires
            self.size is None ==> self.offset <= self.buffer.size,
        ensures
            r == match self.size {
                Some(size) => size as int,
                None => self.buffer.size - self.offset,
            },
    {
        match self.size {
            Some(size) => size,
            None => self.buffer.size - self.offset,
        }
    }

    /// GPU virtual address where the bound slice starts.
    pub fn resolve_address(&self) -> (r: GpuAddress)
        requires
            self.buffer.gpu_address + self.offset <= u64::MAX,
        ensures
            r == self.buffer.gpu_address + self.offset,
    {
        self.buffer.gpu_address + self.offset
    }
}

/// A GPU texture.
#[derive(Clone, Copy, Debug, PartialEq, Eq, Structural)]
pub struct Texture {
    pub resource: ResourceHandle,
    pub format: TextureFormat,
    pub dimension: TextureDimension,
    pub size: Extent3d,
    pub mip_level_count: u32,
    pub sample_count: u32,
}

/// Mip level and array layer a texture copy starts at.
#[derive(Clone, Copy, Debug, PartialEq, Eq, Structural)]
pub struct TextureCopyBase {
    pub mip_level: u32,
    pub array_layer: u32,
}

/// Number of array layers of a texture, by its dimension.
pub open spec fn spec_array_layer_count(t: Texture) -> u32 {
    match t.dimension {
        TextureDimension::D1 | TextureDimension::D2 => t.size.depth_or_array_layers,
        TextureDimension::D3 => 1u32,
    }
}

/// Flat native subresource index of one mip of one layer of one plane.
pub open spec fn spec_calc_subresource(t: Texture, mip_level: u32, array_layer: u32, plane: u32) -> int {
    mip_level + (array_layer + plane * spec_array_layer_count(t)) * t.mip_level_count
}

impl Texture {
    /// Number of array layers: the third extent component for 1D and 2D
    /// textures; a 3D texture has exactly one layer.
    pub fn array_layer_count(&self) -> (r: u32)
        ensures
            r == spec_array_layer_count(*self),
    {
        match self.dimension {
            TextureDimension::D1 | TextureDimension::D2 => self.size.depth_or_array_layers,
            TextureDimension::D3 => 1,
        }
    }

    /// Flat index of a subresource, as the native API numbers them:
    /// mips vary fastest, then array layers, then format planes.
    pub fn calc_subresource(&self, mip_level: u32, array_layer: u32, plane: u32) -> (r: u32)
        requires
            array_layer + plane * spec_array_layer_count(*self) <= u32::MAX,
            spec_calc_subresource(*self, mip_level, array_layer, plane) <= u32::MAX,
        ensures
            r == spec_calc_subresource(*self, mip_level, array_layer, plane),
    {
        mip_level + (array_layer + plane * self.array_layer_count()) * self.mip_level_count
    }

    /// Subresource index of the start of a copy (plane zero).
    pub fn calc_subresource_for_copy(&self, base: &TextureCopyBase) -> (r: u32)
        requires
            spec_calc_subresource(*self, base.mip_level, base.array_layer, 0) <= u32::MAX,
        ensures
            r == spec_calc_subresource(*self, base.mip_level, base.array_layer, 0),
    {
        self.calc_subresource(base.mip_level, base.array_layer, 0)
    }
}

} // verus!
