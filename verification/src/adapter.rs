//! Capability derivation from raw adapter probe results.
//!
//! The runtime layer queries the native device for feature data
//! (architecture, options, format support) and hands the raw values in;
//! everything derived from them — device type, private capabilities,
//! feature flags, limits, per-format capabilities, surface
//! capabilities — is computed here. The numeric limits are the fixed
//! requirements the native API guarantees for feature level 11.

use vstd::prelude::*;

use crate::resource::{AdapterHandle, DeviceHandle, Extent3d, TextureFormat};
use crate::swapchain::PresentMode;

verus! {

/// Instance-level flags the backend was initialised with.
#[derive(Clone, Copy, Debug, PartialEq, Eq, Structural)]
pub struct InstanceFlags {
    pub debug: bool,
    pub validation: bool,
}

/// Whether CPU and GPU share one memory pool.
#[derive(Clone, Copy, Debug, PartialEq, Eq, Structural)]
pub enum MemoryArchitecture {
    Unified { cache_coherent: bool },
    NonUnified,
}

/// Per-adapter capabilities the backend itself consumes.
#[derive(Clone, Copy, Debug, PartialEq, Eq, Structural)]
pub struct PrivateCapabilities {
    pub instance_flags: InstanceFlags,
    /// Whether one heap may mix buffers, textures and render targets.
    pub heterogeneous_resource_heaps: bool,
    pub memory_architecture: MemoryArchitecture,
    /// Whether heaps can be created without zeroing.
    pub heap_create_not_zeroed: bool,
}

/// Behavioural workarounds enabled for particular adapters.
#[derive(Clone, Copy, Debug, PartialEq, Eq, Structural)]
pub struct Workarounds {
    /// On software adapters, temporary CPU descriptors are still read
    /// by the runtime after being copied, so they must not be
    /// overwritten eagerly.
    pub avoid_cpu_descriptor_overwrites: bool,
}

impl Default for Workarounds {
    /// No workarounds.
    fn default() -> (r: Workarounds)
        ensures
            !r.avoid_cpu_descriptor_overwrites,
    {
        Workarounds { avoid_cpu_descriptor_overwrites: false }
    }
}

/// Broad class of the adapter hardware.
#[derive(Clone, Copy, Debug, PartialEq, Eq, Structural)]
pub enum DeviceType {
    VirtualGpu,
    IntegratedGpu,
    DiscreteGpu,
}

/// Identity of an exposed adapter.
#[derive(Debug, PartialEq, Eq)]
pub struct AdapterInfo {
    pub name: String,
    pub vendor: usize,
    pub device: usize,
    pub device_type: DeviceType,
}

/// An adapter ready to open devices on.
#[derive(Clone, Copy, Debug, PartialEq, Eq, Structural)]
pub struct Adapter {
    pub raw: AdapterHandle,
    pub device: DeviceHandle,
    pub private_caps: PrivateCapabilities,
    pub workarounds: Workarounds,
}

/// Native resource binding tier codes.
pub const RESOURCE_BINDING_TIER_1: i32 = 1;

pub const RESOURCE_BINDING_TIER_2: i32 = 2;

pub const RESOURCE_BINDING_TIER_3: i32 = 3;

/// Native resource heap tier code for single-purpose heaps.
pub const RESOURCE_HEAP_TIER_1: i32 = 1;

/// Native conservative rasterization tier code for "unsupported".
pub const CONSERVATIVE_RASTERIZATION_TIER_NOT_SUPPORTED: i32 = 0;

/// Feature bit: depth clamping.
pub const FEATURE_DEPTH_CLAMPING: u64 = 1 << 0;

/// Feature bit: primary buffers may be mapped.
pub const FEATURE_MAPPABLE_PRIMARY_BUFFERS: u64 = 1 << 1;

/// Feature bit: multi-draw indirect.
pub const FEATURE_MULTI_DRAW_INDIRECT: u64 = 1 << 2;

/// Feature bit: multi-draw indirect with a count buffer.
pub const FEATURE_MULTI_DRAW_INDIRECT_COUNT: u64 = 1 << 3;

/// Feature bit: clamp-to-border address mode.
pub const FEATURE_ADDRESS_MODE_CLAMP_TO_BORDER: u64 = 1 << 4;

/// Feature bit: line polygon mode.
pub const FEATURE_POLYGON_MODE_LINE: u64 = 1 << 5;

/// Feature bit: point polygon mode.
pub const FEATURE_POLYGON_MODE_POINT: u64 = 1 << 6;

/// Feature bit: vertex-stage writable storage.
pub const FEATURE_VERTEX_WRITABLE_STORAGE: u64 = 1 << 7;

/// Feature bit: timestamp queries.
pub const FEATURE_TIMESTAMP_QUERY: u64 = 1 << 8;

/// Feature bit: BC texture compression.
pub const FEATURE_TEXTURE_COMPRESSION_BC: u64 = 1 << 9;

/// Feature bit: clear commands.
pub const FEATURE_CLEAR_COMMANDS: u64 = 1 << 10;

/// Feature bit: conservative rasterization.
pub const FEATURE_CONSERVATIVE_RASTERIZATION: u64 = 1 << 11;

/// Features every adapter of this backend offers.
pub const BASE_FEATURES: u64 = FEATURE_DEPTH_CLAMPING | FEATURE_MAPPABLE_PRIMARY_BUFFERS
    | FEATURE_MULTI_DRAW_INDIRECT | FEATURE_MULTI_DRAW_INDIRECT_COUNT
    | FEATURE_ADDRESS_MODE_CLAMP_TO_BORDER | FEATURE_POLYGON_MODE_LINE
    | FEATURE_POLYGON_MODE_POINT | FEATURE_VERTEX_WRITABLE_STORAGE | FEATURE_TIMESTAMP_QUERY
    | FEATURE_TEXTURE_COMPRESSION_BC | FEATURE_CLEAR_COMMANDS;

/// Raw feature probe results the runtime read from the native device.
#[derive(Clone, Copy, Debug, PartialEq, Eq, Structural)]
pub struct AdapterProbe {
    /// The adapter reported itself as a software rasterizer.
    pub software_adapter: bool,
    /// Unified memory architecture.
    pub uma: bool,
    /// Cache-coherent unified memory architecture.
    pub cache_coherent_uma: bool,
    pub resource_heap_tier: i32,
    pub resource_binding_tier: i32,
    pub conservative_rasterization_tier: i32,
}

/// Class of the adapter, and whether the CPU-descriptor workaround is
/// needed: software adapters are virtual (and need the workaround),
/// cache-coherent unified memory means an integrated part, anything
/// else is discrete.
pub fn derive_device_type(software_adapter: bool, cache_coherent_uma: bool) -> (r: (
    DeviceType,
    bool,
))
    ensures
        software_adapter ==> r == (DeviceType::VirtualGpu, true),
        !software_adapter && cache_coherent_uma ==> r == (DeviceType::IntegratedGpu, false),
        !software_adapter && !cache_coherent_uma ==> r == (DeviceType::DiscreteGpu, false),
{
    if software_adapter {
        (DeviceType::VirtualGpu, true)
    } else if cache_coherent_uma {
        (DeviceType::IntegratedGpu, false)
    } else {
        (DeviceType::DiscreteGpu, false)
    }
}

/// Private capabilities from the probe: heterogeneous heaps above heap
/// tier one, and the memory architecture from the two unified-memory
/// flags.
pub fn derive_private_capabilities(instance_flags: InstanceFlags, probe: AdapterProbe) -> (r:
    PrivateCapabilities)
    ensures
        r.instance_flags == instance_flags,
        r.heterogeneous_resource_heaps == (probe.resource_heap_tier != RESOURCE_HEAP_TIER_1),
        probe.uma ==> r.memory_architecture == (MemoryArchitecture::Unified {
            cache_coherent: probe.cache_coherent_uma,
        }),
        !probe.uma ==> r.memory_architecture == MemoryArchitecture::NonUnified,
        !r.heap_create_not_zeroed,
{
    PrivateCapabilities {
        instance_flags,
        heterogeneous_resource_heaps: probe.resource_heap_tier != RESOURCE_HEAP_TIER_1,
        memory_architecture: if probe.uma {
            MemoryArchitecture::Unified { cache_coherent: probe.cache_coherent_uma }
        } else {
            MemoryArchitecture::NonUnified
        },
        heap_create_not_zeroed: false,
    }
}

/// Practical descriptor limit on binding tier three: in theory VRAM
/// limited, in practice two to the twentieth.
pub const TIER3_PRACTICAL_DESCRIPTOR_LIMIT: u32 = 1 << 20;

/// Shader-visible descriptor heap size of binding tier one and two.
pub const MAX_SHADER_VISIBLE_DESCRIPTOR_HEAP_SIZE_TIER_1: u32 = 1000000;

pub const MAX_SHADER_VISIBLE_DESCRIPTOR_HEAP_SIZE_TIER_2: u32 = 1000000;

/// Shader-visible sampler heap size.
pub const MAX_SHADER_VISIBLE_SAMPLER_HEAP_SIZE: u32 = 2048;

/// Descriptor budget of a binding tier: the full shader-visible heap
/// count and the unordered-access view count. An unrecognised tier is
/// taken conservatively as tier one.
pub fn full_heap_count(resource_binding_tier: i32) -> (r: (u32, u32))
    ensures
        resource_binding_tier == RESOURCE_BINDING_TIER_1 ==> r == (
            MAX_SHADER_VISIBLE_DESCRIPTOR_HEAP_SIZE_TIER_1,
            8u32,
        ),
        resource_binding_tier == RESOURCE_BINDING_TIER_2 ==> r == (
            MAX_SHADER_VISIBLE_DESCRIPTOR_HEAP_SIZE_TIER_2,
            64u32,
        ),
        resource_binding_tier == RESOURCE_BINDING_TIER_3 ==> r == (
            TIER3_PRACTICAL_DESCRIPTOR_LIMIT,
            TIER3_PRACTICAL_DESCRIPTOR_LIMIT,
        ),
        (resource_binding_tier != RESOURCE_BINDING_TIER_1 && resource_binding_tier
            != RESOURCE_BINDING_TIER_2 && resource_binding_tier != RESOURCE_BINDING_TIER_3) ==> r
            == (MAX_SHADER_VISIBLE_DESCRIPTOR_HEAP_SIZE_TIER_1, 8u32),
{
    if resource_binding_tier == RESOURCE_BINDING_TIER_2 {
        (MAX_SHADER_VISIBLE_DESCRIPTOR_HEAP_SIZE_TIER_2, 64)
    } else if resource_binding_tier == RESOURCE_BINDING_TIER_3 {
        (TIER3_PRACTICAL_DESCRIPTOR_LIMIT, TIER3_PRACTICAL_DESCRIPTOR_LIMIT)
    } else {
        (MAX_SHADER_VISIBLE_DESCRIPTOR_HEAP_SIZE_TIER_1, 8)
    }
}

/// Feature flags of the adapter: the base set, plus conservative
/// rasterization when the probe reports any tier of it.
pub fn derive_features(conservative_rasterization_tier: i32) -> (r: u64)
    ensures
        r == (if conservative_rasterization_tier
            != CONSERVATIVE_RASTERIZATION_TIER_NOT_SUPPORTED {
            BASE_FEATURES | FEATURE_CONSERVATIVE_RASTERIZATION
        } else {
            BASE_FEATURES
        }),
{
    if conservative_rasterization_tier != CONSERVATIVE_RASTERIZATION_TIER_NOT_SUPPORTED {
        BASE_FEATURES | FEATURE_CONSERVATIVE_RASTERIZATION
    } else {
        BASE_FEATURES
    }
}

/// Resource limits an adapter advertises.
#[derive(Clone, Copy, Debug, PartialEq, Eq, Structural)]
pub struct Limits {
    pub max_texture_dimension_1d: u32,
    pub max_texture_dimension_2d: u32,
    pub max_texture_dimension_3d: u32,
    pub max_texture_array_layers: u32,
    pub max_bind_groups: u32,
    pub max_dynamic_uniform_buffers_per_pipeline_layout: u32,
    pub max_dynamic_storage_buffers_per_pipeline_layout: u32,
    pub max_sampled_textures_per_shader_stage: u32,
    pub max_samplers_per_shader_stage: u32,
    pub max_storage_buffers_per_shader_stage: u32,
    pub max_storage_textures_per_shader_stage: u32,
    pub max_uniform_buffers_per_shader_stage: u32,
    pub max_uniform_buffer_binding_size: u32,
    pub max_storage_buffer_binding_size: u32,
    pub max_vertex_buffers: u32,
    pub max_vertex_attributes: u32,
    pub max_vertex_buffer_array_stride: u32,
    pub max_push_constant_size: u32,
    pub min_uniform_buffer_offset_alignment: u32,
    pub min_storage_buffer_offset_alignment: u32,
    pub max_compute_workgroup_size_x: u32,
    pub max_compute_workgroup_size_y: u32,
    pub max_compute_workgroup_size_z: u32,
    pub max_compute_workgroups_per_dimension: u32,
}

/// Limits of the native API at feature level 11, with the
/// tier-dependent descriptor counts filled in. Dynamic-offset buffers
/// each take a root slot, so only the portable minimum is advertised
/// for them.
pub fn derive_limits(resource_binding_tier: i32) -> (r: Limits)
    ensures
        r.max_texture_dimension_1d == 16384,
        r.max_texture_dimension_2d == 16384,
        r.max_texture_dimension_3d == 2048,
        r.max_texture_array_layers == 2048,
        r.max_bind_groups == crate::MAX_BIND_GROUPS,
        r.max_dynamic_uniform_buffers_per_pipeline_layout == 8,
        r.max_dynamic_storage_buffers_per_pipeline_layout == 4,
        r.max_sampled_textures_per_shader_stage == (if resource_binding_tier
            == RESOURCE_BINDING_TIER_1 {
            128u32
        } else {
            spec_full_heap_count_first(resource_binding_tier)
        }),
        r.max_samplers_per_shader_stage == (if resource_binding_tier == RESOURCE_BINDING_TIER_1 {
            16u32
        } else {
            MAX_SHADER_VISIBLE_SAMPLER_HEAP_SIZE
        }),
        r.max_storage_buffers_per_shader_stage == 8,
        r.max_storage_textures_per_shader_stage == 4,
        r.max_uniform_buffers_per_shader_stage == spec_full_heap_count_first(
            resource_binding_tier,
        ),
        r.max_uniform_buffer_binding_size == MAX_UNIFORM_BUFFER_BINDING_SIZE,
        r.max_storage_buffer_binding_size == 0xFFFF_FFFF,
        r.max_vertex_buffers == crate::MAX_VERTEX_BUFFERS,
        r.max_vertex_attributes == 32,
        r.max_vertex_buffer_array_stride == 2048,
        r.max_push_constant_size == 0,
        r.min_uniform_buffer_offset_alignment == 256,
        r.min_storage_buffer_offset_alignment == 4,
        r.max_compute_workgroup_size_x == 1024,
        r.max_compute_workgroup_size_y == 1024,
        r.max_compute_workgroup_size_z == 64,
        r.max_compute_workgroups_per_dimension == 65535,
{
    let (heap_count, _uav_count) = full_heap_count(resource_binding_tier);
    Limits {
        max_texture_dimension_1d: 16384,
        max_texture_dimension_2d: 16384,
        max_texture_dimension_3d: 2048,
        max_texture_array_layers: 2048,
        max_bind_groups: 4,
        max_dynamic_uniform_buffers_per_pipeline_layout: 8,
        max_dynamic_storage_buffers_per_pipeline_layout: 4,
        max_sampled_textures_per_shader_stage: if resource_binding_tier
            == RESOURCE_BINDING_TIER_1 {
            128
        } else {
            heap_count
        },
        max_samplers_per_shader_stage: if resource_binding_tier == RESOURCE_BINDING_TIER_1 {
            16
        } else {
            MAX_SHADER_VISIBLE_SAMPLER_HEAP_SIZE
        },
        max_storage_buffers_per_shader_stage: 8,
        max_storage_textures_per_shader_stage: 4,
        max_uniform_buffers_per_shader_stage: heap_count,
        max_uniform_buffer_binding_size: MAX_UNIFORM_BUFFER_BINDING_SIZE,
        max_storage_buffer_binding_size: 0xFFFF_FFFF,
        max_vertex_buffers: 16,
        max_vertex_attributes: 32,
        max_vertex_buffer_array_stride: 2048,
        max_push_constant_size: 0,
        min_uniform_buffer_offset_alignment: 256,
        min_storage_buffer_offset_alignment: 4,
        max_compute_workgroup_size_x: 1024,
        max_compute_workgroup_size_y: 1024,
        max_compute_workgroup_size_z: 64,
        max_compute_workgroups_per_dimension: 65535,
    }
}

/// Full shader-visible heap count of a binding tier.
pub open spec fn spec_full_heap_count_first(resource_binding_tier: i32) -> u32 {
    if resource_binding_tier == RESOURCE_BINDING_TIER_2 {
        MAX_SHADER_VISIBLE_DESCRIPTOR_HEAP_SIZE_TIER_2
    } else if resource_binding_tier == RESOURCE_BINDING_TIER_3 {
        TIER3_PRACTICAL_DESCRIPTOR_LIMIT
    } else {
        MAX_SHADER_VISIBLE_DESCRIPTOR_HEAP_SIZE_TIER_1
    }
}

/// Constant buffers hold at most this many 16-byte elements, so this
/// many bytes.
pub const MAX_UNIFORM_BUFFER_BINDING_SIZE: u32 = 4096 * 16;

/// Buffer copy offsets must align to this.
pub const BUFFER_COPY_OFFSET_ALIGNMENT: u64 = 512;

/// Buffer copy row pitches must align to this.
pub const BUFFER_COPY_PITCH_ALIGNMENT: u64 = 256;

/// Per-format capability bit: can be sampled.
pub const TFC_SAMPLED: u32 = 1 << 0;

/// Per-format capability bit: can be sampled with linear filtering.
pub const TFC_SAMPLED_LINEAR: u32 = 1 << 1;

/// Per-format capability bit: usable as a storage texture.
pub const TFC_STORAGE: u32 = 1 << 3;

/// Per-format capability bit: storage with read-write access.
pub const TFC_STORAGE_READ_WRITE: u32 = 1 << 4;

/// Per-format capability bit: usable as a color attachment.
pub const TFC_COLOR_ATTACHMENT: u32 = 1 << 6;

/// Per-format capability bit: color attachment with blending.
pub const TFC_COLOR_ATTACHMENT_BLEND: u32 = 1 << 7;

/// Per-format capability bit: usable as a depth-stencil attachment.
pub const TFC_DEPTH_STENCIL_ATTACHMENT: u32 = 1 << 8;

/// Per-format capability bit: copy source.
pub const TFC_COPY_SRC: u32 = 1 << 9;

/// Per-format capability bit: copy destination.
pub const TFC_COPY_DST: u32 = 1 << 10;

/// Native format support bit: usable as a 1D texture.
pub const FORMAT_SUPPORT1_TEXTURE1D: u32 = 16;

/// Native format support bit: usable as a 2D texture.
pub const FORMAT_SUPPORT1_TEXTURE2D: u32 = 32;

/// Native format support bit: usable as a 3D texture.
pub const FORMAT_SUPPORT1_TEXTURE3D: u32 = 64;

/// Native format support bit: usable as a cube texture.
pub const FORMAT_SUPPORT1_TEXTURECUBE: u32 = 128;

/// Native format support bit: shaders may sample it.
pub const FORMAT_SUPPORT1_SHADER_SAMPLE: u32 = 512;

/// Native format support bit: usable as a render target.
pub const FORMAT_SUPPORT1_RENDER_TARGET: u32 = 16384;

/// Native format support bit: blendable render target.
pub const FORMAT_SUPPORT1_BLENDABLE: u32 = 32768;

/// Native format support bit: usable as depth-stencil.
pub const FORMAT_SUPPORT1_DEPTH_STENCIL: u32 = 65536;

/// Native format support bit: typed unordered-access views.
pub const FORMAT_SUPPORT1_TYPED_UNORDERED_ACCESS_VIEW: u32 = 0x2000000;

/// Native format support bit (second word): typed unordered-access
/// loads.
pub const FORMAT_SUPPORT2_UAV_TYPED_LOAD: u32 = 64;

/// Capabilities of one format from the two native support words:
/// always copyable, and each further capability from its support bit.
/// Sampling needs any of the four texture dimensions.
pub open spec fn spec_format_caps(support1: u32, support2: u32) -> u32 {
    TFC_COPY_SRC | TFC_COPY_DST | (if support1 & (FORMAT_SUPPORT1_TEXTURE1D
        | FORMAT_SUPPORT1_TEXTURE2D | FORMAT_SUPPORT1_TEXTURE3D | FORMAT_SUPPORT1_TEXTURECUBE)
        != 0 {
        TFC_SAMPLED
    } else {
        0u32
    }) | (if support1 & FORMAT_SUPPORT1_SHADER_SAMPLE != 0 {
        TFC_SAMPLED_LINEAR
    } else {
        0u32
    }) | (if support1 & FORMAT_SUPPORT1_RENDER_TARGET != 0 {
        TFC_COLOR_ATTACHMENT
    } else {
        0u32
    }) | (if support1 & FORMAT_SUPPORT1_BLENDABLE != 0 {
        TFC_COLOR_ATTACHMENT_BLEND
    } else {
        0u32
    }) | (if support1 & FORMAT_SUPPORT1_DEPTH_STENCIL != 0 {
        TFC_DEPTH_STENCIL_ATTACHMENT
    } else {
        0u32
    }) | (if support1 & FORMAT_SUPPORT1_TYPED_UNORDERED_ACCESS_VIEW != 0 {
        TFC_STORAGE
    } else {
        0u32
    }) | (if support2 & FORMAT_SUPPORT2_UAV_TYPED_LOAD != 0 {
        TFC_STORAGE_READ_WRITE
    } else {
        0u32
    })
}

/// Capabilities of one texture format, from the raw support words the
/// runtime queried for it.
pub fn texture_format_capabilities(support1: u32, support2: u32) -> (r: u32)
    ensures
        r == spec_format_caps(support1, support2),
{
    let sampled: u32 = if support1 & (FORMAT_SUPPORT1_TEXTURE1D | FORMAT_SUPPORT1_TEXTURE2D
        | FORMAT_SUPPORT1_TEXTURE3D | FORMAT_SUPPORT1_TEXTURECUBE) != 0 {
        TFC_SAMPLED
    } else {
        0
    };
    let sampled_linear: u32 = if support1 & FORMAT_SUPPORT1_SHADER_SAMPLE != 0 {
        TFC_SAMPLED_LINEAR
    } else {
        0
    };
    let color: u32 = if support1 & FORMAT_SUPPORT1_RENDER_TARGET != 0 {
        TFC_COLOR_ATTACHMENT
    } else {
        0
    };
    let blend: u32 = if support1 & FORMAT_SUPPORT1_BLENDABLE != 0 {
        TFC_COLOR_ATTACHMENT_BLEND
    } else {
        0
    };
    let depth_stencil: u32 = if support1 & FORMAT_SUPPORT1_DEPTH_STENCIL != 0 {
        TFC_DEPTH_STENCIL_ATTACHMENT
    } else {
        0
    };
    let storage: u32 = if support1 & FORMAT_SUPPORT1_TYPED_UNORDERED_ACCESS_VIEW != 0 {
        TFC_STORAGE
    } else {
        0
    };
    let storage_rw: u32 = if support2 & FORMAT_SUPPORT2_UAV_TYPED_LOAD != 0 {
        TFC_STORAGE_READ_WRITE
    } else {
        0
    };
    TFC_COPY_SRC | TFC_COPY_DST | sampled | sampled_linear | color | blend | depth_stencil
        | storage | storage_rw
}

/// Texture-use bit: copy source.
pub const TEXTURE_USE_COPY_SRC: u32 = 1 << 0;

/// Texture-use bit: copy destination.
pub const TEXTURE_USE_COPY_DST: u32 = 1 << 1;

/// Texture-use bit: color render target.
pub const TEXTURE_USE_COLOR_TARGET: u32 = 1 << 2;

/// How an alpha channel is composited with the window.
#[derive(Clone, Copy, Debug, PartialEq, Eq, Structural)]
pub enum CompositeAlphaMode {
    Opaque,
    PreMultiplied,
    PostMultiplied,
}

/// What a surface supports when presented to.
pub struct SurfaceCapabilities {
    pub formats: Vec<TextureFormat>,
    /// Smallest and largest swapchain image count the flip model
    /// supports.
    pub min_swap_chain_size: u32,
    pub max_swap_chain_size: u32,
    /// Window extent right now, if the runtime could read it.
    pub current_extent: Option<Extent3d>,
    pub min_extent: Extent3d,
    pub max_extent: Extent3d,
    /// Texture-use bits of presentable images.
    pub usage: u32,
    pub present_modes: Vec<PresentMode>,
    pub composite_alpha_modes: Vec<CompositeAlphaMode>,
}

/// Surface capabilities: the fixed format and composite lists of the
/// flip presentation model, the window extent as the runtime read it,
/// and immediate presents exactly when the factory reported tearing
/// support.
pub fn surface_capabilities(current_extent: Option<Extent3d>, allow_tearing: bool) -> (r:
    SurfaceCapabilities)
    ensures
        r.formats@ == seq![
            TextureFormat::Bgra8UnormSrgb,
            TextureFormat::Bgra8Unorm,
            TextureFormat::Rgba8UnormSrgb,
            TextureFormat::Rgba8Unorm,
            TextureFormat::Rgb10a2Unorm,
            TextureFormat::Rgba16Float,
        ],
        r.min_swap_chain_size == 2,
        r.max_swap_chain_size == 16,
        r.current_extent == current_extent,
        r.min_extent == (Extent3d { width: 16, height: 16, depth_or_array_layers: 1 }),
        r.max_extent == (Extent3d { width: 4096, height: 4096, depth_or_array_layers: 1 }),
        r.usage == TEXTURE_USE_COLOR_TARGET | TEXTURE_USE_COPY_SRC | TEXTURE_USE_COPY_DST,
        allow_tearing ==> r.present_modes@ == seq![PresentMode::Fifo, PresentMode::Immediate],
        !allow_tearing ==> r.present_modes@ == seq![PresentMode::Fifo],
        r.composite_alpha_modes@ == seq![
            CompositeAlphaMode::Opaque,
            CompositeAlphaMode::PreMultiplied,
            CompositeAlphaMode::PostMultiplied,
        ],
{
    let mut formats: Vec<TextureFormat> = Vec::new();
    formats.push(TextureFormat::Bgra8UnormSrgb);
    formats.push(TextureFormat::Bgra8Unorm);
    formats.push(TextureFormat::Rgba8UnormSrgb);
    formats.push(TextureFormat::Rgba8Unorm);
    formats.push(TextureFormat::Rgb10a2Unorm);
    formats.push(TextureFormat::Rgba16Float);
    let mut present_modes: Vec<PresentMode> = Vec::new();
    present_modes.push(PresentMode::Fifo);
    if allow_tearing {
        present_modes.push(PresentMode::Immediate);
    }
    let mut composite_alpha_modes: Vec<CompositeAlphaMode> = Vec::new();
    composite_alpha_modes.push(CompositeAlphaMode::Opaque);
    composite_alpha_modes.push(CompositeAlphaMode::PreMultiplied);
    composite_alpha_modes.push(CompositeAlphaMode::PostMultiplied);
    proof {
        assert(formats@ =~= seq![
            TextureFormat::Bgra8UnormSrgb,
            TextureFormat::Bgra8Unorm,
            TextureFormat::Rgba8UnormSrgb,
            TextureFormat::Rgba8Unorm,
            TextureFormat::Rgb10a2Unorm,
            TextureFormat::Rgba16Float,
        ]);
        if allow_tearing {
            assert(present_modes@ =~= seq![PresentMode::Fifo, PresentMode::Immediate]);
        } else {
            assert(present_modes@ =~= seq![PresentMode::Fifo]);
        }
        assert(composite_alpha_modes@ =~= seq![
            CompositeAlphaMode::Opaque,
            CompositeAlphaMode::PreMultiplied,
            CompositeAlphaMode::PostMultiplied,
        ]);
    }
    SurfaceCapabilities {
        formats,
        min_swap_chain_size: 2,
        max_swap_chain_size: 16,
        current_extent,
        min_extent: Extent3d { width: 16, height: 16, depth_or_array_layers: 1 },
        max_extent: Extent3d { width: 4096, height: 4096, depth_or_array_layers: 1 },
        usage: TEXTURE_USE_COLOR_TARGET | TEXTURE_USE_COPY_SRC | TEXTURE_USE_COPY_DST,
        present_modes,
        composite_alpha_modes,
    }
}

/// Everything an adapter exposes to the portable layer.
pub struct ExposedAdapter {
    pub adapter: Adapter,
    pub info: AdapterInfo,
    /// Feature bitmask of the adapter.
    pub features: u64,
    pub limits: Limits,
    /// Alignment of buffer copy offsets.
    pub buffer_copy_offset: u64,
    /// Alignment of buffer copy row pitches.
    pub buffer_copy_pitch: u64,
}

impl Adapter {
    /// Assembles the exposed adapter from the probe results the runtime
    /// queried: the device type (with its workaround), the private
    /// capabilities, the features and the limits all derive from the
    /// probe; the copy alignments are the native constants.
    pub fn expose(
        raw: AdapterHandle,
        device: DeviceHandle,
        instance_flags: InstanceFlags,
        name: String,
        vendor: usize,
        device_id: usize,
        probe: AdapterProbe,
    ) -> (r: ExposedAdapter)
        ensures
            r.adapter.raw == raw,
            r.adapter.device == device,
            r.adapter.private_caps.instance_flags == instance_flags,
            r.adapter.private_caps.heterogeneous_resource_heaps == (probe.resource_heap_tier
                != RESOURCE_HEAP_TIER_1),
            probe.uma ==> r.adapter.private_caps.memory_architecture
                == (MemoryArchitecture::Unified { cache_coherent: probe.cache_coherent_uma }),
            !probe.uma ==> r.adapter.private_caps.memory_architecture
                == MemoryArchitecture::NonUnified,
            r.adapter.workarounds.avoid_cpu_descriptor_overwrites == probe.software_adapter,
            r.info.name == name,
            r.info.vendor == vendor,
            r.info.device == device_id,
            probe.software_adapter ==> r.info.device_type == DeviceType::VirtualGpu,
            !probe.software_adapter && probe.cache_coherent_uma ==> r.info.device_type
                == DeviceType::IntegratedGpu,
            !probe.software_adapter && !probe.cache_coherent_uma ==> r.info.device_type
                == DeviceType::DiscreteGpu,
            r.features == (if probe.conservative_rasterization_tier
                != CONSERVATIVE_RASTERIZATION_TIER_NOT_SUPPORTED {
                BASE_FEATURES | FEATURE_CONSERVATIVE_RASTERIZATION
            } else {
                BASE_FEATURES
            }),
            r.limits == spec_adapter_limits(probe.resource_binding_tier),
            r.buffer_copy_offset == BUFFER_COPY_OFFSET_ALIGNMENT,
            r.buffer_copy_pitch == BUFFER_COPY_PITCH_ALIGNMENT,
    {
        let (device_type, avoid_cpu_descriptor_overwrites) = derive_device_type(
            probe.software_adapter,
            probe.cache_coherent_uma,
        );
        let private_caps = derive_private_capabilities(instance_flags, probe);
        let features = derive_features(probe.conservative_rasterization_tier);
        let limits = derive_limits(probe.resource_binding_tier);
        ExposedAdapter {
            adapter: Adapter {
                raw,
                device,
                private_caps,
                workarounds: Workarounds { avoid_cpu_descriptor_overwrites },
            },
            info: AdapterInfo { name, vendor, device: device_id, device_type },
            features,
            limits,
            buffer_copy_offset: BUFFER_COPY_OFFSET_ALIGNMENT,
            buffer_copy_pitch: BUFFER_COPY_PITCH_ALIGNMENT,
        }
    }
}

/// The limits value `derive_limits` builds for a binding tier.
pub open spec fn spec_adapter_limits(resource_binding_tier: i32) -> Limits {
    Limits {
        max_texture_dimension_1d: 16384,
        max_texture_dimension_2d: 16384,
        max_texture_dimension_3d: 2048,
        max_texture_array_layers: 2048,
        max_bind_groups: 4,
        max_dynamic_uniform_buffers_per_pipeline_layout: 8,
        max_dynamic_storage_buffers_per_pipeline_layout: 4,
        max_sampled_textures_per_shader_stage: if resource_binding_tier
            == RESOURCE_BINDING_TIER_1 {
            128u32
        } else {
            spec_full_heap_count_first(resource_binding_tier)
        },
        max_samplers_per_shader_stage: if resource_binding_tier == RESOURCE_BINDING_TIER_1 {
            16u32
        } else {
            MAX_SHADER_VISIBLE_SAMPLER_HEAP_SIZE
        },
        max_storage_buffers_per_shader_stage: 8,
        max_storage_textures_per_shader_stage: 4,
        max_uniform_buffers_per_shader_stage: spec_full_heap_count_first(resource_binding_tier),
        max_uniform_buffer_binding_size: MAX_UNIFORM_BUFFER_BINDING_SIZE,
        max_storage_buffer_binding_size: 0xFFFF_FFFF,
        max_vertex_buffers: 16,
        max_vertex_attributes: 32,
        max_vertex_buffer_array_stride: 2048,
        max_push_constant_size: 0,
        min_uniform_buffer_offset_alignment: 256,
        min_storage_buffer_offset_alignment: 4,
        max_compute_workgroup_size_x: 1024,
        max_compute_workgroup_size_y: 1024,
        max_compute_workgroup_size_z: 64,
        max_compute_workgroups_per_dimension: 65535,
    }
}

} // verus!
