use dx12_hal::adapter::{
    derive_device_type, derive_features, derive_limits, derive_private_capabilities,
    full_heap_count, surface_capabilities, texture_format_capabilities, Adapter, AdapterProbe,
    CompositeAlphaMode, DeviceType, InstanceFlags, MemoryArchitecture, BASE_FEATURES,
    FEATURE_CONSERVATIVE_RASTERIZATION, FORMAT_SUPPORT1_BLENDABLE, FORMAT_SUPPORT1_DEPTH_STENCIL,
    FORMAT_SUPPORT1_RENDER_TARGET, FORMAT_SUPPORT1_SHADER_SAMPLE, FORMAT_SUPPORT1_TEXTURE2D,
    FORMAT_SUPPORT1_TYPED_UNORDERED_ACCESS_VIEW, FORMAT_SUPPORT2_UAV_TYPED_LOAD,
    MAX_SHADER_VISIBLE_SAMPLER_HEAP_SIZE, RESOURCE_BINDING_TIER_1, RESOURCE_BINDING_TIER_2,
    RESOURCE_BINDING_TIER_3, TFC_COLOR_ATTACHMENT, TFC_COLOR_ATTACHMENT_BLEND, TFC_COPY_DST,
    TFC_COPY_SRC, TFC_DEPTH_STENCIL_ATTACHMENT, TFC_SAMPLED, TFC_SAMPLED_LINEAR, TFC_STORAGE,
    TFC_STORAGE_READ_WRITE, TIER3_PRACTICAL_DESCRIPTOR_LIMIT,
};
use dx12_hal::resource::{AdapterHandle, DeviceHandle, Extent3d, TextureFormat};
use dx12_hal::swapchain::PresentMode;

fn flags() -> InstanceFlags {
    InstanceFlags { debug: false, validation: true }
}

#[test]
fn device_types_follow_the_probe() {
    assert_eq!(derive_device_type(true, true), (DeviceType::VirtualGpu, true));
    assert_eq!(derive_device_type(true, false), (DeviceType::VirtualGpu, true));
    assert_eq!(derive_device_type(false, true), (DeviceType::IntegratedGpu, false));
    assert_eq!(derive_device_type(false, false), (DeviceType::DiscreteGpu, false));
}

#[test]
fn memory_architecture_follows_the_uma_flags() {
    let probe = AdapterProbe {
        software_adapter: false,
        uma: true,
        cache_coherent_uma: true,
        resource_heap_tier: 2,
        resource_binding_tier: RESOURCE_BINDING_TIER_2,
        conservative_rasterization_tier: 0,
    };
    let caps = derive_private_capabilities(flags(), probe);
    assert_eq!(
        caps.memory_architecture,
        MemoryArchitecture::Unified { cache_coherent: true }
    );
    assert!(caps.heterogeneous_resource_heaps);
    assert!(!caps.heap_create_not_zeroed);

    let non_unified = AdapterProbe { uma: false, resource_heap_tier: 1, ..probe };
    let caps = derive_private_capabilities(flags(), non_unified);
    assert_eq!(caps.memory_architecture, MemoryArchitecture::NonUnified);
    assert!(!caps.heterogeneous_resource_heaps);
}

#[test]
fn descriptor_budgets_follow_the_binding_tier() {
    assert_eq!(full_heap_count(RESOURCE_BINDING_TIER_1), (1_000_000, 8));
    assert_eq!(full_heap_count(RESOURCE_BINDING_TIER_2), (1_000_000, 64));
    assert_eq!(
        full_heap_count(RESOURCE_BINDING_TIER_3),
        (TIER3_PRACTICAL_DESCRIPTOR_LIMIT, TIER3_PRACTICAL_DESCRIPTOR_LIMIT)
    );
    // Unknown tiers are taken conservatively.
    assert_eq!(full_heap_count(9), (1_000_000, 8));
}

#[test]
fn conservative_rasterization_is_gated_on_its_tier() {
    assert_eq!(derive_features(0), BASE_FEATURES);
    assert_eq!(derive_features(1), BASE_FEATURES | FEATURE_CONSERVATIVE_RASTERIZATION);
    assert_eq!(derive_features(3), BASE_FEATURES | FEATURE_CONSERVATIVE_RASTERIZATION);
}

#[test]
fn limits_fill_in_the_tier_dependent_counts() {
    let tier1 = derive_limits(RESOURCE_BINDING_TIER_1);
    assert_eq!(tier1.max_sampled_textures_per_shader_stage, 128);
    assert_eq!(tier1.max_samplers_per_shader_stage, 16);
    assert_eq!(tier1.max_uniform_buffers_per_shader_stage, 1_000_000);

    let tier2 = derive_limits(RESOURCE_BINDING_TIER_2);
    assert_eq!(tier2.max_sampled_textures_per_shader_stage, 1_000_000);
    assert_eq!(
        tier2.max_samplers_per_shader_stage,
        MAX_SHADER_VISIBLE_SAMPLER_HEAP_SIZE
    );

    assert_eq!(tier1.max_texture_dimension_2d, 16384);
    assert_eq!(tier1.max_texture_dimension_3d, 2048);
    assert_eq!(tier1.max_bind_groups, 4);
    assert_eq!(tier1.max_uniform_buffer_binding_size, 65536);
    assert_eq!(tier1.max_vertex_buffers, 16);
    assert_eq!(tier1.min_uniform_buffer_offset_alignment, 256);
    assert_eq!(tier1.max_push_constant_size, 0);
}

#[test]
fn format_capabilities_read_the_support_bits() {
    // A plain color-renderable, sampleable format.
    let caps = texture_format_capabilities(
        FORMAT_SUPPORT1_TEXTURE2D | FORMAT_SUPPORT1_SHADER_SAMPLE | FORMAT_SUPPORT1_RENDER_TARGET
            | FORMAT_SUPPORT1_BLENDABLE,
        0,
    );
    assert_eq!(
        caps,
        TFC_COPY_SRC | TFC_COPY_DST | TFC_SAMPLED | TFC_SAMPLED_LINEAR | TFC_COLOR_ATTACHMENT
            | TFC_COLOR_ATTACHMENT_BLEND
    );

    // A depth format with typed storage and typed loads.
    let caps = texture_format_capabilities(
        FORMAT_SUPPORT1_TEXTURE2D | FORMAT_SUPPORT1_DEPTH_STENCIL
            | FORMAT_SUPPORT1_TYPED_UNORDERED_ACCESS_VIEW,
        FORMAT_SUPPORT2_UAV_TYPED_LOAD,
    );
    assert_eq!(
        caps,
        TFC_COPY_SRC | TFC_COPY_DST | TFC_SAMPLED | TFC_DEPTH_STENCIL_ATTACHMENT | TFC_STORAGE
            | TFC_STORAGE_READ_WRITE
    );

    // A format with no support at all is still copyable.
    assert_eq!(texture_format_capabilities(0, 0), TFC_COPY_SRC | TFC_COPY_DST);
}

#[test]
fn surface_capabilities_list_the_flip_model_fixtures() {
    let extent = Extent3d { width: 640, height: 480, depth_or_array_layers: 1 };
    let caps = surface_capabilities(Some(extent), false);
    assert_eq!(caps.formats.len(), 6);
    assert_eq!(caps.formats[0], TextureFormat::Bgra8UnormSrgb);
    assert_eq!(caps.formats[5], TextureFormat::Rgba16Float);
    assert_eq!(caps.min_swap_chain_size, 2);
    assert_eq!(caps.max_swap_chain_size, 16);
    assert_eq!(caps.current_extent, Some(extent));
    assert_eq!(caps.present_modes, vec![PresentMode::Fifo]);
    assert_eq!(
        caps.composite_alpha_modes,
        vec![
            CompositeAlphaMode::Opaque,
            CompositeAlphaMode::PreMultiplied,
            CompositeAlphaMode::PostMultiplied,
        ]
    );

    let caps = surface_capabilities(None, true);
    assert_eq!(caps.current_extent, None);
    assert_eq!(
        caps.present_modes,
        vec![PresentMode::Fifo, PresentMode::Immediate]
    );
}

#[test]
fn expose_assembles_the_probe_results() {
    let probe = AdapterProbe {
        software_adapter: true,
        uma: false,
        cache_coherent_uma: false,
        resource_heap_tier: 1,
        resource_binding_tier: RESOURCE_BINDING_TIER_2,
        conservative_rasterization_tier: 2,
    };
    let exposed = Adapter::expose(
        AdapterHandle(1),
        DeviceHandle(2),
        flags(),
        String::from("Probe Adapter"),
        0x10DE,
        0x2204,
        probe,
    );
    assert_eq!(exposed.info.device_type, DeviceType::VirtualGpu);
    assert_eq!(exposed.info.name, "Probe Adapter");
    assert_eq!(exposed.info.vendor, 0x10DE);
    assert!(exposed.adapter.workarounds.avoid_cpu_descriptor_overwrites);
    assert_eq!(
        exposed.features,
        BASE_FEATURES | FEATURE_CONSERVATIVE_RASTERIZATION
    );
    assert_eq!(exposed.limits.max_samplers_per_shader_stage, 2048);
    assert_eq!(exposed.buffer_copy_offset, 512);
    assert_eq!(exposed.buffer_copy_pitch, 256);
}
