use dx12_hal::resource::{
    Buffer, BufferBinding, Extent3d, ResourceHandle, Texture, TextureCopyBase, TextureDimension,
    TextureFormat,
};

fn texture(dimension: TextureDimension, layers: u32, mips: u32) -> Texture {
    Texture {
        resource: ResourceHandle(3),
        format: TextureFormat::Rgba8Unorm,
        dimension,
        size: Extent3d { width: 128, height: 128, depth_or_array_layers: layers },
        mip_level_count: mips,
        sample_count: 1,
    }
}

#[test]
fn layer_counts_depend_on_the_dimension() {
    assert_eq!(texture(TextureDimension::D1, 6, 1).array_layer_count(), 6);
    assert_eq!(texture(TextureDimension::D2, 6, 1).array_layer_count(), 6);
    // A 3D texture's third extent component is depth, not layers.
    assert_eq!(texture(TextureDimension::D3, 6, 1).array_layer_count(), 1);
}

#[test]
fn subresource_indices_interleave_mips_layers_and_planes() {
    let t = texture(TextureDimension::D2, 4, 3);
    // mip + (layer + plane * layers) * mips
    assert_eq!(t.calc_subresource(0, 0, 0), 0);
    assert_eq!(t.calc_subresource(2, 0, 0), 2);
    assert_eq!(t.calc_subresource(1, 2, 0), 1 + 2 * 3);
    assert_eq!(t.calc_subresource(1, 2, 1), 1 + (2 + 4) * 3);
}

#[test]
fn copies_start_at_plane_zero() {
    let t = texture(TextureDimension::D2, 4, 3);
    let base = TextureCopyBase { mip_level: 1, array_layer: 2 };
    assert_eq!(t.calc_subresource_for_copy(&base), t.calc_subresource(1, 2, 0));
}

#[test]
fn bindings_resolve_their_size_and_address() {
    let buffer = Buffer { resource: ResourceHandle(8), size: 1024, gpu_address: 0x4000 };
    let explicit = BufferBinding { buffer: &buffer, offset: 256, size: Some(128) };
    assert_eq!(explicit.resolve_size(), 128);
    assert_eq!(explicit.resolve_address(), 0x4000 + 256);

    // An absent size means "to the end of the buffer".
    let rest = BufferBinding { buffer: &buffer, offset: 256, size: None };
    assert_eq!(rest.resolve_size(), 1024 - 256);
}
