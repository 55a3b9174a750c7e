use dx12_hal::resource::{Extent3d, NativeFormat, ResourceHandle, Texture, TextureDimension, TextureFormat};
use dx12_hal::view::{
    DsvDimension, FormatAspects, RtvDimension, SrvDimension, TextureSubresourceRange,
    TextureViewDescriptor, TextureViewDimension, UavDimension, ViewDescriptor, ViewError,
    DSV_FLAG_READ_ONLY_DEPTH, DSV_FLAG_READ_ONLY_STENCIL, D3D12_DEFAULT_SHADER_4_COMPONENT_MAPPING,
    UNBOUNDED_COUNT,
};

fn view(dimension: TextureViewDimension, multisampled: bool, array_base: u32, array_count: u32) -> ViewDescriptor {
    ViewDescriptor {
        dimension,
        format: NativeFormat(28),
        format_nodepth: NativeFormat(29),
        multisampled,
        array_layer_base: array_base,
        array_layer_count: array_count,
        mip_level_base: 1,
        mip_level_count: 3,
    }
}

#[test]
fn uav_and_rtv_reject_cube_dimensions() {
    for dim in [TextureViewDimension::Cube, TextureViewDimension::CubeArray] {
        let v = view(dim, false, 0, 6);
        assert_eq!(v.to_uav(), Err(ViewError::UnsupportedDimension));
        assert_eq!(v.to_rtv(), Err(ViewError::UnsupportedDimension));
    }
}

#[test]
fn dsv_rejects_cube_and_3d_dimensions() {
    let aspects = FormatAspects { depth: false, stencil: false };
    for dim in [
        TextureViewDimension::D3,
        TextureViewDimension::Cube,
        TextureViewDimension::CubeArray,
    ] {
        let v = view(dim, false, 0, 1);
        assert_eq!(v.to_dsv(aspects), Err(ViewError::UnsupportedDimension));
    }
}

#[test]
fn plain_2d_wins_whenever_array_base_is_zero() {
    // Regardless of the array count, a non-multisampled 2D request with
    // base layer zero takes the plain-2D path.
    for count in [1, 2, 6, UNBOUNDED_COUNT] {
        let v = view(TextureViewDimension::D2, false, 0, count);
        assert_eq!(
            v.to_srv().dimension,
            SrvDimension::Tex2d { most_detailed_mip: 1, mip_levels: 3, plane_slice: 0 }
        );
        assert_eq!(
            v.to_uav().unwrap().dimension,
            UavDimension::Tex2d { mip_slice: 1, plane_slice: 0 }
        );
        assert_eq!(
            v.to_rtv().unwrap().dimension,
            RtvDimension::Tex2d { mip_slice: 1, plane_slice: 0 }
        );
        let aspects = FormatAspects { depth: false, stencil: false };
        assert_eq!(
            v.to_dsv(aspects).unwrap().dimension,
            DsvDimension::Tex2d { mip_slice: 1 }
        );
    }
}

#[test]
fn multisampled_base_zero_is_plain_multisampled() {
    // Both the 2D and the explicit 2D-array request take the plain
    // multisampled view when the base layer is zero.
    for dim in [TextureViewDimension::D2, TextureViewDimension::D2Array] {
        let v = view(dim, true, 0, 4);
        assert_eq!(v.to_srv().dimension, SrvDimension::Tex2dMs);
        assert_eq!(v.to_rtv().unwrap().dimension, RtvDimension::Tex2dMs);
        let aspects = FormatAspects { depth: false, stencil: false };
        assert_eq!(v.to_dsv(aspects).unwrap().dimension, DsvDimension::Tex2dMs);
    }
}

#[test]
fn multisampled_nonzero_base_is_a_multisampled_array() {
    for dim in [TextureViewDimension::D2, TextureViewDimension::D2Array] {
        let v = view(dim, true, 2, 4);
        assert_eq!(
            v.to_srv().dimension,
            SrvDimension::Tex2dMsArray { first_array_slice: 2, array_size: 4 }
        );
        assert_eq!(
            v.to_rtv().unwrap().dimension,
            RtvDimension::Tex2dMsArray { first_array_slice: 2, array_size: 4 }
        );
        let aspects = FormatAspects { depth: false, stencil: false };
        assert_eq!(
            v.to_dsv(aspects).unwrap().dimension,
            DsvDimension::Tex2dMsArray { first_array_slice: 2, array_size: 4 }
        );
    }
}

#[test]
fn array_views_carry_their_window() {
    let v = view(TextureViewDimension::D2Array, false, 3, 5);
    assert_eq!(
        v.to_srv().dimension,
        SrvDimension::Tex2dArray {
            most_detailed_mip: 1,
            mip_levels: 3,
            first_array_slice: 3,
            array_size: 5,
            plane_slice: 0,
        }
    );
    assert_eq!(
        v.to_uav().unwrap().dimension,
        UavDimension::Tex2dArray { mip_slice: 1, first_array_slice: 3, array_size: 5, plane_slice: 0 }
    );
    assert_eq!(
        v.to_dsv(FormatAspects { depth: false, stencil: false }).unwrap().dimension,
        DsvDimension::Tex2dArray { mip_slice: 1, first_array_slice: 3, array_size: 5 }
    );
}

#[test]
fn one_dimensional_views_take_the_simple_path() {
    let v = view(TextureViewDimension::D1, false, 0, 1);
    assert_eq!(
        v.to_srv().dimension,
        SrvDimension::Tex1d { most_detailed_mip: 1, mip_levels: 3 }
    );
    assert_eq!(v.to_uav().unwrap().dimension, UavDimension::Tex1d { mip_slice: 1 });
    assert_eq!(v.to_rtv().unwrap().dimension, RtvDimension::Tex1d { mip_slice: 1 });
}

#[test]
fn three_dimensional_views_carry_w_slices() {
    let v = view(TextureViewDimension::D3, false, 2, 7);
    assert_eq!(
        v.to_srv().dimension,
        SrvDimension::Tex3d { most_detailed_mip: 1, mip_levels: 3 }
    );
    assert_eq!(
        v.to_uav().unwrap().dimension,
        UavDimension::Tex3d { mip_slice: 1, first_w_slice: 2, w_size: 7 }
    );
    assert_eq!(
        v.to_rtv().unwrap().dimension,
        RtvDimension::Tex3d { mip_slice: 1, first_w_slice: 2, w_size: 7 }
    );
}

#[test]
fn cube_at_base_zero_is_plain_cube() {
    let v = view(TextureViewDimension::Cube, false, 0, 6);
    assert_eq!(
        v.to_srv().dimension,
        SrvDimension::Cube { most_detailed_mip: 1, mip_levels: 3 }
    );
}

#[test]
fn cube_array_divides_layers_into_cubes() {
    let v = view(TextureViewDimension::CubeArray, false, 6, 12);
    assert_eq!(
        v.to_srv().dimension,
        SrvDimension::CubeArray {
            most_detailed_mip: 1,
            mip_levels: 3,
            first_2d_array_face: 6,
            num_cubes: 2,
        }
    );
}

#[test]
fn cube_array_passes_the_unbounded_sentinel_through() {
    // The sentinel must not be divided by six.
    let v = view(TextureViewDimension::CubeArray, false, 0, UNBOUNDED_COUNT);
    assert_eq!(
        v.to_srv().dimension,
        SrvDimension::CubeArray {
            most_detailed_mip: 1,
            mip_levels: 3,
            first_2d_array_face: 0,
            num_cubes: UNBOUNDED_COUNT,
        }
    );
}

#[test]
fn srv_uses_the_depth_stripped_format() {
    let v = view(TextureViewDimension::D2, false, 0, 1);
    assert_eq!(v.to_srv().format, NativeFormat(29));
    assert_eq!(
        v.to_srv().shader_4_component_mapping,
        D3D12_DEFAULT_SHADER_4_COMPONENT_MAPPING
    );
    assert_eq!(v.to_rtv().unwrap().format, NativeFormat(28));
}

#[test]
fn dsv_read_only_flags_follow_the_aspects() {
    let v = view(TextureViewDimension::D2, false, 0, 1);
    assert_eq!(v.to_dsv(FormatAspects { depth: false, stencil: false }).unwrap().flags, 0);
    assert_eq!(
        v.to_dsv(FormatAspects { depth: true, stencil: false }).unwrap().flags,
        DSV_FLAG_READ_ONLY_DEPTH
    );
    assert_eq!(
        v.to_dsv(FormatAspects { depth: false, stencil: true }).unwrap().flags,
        DSV_FLAG_READ_ONLY_STENCIL
    );
    assert_eq!(
        v.to_dsv(FormatAspects { depth: true, stencil: true }).unwrap().flags,
        DSV_FLAG_READ_ONLY_DEPTH | DSV_FLAG_READ_ONLY_STENCIL
    );
}

#[test]
fn to_internal_resolves_counts_and_multisampling() {
    let texture = Texture {
        resource: ResourceHandle(11),
        format: TextureFormat::Rgba8Unorm,
        dimension: TextureDimension::D2,
        size: Extent3d { width: 256, height: 256, depth_or_array_layers: 8 },
        mip_level_count: 4,
        sample_count: 4,
    };
    let desc = TextureViewDescriptor {
        dimension: TextureViewDimension::D2Array,
        format: TextureFormat::Rgba8Unorm,
        range: TextureSubresourceRange {
            base_mip_level: 2,
            mip_level_count: None,
            base_array_layer: 1,
            array_layer_count: Some(4),
        },
    };
    let v = desc.to_internal(&texture, NativeFormat(28), NativeFormat(29));
    assert!(v.multisampled);
    assert_eq!(v.mip_level_base, 2);
    assert_eq!(v.mip_level_count, UNBOUNDED_COUNT);
    assert_eq!(v.array_layer_base, 1);
    assert_eq!(v.array_layer_count, 4);

    let single_sampled = Texture { sample_count: 1, ..texture };
    let v = desc.to_internal(&single_sampled, NativeFormat(28), NativeFormat(29));
    assert!(!v.multisampled);
}
