use dx12_hal::layout::{
    build_pipeline_layout, BindGroupLayout, BindGroupLayoutEntry, BindingType,
    BufferBindingType, BufferViewKind, LayoutError,
};
use dx12_hal::resource::RootSignatureHandle;

fn entry(binding: u32, ty: BindingType) -> BindGroupLayoutEntry {
    BindGroupLayoutEntry { binding, ty }
}

fn dynamic_uniform(binding: u32) -> BindGroupLayoutEntry {
    entry(
        binding,
        BindingType::Buffer { ty: BufferBindingType::Uniform, has_dynamic_offset: true },
    )
}

#[test]
fn two_group_layout_places_slots_in_order() {
    // First group: one dynamic uniform buffer and one texture table,
    // two slots. Second group: one sampler table, one slot.
    let group0 = BindGroupLayout {
        entries: vec![dynamic_uniform(0), entry(1, BindingType::Texture)],
    };
    let group1 = BindGroupLayout { entries: vec![entry(0, BindingType::Sampler)] };
    let layouts = vec![group0, group1];
    let pl = build_pipeline_layout(&layouts, false, RootSignatureHandle(77)).unwrap();

    assert_eq!(pl.shared.total_root_elements, 3);
    assert_eq!(pl.shared.signature, RootSignatureHandle(77));
    assert_eq!(pl.shared.special_constants_root_index, None);
    assert_eq!(pl.group_count(), 2);

    let info0 = pl.group_info(0);
    assert_eq!(info0.base_root_index, 0);
    assert!(info0.tables.srv_cbv_uav);
    assert!(!info0.tables.samplers);
    assert_eq!(info0.dynamic_buffers, vec![BufferViewKind::Constant]);

    let info1 = pl.group_info(1);
    assert_eq!(info1.base_root_index, 2);
    assert!(!info1.tables.srv_cbv_uav);
    assert!(info1.tables.samplers);
    assert!(info1.dynamic_buffers.is_empty());
}

#[test]
fn special_constants_take_the_leading_slot() {
    let group0 = BindGroupLayout { entries: vec![entry(0, BindingType::Texture)] };
    let layouts = vec![group0];
    let pl = build_pipeline_layout(&layouts, true, RootSignatureHandle(1)).unwrap();
    assert_eq!(pl.shared.special_constants_root_index, Some(0));
    assert_eq!(pl.shared.total_root_elements, 2);
    assert_eq!(pl.group_info(0).base_root_index, 1);
}

#[test]
fn dynamic_buffer_kinds_follow_entry_order() {
    let group0 = BindGroupLayout {
        entries: vec![
            dynamic_uniform(0),
            entry(
                1,
                BindingType::Buffer {
                    ty: BufferBindingType::Storage { read_only: true },
                    has_dynamic_offset: true,
                },
            ),
            entry(
                2,
                BindingType::Buffer {
                    ty: BufferBindingType::Storage { read_only: false },
                    has_dynamic_offset: true,
                },
            ),
            entry(
                3,
                BindingType::Buffer { ty: BufferBindingType::Uniform, has_dynamic_offset: false },
            ),
        ],
    };
    let layouts = vec![group0];
    let pl = build_pipeline_layout(&layouts, false, RootSignatureHandle(5)).unwrap();
    // One table (the non-dynamic buffer) plus three dynamic slots.
    assert_eq!(pl.shared.total_root_elements, 4);
    let info = pl.group_info(0);
    assert_eq!(
        info.dynamic_buffers,
        vec![
            BufferViewKind::Constant,
            BufferViewKind::ShaderResource,
            BufferViewKind::UnorderedAccess,
        ]
    );
}

#[test]
fn oversized_layouts_fail_with_a_capacity_error() {
    // 65 dynamic buffers demand 65 root slots: more than the budget.
    let entries: Vec<BindGroupLayoutEntry> = (0..65).map(dynamic_uniform).collect();
    let layouts = vec![BindGroupLayout { entries }];
    assert!(matches!(
        build_pipeline_layout(&layouts, false, RootSignatureHandle(9)),
        Err(LayoutError::Capacity)
    ));
}

#[test]
fn the_budget_boundary_is_exact() {
    // 64 slots exactly fit; the special-constants slot tips it over.
    let entries: Vec<BindGroupLayoutEntry> = (0..64).map(dynamic_uniform).collect();
    let layouts = vec![BindGroupLayout { entries }];
    let pl = build_pipeline_layout(&layouts, false, RootSignatureHandle(9)).unwrap();
    assert_eq!(pl.shared.total_root_elements, 64);
    assert!(matches!(
        build_pipeline_layout(&layouts, true, RootSignatureHandle(9)),
        Err(LayoutError::Capacity)
    ));
}

#[test]
fn empty_groups_demand_nothing() {
    let layouts = vec![
        BindGroupLayout { entries: vec![] },
        BindGroupLayout { entries: vec![entry(0, BindingType::StorageTexture)] },
    ];
    let pl = build_pipeline_layout(&layouts, false, RootSignatureHandle(2)).unwrap();
    assert_eq!(pl.shared.total_root_elements, 1);
    let info0 = pl.group_info(0);
    assert!(!info0.tables.srv_cbv_uav && !info0.tables.samplers);
    assert_eq!(pl.group_info(1).base_root_index, 0);
}
