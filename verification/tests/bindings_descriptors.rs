use troxel_core::bindings::{
    create_bind_group_layout_entry, create_uniform_bind_group, create_uniform_bind_group_layout,
    default_texture_bind_group_layout, BindGroupLayoutEntry, BindingType, BufferBinding,
    FRAGMENT_STAGE, VERTEX_STAGE,
};
use troxel_core::buffer::{bind_buffer, plan_allocation, request_buffer, UNIFORM_USAGE};
use troxel_core::memory::{MemoryRequirements, MemoryTypeInfo, CPU_VISIBLE};

#[test]
fn uniform_layout_has_one_non_dynamic_entry() {
    let layout = create_uniform_bind_group_layout(VERTEX_STAGE, 0);
    assert_eq!(
        layout.entries,
        vec![BindGroupLayoutEntry {
            binding: 0,
            visibility: VERTEX_STAGE,
            ty: BindingType::UniformBuffer { dynamic: false },
        }]
    );
}

#[test]
fn uniform_bind_group_exposes_exactly_the_uniform_bytes() {
    let request = request_buffer(256, UNIFORM_USAGE, CPU_VISIBLE).unwrap();
    let types = vec![MemoryTypeInfo { property_flags: CPU_VISIBLE }];
    let requirements = MemoryRequirements { size: 256, type_mask: 0b1 };
    let plan = plan_allocation(&request, &requirements, &types).unwrap();
    let uniform_buffer = bind_buffer(&request, &plan);

    let (group, layout) =
        create_uniform_bind_group(VERTEX_STAGE, 0, 0, &uniform_buffer, 64);
    assert_eq!(layout.entries.len(), 1);
    assert_eq!(group.bindings, vec![BufferBinding { binding: 0, range_end: 64 }]);
}

#[test]
fn texture_layout_pairs_texture_and_sampler_for_fragment_stage() {
    let layout = default_texture_bind_group_layout();
    assert_eq!(
        layout.entries,
        vec![
            create_bind_group_layout_entry(
                0,
                FRAGMENT_STAGE,
                BindingType::SampledTexture { multisampled: false },
            ),
            create_bind_group_layout_entry(
                1,
                FRAGMENT_STAGE,
                BindingType::Sampler { comparison: false },
            ),
        ]
    );
}
