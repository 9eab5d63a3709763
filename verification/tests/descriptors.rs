use grass_rendering::rendering::descriptor_management;
use grass_rendering::rendering::vulkan;

fn bindings() -> Vec<descriptor_management::DescriptorSetBinding> {
    vec![
        descriptor_management::DescriptorSetBinding {
            binding: 0,
            descriptor_kind: descriptor_management::DescriptorKind::UniformBuffer { buffers: [100, 200], offset: 8, range: 64 },
            descriptor_count: 1,
            stage_flags: vulkan::SHADER_STAGE_VERTEX_FRAGMENT,
        },
        descriptor_management::DescriptorSetBinding {
            binding: 1,
            descriptor_kind: descriptor_management::DescriptorKind::CombinedSampler { sampler: 7, image_view: 9, image_layout: vulkan::IMAGE_LAYOUT_SHADER_READ_ONLY_OPTIMAL },
            descriptor_count: 1,
            stage_flags: 0x10,
        },
    ]
}

#[test]
fn descriptor_kind_types() {
    let b = bindings();
    assert_eq!(b[0].descriptor_kind.as_type(), vulkan::DESCRIPTOR_TYPE_UNIFORM_BUFFER);
    assert_eq!(b[1].descriptor_kind.as_type(), vulkan::DESCRIPTOR_TYPE_COMBINED_IMAGE_SAMPLER);
}

#[test]
fn layout_and_pool() {
    let b = bindings();
    assert_eq!(
        descriptor_management::layout_bindings(&b),
        vec![
            descriptor_management::LayoutBinding { binding: 0, descriptor_type: vulkan::DESCRIPTOR_TYPE_UNIFORM_BUFFER, descriptor_count: 1, stage_flags: 0x11 },
            descriptor_management::LayoutBinding { binding: 1, descriptor_type: vulkan::DESCRIPTOR_TYPE_COMBINED_IMAGE_SAMPLER, descriptor_count: 1, stage_flags: 0x10 },
        ]
    );
    assert_eq!(
        descriptor_management::pool_sizes(&b),
        vec![
            descriptor_management::PoolSize { ty: vulkan::DESCRIPTOR_TYPE_UNIFORM_BUFFER, descriptor_count: 2 },
            descriptor_management::PoolSize { ty: vulkan::DESCRIPTOR_TYPE_COMBINED_IMAGE_SAMPLER, descriptor_count: 2 },
        ]
    );
}

#[test]
fn each_frame_set_gets_its_own_buffer() {
    let w = descriptor_management::descriptor_writes(&bindings(), &vec![1000, 2000]);
    assert_eq!(w.len(), 2);
    assert_eq!(w[0][0].dst_set, 1000);
    assert_eq!(w[0][0].resource, descriptor_management::DescriptorResource::Buffer { buffer: 100, offset: 8, range: 64 });
    assert_eq!(w[1][0].dst_set, 2000);
    assert_eq!(w[1][0].resource, descriptor_management::DescriptorResource::Buffer { buffer: 200, offset: 8, range: 64 });
    assert_eq!(w[1][1].resource, descriptor_management::DescriptorResource::Image { sampler: 7, image_view: 9, image_layout: vulkan::IMAGE_LAYOUT_SHADER_READ_ONLY_OPTIMAL });
    assert_eq!(w[1][1].dst_binding, 1);
    assert_eq!(w[1][1].dst_array_element, 0);
    assert_eq!(w[1][1].descriptor_type, vulkan::DESCRIPTOR_TYPE_COMBINED_IMAGE_SAMPLER);
}

#[test]
fn no_sets_no_writes() {
    assert!(descriptor_management::descriptor_writes(&bindings(), &vec![]).is_empty());
    assert!(descriptor_management::layout_bindings(&vec![]).is_empty());
}

#[test]
fn mesh_pipeline_binding() {
    let b = descriptor_management::mesh_pipeline_bindings([5, 6], 256);
    assert_eq!(b.len(), 1);
    assert_eq!(b[0].binding, 0);
    assert_eq!(b[0].descriptor_count, 1);
    assert_eq!(b[0].stage_flags, vulkan::SHADER_STAGE_VERTEX_FRAGMENT);
    match b[0].descriptor_kind {
        descriptor_management::DescriptorKind::UniformBuffer { buffers, offset, range } => {
            assert_eq!(buffers, [5, 6]);
            assert_eq!(offset, 0);
            assert_eq!(range, 256);
        }
        _ => panic!("expected a uniform buffer"),
    }
}
