use ash::vk;
use grass_rendering::rendering::vulkan;

#[test]
fn formats_and_enums_match_vulkan() {
    assert_eq!(vulkan::FORMAT_UNDEFINED, vk::Format::UNDEFINED.as_raw());
    assert_eq!(vulkan::FORMAT_B8G8R8A8_SRGB, vk::Format::B8G8R8A8_SRGB.as_raw());
    assert_eq!(vulkan::FORMAT_R32G32_SFLOAT, vk::Format::R32G32_SFLOAT.as_raw());
    assert_eq!(vulkan::FORMAT_R32G32B32_SFLOAT, vk::Format::R32G32B32_SFLOAT.as_raw());
    assert_eq!(vulkan::FORMAT_D24_UNORM_S8_UINT, vk::Format::D24_UNORM_S8_UINT.as_raw());
    assert_eq!(vulkan::FORMAT_D32_SFLOAT_S8_UINT, vk::Format::D32_SFLOAT_S8_UINT.as_raw());
    assert_eq!(vulkan::COLOR_SPACE_SRGB_NONLINEAR, vk::ColorSpaceKHR::SRGB_NONLINEAR.as_raw());
    assert_eq!(vulkan::PRESENT_MODE_FIFO, vk::PresentModeKHR::FIFO.as_raw());
    assert_eq!(vulkan::ERROR_OUT_OF_DATE, vk::Result::ERROR_OUT_OF_DATE_KHR.as_raw());
    assert_eq!(vulkan::DESCRIPTOR_TYPE_COMBINED_IMAGE_SAMPLER, vk::DescriptorType::COMBINED_IMAGE_SAMPLER.as_raw());
    assert_eq!(vulkan::DESCRIPTOR_TYPE_UNIFORM_BUFFER, vk::DescriptorType::UNIFORM_BUFFER.as_raw());
    assert_eq!(vulkan::PHYSICAL_DEVICE_TYPE_OTHER, vk::PhysicalDeviceType::OTHER.as_raw());
    assert_eq!(vulkan::PHYSICAL_DEVICE_TYPE_INTEGRATED_GPU, vk::PhysicalDeviceType::INTEGRATED_GPU.as_raw());
    assert_eq!(vulkan::PHYSICAL_DEVICE_TYPE_DISCRETE_GPU, vk::PhysicalDeviceType::DISCRETE_GPU.as_raw());
    assert_eq!(vulkan::PHYSICAL_DEVICE_TYPE_VIRTUAL_GPU, vk::PhysicalDeviceType::VIRTUAL_GPU.as_raw());
    assert_eq!(vulkan::PHYSICAL_DEVICE_TYPE_CPU, vk::PhysicalDeviceType::CPU.as_raw());
    assert_eq!(vulkan::API_VERSION_1_3, vk::API_VERSION_1_3);
    assert_eq!(vulkan::VERTEX_INPUT_RATE_VERTEX, vk::VertexInputRate::VERTEX.as_raw());
}

#[test]
fn layouts_match_vulkan() {
    assert_eq!(vulkan::IMAGE_LAYOUT_UNDEFINED, vk::ImageLayout::UNDEFINED.as_raw());
    assert_eq!(vulkan::IMAGE_LAYOUT_COLOR_ATTACHMENT_OPTIMAL, vk::ImageLayout::COLOR_ATTACHMENT_OPTIMAL.as_raw());
    assert_eq!(vulkan::IMAGE_LAYOUT_DEPTH_STENCIL_ATTACHMENT_OPTIMAL, vk::ImageLayout::DEPTH_STENCIL_ATTACHMENT_OPTIMAL.as_raw());
    assert_eq!(vulkan::IMAGE_LAYOUT_SHADER_READ_ONLY_OPTIMAL, vk::ImageLayout::SHADER_READ_ONLY_OPTIMAL.as_raw());
    assert_eq!(vulkan::IMAGE_LAYOUT_TRANSFER_DST_OPTIMAL, vk::ImageLayout::TRANSFER_DST_OPTIMAL.as_raw());
    assert_eq!(vulkan::IMAGE_LAYOUT_PRESENT_SRC, vk::ImageLayout::PRESENT_SRC_KHR.as_raw());
    assert_eq!(vulkan::IMAGE_LAYOUT_DEPTH_ATTACHMENT_OPTIMAL, vk::ImageLayout::DEPTH_ATTACHMENT_OPTIMAL.as_raw());
}

#[test]
fn flags_match_vulkan() {
    assert_eq!(vulkan::FORMAT_FEATURE_DEPTH_STENCIL_ATTACHMENT, vk::FormatFeatureFlags::DEPTH_STENCIL_ATTACHMENT.as_raw());
    assert_eq!(vulkan::QUEUE_GRAPHICS, vk::QueueFlags::GRAPHICS.as_raw());
    assert_eq!(vulkan::ACCESS_NONE, vk::AccessFlags2::empty().as_raw());
    assert_eq!(vulkan::ACCESS_SHADER_READ, vk::AccessFlags2::SHADER_READ.as_raw());
    assert_eq!(vulkan::ACCESS_COLOR_ATTACHMENT_WRITE, vk::AccessFlags2::COLOR_ATTACHMENT_WRITE.as_raw());
    assert_eq!(vulkan::ACCESS_DEPTH_STENCIL_ATTACHMENT_WRITE, vk::AccessFlags2::DEPTH_STENCIL_ATTACHMENT_WRITE.as_raw());
    assert_eq!(vulkan::ACCESS_TRANSFER_WRITE, vk::AccessFlags2::TRANSFER_WRITE.as_raw());
    assert_eq!(vulkan::STAGE_TOP_OF_PIPE, vk::PipelineStageFlags2::TOP_OF_PIPE.as_raw());
    assert_eq!(vulkan::STAGE_FRAGMENT_SHADER, vk::PipelineStageFlags2::FRAGMENT_SHADER.as_raw());
    assert_eq!(vulkan::STAGE_EARLY_FRAGMENT_TESTS, vk::PipelineStageFlags2::EARLY_FRAGMENT_TESTS.as_raw());
    assert_eq!(vulkan::STAGE_LATE_FRAGMENT_TESTS, vk::PipelineStageFlags2::LATE_FRAGMENT_TESTS.as_raw());
    assert_eq!(vulkan::STAGE_COLOR_ATTACHMENT_OUTPUT, vk::PipelineStageFlags2::COLOR_ATTACHMENT_OUTPUT.as_raw());
    assert_eq!(vulkan::STAGE_TRANSFER, vk::PipelineStageFlags2::TRANSFER.as_raw());
    assert_eq!(vulkan::STAGE_BOTTOM_OF_PIPE, vk::PipelineStageFlags2::BOTTOM_OF_PIPE.as_raw());
    assert_eq!(vulkan::STAGE_FRAGMENT_TESTS, (vk::PipelineStageFlags2::EARLY_FRAGMENT_TESTS | vk::PipelineStageFlags2::LATE_FRAGMENT_TESTS).as_raw());
    assert_eq!(vulkan::ASPECT_COLOR, vk::ImageAspectFlags::COLOR.as_raw());
    assert_eq!(vulkan::ASPECT_DEPTH, vk::ImageAspectFlags::DEPTH.as_raw());
    assert_eq!(vulkan::ASPECT_DEPTH_STENCIL, (vk::ImageAspectFlags::DEPTH | vk::ImageAspectFlags::STENCIL).as_raw());
    assert_eq!(vulkan::SHADER_STAGE_VERTEX_FRAGMENT, (vk::ShaderStageFlags::VERTEX | vk::ShaderStageFlags::FRAGMENT).as_raw());
}

#[test]
fn recording_values_match_vulkan() {
    assert_eq!(vulkan::QUEUE_FAMILY_IGNORED, vk::QUEUE_FAMILY_IGNORED);
    assert_eq!(vulkan::ATTACHMENT_LOAD_OP_CLEAR, vk::AttachmentLoadOp::CLEAR.as_raw());
    assert_eq!(vulkan::ATTACHMENT_STORE_OP_STORE, vk::AttachmentStoreOp::STORE.as_raw());
    assert_eq!(vulkan::ATTACHMENT_STORE_OP_DONT_CARE, vk::AttachmentStoreOp::DONT_CARE.as_raw());
    assert_eq!(vulkan::PIPELINE_BIND_POINT_GRAPHICS, vk::PipelineBindPoint::GRAPHICS.as_raw());
    assert_eq!(vulkan::INDEX_TYPE_UINT32, vk::IndexType::UINT32.as_raw());
    assert_eq!(vulkan::SUBMIT_STAGE_COLOR_ATTACHMENT_OUTPUT, vk::PipelineStageFlags::COLOR_ATTACHMENT_OUTPUT.as_raw());
    assert_eq!(vulkan::IMAGE_LAYOUT_DEPTH_ATTACHMENT_OPTIMAL, vk::ImageLayout::DEPTH_ATTACHMENT_OPTIMAL.as_raw());
    assert_eq!(f32::from_bits(vulkan::FLOAT_ZERO_BITS), 0.0);
    assert_eq!(f32::from_bits(vulkan::FLOAT_ONE_BITS), 1.0);
}

#[test]
fn pipeline_state_values_match_vulkan() {
    assert_eq!(vulkan::PRIMITIVE_TOPOLOGY_TRIANGLE_LIST, vk::PrimitiveTopology::TRIANGLE_LIST.as_raw());
    assert_eq!(vulkan::POLYGON_MODE_FILL, vk::PolygonMode::FILL.as_raw());
    assert_eq!(vulkan::CULL_MODE_BACK, vk::CullModeFlags::BACK.as_raw());
    assert_eq!(vulkan::FRONT_FACE_COUNTER_CLOCKWISE, vk::FrontFace::COUNTER_CLOCKWISE.as_raw());
    assert_eq!(vulkan::SAMPLE_COUNT_1, vk::SampleCountFlags::TYPE_1.as_raw());
    assert_eq!(vulkan::LOGIC_OP_COPY, vk::LogicOp::COPY.as_raw());
    assert_eq!(vulkan::DYNAMIC_STATE_VIEWPORT, vk::DynamicState::VIEWPORT.as_raw());
    assert_eq!(vulkan::DYNAMIC_STATE_SCISSOR, vk::DynamicState::SCISSOR.as_raw());
    assert_eq!(vulkan::COMPARE_OP_LESS, vk::CompareOp::LESS.as_raw());
    assert_eq!(vulkan::COLOR_COMPONENT_RGBA, vk::ColorComponentFlags::RGBA.as_raw());
}
