//! Raw values of the Vulkan enumerations and flags that the renderer's decisions read, and the
//! plain records it exchanges with the code that talks to the device.
use vstd::prelude::*;

verus! {

/// `VK_FORMAT_UNDEFINED`.
pub const FORMAT_UNDEFINED: i32 = 0;
/// `VK_FORMAT_B8G8R8A8_SRGB`.
pub const FORMAT_B8G8R8A8_SRGB: i32 = 50;
/// `VK_FORMAT_R32G32_SFLOAT`.
pub const FORMAT_R32G32_SFLOAT: i32 = 103;
/// `VK_FORMAT_R32G32B32_SFLOAT`.
pub const FORMAT_R32G32B32_SFLOAT: i32 = 106;
/// `VK_FORMAT_D24_UNORM_S8_UINT`.
pub const FORMAT_D24_UNORM_S8_UINT: i32 = 129;
/// `VK_FORMAT_D32_SFLOAT_S8_UINT`.
pub const FORMAT_D32_SFLOAT_S8_UINT: i32 = 130;

/// `VK_COLOR_SPACE_SRGB_NONLINEAR_KHR`.
pub const COLOR_SPACE_SRGB_NONLINEAR: i32 = 0;

/// `VK_PRESENT_MODE_FIFO_KHR`.
pub const PRESENT_MODE_FIFO: i32 = 2;

/// `VK_ERROR_OUT_OF_DATE_KHR`.
pub const ERROR_OUT_OF_DATE: i32 = -1_000_001_004;

/// `VK_DESCRIPTOR_TYPE_COMBINED_IMAGE_SAMPLER`.
pub const DESCRIPTOR_TYPE_COMBINED_IMAGE_SAMPLER: i32 = 1;
/// `VK_DESCRIPTOR_TYPE_UNIFORM_BUFFER`.
pub const DESCRIPTOR_TYPE_UNIFORM_BUFFER: i32 = 6;

/// `VK_FORMAT_FEATURE_DEPTH_STENCIL_ATTACHMENT_BIT`.
pub const FORMAT_FEATURE_DEPTH_STENCIL_ATTACHMENT: u32 = 0x200;

/// `VK_QUEUE_GRAPHICS_BIT`.
pub const QUEUE_GRAPHICS: u32 = 0x1;

/// `VK_PHYSICAL_DEVICE_TYPE_OTHER`.
pub const PHYSICAL_DEVICE_TYPE_OTHER: i32 = 0;
/// `VK_PHYSICAL_DEVICE_TYPE_INTEGRATED_GPU`.
pub const PHYSICAL_DEVICE_TYPE_INTEGRATED_GPU: i32 = 1;
/// `VK_PHYSICAL_DEVICE_TYPE_DISCRETE_GPU`.
pub const PHYSICAL_DEVICE_TYPE_DISCRETE_GPU: i32 = 2;
/// `VK_PHYSICAL_DEVICE_TYPE_VIRTUAL_GPU`.
pub const PHYSICAL_DEVICE_TYPE_VIRTUAL_GPU: i32 = 3;
/// `VK_PHYSICAL_DEVICE_TYPE_CPU`.
pub const PHYSICAL_DEVICE_TYPE_CPU: i32 = 4;

/// `VK_API_VERSION_1_3`.
pub const API_VERSION_1_3: u32 = 4_206_592;

/// `VK_VERTEX_INPUT_RATE_VERTEX`.
pub const VERTEX_INPUT_RATE_VERTEX: i32 = 0;

/// `VK_IMAGE_LAYOUT_UNDEFINED`.
pub const IMAGE_LAYOUT_UNDEFINED: i32 = 0;
/// `VK_IMAGE_LAYOUT_COLOR_ATTACHMENT_OPTIMAL`.
pub const IMAGE_LAYOUT_COLOR_ATTACHMENT_OPTIMAL: i32 = 2;
/// `VK_IMAGE_LAYOUT_DEPTH_STENCIL_ATTACHMENT_OPTIMAL`.
pub const IMAGE_LAYOUT_DEPTH_STENCIL_ATTACHMENT_OPTIMAL: i32 = 3;
/// `VK_IMAGE_LAYOUT_SHADER_READ_ONLY_OPTIMAL`.
pub const IMAGE_LAYOUT_SHADER_READ_ONLY_OPTIMAL: i32 = 5;
/// `VK_IMAGE_LAYOUT_TRANSFER_DST_OPTIMAL`.
pub const IMAGE_LAYOUT_TRANSFER_DST_OPTIMAL: i32 = 7;
/// `VK_IMAGE_LAYOUT_PRESENT_SRC_KHR`.
pub const IMAGE_LAYOUT_PRESENT_SRC: i32 = 1_000_001_002;
/// `VK_IMAGE_LAYOUT_DEPTH_ATTACHMENT_OPTIMAL`.
pub const IMAGE_LAYOUT_DEPTH_ATTACHMENT_OPTIMAL: i32 = 1_000_241_000;

/// `VK_ACCESS_2_NONE`.
pub const ACCESS_NONE: u64 = 0;
/// `VK_ACCESS_2_SHADER_READ_BIT`.
pub const ACCESS_SHADER_READ: u64 = 0x20;
/// `VK_ACCESS_2_COLOR_ATTACHMENT_WRITE_BIT`.
pub const ACCESS_COLOR_ATTACHMENT_WRITE: u64 = 0x100;
/// `VK_ACCESS_2_DEPTH_STENCIL_ATTACHMENT_WRITE_BIT`.
pub const ACCESS_DEPTH_STENCIL_ATTACHMENT_WRITE: u64 = 0x400;
/// `VK_ACCESS_2_TRANSFER_WRITE_BIT`.
pub const ACCESS_TRANSFER_WRITE: u64 = 0x1000;

/// `VK_PIPELINE_STAGE_2_TOP_OF_PIPE_BIT`.
pub const STAGE_TOP_OF_PIPE: u64 = 0x1;
/// `VK_PIPELINE_STAGE_2_FRAGMENT_SHADER_BIT`.
pub const STAGE_FRAGMENT_SHADER: u64 = 0x80;
/// `VK_PIPELINE_STAGE_2_EARLY_FRAGMENT_TESTS_BIT`.
pub const STAGE_EARLY_FRAGMENT_TESTS: u64 = 0x100;
/// `VK_PIPELINE_STAGE_2_LATE_FRAGMENT_TESTS_BIT`.
pub const STAGE_LATE_FRAGMENT_TESTS: u64 = 0x200;
/// `VK_PIPELINE_STAGE_2_COLOR_ATTACHMENT_OUTPUT_BIT`.
pub const STAGE_COLOR_ATTACHMENT_OUTPUT: u64 = 0x400;
/// `VK_PIPELINE_STAGE_2_TRANSFER_BIT`.
pub const STAGE_TRANSFER: u64 = 0x1000;
/// `VK_PIPELINE_STAGE_2_BOTTOM_OF_PIPE_BIT`.
pub const STAGE_BOTTOM_OF_PIPE: u64 = 0x2000;
/// Both fragment test stages, early and late.
pub const STAGE_FRAGMENT_TESTS: u64 = 0x300;

/// `VK_IMAGE_ASPECT_COLOR_BIT`.
pub const ASPECT_COLOR: u32 = 0x1;
/// `VK_IMAGE_ASPECT_DEPTH_BIT`.
pub const ASPECT_DEPTH: u32 = 0x2;
/// `VK_IMAGE_ASPECT_DEPTH_BIT | VK_IMAGE_ASPECT_STENCIL_BIT`.
pub const ASPECT_DEPTH_STENCIL: u32 = 0x6;

/// `VK_SHADER_STAGE_VERTEX_BIT | VK_SHADER_STAGE_FRAGMENT_BIT`.
pub const SHADER_STAGE_VERTEX_FRAGMENT: u32 = 0x11;

/// `VK_PIPELINE_STAGE_COLOR_ATTACHMENT_OUTPUT_BIT` (the 32-bit flags of a queue submission).
pub const SUBMIT_STAGE_COLOR_ATTACHMENT_OUTPUT: u32 = 0x400;

/// `VK_QUEUE_FAMILY_IGNORED`: a barrier that transfers no ownership between queue families.
pub const QUEUE_FAMILY_IGNORED: u32 = 0xffff_ffff;

/// `VK_ATTACHMENT_LOAD_OP_CLEAR`.
pub const ATTACHMENT_LOAD_OP_CLEAR: i32 = 1;
/// `VK_ATTACHMENT_STORE_OP_STORE`.
pub const ATTACHMENT_STORE_OP_STORE: i32 = 0;
/// `VK_ATTACHMENT_STORE_OP_DONT_CARE`.
pub const ATTACHMENT_STORE_OP_DONT_CARE: i32 = 1;

/// `VK_PIPELINE_BIND_POINT_GRAPHICS`.
pub const PIPELINE_BIND_POINT_GRAPHICS: i32 = 0;

/// `VK_INDEX_TYPE_UINT32`.
pub const INDEX_TYPE_UINT32: i32 = 1;

/// `VK_PRIMITIVE_TOPOLOGY_TRIANGLE_LIST`.
pub const PRIMITIVE_TOPOLOGY_TRIANGLE_LIST: i32 = 3;
/// `VK_POLYGON_MODE_FILL`.
pub const POLYGON_MODE_FILL: i32 = 0;
/// `VK_CULL_MODE_BACK_BIT`.
pub const CULL_MODE_BACK: u32 = 0x2;
/// `VK_FRONT_FACE_COUNTER_CLOCKWISE`.
pub const FRONT_FACE_COUNTER_CLOCKWISE: i32 = 0;
/// `VK_SAMPLE_COUNT_1_BIT`.
pub const SAMPLE_COUNT_1: u32 = 0x1;
/// `VK_LOGIC_OP_COPY`.
pub const LOGIC_OP_COPY: i32 = 3;
/// `VK_DYNAMIC_STATE_VIEWPORT`.
pub const DYNAMIC_STATE_VIEWPORT: i32 = 0;
/// `VK_DYNAMIC_STATE_SCISSOR`.
pub const DYNAMIC_STATE_SCISSOR: i32 = 1;
/// `VK_COMPARE_OP_LESS`.
pub const COMPARE_OP_LESS: i32 = 1;
/// `VK_COLOR_COMPONENT_R_BIT | G | B | A`.
pub const COLOR_COMPONENT_RGBA: u32 = 0xf;

/// The bits of the 32-bit float `0.0`.
pub const FLOAT_ZERO_BITS: u32 = 0;
/// The bits of the 32-bit float `1.0`.
pub const FLOAT_ONE_BITS: u32 = 0x3f80_0000;

/// A two-dimensional size in pixels (`VkExtent2D`, or a window's inner size).
#[derive(Clone, Copy, Debug, PartialEq, Eq, Structural)]
pub struct Extent2D {
    pub width: u32,
    pub height: u32,
}

/// A signed two-dimensional offset in pixels (`VkOffset2D`).
#[derive(Clone, Copy, Debug, PartialEq, Eq, Structural)]
pub struct Offset2D {
    pub x: i32,
    pub y: i32,
}

/// A rectangle in pixels (`VkRect2D`).
#[derive(Clone, Copy, Debug, PartialEq, Eq, Structural)]
pub struct Rect2D {
    pub offset: Offset2D,
    pub extent: Extent2D,
}

/// A signed three-dimensional offset in texels (`VkOffset3D`).
#[derive(Clone, Copy, Debug, PartialEq, Eq, Structural)]
pub struct Offset3D {
    pub x: i32,
    pub y: i32,
    pub z: i32,
}

/// A three-dimensional size in texels (`VkExtent3D`).
#[derive(Clone, Copy, Debug, PartialEq, Eq, Structural)]
pub struct Extent3D {
    pub width: u32,
    pub height: u32,
    pub depth: u32,
}

/// A format and colour space that a surface supports (`VkSurfaceFormatKHR`).
#[derive(Clone, Copy, Debug, PartialEq, Eq, Structural)]
pub struct SurfaceFormat {
    pub format: i32,
    pub color_space: i32,
}

} // verus!
