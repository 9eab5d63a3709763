//! Graphics pipelines and the fixed-function state they share.
use vstd::prelude::*;

pub mod mesh;

use crate::rendering::vulkan::{
    CULL_MODE_BACK, DYNAMIC_STATE_SCISSOR, DYNAMIC_STATE_VIEWPORT, FLOAT_ONE_BITS,
    FRONT_FACE_COUNTER_CLOCKWISE, LOGIC_OP_COPY, POLYGON_MODE_FILL, PRIMITIVE_TOPOLOGY_TRIANGLE_LIST,
    SAMPLE_COUNT_1,
};

verus! {

/// The fixed-function state that every graphics pipeline of the renderer shares, by raw Vulkan
/// values (the line width by its float bits): input assembly, viewport counts, rasterization,
/// multisampling, the colour blend logic op and the dynamic states.
#[derive(Clone, Copy, Debug, PartialEq, Eq)]
pub struct FixedFunctionState {
    pub topology: i32,
    pub viewport_count: u32,
    pub scissor_count: u32,
    pub depth_clamp_enable: bool,
    pub rasterizer_discard_enable: bool,
    pub polygon_mode: i32,
    pub cull_mode: u32,
    pub front_face: i32,
    pub depth_bias_enable: bool,
    pub line_width_bits: u32,
    pub rasterization_samples: u32,
    pub sample_shading_enable: bool,
    pub logic_op_enable: bool,
    pub logic_op: i32,
    pub dynamic_states: [i32; 2],
}

/// Filled triangle lists with back faces (clockwise on screen) culled, one sample per pixel, no
/// blending logic op, one viewport and one scissor, both set when recording.
pub open spec fn basic_state() -> FixedFunctionState {
    FixedFunctionState {
        topology: PRIMITIVE_TOPOLOGY_TRIANGLE_LIST,
        viewport_count: 1,
        scissor_count: 1,
        depth_clamp_enable: false,
        rasterizer_discard_enable: false,
        polygon_mode: POLYGON_MODE_FILL,
        cull_mode: CULL_MODE_BACK,
        front_face: FRONT_FACE_COUNTER_CLOCKWISE,
        depth_bias_enable: false,
        line_width_bits: FLOAT_ONE_BITS,
        rasterization_samples: SAMPLE_COUNT_1,
        sample_shading_enable: false,
        logic_op_enable: false,
        logic_op: LOGIC_OP_COPY,
        dynamic_states: [DYNAMIC_STATE_VIEWPORT, DYNAMIC_STATE_SCISSOR],
    }
}

/// The fixed-function state of a basic graphics pipeline description.
pub fn basic_fixed_function_state() -> (state: FixedFunctionState)
    ensures
        state == basic_state(),
{
    FixedFunctionState {
        topology: PRIMITIVE_TOPOLOGY_TRIANGLE_LIST,
        viewport_count: 1,
        scissor_count: 1,
        depth_clamp_enable: false,
        rasterizer_discard_enable: false,
        polygon_mode: POLYGON_MODE_FILL,
        cull_mode: CULL_MODE_BACK,
        front_face: FRONT_FACE_COUNTER_CLOCKWISE,
        depth_bias_enable: false,
        line_width_bits: FLOAT_ONE_BITS,
        rasterization_samples: SAMPLE_COUNT_1,
        sample_shading_enable: false,
        logic_op_enable: false,
        logic_op: LOGIC_OP_COPY,
        dynamic_states: [DYNAMIC_STATE_VIEWPORT, DYNAMIC_STATE_SCISSOR],
    }
}

} // verus!
