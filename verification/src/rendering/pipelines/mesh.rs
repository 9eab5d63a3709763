//! The mesh pipeline's per-frame command recording.
use vstd::prelude::*;

use crate::rendering::descriptor_management::{write_of, DescriptorResource, DescriptorSetBinding};
use crate::rendering::utils::{
    image_barrier, transition_image_layout, ClearValue, RenderCommand, RenderingAttachment, Viewport,
};
use crate::rendering::{submit_present_plan, FrameSyncObjects, MAX_FRAMES_IN_FLIGHT};
use crate::rendering::vulkan::{
    Extent2D, Offset2D, Rect2D, ACCESS_COLOR_ATTACHMENT_WRITE, ACCESS_DEPTH_STENCIL_ATTACHMENT_WRITE,
    ACCESS_NONE, ASPECT_COLOR, ASPECT_DEPTH_STENCIL, ATTACHMENT_LOAD_OP_CLEAR, COLOR_COMPONENT_RGBA,
    COMPARE_OP_LESS,
    ATTACHMENT_STORE_OP_DONT_CARE, ATTACHMENT_STORE_OP_STORE, FLOAT_ONE_BITS, FLOAT_ZERO_BITS,
    IMAGE_LAYOUT_COLOR_ATTACHMENT_OPTIMAL, IMAGE_LAYOUT_DEPTH_ATTACHMENT_OPTIMAL,
    IMAGE_LAYOUT_DEPTH_STENCIL_ATTACHMENT_OPTIMAL, IMAGE_LAYOUT_PRESENT_SRC, IMAGE_LAYOUT_UNDEFINED,
    INDEX_TYPE_UINT32, PIPELINE_BIND_POINT_GRAPHICS, STAGE_BOTTOM_OF_PIPE,
    STAGE_COLOR_ATTACHMENT_OUTPUT, STAGE_FRAGMENT_TESTS,
};

verus! {

/// What the mesh pipeline reads to record a frame. Handles are raw Vulkan handles; the per-frame
/// and per-image lists are indexed by frame slot and swapchain image index.
pub struct MeshFrameResources {
    pub command_buffers: Vec<u64>,
    pub descriptor_sets: Vec<u64>,
    pub swapchain_images: Vec<u64>,
    pub swapchain_image_views: Vec<u64>,
    pub swapchain_extent: Extent2D,
    pub depth_image: u64,
    pub depth_image_view: u64,
    pub pipeline: u64,
    pub pipeline_layout: u64,
    pub vertex_buffer: u64,
    pub index_buffer: u64,
    pub index_count: usize,
}

/// The depth and stencil tests of a pipeline (`VkPipelineDepthStencilStateCreateInfo`).
#[derive(Clone, Copy, Debug, PartialEq, Eq, Structural)]
pub struct DepthStencilState {
    pub depth_test_enable: bool,
    pub depth_write_enable: bool,
    pub depth_compare_op: i32,
    pub depth_bounds_test_enable: bool,
    pub stencil_test_enable: bool,
}

/// How a pipeline writes one colour attachment (`VkPipelineColorBlendAttachmentState`).
#[derive(Clone, Copy, Debug, PartialEq, Eq, Structural)]
pub struct ColorBlendAttachment {
    pub blend_enable: bool,
    pub color_write_mask: u32,
}

/// The mesh pipeline keeps the nearest fragment: it tests and writes depth, passing fragments
/// that are closer than what is stored, with no depth bounds and no stencil test.
pub fn mesh_depth_stencil_state() -> (state: DepthStencilState)
    ensures
        state == (DepthStencilState {
            depth_test_enable: true,
            depth_write_enable: true,
            depth_compare_op: COMPARE_OP_LESS,
            depth_bounds_test_enable: false,
            stencil_test_enable: false,
        }),
{
    DepthStencilState {
        depth_test_enable: true,
        depth_write_enable: true,
        depth_compare_op: COMPARE_OP_LESS,
        depth_bounds_test_enable: false,
        stencil_test_enable: false,
    }
}

/// The mesh pipeline writes all four colour channels of its one attachment, without blending.
pub fn mesh_color_blend_attachment() -> (attachment: ColorBlendAttachment)
    ensures
        attachment == (ColorBlendAttachment { blend_enable: false, color_write_mask: COLOR_COMPONENT_RGBA }),
{
    ColorBlendAttachment { blend_enable: false, color_write_mask: COLOR_COMPONENT_RGBA }
}

/// A command buffer and the commands recorded into it between begin and end.
pub struct Recording {
    pub command_buffer: u64,
    pub commands: Vec<RenderCommand>,
}

/// The rectangle at the origin that covers `extent`.
pub open spec fn full_rect(extent: Extent2D) -> Rect2D {
    Rect2D { offset: Offset2D { x: 0, y: 0 }, extent }
}

/// Begins rendering over the whole extent, in one layer, into a colour view that is cleared to
/// transparent black and stored, and a depth view that is cleared to depth 1 and stencil 0 and
/// not stored.
pub open spec fn begin_frame_rendering(color_view: u64, depth_view: u64, extent: Extent2D) -> RenderCommand {
    RenderCommand::BeginRendering {
        render_area: full_rect(extent),
        layer_count: 1,
        color_attachment: RenderingAttachment {
            image_view: color_view,
            image_layout: IMAGE_LAYOUT_COLOR_ATTACHMENT_OPTIMAL,
            load_op: ATTACHMENT_LOAD_OP_CLEAR,
            store_op: ATTACHMENT_STORE_OP_STORE,
            clear_value: ClearValue::Color {
                red_bits: FLOAT_ZERO_BITS,
                green_bits: FLOAT_ZERO_BITS,
                blue_bits: FLOAT_ZERO_BITS,
                alpha_bits: FLOAT_ZERO_BITS,
            },
        },
        depth_attachment: RenderingAttachment {
            image_view: depth_view,
            image_layout: IMAGE_LAYOUT_DEPTH_ATTACHMENT_OPTIMAL,
            load_op: ATTACHMENT_LOAD_OP_CLEAR,
            store_op: ATTACHMENT_STORE_OP_DONT_CARE,
            clear_value: ClearValue::DepthStencil { depth_bits: FLOAT_ONE_BITS, stencil: 0 },
        },
    }
}

/// The viewport at the origin over the whole extent, with depths from 0 to 1.
pub open spec fn full_viewport(extent: Extent2D) -> Viewport {
    Viewport {
        x_bits: FLOAT_ZERO_BITS,
        y_bits: FLOAT_ZERO_BITS,
        extent,
        min_depth_bits: FLOAT_ZERO_BITS,
        max_depth_bits: FLOAT_ONE_BITS,
    }
}

/// The commands of one frame: prepare the swapchain image and the depth image as attachments,
/// draw the indexed mesh with the frame's descriptor set over the whole swapchain extent, and
/// hand the swapchain image over for presentation.
pub open spec fn mesh_frame_commands(r: MeshFrameResources, frame_index: int, image_index: int) -> Seq<RenderCommand> {
    let image = r.swapchain_images@[image_index];
    seq![
        image_barrier(
            image,
            IMAGE_LAYOUT_UNDEFINED,
            IMAGE_LAYOUT_COLOR_ATTACHMENT_OPTIMAL,
            ACCESS_NONE,
            ACCESS_COLOR_ATTACHMENT_WRITE,
            STAGE_COLOR_ATTACHMENT_OUTPUT,
            STAGE_COLOR_ATTACHMENT_OUTPUT,
            ASPECT_COLOR,
        ),
        image_barrier(
            r.depth_image,
            IMAGE_LAYOUT_UNDEFINED,
            IMAGE_LAYOUT_DEPTH_STENCIL_ATTACHMENT_OPTIMAL,
            ACCESS_DEPTH_STENCIL_ATTACHMENT_WRITE,
            ACCESS_DEPTH_STENCIL_ATTACHMENT_WRITE,
            STAGE_FRAGMENT_TESTS,
            STAGE_FRAGMENT_TESTS,
            ASPECT_DEPTH_STENCIL,
        ),
        begin_frame_rendering(r.swapchain_image_views@[image_index], r.depth_image_view, r.swapchain_extent),
        RenderCommand::BindPipeline { bind_point: PIPELINE_BIND_POINT_GRAPHICS, pipeline: r.pipeline },
        RenderCommand::BindVertexBuffer { first_binding: 0, buffer: r.vertex_buffer, offset: 0 },
        RenderCommand::BindIndexBuffer { buffer: r.index_buffer, offset: 0, index_type: INDEX_TYPE_UINT32 },
        RenderCommand::SetViewport { first_viewport: 0, viewport: full_viewport(r.swapchain_extent) },
        RenderCommand::SetScissor { first_scissor: 0, scissor: full_rect(r.swapchain_extent) },
        RenderCommand::BindDescriptorSet {
            bind_point: PIPELINE_BIND_POINT_GRAPHICS,
            layout: r.pipeline_layout,
            first_set: 0,
            set: r.descriptor_sets@[frame_index],
        },
        RenderCommand::DrawIndexed {
            index_count: r.index_count as u32,
            instance_count: 1,
            first_index: 0,
            vertex_offset: 0,
            first_instance: 0,
        },
        RenderCommand::EndRendering,
        image_barrier(
            image,
            IMAGE_LAYOUT_COLOR_ATTACHMENT_OPTIMAL,
            IMAGE_LAYOUT_PRESENT_SRC,
            ACCESS_COLOR_ATTACHMENT_WRITE,
            ACCESS_NONE,
            STAGE_COLOR_ATTACHMENT_OUTPUT,
            STAGE_BOTTOM_OF_PIPE,
            ASPECT_COLOR,
        ),
    ]
}

/// What the commands `c` of the frame of slot `frame` rendered into swapchain image `image` must
/// do with the resources `r`:
/// - the first command moves the colour aspect of that swapchain image from an undefined layout
///   to the colour attachment layout, and the last moves its colour aspect from that layout to
///   the one presentation reads; both cover its first level and layer;
/// - the second moves the depth and stencil aspects of the depth image to a depth layout;
/// - rendering draws into the view of that same swapchain image, in the layout the first
///   barrier left it in, and into the depth image's view, both over the whole extent;
/// - the pipeline, vertex and index buffers drawn with are the given ones, the descriptor set
///   bound is the frame's own, and the draw covers `index_count` indices once.
pub open spec fn frame_draws_into_image(c: Seq<RenderCommand>, r: MeshFrameResources, frame: int, image: int) -> bool {
    let swapchain_image = r.swapchain_images@[image];
    &&& c.len() == 12
    &&& c[0] matches RenderCommand::TransitionImageLayout(t) && t.image == swapchain_image
        && t.subresource_range.aspect_mask == ASPECT_COLOR && t.subresource_range.level_count == 1
        && t.subresource_range.layer_count == 1 && t.old_layout == IMAGE_LAYOUT_UNDEFINED
        && t.new_layout == IMAGE_LAYOUT_COLOR_ATTACHMENT_OPTIMAL
    &&& c[11] matches RenderCommand::TransitionImageLayout(t) && t.image == swapchain_image
        && t.subresource_range.aspect_mask == ASPECT_COLOR && t.subresource_range.level_count == 1
        && t.subresource_range.layer_count == 1 && t.old_layout == IMAGE_LAYOUT_COLOR_ATTACHMENT_OPTIMAL
        && t.new_layout == IMAGE_LAYOUT_PRESENT_SRC
    &&& c[1] matches RenderCommand::TransitionImageLayout(t) && t.image == r.depth_image
        && t.subresource_range.aspect_mask == ASPECT_DEPTH_STENCIL
        && t.new_layout == IMAGE_LAYOUT_DEPTH_STENCIL_ATTACHMENT_OPTIMAL
    &&& c[2] matches RenderCommand::BeginRendering { render_area, layer_count, color_attachment, depth_attachment }
        && color_attachment.image_view == r.swapchain_image_views@[image]
        && color_attachment.image_layout == IMAGE_LAYOUT_COLOR_ATTACHMENT_OPTIMAL
        && depth_attachment.image_view == r.depth_image_view
        && render_area.offset.x == 0 && render_area.offset.y == 0 && render_area.extent == r.swapchain_extent
        && layer_count == 1
    &&& c[3] matches RenderCommand::BindPipeline { pipeline, .. } && pipeline == r.pipeline
    &&& c[4] matches RenderCommand::BindVertexBuffer { buffer, .. } && buffer == r.vertex_buffer
    &&& c[5] matches RenderCommand::BindIndexBuffer { buffer, .. } && buffer == r.index_buffer
    &&& c[6] matches RenderCommand::SetViewport { viewport, .. } && viewport.extent == r.swapchain_extent
    &&& c[7] matches RenderCommand::SetScissor { scissor, .. } && scissor.extent == r.swapchain_extent
    &&& c[8] matches RenderCommand::BindDescriptorSet { layout, set, .. }
        && layout == r.pipeline_layout && set == r.descriptor_sets@[frame]
    &&& c[9] matches RenderCommand::DrawIndexed { index_count, instance_count, .. }
        && index_count == r.index_count as u32 && instance_count == 1
    &&& c[10] is EndRendering
}

/// A recorded frame renders into the swapchain image it was given and hands the colour aspect of
/// that image, not another image or aspect, over for presentation; it draws with the frame's own
/// descriptor set and the given buffers.
pub proof fn lemma_frame_draws_into_image(r: MeshFrameResources, frame: int, image: int)
    ensures
        frame_draws_into_image(mesh_frame_commands(r, frame, image), r, frame, image),
{
}

/// Records the frame of slot `frame_index` into that slot's command buffer, rendering into the
/// swapchain image `swapchain_image_index`.
pub fn record_command_buffer_mesh_pipeline(
    resources: &MeshFrameResources,
    frame_index: usize,
    swapchain_image_index: usize,
) -> (recording: Recording)
    requires
        frame_index < resources.command_buffers@.len(),
        frame_index < resources.descriptor_sets@.len(),
        swapchain_image_index < resources.swapchain_images@.len(),
        swapchain_image_index < resources.swapchain_image_views@.len(),
    ensures
        recording.command_buffer == resources.command_buffers@[frame_index as int],
        recording.commands@ == mesh_frame_commands(*resources, frame_index as int, swapchain_image_index as int),
        frame_draws_into_image(recording.commands@, *resources, frame_index as int, swapchain_image_index as int),
{
    proof {
        lemma_frame_draws_into_image(*resources, frame_index as int, swapchain_image_index as int);
    }
    let command_buffer = resources.command_buffers[frame_index];
    let image = resources.swapchain_images[swapchain_image_index];
    let extent = resources.swapchain_extent;
    let mut commands: Vec<RenderCommand> = Vec::new();

    commands.push(transition_image_layout(
        image,
        IMAGE_LAYOUT_UNDEFINED,
        IMAGE_LAYOUT_COLOR_ATTACHMENT_OPTIMAL,
        ACCESS_NONE,
        ACCESS_COLOR_ATTACHMENT_WRITE,
        STAGE_COLOR_ATTACHMENT_OUTPUT,
        STAGE_COLOR_ATTACHMENT_OUTPUT,
        ASPECT_COLOR,
    ));
    commands.push(transition_image_layout(
        resources.depth_image,
        IMAGE_LAYOUT_UNDEFINED,
        IMAGE_LAYOUT_DEPTH_STENCIL_ATTACHMENT_OPTIMAL,
        ACCESS_DEPTH_STENCIL_ATTACHMENT_WRITE,
        ACCESS_DEPTH_STENCIL_ATTACHMENT_WRITE,
        STAGE_FRAGMENT_TESTS,
        STAGE_FRAGMENT_TESTS,
        ASPECT_DEPTH_STENCIL,
    ));
    let area = Rect2D { offset: Offset2D { x: 0, y: 0 }, extent };
    commands.push(RenderCommand::BeginRendering {
        render_area: area,
        layer_count: 1,
        color_attachment: RenderingAttachment {
            image_view: resources.swapchain_image_views[swapchain_image_index],
            image_layout: IMAGE_LAYOUT_COLOR_ATTACHMENT_OPTIMAL,
            load_op: ATTACHMENT_LOAD_OP_CLEAR,
            store_op: ATTACHMENT_STORE_OP_STORE,
            clear_value: ClearValue::Color {
                red_bits: FLOAT_ZERO_BITS,
                green_bits: FLOAT_ZERO_BITS,
                blue_bits: FLOAT_ZERO_BITS,
                alpha_bits: FLOAT_ZERO_BITS,
            },
        },
        depth_attachment: RenderingAttachment {
            image_view: resources.depth_image_view,
            image_layout: IMAGE_LAYOUT_DEPTH_ATTACHMENT_OPTIMAL,
            load_op: ATTACHMENT_LOAD_OP_CLEAR,
            store_op: ATTACHMENT_STORE_OP_DONT_CARE,
            clear_value: ClearValue::DepthStencil { depth_bits: FLOAT_ONE_BITS, stencil: 0 },
        },
    });
    commands.push(RenderCommand::BindPipeline {
        bind_point: PIPELINE_BIND_POINT_GRAPHICS,
        pipeline: resources.pipeline,
    });
    commands.push(RenderCommand::BindVertexBuffer { first_binding: 0, buffer: resources.vertex_buffer, offset: 0 });
    commands.push(RenderCommand::BindIndexBuffer {
        buffer: resources.index_buffer,
        offset: 0,
        index_type: INDEX_TYPE_UINT32,
    });
    commands.push(RenderCommand::SetViewport {
        first_viewport: 0,
        viewport: Viewport {
            x_bits: FLOAT_ZERO_BITS,
            y_bits: FLOAT_ZERO_BITS,
            extent,
            min_depth_bits: FLOAT_ZERO_BITS,
            max_depth_bits: FLOAT_ONE_BITS,
        },
    });
    commands.push(RenderCommand::SetScissor { first_scissor: 0, scissor: area });
    commands.push(RenderCommand::BindDescriptorSet {
        bind_point: PIPELINE_BIND_POINT_GRAPHICS,
        layout: resources.pipeline_layout,
        first_set: 0,
        set: resources.descriptor_sets[frame_index],
    });
    commands.push(RenderCommand::DrawIndexed {
        index_count: resources.index_count as u32,
        instance_count: 1,
        first_index: 0,
        vertex_offset: 0,
        first_instance: 0,
    });
    commands.push(RenderCommand::EndRendering);
    commands.push(transition_image_layout(
        image,
        IMAGE_LAYOUT_COLOR_ATTACHMENT_OPTIMAL,
        IMAGE_LAYOUT_PRESENT_SRC,
        ACCESS_COLOR_ATTACHMENT_WRITE,
        ACCESS_NONE,
        STAGE_COLOR_ATTACHMENT_OUTPUT,
        STAGE_BOTTOM_OF_PIPE,
        ASPECT_COLOR,
    ));
    assert(commands@ =~= mesh_frame_commands(*resources, frame_index as int, swapchain_image_index as int));
    Recording { command_buffer, commands }
}

/// Within a recorded frame, every draw lies between the begin and end of rendering, and the
/// swapchain image starts and ends the frame in the layouts that acquiring and presenting
/// expect (undefined, then ready to present).
pub proof fn lemma_frame_brackets_rendering(r: MeshFrameResources, frame_index: int, image_index: int)
    ensures
        ({
            let c = mesh_frame_commands(r, frame_index, image_index);
            &&& c[0] matches RenderCommand::TransitionImageLayout(t) && t.image == r.swapchain_images@[image_index]
                && t.old_layout == IMAGE_LAYOUT_UNDEFINED
            &&& c[c.len() - 1] matches RenderCommand::TransitionImageLayout(t) && t.image == r.swapchain_images@[image_index]
                && t.new_layout == IMAGE_LAYOUT_PRESENT_SRC
            &&& forall|k: int| 0 <= k < c.len() && (#[trigger] c[k]) is DrawIndexed ==> {
                &&& exists|b: int| 0 <= b < k && c[b] is BeginRendering
                &&& exists|e: int| k < e < c.len() && c[e] is EndRendering
            }
        }),
{
    let c = mesh_frame_commands(r, frame_index, image_index);
    assert forall|k: int| 0 <= k < c.len() && (#[trigger] c[k]) is DrawIndexed implies {
        &&& exists|b: int| 0 <= b < k && c[b] is BeginRendering
        &&& exists|e: int| k < e < c.len() && c[e] is EndRendering
    } by {
        assert(k == 9);
        assert(c[2] is BeginRendering);
        assert(c[10] is EndRendering);
    }
}

/// The descriptor set that the frame of slot `frame` binds is the one whose uniform-buffer write
/// points at that slot's buffer: each frame reads its own uniform buffer.
pub proof fn lemma_frame_binds_own_uniform_buffer(
    r: MeshFrameResources,
    binding: DescriptorSetBinding,
    frame: int,
    image: int,
)
    requires
        0 <= frame < MAX_FRAMES_IN_FLIGHT,
        frame < r.descriptor_sets@.len(),
        binding.descriptor_kind is UniformBuffer,
    ensures
        ({
            let bound = mesh_frame_commands(r, frame, image)[8];
            let written = write_of(binding, r.descriptor_sets@[frame], frame);
            &&& bound == (RenderCommand::BindDescriptorSet {
                bind_point: PIPELINE_BIND_POINT_GRAPHICS,
                layout: r.pipeline_layout,
                first_set: 0,
                set: written.dst_set,
            })
            &&& written.resource == (DescriptorResource::Buffer {
                buffer: binding.descriptor_kind->buffers@[frame],
                offset: binding.descriptor_kind->offset,
                range: binding.descriptor_kind->range,
            })
        }),
{
}

/// The command buffer that a frame submits is the one its commands were recorded into, and the
/// image it presents is the one it rendered into.
pub proof fn lemma_submits_recorded_frame(
    r: MeshFrameResources,
    sync: FrameSyncObjects,
    frame: int,
    image: int,
)
    requires
        sync.command_buffers@ == r.command_buffers@,
        0 <= frame < r.command_buffers@.len(),
        0 <= image < r.swapchain_images@.len(),
        image <= u32::MAX,
    ensures
        submit_present_plan(sync, frame, image).command_buffer == r.command_buffers@[frame],
        submit_present_plan(sync, frame, image).image_index == image,
        mesh_frame_commands(r, frame, image)[0] matches RenderCommand::TransitionImageLayout(t)
            && t.image == r.swapchain_images@[submit_present_plan(sync, frame, image).image_index as int],
{
}

} // verus!
