//! Commands recorded into command buffers, described as plain values so that the code which
//! owns the device can replay them, and the choice of a memory type.
use vstd::prelude::*;

use crate::rendering::vulkan::{
    Extent2D, Extent3D, Offset3D, Rect2D, ACCESS_NONE, ACCESS_SHADER_READ,
    ACCESS_TRANSFER_WRITE, ASPECT_COLOR, IMAGE_LAYOUT_SHADER_READ_ONLY_OPTIMAL,
    IMAGE_LAYOUT_TRANSFER_DST_OPTIMAL, IMAGE_LAYOUT_UNDEFINED, QUEUE_FAMILY_IGNORED,
    STAGE_FRAGMENT_SHADER, STAGE_TOP_OF_PIPE, STAGE_TRANSFER,
};

verus! {

/// The mip levels and array layers of an image that a barrier covers (`VkImageSubresourceRange`).
#[derive(Clone, Copy, Debug, PartialEq, Eq, Structural)]
pub struct SubresourceRange {
    pub aspect_mask: u32,
    pub base_mip_level: u32,
    pub level_count: u32,
    pub base_array_layer: u32,
    pub layer_count: u32,
}

/// One mip level and some array layers of an image that a copy touches
/// (`VkImageSubresourceLayers`).
#[derive(Clone, Copy, Debug, PartialEq, Eq, Structural)]
pub struct SubresourceLayers {
    pub aspect_mask: u32,
    pub mip_level: u32,
    pub base_array_layer: u32,
    pub layer_count: u32,
}

/// An image memory barrier that changes an image's layout (`VkImageMemoryBarrier2`).
#[derive(Clone, Copy, Debug, PartialEq, Eq, Structural)]
pub struct ImageTransition {
    pub image: u64,
    pub old_layout: i32,
    pub new_layout: i32,
    pub src_access_mask: u64,
    pub dst_access_mask: u64,
    pub src_stage_mask: u64,
    pub dst_stage_mask: u64,
    pub src_queue_family_index: u32,
    pub dst_queue_family_index: u32,
    pub subresource_range: SubresourceRange,
}

/// Where a buffer's bytes go in an image (`VkBufferImageCopy`). A row length and image height
/// of zero mean that the buffer is tightly packed by the image extent.
#[derive(Clone, Copy, Debug, PartialEq, Eq, Structural)]
pub struct BufferImageCopy {
    pub buffer_offset: u64,
    pub buffer_row_length: u32,
    pub buffer_image_height: u32,
    pub image_subresource: SubresourceLayers,
    pub image_offset: Offset3D,
    pub image_extent: Extent3D,
}

/// The value an attachment is cleared to when it is loaded (`VkClearValue`). Floats are held by
/// their bits.
#[derive(Clone, Copy, Debug, PartialEq, Eq, Structural)]
pub enum ClearValue {
    Color { red_bits: u32, green_bits: u32, blue_bits: u32, alpha_bits: u32 },
    DepthStencil { depth_bits: u32, stencil: u32 },
}

/// An image view that dynamic rendering draws into (`VkRenderingAttachmentInfo`).
#[derive(Clone, Copy, Debug, PartialEq, Eq, Structural)]
pub struct RenderingAttachment {
    pub image_view: u64,
    pub image_layout: i32,
    pub load_op: i32,
    pub store_op: i32,
    pub clear_value: ClearValue,
}

/// A viewport (`VkViewport`). Floats are held by their bits; its width and height are those of
/// `extent`, as floats.
#[derive(Clone, Copy, Debug, PartialEq, Eq, Structural)]
pub struct Viewport {
    pub x_bits: u32,
    pub y_bits: u32,
    pub extent: Extent2D,
    pub min_depth_bits: u32,
    pub max_depth_bits: u32,
}

/// A command recorded into a command buffer, with every argument of the Vulkan call that
/// records it. Handles are raw Vulkan handles.
#[derive(Clone, Copy, Debug, PartialEq, Eq, Structural)]
pub enum RenderCommand {
    /// `vkCmdPipelineBarrier2` with this one image barrier and no other.
    TransitionImageLayout(ImageTransition),
    /// `vkCmdCopyBufferToImage` with one region.
    CopyBufferToImage { buffer: u64, image: u64, image_layout: i32, region: BufferImageCopy },
    /// `vkCmdBeginRendering` with one colour attachment and a depth attachment.
    BeginRendering {
        render_area: Rect2D,
        layer_count: u32,
        color_attachment: RenderingAttachment,
        depth_attachment: RenderingAttachment,
    },
    /// `vkCmdBindPipeline`.
    BindPipeline { bind_point: i32, pipeline: u64 },
    /// `vkCmdBindVertexBuffers` with one buffer.
    BindVertexBuffer { first_binding: u32, buffer: u64, offset: u64 },
    /// `vkCmdBindIndexBuffer`.
    BindIndexBuffer { buffer: u64, offset: u64, index_type: i32 },
    /// `vkCmdSetViewport` with one viewport.
    SetViewport { first_viewport: u32, viewport: Viewport },
    /// `vkCmdSetScissor` with one scissor.
    SetScissor { first_scissor: u32, scissor: Rect2D },
    /// `vkCmdBindDescriptorSets` with one set and no dynamic offsets.
    BindDescriptorSet { bind_point: i32, layout: u64, first_set: u32, set: u64 },
    /// `vkCmdDrawIndexed`.
    DrawIndexed { index_count: u32, instance_count: u32, first_index: u32, vertex_offset: i32, first_instance: u32 },
    /// `vkCmdEndRendering`.
    EndRendering,
}

/// The barrier that moves the first mip level and array layer of `image` from `old_layout` to
/// `new_layout`, with no transfer between queue families.
pub open spec fn image_barrier(
    image: u64,
    old_layout: i32,
    new_layout: i32,
    src_access_mask: u64,
    dst_access_mask: u64,
    src_stage_mask: u64,
    dst_stage_mask: u64,
    aspect_mask: u32,
) -> RenderCommand {
    RenderCommand::TransitionImageLayout(ImageTransition {
        image,
        old_layout,
        new_layout,
        src_access_mask,
        dst_access_mask,
        src_stage_mask,
        dst_stage_mask,
        src_queue_family_index: QUEUE_FAMILY_IGNORED,
        dst_queue_family_index: QUEUE_FAMILY_IGNORED,
        subresource_range: SubresourceRange {
            aspect_mask,
            base_mip_level: 0,
            level_count: 1,
            base_array_layer: 0,
            layer_count: 1,
        },
    })
}

/// The copy of a tightly packed `width` by `height` image from the start of `buffer` into the
/// colour aspect of the first mip level and array layer of `image`, which is a transfer
/// destination.
pub open spec fn packed_copy(buffer: u64, image: u64, width: u32, height: u32) -> RenderCommand {
    RenderCommand::CopyBufferToImage {
        buffer,
        image,
        image_layout: IMAGE_LAYOUT_TRANSFER_DST_OPTIMAL,
        region: BufferImageCopy {
            buffer_offset: 0,
            buffer_row_length: 0,
            buffer_image_height: 0,
            image_subresource: SubresourceLayers {
                aspect_mask: ASPECT_COLOR,
                mip_level: 0,
                base_array_layer: 0,
                layer_count: 1,
            },
            image_offset: Offset3D { x: 0, y: 0, z: 0 },
            image_extent: Extent3D { width, height, depth: 1 },
        },
    }
}

/// The barrier that moves `image` from `old_layout` to `new_layout`.
pub fn transition_image_layout(
    image: u64,
    old_layout: i32,
    new_layout: i32,
    src_access_mask: u64,
    dst_access_mask: u64,
    src_stage_mask: u64,
    dst_stage_mask: u64,
    image_aspect_mask: u32,
) -> (command: RenderCommand)
    ensures
        command == image_barrier(
            image,
            old_layout,
            new_layout,
            src_access_mask,
            dst_access_mask,
            src_stage_mask,
            dst_stage_mask,
            image_aspect_mask,
        ),
{
    RenderCommand::TransitionImageLayout(
        ImageTransition {
            image,
            old_layout,
            new_layout,
            src_access_mask,
            dst_access_mask,
            src_stage_mask,
            dst_stage_mask,
            src_queue_family_index: QUEUE_FAMILY_IGNORED,
            dst_queue_family_index: QUEUE_FAMILY_IGNORED,
            subresource_range: SubresourceRange {
                aspect_mask: image_aspect_mask,
                base_mip_level: 0,
                level_count: 1,
                base_array_layer: 0,
                layer_count: 1,
            },
        },
    )
}

/// The copy of a `width` by `height` image's pixels from `src_buffer` into `dst_image`.
pub fn copy_buffer_to_image(src_buffer: u64, dst_image: u64, width: u32, height: u32) -> (command: RenderCommand)
    ensures
        command == packed_copy(src_buffer, dst_image, width, height),
{
    RenderCommand::CopyBufferToImage {
        buffer: src_buffer,
        image: dst_image,
        image_layout: IMAGE_LAYOUT_TRANSFER_DST_OPTIMAL,
        region: BufferImageCopy {
            buffer_offset: 0,
            buffer_row_length: 0,
            buffer_image_height: 0,
            image_subresource: SubresourceLayers {
                aspect_mask: ASPECT_COLOR,
                mip_level: 0,
                base_array_layer: 0,
                layer_count: 1,
            },
            image_offset: Offset3D { x: 0, y: 0, z: 0 },
            image_extent: Extent3D { width, height, depth: 1 },
        },
    }
}

/// The commands that upload a staged image: make the image a transfer destination, copy the
/// staging buffer into it, then make it readable by fragment shaders.
pub open spec fn upload_commands(staging_buffer: u64, image: u64, width: u32, height: u32) -> Seq<RenderCommand> {
    seq![
        image_barrier(
            image,
            IMAGE_LAYOUT_UNDEFINED,
            IMAGE_LAYOUT_TRANSFER_DST_OPTIMAL,
            ACCESS_NONE,
            ACCESS_TRANSFER_WRITE,
            STAGE_TOP_OF_PIPE,
            STAGE_TRANSFER,
            ASPECT_COLOR,
        ),
        packed_copy(staging_buffer, image, width, height),
        image_barrier(
            image,
            IMAGE_LAYOUT_TRANSFER_DST_OPTIMAL,
            IMAGE_LAYOUT_SHADER_READ_ONLY_OPTIMAL,
            ACCESS_TRANSFER_WRITE,
            ACCESS_SHADER_READ,
            STAGE_TRANSFER,
            STAGE_FRAGMENT_SHADER,
            ASPECT_COLOR,
        ),
    ]
}

/// The one-time commands with which a sampled image receives its pixels from a staging buffer.
pub fn image_upload_commands(staging_buffer: u64, image: u64, width: u32, height: u32) -> (commands: Vec<RenderCommand>)
    ensures
        commands@ == upload_commands(staging_buffer, image, width, height),
        upload_leaves_image_readable(commands@, staging_buffer, image, width, height),
{
    proof {
        lemma_upload_leaves_image_readable(staging_buffer, image, width, height);
    }
    let mut commands = Vec::new();
    commands.push(transition_image_layout(
        image,
        IMAGE_LAYOUT_UNDEFINED,
        IMAGE_LAYOUT_TRANSFER_DST_OPTIMAL,
        ACCESS_NONE,
        ACCESS_TRANSFER_WRITE,
        STAGE_TOP_OF_PIPE,
        STAGE_TRANSFER,
        ASPECT_COLOR,
    ));
    commands.push(copy_buffer_to_image(staging_buffer, image, width, height));
    commands.push(transition_image_layout(
        image,
        IMAGE_LAYOUT_TRANSFER_DST_OPTIMAL,
        IMAGE_LAYOUT_SHADER_READ_ONLY_OPTIMAL,
        ACCESS_TRANSFER_WRITE,
        ACCESS_SHADER_READ,
        STAGE_TRANSFER,
        STAGE_FRAGMENT_SHADER,
        ASPECT_COLOR,
    ));
    assert(commands@ =~= upload_commands(staging_buffer, image, width, height));
    commands
}

/// What an upload sequence `c` must do for the staging buffer `staging_buffer` and the `width`
/// by `height` image `image`: first move the colour aspect of `image` out of an undefined layout
/// into the layout a transfer writes, then copy the whole staging buffer, tightly packed, into
/// that same image in that same layout, then move `image` from that layout to the one fragment
/// shaders sample. Every barrier names `image` and covers its first level and layer.
pub open spec fn upload_leaves_image_readable(
    c: Seq<RenderCommand>,
    staging_buffer: u64,
    image: u64,
    width: u32,
    height: u32,
) -> bool {
    &&& c.len() == 3
    &&& forall|k: int| 0 <= k < c.len() && (#[trigger] c[k]) is TransitionImageLayout ==> {
        let t = c[k]->TransitionImageLayout_0;
        &&& t.image == image
        &&& t.subresource_range.aspect_mask == ASPECT_COLOR
        &&& t.subresource_range.base_mip_level == 0
        &&& t.subresource_range.level_count == 1
        &&& t.subresource_range.base_array_layer == 0
        &&& t.subresource_range.layer_count == 1
    }
    &&& c[0] matches RenderCommand::TransitionImageLayout(t)
        && t.old_layout == IMAGE_LAYOUT_UNDEFINED && t.new_layout == IMAGE_LAYOUT_TRANSFER_DST_OPTIMAL
    &&& c[1] matches RenderCommand::CopyBufferToImage { buffer, image: dst, image_layout, region }
        && buffer == staging_buffer && dst == image && image_layout == IMAGE_LAYOUT_TRANSFER_DST_OPTIMAL
        && region.buffer_offset == 0 && region.buffer_row_length == 0 && region.buffer_image_height == 0
        && region.image_subresource.aspect_mask == ASPECT_COLOR
        && region.image_extent.width == width && region.image_extent.height == height
        && region.image_extent.depth == 1
    &&& c[2] matches RenderCommand::TransitionImageLayout(t)
        && t.old_layout == IMAGE_LAYOUT_TRANSFER_DST_OPTIMAL && t.new_layout == IMAGE_LAYOUT_SHADER_READ_ONLY_OPTIMAL
        && t.dst_stage_mask == STAGE_FRAGMENT_SHADER && t.dst_access_mask == ACCESS_SHADER_READ
}

/// An upload leaves the uploaded image, and no other, readable by fragment shaders, having
/// written the staging buffer into it in between.
pub proof fn lemma_upload_leaves_image_readable(staging_buffer: u64, image: u64, width: u32, height: u32)
    ensures
        upload_leaves_image_readable(upload_commands(staging_buffer, image, width, height), staging_buffer, image, width, height),
{
    let c = upload_commands(staging_buffer, image, width, height);
    assert forall|k: int| 0 <= k < c.len() && (#[trigger] c[k]) is TransitionImageLayout implies {
        let t = c[k]->TransitionImageLayout_0;
        &&& t.image == image
        &&& t.subresource_range.aspect_mask == ASPECT_COLOR
        &&& t.subresource_range.base_mip_level == 0
        &&& t.subresource_range.level_count == 1
        &&& t.subresource_range.base_array_layer == 0
        &&& t.subresource_range.layer_count == 1
    } by {
        assert(k == 0 || k == 2);
    }
}

/// Memory type `i` is allowed by `type_filter` and has every flag in `properties`.
pub open spec fn memory_type_suitable(type_filter: u32, flags: u32, i: int, properties: u32) -> bool {
    &&& type_filter & (1u32 << (i as u32)) > 0
    &&& flags & properties == properties
}

/// Some memory type is suitable.
pub open spec fn has_suitable_memory_type(type_filter: u32, memory_type_flags: Seq<u32>, properties: u32) -> bool {
    exists|i: int| 0 <= i < memory_type_flags.len() && memory_type_suitable(type_filter, #[trigger] memory_type_flags[i], i, properties)
}

/// The first memory type allowed by `type_filter` whose property flags include `properties`,
/// if there is one. `memory_type_flags` holds the property flags of each memory type.
pub fn first_suitable_memory_type(type_filter: u32, memory_type_flags: &Vec<u32>, properties: u32) -> (r: Option<u32>)
    requires
        memory_type_flags@.len() <= 32,
    ensures
        r is Some <==> has_suitable_memory_type(type_filter, memory_type_flags@, properties),
        r matches Some(i) ==> {
            &&& i < memory_type_flags@.len()
            &&& memory_type_suitable(type_filter, memory_type_flags@[i as int], i as int, properties)
            &&& forall|k: int| 0 <= k < i ==> !memory_type_suitable(type_filter, #[trigger] memory_type_flags@[k], k, properties)
        },
{
    let mut i: u32 = 0;
    while (i as usize) < memory_type_flags.len()
        invariant
            i <= memory_type_flags@.len() <= 32,
            forall|k: int| 0 <= k < i ==> !memory_type_suitable(type_filter, #[trigger] memory_type_flags@[k], k, properties),
        decreases memory_type_flags@.len() - i,
    {
        if type_filter & (1u32 << i) > 0 && memory_type_flags[i as usize] & properties == properties {
            assert(memory_type_suitable(type_filter, memory_type_flags@[i as int], i as int, properties));
            return Some(i);
        }
        i = i + 1;
    }
    None
}

/// The first memory type allowed by `type_filter` whose property flags include `properties`.
/// The renderer stops when there is none, so a caller asks only where one exists.
pub fn find_memory_type(type_filter: u32, memory_type_flags: &Vec<u32>, properties: u32) -> (i: u32)
    requires
        memory_type_flags@.len() <= 32,
        has_suitable_memory_type(type_filter, memory_type_flags@, properties),
    ensures
        i < memory_type_flags@.len(),
        memory_type_suitable(type_filter, memory_type_flags@[i as int], i as int, properties),
        forall|k: int| 0 <= k < i ==> !memory_type_suitable(type_filter, #[trigger] memory_type_flags@[k], k, properties),
{
    match first_suitable_memory_type(type_filter, memory_type_flags, properties) {
        Some(i) => i,
        None => 0,
    }
}

/// The 32-bit word made of bytes `4 * i` to `4 * i + 3` of `bytes`, the first byte least
/// significant when `little_endian`, most significant otherwise.
pub open spec fn word_at(bytes: Seq<u8>, i: int, little_endian: bool) -> u32 {
    let b0 = bytes[4 * i] as int;
    let b1 = bytes[4 * i + 1] as int;
    let b2 = bytes[4 * i + 2] as int;
    let b3 = bytes[4 * i + 3] as int;
    if little_endian {
        (b0 + b1 * 0x100 + b2 * 0x1_0000 + b3 * 0x100_0000) as u32
    } else {
        (b3 + b2 * 0x100 + b1 * 0x1_0000 + b0 * 0x100_0000) as u32
    }
}

/// `words` are `bytes` read four at a time, all in one byte order.
pub open spec fn words_of_bytes(bytes: Seq<u8>, words: Seq<u32>) -> bool {
    &&& words.len() * 4 == bytes.len()
    &&& {
        ||| forall|i: int| 0 <= i < words.len() ==> #[trigger] words[i] == word_at(bytes, i, true)
        ||| forall|i: int| 0 <= i < words.len() ==> #[trigger] words[i] == word_at(bytes, i, false)
    }
}

/// `bytemuck::try_cast_slice::<u8, u32>`, with the words copied out. bytemuck's source gives
/// `Ok` only when the byte count is a multiple of four and the bytes are aligned to a word, and
/// then reads the same memory as words: each word is four consecutive bytes in the machine's
/// byte order, little- or big-endian, the same for every word. Which order, and whether a given
/// buffer is aligned, depends on the machine and the allocation, so neither is said here.
#[verifier::external_body]
fn try_cast_words(bytes: &[u8]) -> (words: Option<Vec<u32>>)
    ensures
        words matches Some(w) ==> words_of_bytes(bytes@, w@),
        bytes@.len() % 4 != 0 ==> words is None,
{
    match bytemuck::try_cast_slice::<u8, u32>(bytes) {
        Ok(w) => Some(w.to_vec()),
        Err(_) => None,
    }
}

/// What a shader module is created from, given the byte count of its SPIR-V code and what
/// casting those bytes to words gave: nothing when the bytes are not a whole number of words,
/// and otherwise exactly what the cast gave (nothing only when the cast refused the buffer).
pub fn words_from_cast(byte_count: usize, cast: Option<Vec<u32>>) -> (words: Option<Vec<u32>>)
    ensures
        byte_count % 4 != 0 ==> words is None,
        byte_count % 4 == 0 ==> words == cast,
{
    if byte_count % 4 != 0 {
        None
    } else {
        cast
    }
}

/// The SPIR-V code in `buf` as the 32-bit words a shader module is created from: the bytes
/// read four at a time in the machine's byte order. `None` when the bytes are not a whole
/// number of words, or when the cast refuses them for not being aligned to a word.
pub fn shader_code_words(buf: &[u8]) -> (words: Option<Vec<u32>>)
    ensures
        words matches Some(w) ==> words_of_bytes(buf@, w@),
        buf@.len() % 4 != 0 ==> words is None,
{
    let cast = try_cast_words(buf);
    words_from_cast(buf.len(), cast)
}

} // verus!
