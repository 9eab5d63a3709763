//! Descriptor sets: what a pipeline binds, and the layout, pool and writes that describe one
//! descriptor set per frame in flight.
use vstd::prelude::*;

use crate::rendering::vulkan::{DESCRIPTOR_TYPE_COMBINED_IMAGE_SAMPLER, DESCRIPTOR_TYPE_UNIFORM_BUFFER};
use crate::rendering::MAX_FRAMES_IN_FLIGHT;

verus! {

/// What a binding refers to. Handles are the raw values of the Vulkan handles.
#[derive(Clone, Copy, Debug)]
pub enum DescriptorKind {
    /// A sampled image with its sampler.
    CombinedSampler { sampler: u64, image_view: u64, image_layout: i32 },
    /// A uniform buffer, one per frame in flight.
    UniformBuffer { buffers: [u64; MAX_FRAMES_IN_FLIGHT], offset: u64, range: u64 },
}

/// The Vulkan descriptor type of a kind of binding.
pub open spec fn descriptor_type(kind: DescriptorKind) -> i32 {
    match kind {
        DescriptorKind::CombinedSampler { .. } => DESCRIPTOR_TYPE_COMBINED_IMAGE_SAMPLER,
        DescriptorKind::UniformBuffer { .. } => DESCRIPTOR_TYPE_UNIFORM_BUFFER,
    }
}

impl DescriptorKind {
    /// The Vulkan descriptor type of this binding.
    pub fn as_type(&self) -> (ty: i32)
        ensures
            ty == descriptor_type(*self),
    {
        match self {
            DescriptorKind::CombinedSampler { .. } => DESCRIPTOR_TYPE_COMBINED_IMAGE_SAMPLER,
            DescriptorKind::UniformBuffer { .. } => DESCRIPTOR_TYPE_UNIFORM_BUFFER,
        }
    }
}

/// One binding of a descriptor set.
#[derive(Clone, Copy, Debug)]
pub struct DescriptorSetBinding {
    pub binding: u32,
    pub descriptor_kind: DescriptorKind,
    pub descriptor_count: u32,
    /// `VkShaderStageFlags`, raw.
    pub stage_flags: u32,
}

/// A binding of the descriptor set layout (`VkDescriptorSetLayoutBinding`).
#[derive(Clone, Copy, Debug, PartialEq, Eq, Structural)]
pub struct LayoutBinding {
    pub binding: u32,
    pub descriptor_type: i32,
    pub descriptor_count: u32,
    pub stage_flags: u32,
}

/// A pool size (`VkDescriptorPoolSize`).
#[derive(Clone, Copy, Debug, PartialEq, Eq, Structural)]
pub struct PoolSize {
    pub ty: i32,
    pub descriptor_count: u32,
}

/// What a descriptor write points at.
#[derive(Clone, Copy, Debug, PartialEq, Eq, Structural)]
pub enum DescriptorResource {
    /// `VkDescriptorImageInfo`.
    Image { sampler: u64, image_view: u64, image_layout: i32 },
    /// `VkDescriptorBufferInfo`.
    Buffer { buffer: u64, offset: u64, range: u64 },
}

/// One write into a descriptor set (`VkWriteDescriptorSet` with a single info).
#[derive(Clone, Copy, Debug, PartialEq, Eq, Structural)]
pub struct DescriptorWrite {
    pub dst_set: u64,
    pub dst_binding: u32,
    pub dst_array_element: u32,
    pub descriptor_count: u32,
    pub descriptor_type: i32,
    pub resource: DescriptorResource,
}

/// The layout binding that describes `b`.
pub open spec fn layout_binding_of(b: DescriptorSetBinding) -> LayoutBinding {
    LayoutBinding {
        binding: b.binding,
        descriptor_type: descriptor_type(b.descriptor_kind),
        descriptor_count: b.descriptor_count,
        stage_flags: b.stage_flags,
    }
}

/// The pool size reserved for `b`: one descriptor per frame in flight.
pub open spec fn pool_size_of(b: DescriptorSetBinding) -> PoolSize {
    PoolSize { ty: descriptor_type(b.descriptor_kind), descriptor_count: MAX_FRAMES_IN_FLIGHT as u32 }
}

/// The write of binding `b` into the set of frame `frame`: the image, or that frame's buffer.
pub open spec fn write_of(b: DescriptorSetBinding, set: u64, frame: int) -> DescriptorWrite {
    DescriptorWrite {
        dst_set: set,
        dst_binding: b.binding,
        dst_array_element: 0,
        descriptor_count: b.descriptor_count,
        descriptor_type: descriptor_type(b.descriptor_kind),
        resource: match b.descriptor_kind {
            DescriptorKind::CombinedSampler { sampler, image_view, image_layout } =>
                DescriptorResource::Image { sampler, image_view, image_layout },
            DescriptorKind::UniformBuffer { buffers, offset, range } =>
                DescriptorResource::Buffer { buffer: buffers@[frame], offset, range },
        },
    }
}

/// The write `w` fills binding `b` of the set `set` of frame `frame`: it targets that set and
/// that binding's own number, from its first array element, with the binding's count and the
/// descriptor type that the layout gives the binding; a uniform-buffer binding is pointed at the
/// buffer of that frame, an image binding at its image.
pub open spec fn write_fills_binding(w: DescriptorWrite, b: DescriptorSetBinding, set: u64, frame: int) -> bool {
    &&& w.dst_set == set
    &&& w.dst_binding == b.binding
    &&& w.dst_binding == layout_binding_of(b).binding
    &&& w.dst_array_element == 0
    &&& w.descriptor_count == b.descriptor_count
    &&& w.descriptor_type == layout_binding_of(b).descriptor_type
    &&& match b.descriptor_kind {
        DescriptorKind::UniformBuffer { buffers, offset, range } => w.resource matches DescriptorResource::Buffer {
            buffer: wb,
            offset: wo,
            range: wr,
        } && wb == buffers@[frame] && wo == offset && wr == range,
        DescriptorKind::CombinedSampler { sampler, image_view, image_layout } => w.resource
            matches DescriptorResource::Image { sampler: ws, image_view: wv, image_layout: wl } && ws == sampler
            && wv == image_view && wl == image_layout,
    }
}

/// A frame's write of a binding lands in that binding, as the layout declares it, of that
/// frame's set.
pub proof fn lemma_write_fills_binding(b: DescriptorSetBinding, set: u64, frame: int)
    requires
        0 <= frame < MAX_FRAMES_IN_FLIGHT,
    ensures
        write_fills_binding(write_of(b, set, frame), b, set, frame),
{
}

/// The layout declares a binding under its own number, type, count and stages, and the pool
/// reserves for it one descriptor of that same type for each frame in flight, so that every
/// frame's set can be allocated and written.
pub proof fn lemma_layout_and_pool_match_binding(b: DescriptorSetBinding, set: u64, frame: int)
    requires
        0 <= frame < MAX_FRAMES_IN_FLIGHT,
    ensures
        layout_binding_of(b).binding == b.binding,
        layout_binding_of(b).descriptor_count == b.descriptor_count,
        layout_binding_of(b).stage_flags == b.stage_flags,
        layout_binding_of(b).descriptor_type == write_of(b, set, frame).descriptor_type,
        b.descriptor_kind is UniformBuffer ==> layout_binding_of(b).descriptor_type == DESCRIPTOR_TYPE_UNIFORM_BUFFER,
        b.descriptor_kind is CombinedSampler ==> layout_binding_of(b).descriptor_type
            == DESCRIPTOR_TYPE_COMBINED_IMAGE_SAMPLER,
        pool_size_of(b).ty == layout_binding_of(b).descriptor_type,
        pool_size_of(b).descriptor_count == MAX_FRAMES_IN_FLIGHT,
{
}

/// The layout bindings of the descriptor set layout, one per binding, in order.
pub fn layout_bindings(bindings: &Vec<DescriptorSetBinding>) -> (out: Vec<LayoutBinding>)
    ensures
        out@.len() == bindings@.len(),
        forall|i: int| 0 <= i < bindings@.len() ==> #[trigger] out@[i] == layout_binding_of(bindings@[i]),
{
    let mut out: Vec<LayoutBinding> = Vec::new();
    let mut i: usize = 0;
    while i < bindings.len()
        invariant
            i <= bindings@.len(),
            out@.len() == i,
            forall|k: int| 0 <= k < i ==> #[trigger] out@[k] == layout_binding_of(bindings@[k]),
        decreases bindings@.len() - i,
    {
        let b = &bindings[i];
        out.push(LayoutBinding {
            binding: b.binding,
            descriptor_type: b.descriptor_kind.as_type(),
            descriptor_count: b.descriptor_count,
            stage_flags: b.stage_flags,
        });
        i = i + 1;
    }
    out
}

/// The pool sizes of the descriptor pool: for each binding, one descriptor of its type per
/// frame in flight.
pub fn pool_sizes(bindings: &Vec<DescriptorSetBinding>) -> (out: Vec<PoolSize>)
    ensures
        out@.len() == bindings@.len(),
        forall|i: int| 0 <= i < bindings@.len() ==> #[trigger] out@[i] == pool_size_of(bindings@[i]),
{
    let mut out: Vec<PoolSize> = Vec::new();
    let mut i: usize = 0;
    while i < bindings.len()
        invariant
            i <= bindings@.len(),
            out@.len() == i,
            forall|k: int| 0 <= k < i ==> #[trigger] out@[k] == pool_size_of(bindings@[k]),
        decreases bindings@.len() - i,
    {
        out.push(PoolSize {
            ty: bindings[i].descriptor_kind.as_type(),
            descriptor_count: MAX_FRAMES_IN_FLIGHT as u32,
        });
        i = i + 1;
    }
    out
}

/// The writes that fill the allocated `sets`: for the set of each frame, one write per binding,
/// in binding order. A uniform-buffer binding points each frame's set at that frame's buffer.
pub fn descriptor_writes(bindings: &Vec<DescriptorSetBinding>, sets: &Vec<u64>) -> (out: Vec<Vec<DescriptorWrite>>)
    requires
        sets@.len() <= MAX_FRAMES_IN_FLIGHT,
    ensures
        out@.len() == sets@.len(),
        forall|s: int| 0 <= s < sets@.len() ==> (#[trigger] out@[s])@.len() == bindings@.len(),
        forall|s: int, i: int| 0 <= s < sets@.len() && 0 <= i < bindings@.len() ==> #[trigger] out@[s]@[i] == write_of(bindings@[i], sets@[s], s),
        forall|s: int, i: int| 0 <= s < sets@.len() && 0 <= i < bindings@.len() ==> write_fills_binding(#[trigger] out@[s]@[i], bindings@[i], sets@[s], s),
{
    proof {
        assert forall|b: DescriptorSetBinding, set: u64, frame: int| 0 <= frame < MAX_FRAMES_IN_FLIGHT implies write_fills_binding(
            #[trigger] write_of(b, set, frame),
            b,
            set,
            frame,
        ) by {
            lemma_write_fills_binding(b, set, frame);
        }
    }
    let mut out: Vec<Vec<DescriptorWrite>> = Vec::new();
    let mut idx: usize = 0;
    while idx < sets.len()
        invariant
            idx <= sets@.len(),
            sets@.len() <= MAX_FRAMES_IN_FLIGHT,
            out@.len() == idx,
            forall|s: int| 0 <= s < idx ==> (#[trigger] out@[s])@.len() == bindings@.len(),
            forall|s: int, i: int| 0 <= s < idx && 0 <= i < bindings@.len() ==> #[trigger] out@[s]@[i] == write_of(bindings@[i], sets@[s], s),
        decreases sets@.len() - idx,
    {
        let set = sets[idx];
        let mut writes: Vec<DescriptorWrite> = Vec::new();
        let mut i: usize = 0;
        while i < bindings.len()
            invariant
                i <= bindings@.len(),
                idx < sets@.len(),
                sets@.len() <= MAX_FRAMES_IN_FLIGHT,
                set == sets@[idx as int],
                writes@.len() == i,
                forall|k: int| 0 <= k < i ==> #[trigger] writes@[k] == write_of(bindings@[k], set, idx as int),
            decreases bindings@.len() - i,
        {
            let b = &bindings[i];
            let resource = match b.descriptor_kind {
                DescriptorKind::CombinedSampler { sampler, image_view, image_layout } =>
                    DescriptorResource::Image { sampler, image_view, image_layout },
                DescriptorKind::UniformBuffer { buffers, offset, range } =>
                    DescriptorResource::Buffer { buffer: buffers[idx], offset, range },
            };
            writes.push(DescriptorWrite {
                dst_set: set,
                dst_binding: b.binding,
                dst_array_element: 0,
                descriptor_count: b.descriptor_count,
                descriptor_type: b.descriptor_kind.as_type(),
                resource,
            });
            i = i + 1;
        }
        out.push(writes);
        idx = idx + 1;
    }
    out
}

/// In every frame's descriptor set, a uniform-buffer binding points at the buffer of that
/// frame, so no two frames in flight share a uniform buffer through their sets (when the
/// buffers themselves differ).
pub proof fn lemma_frames_use_own_buffers(
    binding: DescriptorSetBinding,
    set_a: u64,
    frame_a: int,
    set_b: u64,
    frame_b: int,
)
    requires
        binding.descriptor_kind is UniformBuffer,
        0 <= frame_a < MAX_FRAMES_IN_FLIGHT,
        0 <= frame_b < MAX_FRAMES_IN_FLIGHT,
        frame_a != frame_b,
        binding.descriptor_kind->buffers@[frame_a] != binding.descriptor_kind->buffers@[frame_b],
    ensures
        write_of(binding, set_a, frame_a).resource != write_of(binding, set_b, frame_b).resource,
        write_of(binding, set_a, frame_a).resource == (DescriptorResource::Buffer {
            buffer: binding.descriptor_kind->buffers@[frame_a],
            offset: binding.descriptor_kind->offset,
            range: binding.descriptor_kind->range,
        }),
{
}

/// The bindings of the mesh pipeline: its per-frame uniform buffers at binding 0, seen by the
/// vertex and fragment stages, each of `uniform_size` bytes from offset 0.
pub fn mesh_pipeline_bindings(uniform_buffers: [u64; MAX_FRAMES_IN_FLIGHT], uniform_size: u64) -> (bindings: Vec<DescriptorSetBinding>)
    ensures
        bindings@ == seq![DescriptorSetBinding {
            binding: 0,
            descriptor_kind: DescriptorKind::UniformBuffer { buffers: uniform_buffers, offset: 0, range: uniform_size },
            descriptor_count: 1,
            stage_flags: crate::rendering::vulkan::SHADER_STAGE_VERTEX_FRAGMENT,
        }],
{
    let mut bindings = Vec::new();
    bindings.push(DescriptorSetBinding {
        binding: 0,
        descriptor_kind: DescriptorKind::UniformBuffer { buffers: uniform_buffers, offset: 0, range: uniform_size },
        descriptor_count: 1,
        stage_flags: crate::rendering::vulkan::SHADER_STAGE_VERTEX_FRAGMENT,
    });
    bindings
}

} // verus!
