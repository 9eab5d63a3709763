//! The choices made while creating the render context: which instance extensions and layers are
//! missing, which physical device and queue family to use, and how to shape the swapchain.
use vstd::prelude::*;

use crate::rendering::vulkan::{
    Extent2D, SurfaceFormat, API_VERSION_1_3, COLOR_SPACE_SRGB_NONLINEAR, FORMAT_B8G8R8A8_SRGB,
    PHYSICAL_DEVICE_TYPE_CPU, PHYSICAL_DEVICE_TYPE_DISCRETE_GPU, PHYSICAL_DEVICE_TYPE_INTEGRATED_GPU,
    PHYSICAL_DEVICE_TYPE_OTHER, PHYSICAL_DEVICE_TYPE_VIRTUAL_GPU, PRESENT_MODE_FIFO, QUEUE_GRAPHICS,
};

verus! {

// ---------------------------------------------------------------------------------------------
// Extensions and layers
// ---------------------------------------------------------------------------------------------

/// `name` is among the `available` names.
pub open spec fn name_available(name: Seq<u8>, available: Seq<Vec<u8>>) -> bool {
    exists|j: int| 0 <= j < available.len() && (#[trigger] available[j])@ == name
}

/// Whether `name` is among the `available` names.
pub fn is_available(name: &Vec<u8>, available: &Vec<Vec<u8>>) -> (found: bool)
    ensures
        found == name_available(name@, available@),
{
    let mut j: usize = 0;
    while j < available.len()
        invariant
            j <= available.len(),
            forall|k: int| 0 <= k < j ==> (#[trigger] available@[k])@ != name@,
        decreases available.len() - j,
    {
        if bytes_equal(&available[j], name) {
            return true;
        }
        j = j + 1;
    }
    false
}

/// Whether two byte strings are equal.
fn bytes_equal(a: &Vec<u8>, b: &Vec<u8>) -> (eq: bool)
    ensures
        eq == (a@ == b@),
{
    if a.len() != b.len() {
        return false;
    }
    let mut i: usize = 0;
    while i < a.len()
        invariant
            i <= a.len(),
            a.len() == b.len(),
            forall|k: int| 0 <= k < i ==> a@[k] == b@[k],
        decreases a.len() - i,
    {
        if a[i] != b[i] {
            return false;
        }
        i = i + 1;
    }
    assert(a@ =~= b@);
    true
}

/// The first of the `required` names (extensions or layers) that is not `available`, if any.
/// Creating the instance stops on such a name.
pub fn first_unsupported(required: &Vec<Vec<u8>>, available: &Vec<Vec<u8>>) -> (r: Option<usize>)
    ensures
        match r {
            Some(i) => {
                &&& i < required@.len()
                &&& !name_available(required@[i as int]@, available@)
                &&& forall|k: int| 0 <= k < i ==> name_available((#[trigger] required@[k])@, available@)
            },
            None => forall|k: int|
                0 <= k < required@.len() ==> name_available((#[trigger] required@[k])@, available@),
        },
{
    let mut i: usize = 0;
    while i < required.len()
        invariant
            i <= required.len(),
            forall|k: int| 0 <= k < i ==> name_available((#[trigger] required@[k])@, available@),
        decreases required.len() - i,
    {
        if !is_available(&required[i], available) {
            return Some(i);
        }
        i = i + 1;
    }
    None
}

// ---------------------------------------------------------------------------------------------
// Physical device
// ---------------------------------------------------------------------------------------------

/// What the renderer reads of a physical device to judge it.
pub struct PhysicalDeviceInfo {
    /// `VkPhysicalDeviceProperties::apiVersion`.
    pub api_version: u32,
    /// `VkPhysicalDeviceProperties::deviceType`, raw.
    pub device_type: i32,
    /// The `queueFlags` of each queue family.
    pub queue_family_flags: Vec<u32>,
    /// The names of the device extensions it offers.
    pub extension_names: Vec<Vec<u8>>,
    /// `samplerAnisotropy`.
    pub sampler_anisotropy: bool,
    /// `extendedDynamicState`.
    pub extended_dynamic_state: bool,
    /// `scalarBlockLayout`.
    pub scalar_block_layout: bool,
    /// `dynamicRendering`.
    pub dynamic_rendering: bool,
    /// `synchronization2`.
    pub synchronization2: bool,
}

/// A queue family whose flags include graphics.
pub open spec fn has_graphics(flags: u32) -> bool {
    flags & QUEUE_GRAPHICS == QUEUE_GRAPHICS
}

/// The device meets every requirement: Vulkan 1.3, a graphics queue, every required extension,
/// and every required feature.
pub open spec fn meets_requirements(info: PhysicalDeviceInfo, required_extensions: Seq<Vec<u8>>) -> bool {
    &&& info.api_version >= API_VERSION_1_3
    &&& exists|q: int| 0 <= q < info.queue_family_flags@.len() && has_graphics(#[trigger] info.queue_family_flags@[q])
    &&& forall|k: int| 0 <= k < required_extensions.len() ==> name_available((#[trigger] required_extensions[k])@, info.extension_names@)
    &&& info.sampler_anisotropy
    &&& info.extended_dynamic_state
    &&& info.scalar_block_layout
    &&& info.dynamic_rendering
    &&& info.synchronization2
}

/// The rank of a device type: discrete above integrated above virtual above CPU above other.
pub open spec fn type_rank(device_type: i32) -> u32 {
    if device_type == PHYSICAL_DEVICE_TYPE_DISCRETE_GPU {
        4
    } else if device_type == PHYSICAL_DEVICE_TYPE_INTEGRATED_GPU {
        3
    } else if device_type == PHYSICAL_DEVICE_TYPE_VIRTUAL_GPU {
        2
    } else if device_type == PHYSICAL_DEVICE_TYPE_CPU {
        1
    } else {
        0
    }
}

/// One of the five device types that Vulkan defines.
pub open spec fn known_device_type(device_type: i32) -> bool {
    PHYSICAL_DEVICE_TYPE_OTHER <= device_type <= PHYSICAL_DEVICE_TYPE_CPU
}

/// The score of a device: none if it misses a requirement, else the rank of its type.
pub open spec fn score_of(info: PhysicalDeviceInfo, required_extensions: Seq<Vec<u8>>) -> Option<u32> {
    if meets_requirements(info, required_extensions) {
        Some(type_rank(info.device_type))
    } else {
        None
    }
}

/// Whether a physical device meets every requirement of the renderer.
pub fn device_meets_requirements(info: &PhysicalDeviceInfo, required_extensions: &Vec<Vec<u8>>) -> (meets: bool)
    ensures
        meets == meets_requirements(*info, required_extensions@),
{
    let supports_vulkan_1_3 = info.api_version >= API_VERSION_1_3;

    let mut supports_graphics = false;
    let mut q: usize = 0;
    while q < info.queue_family_flags.len()
        invariant
            q <= info.queue_family_flags@.len(),
            supports_graphics == exists|p: int| 0 <= p < q && has_graphics(#[trigger] info.queue_family_flags@[p]),
        decreases info.queue_family_flags@.len() - q,
    {
        if info.queue_family_flags[q] & QUEUE_GRAPHICS == QUEUE_GRAPHICS {
            supports_graphics = true;
        }
        q = q + 1;
    }

    let supports_all_required_extensions = first_unsupported(required_extensions, &info.extension_names).is_none();

    let supports_required_features = info.sampler_anisotropy && info.extended_dynamic_state
        && info.scalar_block_layout && info.dynamic_rendering && info.synchronization2;

    supports_vulkan_1_3 && supports_graphics && supports_all_required_extensions && supports_required_features
}

/// Scores a physical device: `None` when it misses a requirement, otherwise a rank by type
/// (discrete 4, integrated 3, virtual 2, CPU 1, other 0).
pub fn device_score(info: &PhysicalDeviceInfo, required_extensions: &Vec<Vec<u8>>) -> (score: Option<u32>)
    requires
        meets_requirements(*info, required_extensions@) ==> known_device_type(info.device_type),
    ensures
        score == score_of(*info, required_extensions@),
{
    if device_meets_requirements(info, required_extensions) {
        let score = if info.device_type == PHYSICAL_DEVICE_TYPE_DISCRETE_GPU {
            4
        } else if info.device_type == PHYSICAL_DEVICE_TYPE_INTEGRATED_GPU {
            3
        } else if info.device_type == PHYSICAL_DEVICE_TYPE_VIRTUAL_GPU {
            2
        } else if info.device_type == PHYSICAL_DEVICE_TYPE_CPU {
            1
        } else {
            0
        };
        Some(score)
    } else {
        None
    }
}

/// The order in which scores compare: no score below any score, scores by value.
pub open spec fn score_key(score: Option<u32>) -> int {
    match score {
        Some(s) => s as int,
        None => -1,
    }
}

/// The device that `Iterator::max_by_key` picks by score: one with the greatest score, the
/// last of them when several share it.
pub fn pick_physical_device(scores: &Vec<Option<u32>>) -> (best: usize)
    requires
        scores@.len() > 0,
    ensures
        best < scores@.len(),
        forall|k: int| 0 <= k < scores@.len() ==> score_key(#[trigger] scores@[k]) <= score_key(scores@[best as int]),
        forall|k: int| best < k < scores@.len() ==> score_key(#[trigger] scores@[k]) < score_key(scores@[best as int]),
{
    let mut best: usize = 0;
    let mut i: usize = 1;
    while i < scores.len()
        invariant
            1 <= i <= scores@.len(),
            best < i,
            forall|k: int| 0 <= k < i ==> score_key(#[trigger] scores@[k]) <= score_key(scores@[best as int]),
            forall|k: int| best < k < i ==> score_key(#[trigger] scores@[k]) < score_key(scores@[best as int]),
        decreases scores@.len() - i,
    {
        if !key_less(scores[i], scores[best]) {
            best = i;
        }
        i = i + 1;
    }
    best
}

/// Whenever some device meets every requirement, the device picked meets every requirement.
pub proof fn lemma_pick_prefers_suitable(scores: Seq<Option<u32>>, best: int)
    requires
        0 <= best < scores.len(),
        forall|k: int| 0 <= k < scores.len() ==> score_key(#[trigger] scores[k]) <= score_key(scores[best]),
        exists|k: int| 0 <= k < scores.len() && (#[trigger] scores[k]) is Some,
    ensures
        scores[best] is Some,
{
    let k = choose|k: int| 0 <= k < scores.len() && (#[trigger] scores[k]) is Some;
    assert(score_key(scores[k]) <= score_key(scores[best]));
}

/// Whether score `a` is below score `b`.
fn key_less(a: Option<u32>, b: Option<u32>) -> (less: bool)
    ensures
        less == (score_key(a) < score_key(b)),
{
    match (a, b) {
        (None, None) => false,
        (None, Some(_)) => true,
        (Some(_), None) => false,
        (Some(x), Some(y)) => x < y,
    }
}

/// The first queue family that supports graphics and can present to the surface.
pub fn find_graphics_queue_family(queue_family_flags: &Vec<u32>, present_support: &Vec<bool>) -> (r: Option<usize>)
    requires
        queue_family_flags@.len() == present_support@.len(),
    ensures
        match r {
            Some(i) => {
                &&& i < queue_family_flags@.len()
                &&& has_graphics(queue_family_flags@[i as int]) && present_support@[i as int]
                &&& forall|k: int| 0 <= k < i ==> !(has_graphics(#[trigger] queue_family_flags@[k]) && present_support@[k])
            },
            None => forall|k: int| 0 <= k < queue_family_flags@.len() ==> !(has_graphics(#[trigger] queue_family_flags@[k]) && present_support@[k]),
        },
{
    let mut i: usize = 0;
    while i < queue_family_flags.len()
        invariant
            i <= queue_family_flags@.len(),
            queue_family_flags@.len() == present_support@.len(),
            forall|k: int| 0 <= k < i ==> !(has_graphics(#[trigger] queue_family_flags@[k]) && present_support@[k]),
        decreases queue_family_flags@.len() - i,
    {
        if queue_family_flags[i] & QUEUE_GRAPHICS == QUEUE_GRAPHICS && present_support[i] {
            return Some(i);
        }
        i = i + 1;
    }
    None
}

// ---------------------------------------------------------------------------------------------
// Swapchain
// ---------------------------------------------------------------------------------------------

/// The surface format the renderer prefers: 8-bit BGRA in sRGB with the sRGB colour space.
pub open spec fn is_preferred_format(f: SurfaceFormat) -> bool {
    f.format == FORMAT_B8G8R8A8_SRGB && f.color_space == COLOR_SPACE_SRGB_NONLINEAR
}

/// The first preferred format the surface offers, or else the first format it offers.
pub fn choose_swapchain_format(formats: &Vec<SurfaceFormat>) -> (chosen: SurfaceFormat)
    requires
        formats@.len() > 0,
    ensures
        (exists|i: int| 0 <= i < formats@.len() && is_preferred_format(#[trigger] formats@[i])) ==> {
            &&& is_preferred_format(chosen)
            &&& exists|i: int| 0 <= i < formats@.len() && formats@[i] == chosen && forall|k: int| 0 <= k < i ==> !is_preferred_format(#[trigger] formats@[k])
        },
        !(exists|i: int| 0 <= i < formats@.len() && is_preferred_format(#[trigger] formats@[i])) ==> chosen == formats@[0],
{
    let mut i: usize = 0;
    while i < formats.len()
        invariant
            i <= formats@.len(),
            forall|k: int| 0 <= k < i ==> !is_preferred_format(#[trigger] formats@[k]),
        decreases formats@.len() - i,
    {
        let f = formats[i];
        if f.format == FORMAT_B8G8R8A8_SRGB && f.color_space == COLOR_SPACE_SRGB_NONLINEAR {
            return f;
        }
        i = i + 1;
    }
    formats[0]
}

/// The present mode: first-in first-out, which every surface supports.
pub fn choose_swapchain_present_mode() -> (mode: i32)
    ensures
        mode == PRESENT_MODE_FIFO,
{
    PRESENT_MODE_FIFO
}

/// What the renderer reads of `VkSurfaceCapabilitiesKHR`.
#[derive(Clone, Copy, Debug, PartialEq, Eq, Structural)]
pub struct SurfaceCapabilities {
    pub min_image_count: u32,
    /// Zero when the surface sets no maximum.
    pub max_image_count: u32,
    /// A width of `u32::MAX` means the surface lets the swapchain choose its size.
    pub current_extent: Extent2D,
    pub min_image_extent: Extent2D,
    pub max_image_extent: Extent2D,
}

/// `v` clamped to `[lo, hi]`.
pub open spec fn clamp(v: u32, lo: u32, hi: u32) -> u32 {
    if v < lo {
        lo
    } else if v > hi {
        hi
    } else {
        v
    }
}

/// The extent the swapchain is given.
pub open spec fn swapchain_extent(capabilities: SurfaceCapabilities, size: Extent2D) -> Extent2D {
    if capabilities.current_extent.width != u32::MAX {
        capabilities.current_extent
    } else {
        Extent2D {
            width: clamp(size.width, capabilities.min_image_extent.width, capabilities.max_image_extent.width),
            height: clamp(size.height, capabilities.min_image_extent.height, capabilities.max_image_extent.height),
        }
    }
}

/// The surface's own extent when it sets one; otherwise the window's size clamped to the
/// extents the surface allows.
pub fn choose_swapchain_extent(capabilities: SurfaceCapabilities, size: Extent2D) -> (extent: Extent2D)
    requires
        capabilities.current_extent.width == u32::MAX ==> {
            &&& capabilities.min_image_extent.width <= capabilities.max_image_extent.width
            &&& capabilities.min_image_extent.height <= capabilities.max_image_extent.height
        },
    ensures
        extent == swapchain_extent(capabilities, size),
{
    if capabilities.current_extent.width != u32::MAX {
        return capabilities.current_extent;
    }
    Extent2D {
        width: clamp_u32(size.width, capabilities.min_image_extent.width, capabilities.max_image_extent.width),
        height: clamp_u32(size.height, capabilities.min_image_extent.height, capabilities.max_image_extent.height),
    }
}

/// `v` clamped to `[lo, hi]`, as `u32::clamp` computes it.
fn clamp_u32(v: u32, lo: u32, hi: u32) -> (r: u32)
    requires
        lo <= hi,
    ensures
        r == clamp(v, lo, hi),
{
    if v < lo {
        lo
    } else if v > hi {
        hi
    } else {
        v
    }
}

/// The number of swapchain images asked for.
pub open spec fn min_image_count(capabilities: SurfaceCapabilities) -> u32 {
    let wanted = if capabilities.min_image_count > 3 { capabilities.min_image_count } else { 3 };
    if capabilities.max_image_count > 0 && capabilities.max_image_count < wanted {
        capabilities.max_image_count
    } else {
        wanted
    }
}

/// At least three images (triple buffering) and at least the surface's minimum, but no more
/// than the surface's maximum when it sets one.
pub fn choose_swapchain_min_image_count(surface_capabilities: SurfaceCapabilities) -> (count: u32)
    ensures
        count == min_image_count(surface_capabilities),
{
    let mut min_image_count = if surface_capabilities.min_image_count > 3 {
        surface_capabilities.min_image_count
    } else {
        3
    };
    if surface_capabilities.max_image_count > 0 && surface_capabilities.max_image_count < min_image_count {
        min_image_count = surface_capabilities.max_image_count;
    }
    min_image_count
}

/// The swapchain's extent lies within the surface's limits whenever the surface leaves the size
/// to the swapchain, and is the window's size when that size is within them.
pub proof fn lemma_extent_within_limits(capabilities: SurfaceCapabilities, size: Extent2D)
    requires
        capabilities.current_extent.width == u32::MAX,
        capabilities.min_image_extent.width <= capabilities.max_image_extent.width,
        capabilities.min_image_extent.height <= capabilities.max_image_extent.height,
    ensures
        capabilities.min_image_extent.width <= swapchain_extent(capabilities, size).width <= capabilities.max_image_extent.width,
        capabilities.min_image_extent.height <= swapchain_extent(capabilities, size).height <= capabilities.max_image_extent.height,
        (capabilities.min_image_extent.width <= size.width <= capabilities.max_image_extent.width
            && capabilities.min_image_extent.height <= size.height <= capabilities.max_image_extent.height)
            ==> swapchain_extent(capabilities, size) == size,
{
}

/// The image count never exceeds a maximum the surface sets, and is at least three and at least
/// the surface's minimum whenever the maximum allows it.
pub proof fn lemma_image_count_within_limits(capabilities: SurfaceCapabilities)
    ensures
        capabilities.max_image_count > 0 ==> min_image_count(capabilities) <= capabilities.max_image_count,
        (capabilities.max_image_count == 0 || capabilities.max_image_count >= 3 && capabilities.max_image_count >= capabilities.min_image_count)
            ==> min_image_count(capabilities) >= 3 && min_image_count(capabilities) >= capabilities.min_image_count,
{
}

// ---------------------------------------------------------------------------------------------
// Validation messages
// ---------------------------------------------------------------------------------------------

/// `VK_DEBUG_UTILS_MESSAGE_SEVERITY_VERBOSE_BIT_EXT`.
pub const SEVERITY_VERBOSE: u32 = 0x1;
/// `VK_DEBUG_UTILS_MESSAGE_SEVERITY_INFO_BIT_EXT`.
pub const SEVERITY_INFO: u32 = 0x10;
/// `VK_DEBUG_UTILS_MESSAGE_SEVERITY_WARNING_BIT_EXT`.
pub const SEVERITY_WARNING: u32 = 0x100;
/// `VK_DEBUG_UTILS_MESSAGE_SEVERITY_ERROR_BIT_EXT`.
pub const SEVERITY_ERROR: u32 = 0x1000;

/// The log level a validation message is written at.
#[derive(Clone, Copy, Debug, PartialEq, Eq, Structural)]
pub enum MessageLevel {
    Trace,
    Info,
    Warn,
    Error,
}

/// The log level of a validation message with the given severity: verbose as trace, info as
/// info, warning as warn, error as error, and any other severity (such as several bits at
/// once) as warn.
pub fn debug_message_level(message_severity: u32) -> (level: MessageLevel)
    ensures
        level == (if message_severity == SEVERITY_VERBOSE {
            MessageLevel::Trace
        } else if message_severity == SEVERITY_INFO {
            MessageLevel::Info
        } else if message_severity == SEVERITY_ERROR {
            MessageLevel::Error
        } else {
            MessageLevel::Warn
        }),
{
    if message_severity == SEVERITY_VERBOSE {
        MessageLevel::Trace
    } else if message_severity == SEVERITY_INFO {
        MessageLevel::Info
    } else if message_severity == SEVERITY_WARNING {
        MessageLevel::Warn
    } else if message_severity == SEVERITY_ERROR {
        MessageLevel::Error
    } else {
        MessageLevel::Warn
    }
}

} // verus!
