//! The renderer's frame loop: which per-frame resources are used, and what happens when the
//! swapchain reports that it is out of date.
use vstd::prelude::*;

pub mod asset;
pub mod camera;
pub mod depth;
pub mod descriptor_management;
pub mod mesh;
pub mod pipelines;
pub mod render_context;
pub mod utils;
pub mod vulkan;

use crate::rendering::vulkan::{ERROR_OUT_OF_DATE, SUBMIT_STAGE_COLOR_ATTACHMENT_OUTPUT};

verus! {

/// The number of frames that may be recorded while earlier ones are still on the GPU.
pub const MAX_FRAMES_IN_FLIGHT: usize = 2;

/// The schedule that runs after the window is closed, before the world is cleared.
#[derive(Clone, Copy, Debug, PartialEq, Eq, Hash, Structural)]
pub struct CleanUp;

/// The phases of a rendered frame, run in this order.
#[derive(Clone, Copy, Debug, PartialEq, Eq, Hash, Structural)]
pub enum RenderSet {
    Resize,
    Prepare,
    BeginRender,
    AquireSwapchainImage,
    RecordCommandBuffers,
    SubmitQueue,
}

impl RenderSet {
    /// The position of the phase in a frame.
    pub open spec fn position(self) -> nat {
        match self {
            RenderSet::Resize => 0,
            RenderSet::Prepare => 1,
            RenderSet::BeginRender => 2,
            RenderSet::AquireSwapchainImage => 3,
            RenderSet::RecordCommandBuffers => 4,
            RenderSet::SubmitQueue => 5,
        }
    }

    /// The phases in the order in which they are chained.
    pub fn chain() -> (sets: [RenderSet; 6])
        ensures
            forall|i: int| 0 <= i < 6 ==> (#[trigger] sets@[i]).position() == i,
    {
        [
            RenderSet::Resize,
            RenderSet::Prepare,
            RenderSet::BeginRender,
            RenderSet::AquireSwapchainImage,
            RenderSet::RecordCommandBuffers,
            RenderSet::SubmitQueue,
        ]
    }
}

/// The index of the swapchain image acquired for the current frame.
#[derive(Clone, Copy, Debug, PartialEq, Eq, Structural)]
pub struct FrameSwapchainImageIndex(pub usize);

/// What acquiring the next swapchain image gave back.
#[derive(Clone, Copy, Debug, PartialEq, Eq, Structural)]
pub enum AcquireOutcome {
    /// An image was acquired (whether or not the swapchain is suboptimal).
    Acquired(u32),
    /// The call failed with this `VkResult`.
    Failed(i32),
}

/// What the frame loop does after an acquire.
#[derive(Clone, Copy, Debug, PartialEq, Eq, Structural)]
pub enum AcquireAction {
    /// Reset the frame's fence and render into this swapchain image.
    Render(FrameSwapchainImageIndex),
    /// Skip the frame: the swapchain is out of date.
    Skip,
    /// Stop with this unexpected `VkResult`.
    Abort(i32),
}

/// What presenting a frame gave back.
#[derive(Clone, Copy, Debug, PartialEq, Eq, Structural)]
pub enum PresentOutcome {
    /// The image was queued; `suboptimal` is what the driver reported.
    Presented { suboptimal: bool },
    /// The call failed with this `VkResult`.
    Failed(i32),
}

/// What the frame loop does after a present.
#[derive(Clone, Copy, Debug, PartialEq, Eq, Structural)]
pub enum PresentAction {
    /// Go on with the next frame.
    Continue,
    /// Stop with this unexpected `VkResult`.
    Abort(i32),
}

/// The frame slot after `frame_index`.
pub open spec fn next_frame_index(frame_index: int) -> int {
    (frame_index + 1) % (MAX_FRAMES_IN_FLIGHT as int)
}

/// The frame slot reached from `frame_index` after `n` presented frames.
pub open spec fn frame_index_after(frame_index: int, n: nat) -> int
    decreases n,
{
    if n == 0 {
        frame_index
    } else {
        next_frame_index(frame_index_after(frame_index, (n - 1) as nat))
    }
}

/// The part of the render context that the frame loop decides on: which of the
/// `MAX_FRAMES_IN_FLIGHT` per-frame slots is in use, and whether the swapchain is usable.
pub struct FrameState {
    frame_index: usize,
    swapchain_ok: bool,
}

impl FrameState {
    /// The frame slot in use.
    pub closed spec fn index(&self) -> usize {
        self.frame_index
    }

    /// Whether the swapchain is believed usable.
    pub closed spec fn ok(&self) -> bool {
        self.swapchain_ok
    }

    /// The frame slot is always one of the `MAX_FRAMES_IN_FLIGHT` slots.
    pub closed spec fn wf(&self) -> bool {
        self.frame_index < MAX_FRAMES_IN_FLIGHT
    }

    /// The state of a freshly created render context.
    pub fn new() -> (s: Self)
        ensures
            s.wf(),
            s.index() == 0,
            !s.ok(),
    {
        FrameState { frame_index: 0, swapchain_ok: false }
    }

    /// The frame slot in use.
    pub fn frame_index(&self) -> (i: usize)
        requires
            self.wf(),
        ensures
            i == self.index(),
            i < MAX_FRAMES_IN_FLIGHT,
    {
        self.frame_index
    }

    /// Whether the swapchain is believed usable.
    pub fn swapchain_ok(&self) -> (b: bool)
        ensures
            b == self.ok(),
    {
        self.swapchain_ok
    }

    /// Decides what to do with the result of acquiring the next swapchain image. An
    /// out-of-date swapchain marks the swapchain unusable and skips the frame; any other error
    /// stops the renderer.
    pub fn on_acquire(&mut self, outcome: AcquireOutcome) -> (action: AcquireAction)
        requires
            old(self).wf(),
        ensures
            FrameState::acquire_step(*old(self), outcome, *final(self), action),
    {
        match outcome {
            AcquireOutcome::Acquired(i) => AcquireAction::Render(FrameSwapchainImageIndex(i as usize)),
            AcquireOutcome::Failed(code) => {
                if code == ERROR_OUT_OF_DATE {
                    self.swapchain_ok = false;
                    AcquireAction::Skip
                } else {
                    AcquireAction::Abort(code)
                }
            },
        }
    }

    /// Decides what to do with the result of presenting a frame. A suboptimal or out-of-date
    /// swapchain is marked unusable; any other error stops the renderer before the frame slot
    /// moves on; otherwise the next frame uses the next slot.
    pub fn on_present(&mut self, outcome: PresentOutcome) -> (action: PresentAction)
        requires
            old(self).wf(),
        ensures
            FrameState::present_step(*old(self), outcome, *final(self), action),
    {
        match outcome {
            PresentOutcome::Presented { suboptimal } => {
                if suboptimal {
                    self.swapchain_ok = false;
                }
            },
            PresentOutcome::Failed(code) => {
                if code == ERROR_OUT_OF_DATE {
                    self.swapchain_ok = false;
                } else {
                    return PresentAction::Abort(code);
                }
            },
        }
        self.frame_index = (self.frame_index + 1) % MAX_FRAMES_IN_FLIGHT;
        PresentAction::Continue
    }
}

/// The synchronisation objects and command buffers of the render context, by raw handle:
/// command buffers, acquire semaphores and fences by frame slot, render-finished semaphores by
/// swapchain image.
pub struct FrameSyncObjects {
    pub command_buffers: Vec<u64>,
    pub present_complete_semaphores: Vec<u64>,
    pub render_finished_semaphores: Vec<u64>,
    pub in_flight_fences: Vec<u64>,
}

/// What one frame's queue submission and presentation use.
#[derive(Clone, Copy, Debug, PartialEq, Eq, Structural)]
pub struct SubmitPresentPlan {
    /// The command buffer submitted.
    pub command_buffer: u64,
    /// The semaphore the submission waits on before writing colour attachments.
    pub wait_semaphore: u64,
    /// The stage at which the submission waits (`VkPipelineStageFlags`).
    pub wait_dst_stage_mask: u32,
    /// The semaphore the submission signals and the presentation waits on.
    pub signal_semaphore: u64,
    /// The fence the submission signals.
    pub fence: u64,
    /// The swapchain image presented.
    pub image_index: u32,
}

/// The submission of the frame of slot `frame_index` rendered into swapchain image
/// `image_index`: it runs that slot's command buffer once the slot's acquire semaphore is
/// signalled at colour attachment output, signals the image's render-finished semaphore and the
/// slot's fence, and the image is presented once that semaphore is signalled.
pub open spec fn submit_present_plan(sync: FrameSyncObjects, frame_index: int, image_index: int) -> SubmitPresentPlan {
    SubmitPresentPlan {
        command_buffer: sync.command_buffers@[frame_index],
        wait_semaphore: sync.present_complete_semaphores@[frame_index],
        wait_dst_stage_mask: SUBMIT_STAGE_COLOR_ATTACHMENT_OUTPUT,
        signal_semaphore: sync.render_finished_semaphores@[image_index],
        fence: sync.in_flight_fences@[frame_index],
        image_index: image_index as u32,
    }
}

/// Picks the objects with which the frame of slot `frame_index`, rendered into swapchain image
/// `image_index`, is submitted and presented.
pub fn plan_submit_present(sync: &FrameSyncObjects, frame_index: usize, image_index: usize) -> (plan: SubmitPresentPlan)
    requires
        frame_index < sync.command_buffers@.len(),
        frame_index < sync.present_complete_semaphores@.len(),
        frame_index < sync.in_flight_fences@.len(),
        image_index < sync.render_finished_semaphores@.len(),
        image_index <= u32::MAX,
    ensures
        plan == submit_present_plan(*sync, frame_index as int, image_index as int),
{
    SubmitPresentPlan {
        command_buffer: sync.command_buffers[frame_index],
        wait_semaphore: sync.present_complete_semaphores[frame_index],
        wait_dst_stage_mask: SUBMIT_STAGE_COLOR_ATTACHMENT_OUTPUT,
        signal_semaphore: sync.render_finished_semaphores[image_index],
        fence: sync.in_flight_fences[frame_index],
        image_index: image_index as u32,
    }
}

/// After `MAX_FRAMES_IN_FLIGHT` presented frames the frame loop is back at the slot it
/// started from, and every slot is visited in between.
pub proof fn lemma_frame_slots_cycle(start: int, n: nat)
    requires
        0 <= start < MAX_FRAMES_IN_FLIGHT,
    ensures
        frame_index_after(start, n) == (start + n) % (MAX_FRAMES_IN_FLIGHT as int),
        0 <= frame_index_after(start, n) < MAX_FRAMES_IN_FLIGHT,
        frame_index_after(start, MAX_FRAMES_IN_FLIGHT as nat) == start,
    decreases n,
{
    if n > 0 {
        lemma_frame_slots_cycle(start, (n - 1) as nat);
        let m = (n - 1) as nat;
        let k = MAX_FRAMES_IN_FLIGHT as int;
        assert(((start + m) % k + 1) % k == (start + n) % k);
    }
    assert(frame_index_after(start, MAX_FRAMES_IN_FLIGHT as nat) == start) by {
        reveal_with_fuel(frame_index_after, 3);
    }
}

/// Once the swapchain is marked unusable, no acquire or present outcome marks it usable
/// again, and the frame slot stays one of the `MAX_FRAMES_IN_FLIGHT` slots.
pub proof fn lemma_swapchain_unusable_is_sticky(
    before: FrameState,
    after_acquire: FrameState,
    acquired: AcquireOutcome,
    acquire_action: AcquireAction,
    after_present: FrameState,
    presented: PresentOutcome,
    present_action: PresentAction,
)
    requires
        before.wf(),
        !before.ok(),
        FrameState::acquire_step(before, acquired, after_acquire, acquire_action),
        FrameState::present_step(after_acquire, presented, after_present, present_action),
    ensures
        !after_acquire.ok(),
        !after_present.ok(),
        after_present.wf(),
{
}

impl FrameState {
    /// The relation between state, outcome, next state and action that `on_acquire` states.
    pub open spec fn acquire_step(
        pre: FrameState,
        outcome: AcquireOutcome,
        post: FrameState,
        action: AcquireAction,
    ) -> bool {
        &&& post.wf()
        &&& post.index() == pre.index()
        &&& match outcome {
            AcquireOutcome::Acquired(i) => {
                &&& action == AcquireAction::Render(FrameSwapchainImageIndex(i as usize))
                &&& post.ok() == pre.ok()
            },
            AcquireOutcome::Failed(code) => {
                if code == ERROR_OUT_OF_DATE {
                    action == AcquireAction::Skip && !post.ok()
                } else {
                    action == AcquireAction::Abort(code) && post.ok() == pre.ok()
                }
            },
        }
    }

    /// The relation between state, outcome, next state and action that `on_present` states.
    pub open spec fn present_step(
        pre: FrameState,
        outcome: PresentOutcome,
        post: FrameState,
        action: PresentAction,
    ) -> bool {
        &&& post.wf()
        &&& match outcome {
            PresentOutcome::Presented { suboptimal } => {
                &&& action == PresentAction::Continue
                &&& post.index() == next_frame_index(pre.index() as int)
                &&& post.ok() == (pre.ok() && !suboptimal)
            },
            PresentOutcome::Failed(code) => {
                if code == ERROR_OUT_OF_DATE {
                    &&& action == PresentAction::Continue
                    &&& post.index() == next_frame_index(pre.index() as int)
                    &&& !post.ok()
                } else {
                    &&& action == PresentAction::Abort(code)
                    &&& post.index() == pre.index()
                    &&& post.ok() == pre.ok()
                }
            },
        }
    }
}

} // verus!
