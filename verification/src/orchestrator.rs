//! The frame orchestrator: the per-frame state machine that drives fence
//! waits, image acquisition, command recording, submission, presentation
//! and swapchain rebuilds in the correct order.
//!
//! The caller owns the GPU objects and performs the blocking calls; this
//! state machine decides each step and keeps the synchronization
//! bookkeeping.  Each step's effect on the state is a spec-level
//! transition function, and the synchronization laws are proved over those
//! transitions.
//!
//! Fences are tracked from the control thread's point of view: a slot's
//! fence is *pending* from the moment its queue submission is issued until
//! a blocking wait on it returns.  A wait on a fence that was never reset
//! returns at once, so the initial, pre-signaled fences start out not
//! pending.

use vstd::prelude::*;
use crate::error::RenderError;
use crate::recorder::{grow_pool, grown_pool};
use crate::swapchain::{
    chosen_extent, chosen_image_count, is_preferred_format, plan_swapchain, SurfaceCaps,
    SurfaceFormat, SwapchainPlan, PRESENT_MODE_FIFO, PRESENT_MODE_MAILBOX,
};

verus! {

/// Number of frame slots: how far the control thread may run ahead of the
/// GPU.
pub const MAX_FRAMES_IN_FLIGHT: usize = 2;

/// Fewest renderable instances.
pub const MIN_MODELS: usize = 1;

/// Most renderable instances.
pub const MAX_MODELS: usize = 4;

/// Where within one frame's step sequence the orchestrator stands.
#[derive(Clone, Copy, Debug, PartialEq, Eq, Structural)]
pub enum FramePhase {
    /// Between frames.
    Idle,
    /// The blocking wait on the current slot's fence has returned.
    SlotReady,
    /// The given image is acquired and tracked for this slot.
    ImageAcquired(usize),
    /// Commands targeting the given image are recorded.
    Recorded(usize),
    /// The queue submission for the given image is issued.
    Submitted(usize),
}

/// What the presentation engine reported for an acquire call.
#[derive(Clone, Copy, Debug, PartialEq, Eq, Structural)]
pub enum AcquireOutcome {
    /// An image index was delivered (possibly with a suboptimal note,
    /// which acquisition ignores).
    Image(usize),
    /// The surface is stale; the swapchain must be rebuilt before the
    /// frame can proceed.
    OutOfDate,
    /// A hard error with the driver's result code.
    Failure(i32),
}

/// What the orchestrator decides after an acquire outcome.
#[derive(Clone, Copy, Debug, PartialEq, Eq, Structural)]
pub enum AcquireAction {
    /// Record and submit against `image`; first block on the fence of
    /// `wait_for_slot` if one is named, because that older slot's work may
    /// still reference the image.
    Proceed { image: usize, wait_for_slot: Option<usize> },
    /// Abandon this frame and rebuild the swapchain.
    Rebuild,
    /// Abandon this frame and surface the error.
    Fail(RenderError),
}

/// What the presentation engine reported for a present call.
#[derive(Clone, Copy, Debug, PartialEq, Eq, Structural)]
pub enum PresentOutcome {
    Success,
    /// Presentation worked but the swapchain no longer matches the surface
    /// optimally.
    Suboptimal,
    /// The surface is stale; presentation did not happen.
    OutOfDate,
    /// A hard error with the driver's result code.
    Failure(i32),
}

/// What the orchestrator decides after a present outcome.
#[derive(Clone, Copy, Debug, PartialEq, Eq, Structural)]
pub enum PresentAction {
    /// Go on to the next frame as is.
    Continue,
    /// Rebuild the swapchain, then go on to the next frame.
    RebuildThenContinue,
    /// Surface the error.
    Fail(RenderError),
}

/// The orchestrator's state as mathematics: every contract and law speaks
/// over this view.
#[verifier::ext_equal]
pub struct AppModel {
    /// Current frame slot.
    pub frame: usize,
    /// How many renderable instances the next frame records.
    pub models: usize,
    /// A resize was reported and a rebuild is owed after the current
    /// frame's submission.
    pub resized: bool,
    /// The window has zero extent; rendering is suspended.
    pub minimized: bool,
    /// Position within the current frame's step sequence.
    pub phase: FramePhase,
    /// Per slot: whether the slot's fence is reset and its signal not yet
    /// awaited.
    pub slot_fence_pending: Seq<bool>,
    /// Per swapchain image: the slot whose fence last used the image, if
    /// any.
    pub images_in_flight: Seq<Option<usize>>,
    /// Per swapchain image: how many secondary command buffers its pool
    /// holds.
    pub secondary_allocated: Seq<usize>,
    /// Extent of the current swapchain.
    pub extent_width: u32,
    pub extent_height: u32,
}

impl AppModel {
    /// Structural soundness: the slot tables have one entry per slot, the
    /// image tables one entry per image, and every tracked slot exists.
    pub open spec fn wf(self) -> bool {
        &&& self.frame < MAX_FRAMES_IN_FLIGHT
        &&& MIN_MODELS <= self.models <= MAX_MODELS
        &&& self.slot_fence_pending.len() == MAX_FRAMES_IN_FLIGHT
        &&& self.secondary_allocated.len() == self.images_in_flight.len()
        &&& forall|i: int|
            0 <= i < self.images_in_flight.len() ==> match #[trigger] self.images_in_flight[i] {
                Some(s) => s < MAX_FRAMES_IN_FLIGHT,
                None => true,
            }
        &&& match self.phase {
            FramePhase::ImageAcquired(i) => i < self.images_in_flight.len(),
            FramePhase::Recorded(i) => i < self.images_in_flight.len(),
            FramePhase::Submitted(i) => i < self.images_in_flight.len(),
            _ => true,
        }
    }
}

/// The state a freshly created orchestrator is in: slot zero, one model,
/// no pending resize, fences pre-signaled, no image tracked, empty pools.
pub open spec fn initial_model(plan: SwapchainPlan) -> AppModel {
    AppModel {
        frame: 0,
        models: MIN_MODELS,
        resized: false,
        minimized: false,
        phase: FramePhase::Idle,
        slot_fence_pending: Seq::new(MAX_FRAMES_IN_FLIGHT as nat, |i: int| false),
        images_in_flight: Seq::new(plan.image_count as nat, |i: int| None),
        secondary_allocated: Seq::new(plan.image_count as nat, |i: int| 0usize),
        extent_width: plan.width,
        extent_height: plan.height,
    }
}

/// Beginning a frame: the blocking wait on the current slot's fence has
/// returned, so that fence is no longer pending.
pub open spec fn begin_frame_tr(m: AppModel) -> AppModel {
    AppModel {
        phase: FramePhase::SlotReady,
        slot_fence_pending: m.slot_fence_pending.update(m.frame as int, false),
        ..m
    }
}

/// Acquiring image `image`: if an older slot's fence still covers the
/// image, that fence is awaited too; then the image is tracked for the
/// current slot.
pub open spec fn acquire_tr(m: AppModel, image: usize) -> AppModel {
    AppModel {
        phase: FramePhase::ImageAcquired(image),
        slot_fence_pending: match m.images_in_flight[image as int] {
            Some(s) => m.slot_fence_pending.update(s as int, false),
            None => m.slot_fence_pending,
        },
        images_in_flight: m.images_in_flight.update(image as int, Some(m.frame)),
        ..m
    }
}

/// Abandoning the frame before submission (stale surface or hard error at
/// acquire): only the phase resets; nothing was submitted.
pub open spec fn cancel_tr(m: AppModel) -> AppModel {
    AppModel { phase: FramePhase::Idle, ..m }
}

/// Recording the frame's commands into `image`: the image's
/// secondary-buffer pool grows to the model count, never shrinks.
pub open spec fn record_tr(m: AppModel, image: usize) -> AppModel {
    AppModel {
        phase: FramePhase::Recorded(image),
        secondary_allocated: m.secondary_allocated.update(
            image as int,
            grown_pool(m.secondary_allocated[image as int] as nat, m.models as nat) as usize,
        ),
        ..m
    }
}

/// Submitting the frame: the slot's fence is reset and will be signaled by
/// the GPU, so it is pending until the slot's next wait.
pub open spec fn submit_tr(m: AppModel, image: usize) -> AppModel {
    AppModel {
        phase: FramePhase::Submitted(image),
        slot_fence_pending: m.slot_fence_pending.update(m.frame as int, true),
        ..m
    }
}

/// Finishing the frame after presentation: the slot advances cyclically
/// and a pending resize request is consumed.
pub open spec fn finish_tr(m: AppModel) -> AppModel {
    AppModel {
        phase: FramePhase::Idle,
        frame: (((m.frame + 1) as int) % (MAX_FRAMES_IN_FLIGHT as int)) as usize,
        resized: false,
        ..m
    }
}

/// Rebuilding the swapchain with `count` images: every image-count-sized
/// table is resized to `count` in lockstep — the in-flight table cleared,
/// the secondary pools empty — and the stored extent updated.
pub open spec fn rebuild_tr(m: AppModel, count: usize, width: u32, height: u32) -> AppModel {
    AppModel {
        images_in_flight: Seq::new(count as nat, |i: int| None),
        secondary_allocated: Seq::new(count as nat, |i: int| 0usize),
        extent_width: width,
        extent_height: height,
        ..m
    }
}

/// A reported window resize: a zero extent suspends rendering; a non-zero
/// extent resumes it and requests a rebuild.
pub open spec fn resize_tr(m: AppModel, width: u32, height: u32) -> AppModel {
    if width == 0 || height == 0 {
        AppModel { minimized: true, ..m }
    } else {
        AppModel { minimized: false, resized: true, ..m }
    }
}

/// The frame orchestrator.  Owns no GPU objects; the caller performs each
/// blocking call the step functions direct and reports the outcomes.
pub struct App {
    frame: usize,
    models: usize,
    resized: bool,
    minimized: bool,
    phase: FramePhase,
    slot_fence_pending: Vec<bool>,
    images_in_flight: Vec<Option<usize>>,
    secondary_allocated: Vec<usize>,
    extent_width: u32,
    extent_height: u32,
}

impl View for App {
    type V = AppModel;

    closed spec fn view(&self) -> AppModel {
        AppModel {
            frame: self.frame,
            models: self.models,
            resized: self.resized,
            minimized: self.minimized,
            phase: self.phase,
            slot_fence_pending: self.slot_fence_pending@,
            images_in_flight: self.images_in_flight@,
            secondary_allocated: self.secondary_allocated@,
            extent_width: self.extent_width,
            extent_height: self.extent_height,
        }
    }
}

impl App {
    /// Creates the orchestrator for a just-built swapchain, in the state
    /// `initial_model` describes: the first frame uses slot zero, one
    /// model is drawn, and the pre-signaled fences make no slot pending.
    pub fn new(plan: &SwapchainPlan) -> (r: App)
        ensures
            r@ =~= initial_model(*plan),
            r@.wf(),
    {
        let count = plan.image_count as usize;
        let mut slot_fence_pending: Vec<bool> = Vec::new();
        let mut k: usize = 0;
        while k < MAX_FRAMES_IN_FLIGHT
            invariant
                k <= MAX_FRAMES_IN_FLIGHT,
                slot_fence_pending@ =~= Seq::new(k as nat, |i: int| false),
            decreases MAX_FRAMES_IN_FLIGHT - k,
        {
            slot_fence_pending.push(false);
            proof {
                assert(slot_fence_pending@ =~= Seq::new((k + 1) as nat, |i: int| false));
            }
            k += 1;
        }
        let images_in_flight = cleared_image_table(count);
        let secondary_allocated = zero_pool_table(count);
        App {
            frame: 0,
            models: MIN_MODELS,
            resized: false,
            minimized: false,
            phase: FramePhase::Idle,
            slot_fence_pending,
            images_in_flight,
            secondary_allocated,
            extent_width: plan.width,
            extent_height: plan.height,
        }
    }

    /// Number of images in the current swapchain.
    pub fn image_count(&self) -> (r: usize)
        ensures
            r == self@.images_in_flight.len(),
    {
        self.images_in_flight.len()
    }

    /// Current frame slot.
    pub fn current_frame(&self) -> (r: usize)
        ensures
            r == self@.frame,
    {
        self.frame
    }

    /// How many renderable instances the next frame records.
    pub fn model_count(&self) -> (r: usize)
        ensures
            r == self@.models,
    {
        self.models
    }

    /// How many secondary command buffers the given image's pool holds.
    pub fn secondary_buffers_of(&self, image: usize) -> (r: usize)
        requires
            image < self@.secondary_allocated.len(),
        ensures
            r == self@.secondary_allocated[image as int],
    {
        self.secondary_allocated[image]
    }

    /// The slot whose fence last used the given image, if any: the
    /// image's entry in the image-in-flight table.
    pub fn image_in_flight_of(&self, image: usize) -> (r: Option<usize>)
        requires
            image < self@.images_in_flight.len(),
        ensures
            r == self@.images_in_flight[image as int],
    {
        self.images_in_flight[image]
    }

    /// Extent of the current swapchain.
    pub fn extent(&self) -> (r: (u32, u32))
        ensures
            r == (self@.extent_width, self@.extent_height),
    {
        (self.extent_width, self.extent_height)
    }

    /// Whether frames should be rendered at all: rendering is suspended
    /// while the window has zero extent.
    pub fn should_render(&self) -> (r: bool)
        ensures
            r == !self@.minimized,
    {
        !self.minimized
    }

    /// Whether a resize is recorded and a rebuild owed.
    pub fn resize_requested(&self) -> (r: bool)
        ensures
            r == self@.resized,
    {
        self.resized
    }

    /// Begins a frame: directs the caller to block on the current slot's
    /// fence and returns the slot.  On return the slot's fence is
    /// signaled: the slot's previous iteration has fully retired, so no
    /// two uses of one slot's command buffer can overlap.
    pub fn begin_frame(&mut self) -> (slot: usize)
        requires
            old(self)@.wf(),
            old(self)@.phase == FramePhase::Idle,
            !old(self)@.minimized,
        ensures
            final(self)@ =~= begin_frame_tr(old(self)@),
            final(self)@.wf(),
            slot == old(self)@.frame,
            !final(self)@.slot_fence_pending[slot as int],
    {
        let slot = self.frame;
        self.slot_fence_pending.set(slot, false);
        self.phase = FramePhase::SlotReady;
        slot
    }

    /// Decides what to do with an acquire outcome.  For a delivered image
    /// the action names the older slot whose fence the caller must also
    /// block on — present exactly when that image is still tracked for a
    /// slot — and the image becomes tracked for the current slot.  A stale
    /// surface abandons the frame for a rebuild; a hard error abandons it
    /// with `DeviceError`.
    pub fn handle_acquire(&mut self, outcome: AcquireOutcome) -> (r: AcquireAction)
        requires
            old(self)@.wf(),
            old(self)@.phase == FramePhase::SlotReady,
            match outcome {
                AcquireOutcome::Image(i) => i < old(self)@.images_in_flight.len(),
                _ => true,
            },
        ensures
            final(self)@.wf(),
            match outcome {
                AcquireOutcome::Image(i) => {
                    &&& final(self)@ =~= acquire_tr(old(self)@, i)
                    &&& r == (AcquireAction::Proceed {
                        image: i,
                        wait_for_slot: old(self)@.images_in_flight[i as int],
                    })
                    &&& final(self)@.images_in_flight[i as int] == Some(old(self)@.frame)
                },
                AcquireOutcome::OutOfDate => {
                    &&& final(self)@ =~= cancel_tr(old(self)@)
                    &&& r == AcquireAction::Rebuild
                },
                AcquireOutcome::Failure(code) => {
                    &&& final(self)@ =~= cancel_tr(old(self)@)
                    &&& r == AcquireAction::Fail(RenderError::DeviceError(code))
                },
            },
    {
        match outcome {
            AcquireOutcome::Image(image) => {
                let wait_for_slot = self.images_in_flight[image];
                match wait_for_slot {
                    Some(s) => {
                        self.slot_fence_pending.set(s, false);
                    },
                    None => {},
                }
                self.images_in_flight.set(image, Some(self.frame));
                self.phase = FramePhase::ImageAcquired(image);
                AcquireAction::Proceed { image, wait_for_slot }
            },
            AcquireOutcome::OutOfDate => {
                self.phase = FramePhase::Idle;
                AcquireAction::Rebuild
            },
            AcquireOutcome::Failure(code) => {
                self.phase = FramePhase::Idle;
                AcquireAction::Fail(RenderError::DeviceError(code))
            },
        }
    }

    /// Records the frame's commands into `image` and returns how many
    /// secondary command buffers the frame records and executes: exactly
    /// the model count.  The image's pool grows to that count if it was
    /// smaller and never shrinks.
    pub fn record_frame(&mut self, image: usize) -> (executed: usize)
        requires
            old(self)@.wf(),
            old(self)@.phase == FramePhase::ImageAcquired(image),
        ensures
            final(self)@ =~= record_tr(old(self)@, image),
            final(self)@.wf(),
            executed == old(self)@.models,
            final(self)@.secondary_allocated[image as int]
                >= old(self)@.secondary_allocated[image as int],
            final(self)@.secondary_allocated[image as int] >= executed,
    {
        proof {
            assert(old(self)@.secondary_allocated.len() == old(self)@.images_in_flight.len());
        }
        let grown = grow_pool(self.secondary_allocated[image], self.models);
        self.secondary_allocated.set(image, grown);
        self.phase = FramePhase::Recorded(image);
        self.models
    }

    /// Issues the frame's queue submission: resets the slot's fence —
    /// which the begin-of-frame wait guarantees is signaled — and leaves
    /// it pending until the GPU signals it again.
    pub fn submit_frame(&mut self, image: usize)
        requires
            old(self)@.wf(),
            old(self)@.phase == FramePhase::Recorded(image),
            !old(self)@.slot_fence_pending[old(self)@.frame as int],
        ensures
            final(self)@ =~= submit_tr(old(self)@, image),
            final(self)@.wf(),
    {
        let slot = self.frame;
        self.slot_fence_pending.set(slot, true);
        self.phase = FramePhase::Submitted(image);
    }

    /// Decides what to do with a present outcome, after the frame's
    /// submission already completed.  On anything but a hard error the
    /// slot advances cyclically; a rebuild is owed exactly when the
    /// surface went stale or suboptimal or a resize was recorded, and a
    /// recorded resize is consumed by it.  A hard error surfaces as
    /// `DeviceError` and the frame does not advance.
    pub fn handle_present(&mut self, outcome: PresentOutcome) -> (r: PresentAction)
        requires
            old(self)@.wf(),
            old(self)@.phase matches FramePhase::Submitted(_),
        ensures
            final(self)@.wf(),
            match outcome {
                PresentOutcome::Failure(code) => {
                    &&& final(self)@ =~= cancel_tr(old(self)@)
                    &&& r == PresentAction::Fail(RenderError::DeviceError(code))
                },
                _ => {
                    &&& final(self)@ =~= finish_tr(old(self)@)
                    &&& final(self)@.frame == ((old(self)@.frame + 1) as int) % (
                    MAX_FRAMES_IN_FLIGHT as int)
                    &&& !final(self)@.resized
                    &&& r == if old(self)@.resized || outcome == PresentOutcome::Suboptimal
                        || outcome == PresentOutcome::OutOfDate {
                        PresentAction::RebuildThenContinue
                    } else {
                        PresentAction::Continue
                    }
                },
            },
    {
        match outcome {
            PresentOutcome::Failure(code) => {
                self.phase = FramePhase::Idle;
                PresentAction::Fail(RenderError::DeviceError(code))
            },
            _ => {
                let stale = match outcome {
                    PresentOutcome::Suboptimal => true,
                    PresentOutcome::OutOfDate => true,
                    _ => false,
                };
                let rebuild = self.resized || stale;
                self.resized = false;
                self.frame = (self.frame + 1) % MAX_FRAMES_IN_FLIGHT;
                self.phase = FramePhase::Idle;
                if rebuild {
                    PresentAction::RebuildThenContinue
                } else {
                    PresentAction::Continue
                }
            },
        }
    }

    /// Rebuilds the swapchain from fresh surface data and the window's
    /// current (non-zero) extent, after the caller's GPU idle wait.  Plans
    /// the new swapchain exactly as the initial build does and resizes
    /// every image-count-sized table in lockstep: the in-flight table
    /// cleared, the secondary pools empty.
    pub fn rebuild_swapchain(
        &mut self,
        caps: &SurfaceCaps,
        formats: &Vec<SurfaceFormat>,
        modes: &Vec<i32>,
        window_width: u32,
        window_height: u32,
    ) -> (r: SwapchainPlan)
        requires
            old(self)@.wf(),
            old(self)@.phase == FramePhase::Idle,
            !old(self)@.minimized,
            caps.wf(),
            formats@.len() > 0,
        ensures
            final(self)@ =~= rebuild_tr(old(self)@, r.image_count as usize, r.width, r.height),
            final(self)@.wf(),
            r.image_count == chosen_image_count(*caps),
            (r.width, r.height) == chosen_extent(*caps, window_width, window_height),
            formats@.contains(SurfaceFormat { format: r.format, color_space: r.color_space }),
            (exists|i: int| 0 <= i < formats@.len() && is_preferred_format(formats@[i]))
                ==> is_preferred_format(
                SurfaceFormat { format: r.format, color_space: r.color_space },
            ),
            r.present_mode == if modes@.contains(PRESENT_MODE_MAILBOX) {
                PRESENT_MODE_MAILBOX
            } else {
                PRESENT_MODE_FIFO
            },
            final(self)@.images_in_flight.len() == r.image_count,
            forall|i: int|
                0 <= i < final(self)@.images_in_flight.len()
                    ==> final(self)@.images_in_flight[i] is None,
    {
        let plan = plan_swapchain(caps, formats, modes, window_width, window_height);
        let count = plan.image_count as usize;
        self.images_in_flight = cleared_image_table(count);
        self.secondary_allocated = zero_pool_table(count);
        self.extent_width = plan.width;
        self.extent_height = plan.height;
        plan
    }

    /// Notes a reported window resize: a zero extent suspends rendering
    /// until a non-zero resize arrives; a non-zero extent resumes
    /// rendering and records that a rebuild is owed.
    pub fn handle_resize(&mut self, width: u32, height: u32)
        ensures
            final(self)@ =~= resize_tr(old(self)@, width, height),
            old(self)@.wf() ==> final(self)@.wf(),
    {
        if width == 0 || height == 0 {
            self.minimized = true;
        } else {
            self.minimized = false;
            self.resized = true;
        }
    }

    /// One more renderable instance, capped at `MAX_MODELS`.
    pub fn increase_models(&mut self)
        ensures
            final(self)@ =~= (AppModel {
                models: if old(self)@.models < MAX_MODELS {
                    (old(self)@.models + 1) as usize
                } else {
                    old(self)@.models
                },
                ..old(self)@
            }),
            old(self)@.wf() ==> final(self)@.wf(),
    {
        if self.models < MAX_MODELS {
            self.models = self.models + 1;
        }
    }

    /// One renderable instance fewer, floored at `MIN_MODELS`.
    pub fn decrease_models(&mut self)
        ensures
            final(self)@ =~= (AppModel {
                models: if old(self)@.models > MIN_MODELS {
                    (old(self)@.models - 1) as usize
                } else {
                    old(self)@.models
                },
                ..old(self)@
            }),
            old(self)@.wf() ==> final(self)@.wf(),
    {
        if self.models > MIN_MODELS {
            self.models = self.models - 1;
        }
    }
}

/// Fence safety: once the wait that begins a frame returns, the slot's
/// fence stays signaled through image acquisition and command recording,
/// so the submission that then resets it can never overlap the slot's
/// previous use of its command buffer.
pub proof fn lemma_fence_safety(m: AppModel, image: usize)
    requires
        m.wf(),
        m.phase == FramePhase::Idle,
        image < m.images_in_flight.len(),
    ensures
        ({
            let ready = begin_frame_tr(m);
            let acquired = acquire_tr(ready, image);
            let recorded = record_tr(acquired, image);
            &&& !ready.slot_fence_pending[ready.frame as int]
            &&& !acquired.slot_fence_pending[acquired.frame as int]
            &&& !recorded.slot_fence_pending[recorded.frame as int]
            &&& recorded.frame == m.frame
        }),
{
}

/// The image-in-flight table after a run of completed frames, frame `k`
/// submitted by slot `renders[k].0` into image `renders[k].1`.
pub open spec fn table_after_renders(
    table: Seq<Option<usize>>,
    renders: Seq<(usize, usize)>,
) -> Seq<Option<usize>>
    decreases renders.len(),
{
    if renders.len() == 0 {
        table
    } else {
        table_after_renders(table, renders.drop_last()).update(
            renders.last().1 as int,
            Some(renders.last().0),
        )
    }
}

/// The slot that most recently rendered into `image` during `renders`, if
/// any did.
pub open spec fn last_renderer(renders: Seq<(usize, usize)>, image: usize) -> Option<usize>
    decreases renders.len(),
{
    if renders.len() == 0 {
        None
    } else if renders.last().1 == image {
        Some(renders.last().0)
    } else {
        last_renderer(renders.drop_last(), image)
    }
}

/// Image tracking: after any run of completed frames, an image's
/// in-flight entry names the fence of whichever frame slot most recently
/// rendered into it, and keeps its prior entry if none did.  Each frame's
/// acquire step performs exactly one such table update.
pub proof fn lemma_image_tracking(
    table: Seq<Option<usize>>,
    renders: Seq<(usize, usize)>,
    image: usize,
)
    requires
        image < table.len(),
        forall|k: int| 0 <= k < renders.len() ==> (#[trigger] renders[k]).1 < table.len(),
    ensures
        table_after_renders(table, renders).len() == table.len(),
        table_after_renders(table, renders)[image as int] == match last_renderer(
            renders,
            image,
        ) {
            Some(s) => Some(s),
            None => table[image as int],
        },
    decreases renders.len(),
{
    if renders.len() > 0 {
        assert(forall|k: int|
            0 <= k < renders.drop_last().len() ==> (#[trigger] renders.drop_last()[k]).1
                < table.len());
        lemma_image_tracking(table, renders.drop_last(), image);
    }
}

/// One frame's acquire step changes the image-in-flight table exactly as
/// one completed render does: the acquired image becomes tracked for the
/// current slot and no other entry moves.
pub proof fn lemma_acquire_is_one_render(m: AppModel, image: usize)
    requires
        m.wf(),
        image < m.images_in_flight.len(),
    ensures
        acquire_tr(m, image).images_in_flight =~= table_after_renders(
            m.images_in_flight,
            seq![(m.frame, image)],
        ),
{
    let renders: Seq<(usize, usize)> = seq![(m.frame, image)];
    assert(renders.last() == (m.frame, image));
    assert(renders.drop_last() =~= Seq::<(usize, usize)>::empty());
    assert(table_after_renders(m.images_in_flight, renders.drop_last()) == m.images_in_flight);
    assert(table_after_renders(m.images_in_flight, renders) =~= m.images_in_flight.update(
        image as int,
        Some(m.frame),
    ));
}

/// Resize idempotence: rebuilding the swapchain at the same extent twice
/// in a row is the same as rebuilding it once — the same image count, and
/// an image-in-flight table of that length with every entry cleared.
pub proof fn lemma_rebuild_idempotent(m: AppModel, count: usize, width: u32, height: u32)
    ensures
        rebuild_tr(rebuild_tr(m, count, width, height), count, width, height) =~= rebuild_tr(
            m,
            count,
            width,
            height,
        ),
        rebuild_tr(m, count, width, height).images_in_flight.len() == count,
        forall|i: int|
            0 <= i < count ==> rebuild_tr(m, count, width, height).images_in_flight[i] is None,
{
}

/// A fresh image-in-flight table: one cleared entry per image.
fn cleared_image_table(count: usize) -> (r: Vec<Option<usize>>)
    ensures
        r@ =~= Seq::new(count as nat, |i: int| None::<usize>),
{
    let mut r: Vec<Option<usize>> = Vec::new();
    let mut k: usize = 0;
    while k < count
        invariant
            k <= count,
            r@ =~= Seq::new(k as nat, |i: int| None::<usize>),
        decreases count - k,
    {
        r.push(None);
        proof {
            assert(r@ =~= Seq::new((k + 1) as nat, |i: int| None::<usize>));
        }
        k += 1;
    }
    r
}

/// A fresh secondary-pool table: one empty pool per image.
fn zero_pool_table(count: usize) -> (r: Vec<usize>)
    ensures
        r@ =~= Seq::new(count as nat, |i: int| 0usize),
{
    let mut r: Vec<usize> = Vec::new();
    let mut k: usize = 0;
    while k < count
        invariant
            k <= count,
            r@ =~= Seq::new(k as nat, |i: int| 0usize),
        decreases count - k,
    {
        r.push(0);
        proof {
            assert(r@ =~= Seq::new((k + 1) as nat, |i: int| 0usize));
        }
        k += 1;
    }
    r
}

} // verus!
