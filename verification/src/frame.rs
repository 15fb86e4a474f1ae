//! The frame loop and its synchronizer: a state machine driven once per
//! render tick. Each tick waits on the current slot's fence, acquires a
//! presentable image, guards the image against a still-rendering slot,
//! submits, presents, and advances the slot — or tears the swapchain down
//! for recreation when the surface reports staleness.
//!
//! The host environment performs the waits, the acquire, the submit and the
//! present, and feeds their outcomes back in; every decision between those
//! calls is made here.

use vstd::prelude::*;
use crate::MAX_FRAMES_IN_FLIGHT;
use crate::barrier::STAGE_COLOR_ATTACHMENT_OUTPUT;
use crate::swapchain::Extent2D;

verus! {

/// Where the frame loop stands between host calls.
#[derive(Clone, Copy, Debug, PartialEq, Eq, Structural)]
pub enum FramePhase {
    /// Ready to begin a tick.
    Idle,
    /// The slot's fence has been waited on and an image acquire is pending.
    Acquiring,
    /// Work for the image was submitted and its presentation is pending.
    Presenting { image: usize },
    /// The swapchain must be rebuilt before the next tick.
    Recreating,
}

/// What a beginning tick asks of the host.
#[derive(Clone, Copy, Debug, PartialEq, Eq, Structural)]
pub enum TickAction {
    /// The window has a zero dimension: render nothing this tick.
    Skip,
    /// A resize is pending: rebuild the swapchain first.
    Recreate,
    /// Block on the slot's fence, then acquire the next image with the
    /// slot's image-available semaphore.
    AcquireImage { slot: usize },
}

/// What the host reports back from the image acquire.
#[derive(Clone, Copy, Debug, PartialEq, Eq, Structural)]
pub enum AcquireOutcome {
    Success { image: usize },
    /// The swapchain no longer matches the surface.
    OutOfDate,
    /// Any other failure, with its API error code; fatal.
    Error { code: i32 },
}

/// The submission the frame loop hands the host: which image to render,
/// with which slot's fence and semaphores, after which optional
/// image-in-use fence wait.
#[derive(Clone, Copy, Debug, PartialEq, Eq, Structural)]
pub struct SubmitPlan {
    /// The acquired swapchain image: its uniform buffer is refreshed and its
    /// pre-recorded command buffer submitted.
    pub image: usize,
    /// The frame slot whose fence is reset and signaled, and whose
    /// semaphores order acquire before submit before present.
    pub slot: usize,
    /// The slot recorded against the image by an earlier frame, whose fence
    /// must be waited on first; nothing while the image is untouched.
    pub wait_image_fence: Option<usize>,
    /// The pipeline stage at which the submit waits on the image-available
    /// semaphore.
    pub wait_stage: u32,
}

/// What follows the acquire: submit, recreate, or fail.
#[derive(Clone, Copy, Debug, PartialEq, Eq, Structural)]
pub enum AcquireStep {
    Submit { plan: SubmitPlan },
    Recreate,
    Fail { code: i32 },
}

/// What the host reports back from presentation.
#[derive(Clone, Copy, Debug, PartialEq, Eq, Structural)]
pub enum PresentOutcome {
    Success,
    /// Presentation succeeded but the swapchain no longer matches well.
    Suboptimal,
    /// The swapchain no longer matches the surface.
    OutOfDate,
    /// Any other failure, with its API error code; fatal.
    Error { code: i32 },
}

/// How a tick ends: normally, in recreation, or fatally.
#[derive(Clone, Copy, Debug, PartialEq, Eq, Structural)]
pub enum TickEnd {
    Done,
    Recreate,
    Fail { code: i32 },
}

/// How many slots are marked in flight.
pub open spec fn spec_count_in_flight(s: Seq<bool>) -> nat
    decreases s.len(),
{
    if s.len() == 0 {
        0
    } else {
        spec_count_in_flight(s.drop_last()) + if s.last() {
            1nat
        } else {
            0nat
        }
    }
}

/// No more slots can be in flight than there are slots.
proof fn lemma_count_in_flight_le_len(s: Seq<bool>)
    ensures
        spec_count_in_flight(s) <= s.len(),
    decreases s.len(),
{
    if s.len() > 0 {
        lemma_count_in_flight_le_len(s.drop_last());
    }
}

/// A slot array with every fence signaled has nothing in flight.
proof fn lemma_count_in_flight_all_false(s: Seq<bool>)
    requires
        forall|j: int| 0 <= j < s.len() ==> !s[j],
    ensures
        spec_count_in_flight(s) == 0,
    decreases s.len(),
{
    if s.len() > 0 {
        lemma_count_in_flight_all_false(s.drop_last());
    }
}

/// The frame loop's state: the current slot, which slot fences are
/// unsignaled (work submitted and not yet known complete), the per-image
/// table of the slot last rendering into each swapchain image, the phase,
/// and what the host last said about the window.
#[derive(Debug)]
pub struct FrameLoop {
    /// The current frame slot, always below `MAX_FRAMES_IN_FLIGHT`.
    pub frame_index: usize,
    /// Per frame slot: whether its fence is unsignaled.
    pub slot_in_flight: Vec<bool>,
    /// Per swapchain image: the slot whose submitted work last targeted it,
    /// or nothing while unused. Owns no primitives; purely tracking.
    pub images_in_flight: Vec<Option<usize>>,
    /// Where the loop stands between host calls.
    pub phase: FramePhase,
    /// The window's current pixel size as last reported.
    pub window_extent: Extent2D,
    /// Whether a resize was reported and recreation is still owed.
    pub resize_pending: bool,
}

impl FrameLoop {
    /// Well-formedness: the slot array has exactly `MAX_FRAMES_IN_FLIGHT`
    /// entries, the current slot is one of them, and the per-image table
    /// only ever names real slots.
    pub open spec fn wf(self) -> bool {
        &&& self.slot_in_flight@.len() == MAX_FRAMES_IN_FLIGHT
        &&& self.frame_index < MAX_FRAMES_IN_FLIGHT
        &&& forall|j: int|
            0 <= j < self.images_in_flight@.len() ==> (#[trigger] self.images_in_flight@[j]
                matches Some(s) ==> s < MAX_FRAMES_IN_FLIGHT)
    }

    /// The number of frame slots whose fence is unsignaled.
    pub open spec fn frames_in_flight(self) -> nat {
        spec_count_in_flight(self.slot_in_flight@)
    }

    /// The number of swapchain images the loop tracks.
    pub open spec fn image_count(self) -> nat {
        self.images_in_flight@.len()
    }

    /// Sets up the synchronizer for a fresh swapchain: every slot fence is
    /// created signaled, no image is in use, and the loop starts at slot
    /// zero, ready for its first tick.
    pub fn new(image_count: usize, window_extent: Extent2D) -> (r: FrameLoop)
        ensures
            r.wf(),
            r.frame_index == 0,
            r.frames_in_flight() == 0,
            r.image_count() == image_count,
            forall|j: int| 0 <= j < image_count ==> r.images_in_flight@[j] is None,
            r.phase == FramePhase::Idle,
            r.window_extent == window_extent,
            r.resize_pending == false,
    {
        let mut slot_in_flight: Vec<bool> = Vec::new();
        let mut k: usize = 0;
        while k < MAX_FRAMES_IN_FLIGHT
            invariant
                0 <= k <= MAX_FRAMES_IN_FLIGHT,
                slot_in_flight@.len() == k,
                forall|j: int| 0 <= j < k ==> slot_in_flight@[j] == false,
            decreases MAX_FRAMES_IN_FLIGHT - k,
        {
            slot_in_flight.push(false);
            k = k + 1;
        }
        proof {
            lemma_count_in_flight_all_false(slot_in_flight@);
        }
        let mut images_in_flight: Vec<Option<usize>> = Vec::new();
        let mut k: usize = 0;
        while k < image_count
            invariant
                0 <= k <= image_count,
                images_in_flight@.len() == k,
                forall|j: int| 0 <= j < k ==> images_in_flight@[j] is None,
            decreases image_count - k,
        {
            images_in_flight.push(None);
            k = k + 1;
        }
        FrameLoop {
            frame_index: 0,
            slot_in_flight,
            images_in_flight,
            phase: FramePhase::Idle,
            window_extent,
            resize_pending: false,
        }
    }

    /// Records the window size the host reports; a zero dimension makes the
    /// loop skip ticks until the window is restored.
    pub fn set_window_extent(&mut self, extent: Extent2D)
        ensures
            *final(self) == (FrameLoop { window_extent: extent, ..*old(self) }),
    {
        self.window_extent = extent;
    }

    /// Records whether a resize signal is pending, deferring recreation to
    /// the next tick.
    pub fn resized(&mut self, newval: bool)
        ensures
            *final(self) == (FrameLoop { resize_pending: newval, ..*old(self) }),
    {
        self.resize_pending = newval;
    }

    /// Begins a tick. A zero-dimension window skips the tick entirely; a
    /// pending resize turns into recreation; otherwise the host is told to
    /// block on the current slot's fence — observing it signaled — and
    /// acquire the next image.
    pub fn start(&mut self) -> (a: TickAction)
        requires
            old(self).wf(),
            old(self).phase == FramePhase::Idle,
        ensures
            final(self).wf(),
            old(self).window_extent.width == 0 || old(self).window_extent.height == 0 ==> a
                == TickAction::Skip && *final(self) == *old(self),
            old(self).window_extent.width > 0 && old(self).window_extent.height > 0 && old(
                self,
            ).resize_pending ==> a == TickAction::Recreate && *final(self) == (FrameLoop {
                phase: FramePhase::Recreating,
                resize_pending: false,
                ..*old(self)
            }),
            old(self).window_extent.width > 0 && old(self).window_extent.height > 0 && !old(
                self,
            ).resize_pending ==> a == (TickAction::AcquireImage { slot: old(self).frame_index })
                && *final(self) == (FrameLoop {
                phase: FramePhase::Acquiring,
                slot_in_flight: final (self).slot_in_flight,
                ..*old(self)
            }) && final (self).slot_in_flight@ == old(self).slot_in_flight@.update(
                old(self).frame_index as int,
                false,
            ),
    {
        if self.window_extent.width == 0 || self.window_extent.height == 0 {
            return TickAction::Skip;
        }
        if self.resize_pending {
            self.resize_pending = false;
            self.phase = FramePhase::Recreating;
            return TickAction::Recreate;
        }
        let slot = self.frame_index;
        self.slot_in_flight.set(slot, false);
        self.phase = FramePhase::Acquiring;
        TickAction::AcquireImage { slot }
    }

    /// Consumes the acquire outcome. An out-of-date swapchain goes straight
    /// to recreation; any other error is fatal. On success the image-in-use
    /// guard is applied: when the per-image table still names a slot for the
    /// acquired image, the host must block on that slot's fence first. The
    /// table then records the current slot, and the submission — reset the
    /// slot's fence, submit, signal — is handed back.
    pub fn on_acquired(&mut self, outcome: AcquireOutcome) -> (a: AcquireStep)
        requires
            old(self).wf(),
            old(self).phase == FramePhase::Acquiring,
            outcome matches AcquireOutcome::Success { image } ==> image < old(self).image_count(),
        ensures
            final(self).wf(),
            final(self).image_count() == old(self).image_count(),
            outcome == AcquireOutcome::OutOfDate ==> a == AcquireStep::Recreate && *final(self)
                == (FrameLoop { phase: FramePhase::Recreating, ..*old(self) }),
            outcome matches AcquireOutcome::Error { code } ==> a == (AcquireStep::Fail { code })
                && *final(self) == (FrameLoop { phase: FramePhase::Idle, ..*old(self) }),
            outcome matches AcquireOutcome::Success { image } ==> {
                let slot = old(self).frame_index;
                let guarded = old(self).images_in_flight@[image as int];
                &&& a == (AcquireStep::Submit {
                    plan: SubmitPlan {
                        image,
                        slot,
                        wait_image_fence: guarded,
                        wait_stage: STAGE_COLOR_ATTACHMENT_OUTPUT,
                    },
                })
                &&& final (self).phase == (FramePhase::Presenting { image })
                &&& final (self).frame_index == slot
                &&& final (self).images_in_flight@ == old(self).images_in_flight@.update(
                    image as int,
                    Some(slot),
                )
                &&& final (self).slot_in_flight@ == (match guarded {
                    Some(p) => old(self).slot_in_flight@.update(p as int, false),
                    None => old(self).slot_in_flight@,
                }).update(slot as int, true)
                &&& final (self).window_extent == old(self).window_extent
                &&& final (self).resize_pending == old(self).resize_pending
            },
    {
        match outcome {
            AcquireOutcome::OutOfDate => {
                self.phase = FramePhase::Recreating;
                AcquireStep::Recreate
            },
            AcquireOutcome::Error { code } => {
                self.phase = FramePhase::Idle;
                AcquireStep::Fail { code }
            },
            AcquireOutcome::Success { image } => {
                let slot = self.frame_index;
                let guarded = self.images_in_flight[image];
                if let Some(p) = guarded {
                    // The host blocks on that slot's fence; it is signaled
                    // once the wait returns.
                    self.slot_in_flight.set(p, false);
                }
                self.images_in_flight.set(image, Some(slot));
                self.slot_in_flight.set(slot, true);
                self.phase = FramePhase::Presenting { image };
                AcquireStep::Submit {
                    plan: SubmitPlan {
                        image,
                        slot,
                        wait_image_fence: guarded,
                        wait_stage: STAGE_COLOR_ATTACHMENT_OUTPUT,
                    },
                }
            },
        }
    }

    /// Consumes the present outcome. Success advances the frame slot;
    /// a suboptimal or out-of-date swapchain turns into recreation without
    /// advancing; any other error is fatal.
    pub fn on_presented(&mut self, outcome: PresentOutcome) -> (a: TickEnd)
        requires
            old(self).wf(),
            old(self).phase matches FramePhase::Presenting { .. },
        ensures
            final(self).wf(),
            outcome == PresentOutcome::Success ==> a == TickEnd::Done && *final(self) == (FrameLoop {
                phase: FramePhase::Idle,
                frame_index: ((old(self).frame_index + 1) % (MAX_FRAMES_IN_FLIGHT as int)) as usize,
                ..*old(self)
            }),
            outcome == PresentOutcome::Suboptimal || outcome == PresentOutcome::OutOfDate ==> a
                == TickEnd::Recreate && *final(self) == (FrameLoop {
                phase: FramePhase::Recreating,
                ..*old(self)
            }),
            outcome matches PresentOutcome::Error { code } ==> a == (TickEnd::Fail { code })
                && *final(self) == (FrameLoop { phase: FramePhase::Idle, ..*old(self) }),
    {
        match outcome {
            PresentOutcome::Success => {
                self.frame_index = (self.frame_index + 1) % MAX_FRAMES_IN_FLIGHT;
                self.phase = FramePhase::Idle;
                TickEnd::Done
            },
            PresentOutcome::Suboptimal | PresentOutcome::OutOfDate => {
                self.phase = FramePhase::Recreating;
                TickEnd::Recreate
            },
            PresentOutcome::Error { code } => {
                self.phase = FramePhase::Idle;
                TickEnd::Fail { code }
            },
        }
    }

    /// Finishes a recreation: the per-image table is resized to the new
    /// swapchain image count — entries for surviving indices kept, new
    /// entries empty — and the loop returns to idle without advancing the
    /// frame slot.
    pub fn on_recreated(&mut self, new_image_count: usize)
        requires
            old(self).wf(),
            old(self).phase == FramePhase::Recreating,
        ensures
            final(self).wf(),
            final(self).image_count() == new_image_count,
            forall|j: int|
                0 <= j < new_image_count ==> final (self).images_in_flight@[j] == (if j < old(
                    self,
                ).image_count() {
                    old(self).images_in_flight@[j]
                } else {
                    None
                }),
            final(self).phase == FramePhase::Idle,
            final(self).frame_index == old(self).frame_index,
            final(self).slot_in_flight == old(self).slot_in_flight,
            final(self).window_extent == old(self).window_extent,
            final(self).resize_pending == old(self).resize_pending,
    {
        proof {
            assert(self.images_in_flight@ =~= old(self).images_in_flight@.subrange(
                0,
                self.images_in_flight@.len() as int,
            ));
        }
        while self.images_in_flight.len() > new_image_count
            invariant
                old(self).wf(),
                self.images_in_flight@ == old(self).images_in_flight@.subrange(
                    0,
                    self.images_in_flight@.len() as int,
                ),
                self.images_in_flight@.len() <= old(self).image_count(),
                self.images_in_flight@.len() >= new_image_count || self.images_in_flight@.len()
                    == old(self).image_count(),
                self.frame_index == old(self).frame_index,
                self.slot_in_flight == old(self).slot_in_flight,
                self.phase == old(self).phase,
                self.window_extent == old(self).window_extent,
                self.resize_pending == old(self).resize_pending,
            decreases self.images_in_flight@.len(),
        {
            self.images_in_flight.pop();
            proof {
                assert(self.images_in_flight@ =~= old(self).images_in_flight@.subrange(
                    0,
                    self.images_in_flight@.len() as int,
                ));
            }
        }
        while self.images_in_flight.len() < new_image_count
            invariant
                old(self).wf(),
                self.images_in_flight@.len() <= new_image_count,
                self.images_in_flight@.len() >= new_image_count || self.images_in_flight@.len()
                    >= old(self).image_count(),
                forall|j: int|
                    0 <= j < self.images_in_flight@.len() ==> self.images_in_flight@[j] == (
                    if j < old(self).image_count() {
                        old(self).images_in_flight@[j]
                    } else {
                        None
                    }),
                self.frame_index == old(self).frame_index,
                self.slot_in_flight == old(self).slot_in_flight,
                self.phase == old(self).phase,
                self.window_extent == old(self).window_extent,
                self.resize_pending == old(self).resize_pending,
            decreases new_image_count - self.images_in_flight@.len(),
        {
            self.images_in_flight.push(None);
        }
        self.phase = FramePhase::Idle;
    }
}

/// For every well-formed state — and every operation above keeps states
/// well-formed — the number of frame slots with an unsignaled in-use fence
/// never exceeds `MAX_FRAMES_IN_FLIGHT`.
pub proof fn lemma_frames_in_flight_bounded(s: FrameLoop)
    requires
        s.wf(),
    ensures
        s.frames_in_flight() <= MAX_FRAMES_IN_FLIGHT,
{
    lemma_count_in_flight_le_len(s.slot_in_flight@);
}

} // verus!
