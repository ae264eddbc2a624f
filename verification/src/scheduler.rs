//! The per-frame driver. One `render_frame` pass runs
//! acquire → wait-on-prior-use → submit → present → advance; the scheduler
//! decides each step and the host program performs it. The host reports
//! every device outcome back as an [`Event`], and the scheduler answers
//! with the next [`Action`]: it alone decides when a frame is dropped, when
//! the swapchain is rebuilt and when the engine halts. Lower components
//! report raw outcomes upward and decide no policy.

use vstd::prelude::*;
use vstd::pervasive::unreached;

use crate::MAX_FRAMES_IN_FLIGHT;
use crate::commands::STAGE_COLOR_ATTACHMENT_OUTPUT;
use crate::commands::SubmitArgs;
use crate::commands::submission_for;
use crate::commands::submit_args;
use crate::frames::FramePool;

verus! {

/// The raw outcome of a device call, as the host observed it. `Timeout` is
/// the distinguished outcome of a bounded fence wait that ran out: the
/// engine treats a hung device as fatal rather than blocking forever.
#[derive(Clone, Copy, PartialEq, Eq, Structural, Debug)]
pub enum GpuOutcome {
    Success,
    Suboptimal,
    OutOfDate,
    Timeout,
    SurfaceLost,
    DeviceLost,
    OutOfHostMemory,
    OutOfDeviceMemory,
    Other(i32),
}

/// What an outcome means for the frame in progress: carry on, drop or
/// finish the frame and rebuild the swapchain, or halt the engine for
/// good.
#[derive(Clone, Copy, PartialEq, Eq, Structural, Debug)]
pub enum Disposition {
    Proceed,
    Recreate,
    Fatal,
}

/// How an acquire outcome is treated: a suboptimal chain still yields a
/// usable image, so the frame proceeds; an out-of-date chain yields none,
/// so the frame is dropped and the chain rebuilt; everything else is
/// fatal.
pub open spec fn spec_classify_acquire(outcome: GpuOutcome) -> Disposition {
    match outcome {
        GpuOutcome::Success => Disposition::Proceed,
        GpuOutcome::Suboptimal => Disposition::Proceed,
        GpuOutcome::OutOfDate => Disposition::Recreate,
        _ => Disposition::Fatal,
    }
}

/// Classifies an acquire outcome.
pub fn classify_acquire(outcome: GpuOutcome) -> (d: Disposition)
    ensures
        d == spec_classify_acquire(outcome),
{
    match outcome {
        GpuOutcome::Success => Disposition::Proceed,
        GpuOutcome::Suboptimal => Disposition::Proceed,
        GpuOutcome::OutOfDate => Disposition::Recreate,
        _ => Disposition::Fatal,
    }
}

/// How a present outcome is treated: the image was already handed over, so
/// both the suboptimal and the out-of-date report finish the frame and
/// then rebuild the chain; everything else but success is fatal.
pub open spec fn spec_classify_present(outcome: GpuOutcome) -> Disposition {
    match outcome {
        GpuOutcome::Success => Disposition::Proceed,
        GpuOutcome::Suboptimal => Disposition::Recreate,
        GpuOutcome::OutOfDate => Disposition::Recreate,
        _ => Disposition::Fatal,
    }
}

/// Classifies a present outcome.
pub fn classify_present(outcome: GpuOutcome) -> (d: Disposition)
    ensures
        d == spec_classify_present(outcome),
{
    match outcome {
        GpuOutcome::Success => Disposition::Proceed,
        GpuOutcome::Suboptimal => Disposition::Recreate,
        GpuOutcome::OutOfDate => Disposition::Recreate,
        _ => Disposition::Fatal,
    }
}

/// Where the engine stands inside one `render_frame` pass.
#[derive(Clone, Copy, PartialEq, Eq, Structural, Debug)]
pub enum Phase {
    /// Between frames; the next call is `begin_frame` (or a proactive
    /// `request_recreation` after a resize notification).
    Idle,
    /// Waiting on the current slot's fence before reusing its resources.
    AwaitingSlot,
    /// An acquire of the next presentable image is outstanding.
    Acquiring,
    /// A different slot's submission still owns the acquired image; its
    /// fence must be observed signaled before the image is touched.
    WaitingOnPriorImageUse { image_index: usize, prior_slot: usize },
    /// The draw submission for the acquired image is outstanding.
    Submitting { image_index: usize },
    /// The present of the acquired image is outstanding.
    Presenting { image_index: usize },
    /// The swapchain must be rebuilt before any further frame.
    Recreating,
    /// A fatal outcome was observed; the engine takes no further steps.
    Halted { error: GpuOutcome },
}

/// What the host must do next. Semaphores and fences are named by the slot
/// that owns them.
#[derive(Clone, Copy, PartialEq, Eq, Structural, Debug)]
pub enum Action {
    /// Wait (bounded) on the named slot's fence.
    WaitForSlotFence { slot: usize },
    /// Acquire the next presentable image, signaling the named slot's
    /// image-available semaphore when the image is ready.
    AcquireImage { signal_slot: usize },
    /// Wait (bounded) on the named slot's fence before touching the
    /// acquired image.
    WaitForImageFence { slot: usize },
    /// Reset the fence named by the arguments and submit the one command
    /// buffer with exactly these wait/signal arguments.
    SubmitDraw { args: SubmitArgs },
    /// Present the acquired image, waiting on the named slot's
    /// render-finished semaphore.
    PresentImage { wait_slot: usize, image_index: usize },
    /// Wait for the device to go idle, tear the chain-dependent resources
    /// down and rebuild them from a fresh surface report.
    RecreateSwapchain,
    /// Nothing; the pass is over.
    FrameComplete,
    /// Stop rendering; the device is no longer trustworthy.
    Halt { error: GpuOutcome },
}

/// What the host reports back, each variant answering the action that
/// asked for it. A `Success` in a fence-wait event means the fence was
/// observed signaled.
#[derive(Clone, Copy, PartialEq, Eq, Structural, Debug)]
pub enum Event {
    /// Outcome of `WaitForSlotFence`.
    SlotFenceWaited { outcome: GpuOutcome },
    /// Outcome of `AcquireImage`; `image_index` names the acquired image
    /// and is meaningful when the outcome yields one.
    AcquireReturned { outcome: GpuOutcome, image_index: usize },
    /// Outcome of `WaitForImageFence`.
    ImageFenceWaited { outcome: GpuOutcome },
    /// Outcome of `SubmitDraw`.
    SubmitReturned { outcome: GpuOutcome },
    /// Outcome of `PresentImage`.
    PresentReturned { outcome: GpuOutcome },
    /// `RecreateSwapchain` succeeded; the rebuilt chain has this many
    /// images.
    SwapchainRebuilt { image_count: usize },
    /// `RecreateSwapchain` failed.
    RebuildFailed { outcome: GpuOutcome },
}

/// The scheduler's whole state: the slot cursor, the chain's image count,
/// the synchronization bookkeeping, and the phase within the current pass.
pub struct Engine {
    /// The current frame slot; advances round-robin when a frame finishes.
    pub frame: usize,
    /// How many images the current swapchain holds.
    pub image_count: usize,
    /// Fence bookkeeping and the images-in-flight table.
    pub pool: FramePool,
    /// Where the engine stands inside the current pass.
    pub phase: Phase,
    /// How many frames have been presented since the engine was built;
    /// tracked in ghost code alone, so the invariant can say that the
    /// slot cursor walks round-robin with the frame count.
    pub frames_presented: Ghost<nat>,
}

/// The per-slot fence bookkeeping of an engine state.
pub open spec fn fences(s: Engine) -> Seq<bool> {
    s.pool.fence_outstanding@
}

/// The images-in-flight table of an engine state.
pub open spec fn images(s: Engine) -> Seq<Option<usize>> {
    s.pool.images_in_flight@
}

impl Engine {
    /// The phase-independent part of the invariant: the bookkeeping is
    /// well formed and the slot cursor names a real slot.
    pub open spec fn core_inv(&self) -> bool {
        &&& self.pool.wf()
        &&& self.pool.images_in_flight@.len() == self.image_count
        &&& self.frame < MAX_FRAMES_IN_FLIGHT
        &&& self.frame == self.frames_presented@ % (MAX_FRAMES_IN_FLIGHT as nat)
    }

    /// The engine's invariant: the bookkeeping is well formed, the slot
    /// cursor names a real slot, and the phase's claims about fences and
    /// image ownership hold.
    pub open spec fn inv(&self) -> bool {
        &&& self.core_inv()
        &&& match self.phase {
            Phase::Acquiring => !fences(*self)[self.frame as int],
            Phase::WaitingOnPriorImageUse { image_index, prior_slot } => {
                &&& image_index < self.image_count
                &&& prior_slot < MAX_FRAMES_IN_FLIGHT
                &&& images(*self)[image_index as int] == Some(prior_slot)
                &&& fences(*self)[prior_slot as int]
                &&& !fences(*self)[self.frame as int]
            },
            Phase::Submitting { image_index } => {
                &&& image_index < self.image_count
                &&& images(*self)[image_index as int] == Some(self.frame)
                &&& fences(*self)[self.frame as int]
            },
            Phase::Presenting { image_index } => {
                &&& image_index < self.image_count
                &&& images(*self)[image_index as int] == Some(self.frame)
                &&& fences(*self)[self.frame as int]
            },
            _ => true,
        }
    }

    /// Which events the engine can take in its current phase: exactly the
    /// answer to the action it last issued, and an acquired image index
    /// must name an image of the chain.
    pub open spec fn accepts(&self, e: Event) -> bool {
        match (self.phase, e) {
            (Phase::AwaitingSlot, Event::SlotFenceWaited { .. }) => true,
            (Phase::Acquiring, Event::AcquireReturned { outcome, image_index }) => {
                spec_classify_acquire(outcome) is Proceed ==> image_index < self.image_count
            },
            (Phase::WaitingOnPriorImageUse { .. }, Event::ImageFenceWaited { .. }) => true,
            (Phase::Submitting { .. }, Event::SubmitReturned { .. }) => true,
            (Phase::Presenting { .. }, Event::PresentReturned { .. }) => true,
            (Phase::Recreating, Event::SwapchainRebuilt { .. }) => true,
            (Phase::Recreating, Event::RebuildFailed { .. }) => true,
            _ => false,
        }
    }

    /// Builds the engine over a fresh chain of `image_count` images: slot
    /// zero first, every fence pre-signaled, no image claimed, idle.
    pub fn new(image_count: usize) -> (engine: Engine)
        ensures
            engine.inv(),
            engine.frame == 0,
            engine.image_count == image_count,
            engine.phase == Phase::Idle,
            engine.frames_presented@ == 0,
            fences(engine) == seq![false, false],
            forall|i: int| 0 <= i < image_count ==> images(engine)[i] is None,
    {
        Engine {
            frame: 0,
            image_count,
            pool: FramePool::new(image_count),
            phase: Phase::Idle,
            frames_presented: Ghost(0),
        }
    }

    /// Opens a pass: the host must first wait on the current slot's fence,
    /// so the CPU never reuses the slot's command buffer or semaphores
    /// while the device may still be consuming them.
    pub fn begin_frame(&mut self) -> (a: Action)
        requires
            old(self).inv(),
            old(self).phase == Phase::Idle,
        ensures
            final(self).inv(),
            final(self).frame == old(self).frame,
            final(self).image_count == old(self).image_count,
            fences(*final(self)) == fences(*old(self)),
            images(*final(self)) == images(*old(self)),
            final(self).frames_presented == old(self).frames_presented,
            final(self).phase == Phase::AwaitingSlot,
            a == (Action::WaitForSlotFence { slot: old(self).frame }),
    {
        self.phase = Phase::AwaitingSlot;
        Action::WaitForSlotFence { slot: self.frame }
    }

    /// Notes a resize notification between frames: the chain no longer
    /// matches the surface and is rebuilt before the next pass.
    pub fn request_recreation(&mut self) -> (a: Action)
        requires
            old(self).inv(),
            old(self).phase == Phase::Idle,
        ensures
            final(self).inv(),
            final(self).frame == old(self).frame,
            final(self).image_count == old(self).image_count,
            fences(*final(self)) == fences(*old(self)),
            images(*final(self)) == images(*old(self)),
            final(self).frames_presented == old(self).frames_presented,
            final(self).phase == Phase::Recreating,
            a == Action::RecreateSwapchain,
    {
        self.phase = Phase::Recreating;
        Action::RecreateSwapchain
    }

    /// Feeds one observed outcome in and takes the next decision, exactly
    /// as [`step_spec`] describes.
    pub fn step(&mut self, e: Event) -> (a: Action)
        requires
            old(self).inv(),
            old(self).accepts(e),
        ensures
            final(self).inv(),
            step_spec(*old(self), e, *final(self), a),
    {
        match (self.phase, e) {
            (Phase::AwaitingSlot, Event::SlotFenceWaited { outcome }) => {
                match outcome {
                    GpuOutcome::Success => {
                        let slot = self.frame;
                        self.pool.observe_signaled(slot);
                        self.phase = Phase::Acquiring;
                        Action::AcquireImage { signal_slot: slot }
                    },
                    _ => self.halt(outcome),
                }
            },
            (Phase::Acquiring, Event::AcquireReturned { outcome, image_index }) => {
                match classify_acquire(outcome) {
                    Disposition::Proceed => {
                        let owner = self.pool.fence_for(image_index);
                        match owner {
                            Some(prior_slot) => {
                                if self.pool.fence_outstanding[prior_slot] {
                                    self.phase = Phase::WaitingOnPriorImageUse {
                                        image_index,
                                        prior_slot,
                                    };
                                    Action::WaitForImageFence { slot: prior_slot }
                                } else {
                                    self.issue_submission(image_index)
                                }
                            },
                            None => self.issue_submission(image_index),
                        }
                    },
                    Disposition::Recreate => {
                        self.phase = Phase::Recreating;
                        Action::RecreateSwapchain
                    },
                    Disposition::Fatal => self.halt(outcome),
                }
            },
            (
                Phase::WaitingOnPriorImageUse { image_index, prior_slot },
                Event::ImageFenceWaited { outcome },
            ) => {
                match outcome {
                    GpuOutcome::Success => {
                        self.pool.observe_signaled(prior_slot);
                        self.issue_submission(image_index)
                    },
                    _ => self.halt(outcome),
                }
            },
            (Phase::Submitting { image_index }, Event::SubmitReturned { outcome }) => {
                match outcome {
                    GpuOutcome::Success => {
                        self.phase = Phase::Presenting { image_index };
                        Action::PresentImage { wait_slot: self.frame, image_index }
                    },
                    _ => self.halt(outcome),
                }
            },
            (Phase::Presenting { image_index: _ }, Event::PresentReturned { outcome }) => {
                match classify_present(outcome) {
                    Disposition::Proceed => {
                        self.advance_frame();
                        self.phase = Phase::Idle;
                        Action::FrameComplete
                    },
                    Disposition::Recreate => {
                        self.advance_frame();
                        self.phase = Phase::Recreating;
                        Action::RecreateSwapchain
                    },
                    Disposition::Fatal => self.halt(outcome),
                }
            },
            (Phase::Recreating, Event::SwapchainRebuilt { image_count }) => {
                self.pool = FramePool::new(image_count);
                self.image_count = image_count;
                self.phase = Phase::Idle;
                Action::FrameComplete
            },
            (Phase::Recreating, Event::RebuildFailed { outcome }) => self.halt(outcome),
            _ => unreached(),
        }
    }

    /// Counts the presented frame and moves the slot cursor round-robin.
    fn advance_frame(&mut self)
        requires
            old(self).core_inv(),
        ensures
            final(self).core_inv(),
            final(self).frame == (old(self).frame + 1) % (MAX_FRAMES_IN_FLIGHT as int),
            final(self).frames_presented@ == old(self).frames_presented@ + 1,
            final(self).image_count == old(self).image_count,
            final(self).pool == old(self).pool,
            final(self).phase == old(self).phase,
    {
        proof {
            vstd::arithmetic::div_mod::lemma_add_mod_noop(
                self.frames_presented@ as int,
                1,
                MAX_FRAMES_IN_FLIGHT as int,
            );
        }
        self.frame = (self.frame + 1) % MAX_FRAMES_IN_FLIGHT;
        self.frames_presented = Ghost(self.frames_presented@ + 1);
    }

    /// Records a fatal outcome and stops the engine.
    fn halt(&mut self, outcome: GpuOutcome) -> (a: Action)
        requires
            old(self).inv(),
        ensures
            final(self).inv(),
            halts(*old(self), *final(self), a, outcome),
    {
        self.phase = Phase::Halted { error: outcome };
        Action::Halt { error: outcome }
    }

    /// Claims the image for the current slot, marks the slot's fence
    /// outstanding and issues the submission.
    fn issue_submission(&mut self, image_index: usize) -> (a: Action)
        requires
            old(self).core_inv(),
            image_index < old(self).image_count,
            !fences(*old(self))[old(self).frame as int],
        ensures
            final(self).inv(),
            final(self).frame == old(self).frame,
            final(self).frames_presented == old(self).frames_presented,
            final(self).image_count == old(self).image_count,
            fences(*final(self)) == fences(*old(self)).update(old(self).frame as int, true),
            images(*final(self)) == images(*old(self)).update(
                image_index as int,
                Some(old(self).frame),
            ),
            final(self).phase == (Phase::Submitting { image_index }),
            a == (Action::SubmitDraw { args: submission_for(old(self).frame as int, image_index as int) }),
    {
        let slot = self.frame;
        self.pool.mark_outstanding(slot);
        self.pool.mark_in_use(image_index, slot);
        self.phase = Phase::Submitting { image_index };
        Action::SubmitDraw { args: submit_args(slot, image_index) }
    }
}

/// Nothing about the chain or the bookkeeping changed.
pub open spec fn same_resources(pre: Engine, post: Engine) -> bool {
    &&& fences(post) == fences(pre)
    &&& images(post) == images(pre)
    &&& post.image_count == pre.image_count
}

/// The step halted the engine on `outcome`, changing nothing else.
pub open spec fn halts(pre: Engine, post: Engine, a: Action, outcome: GpuOutcome) -> bool {
    &&& same_resources(pre, post)
    &&& post.frame == pre.frame
    &&& post.frames_presented == pre.frames_presented
    &&& post.phase == (Phase::Halted { error: outcome })
    &&& a == (Action::Halt { error: outcome })
}

/// The step issued the draw submission for `image_index` from the current
/// slot: where a prior owner's fence was first observed signaled,
/// `observed_first` names it; the slot's fence went outstanding, the slot
/// claimed the image, and the submission's arguments are the slot's own
/// synchronization objects with the wait at color-attachment output.
pub open spec fn issues_submission(
    pre: Engine,
    post: Engine,
    a: Action,
    image_index: int,
    observed_first: Option<int>,
) -> bool {
    let base = match observed_first {
        Some(s) => fences(pre).update(s, false),
        None => fences(pre),
    };
    &&& post.frame == pre.frame
    &&& post.frames_presented == pre.frames_presented
    &&& post.image_count == pre.image_count
    &&& fences(post) == base.update(pre.frame as int, true)
    &&& images(post) == images(pre).update(image_index, Some(pre.frame))
    &&& post.phase == (Phase::Submitting { image_index: image_index as usize })
    &&& a == (Action::SubmitDraw { args: submission_for(pre.frame as int, image_index) })
}

/// The full transition relation of one step: for each phase and the event
/// answering it, what the next state and the next action are.
pub open spec fn step_spec(pre: Engine, e: Event, post: Engine, a: Action) -> bool {
    match (pre.phase, e) {
        (Phase::AwaitingSlot, Event::SlotFenceWaited { outcome }) => {
            if outcome is Success {
                &&& post.frame == pre.frame
                &&& post.frames_presented == pre.frames_presented
                &&& post.image_count == pre.image_count
                &&& fences(post) == fences(pre).update(pre.frame as int, false)
                &&& images(post) == images(pre)
                &&& post.phase == Phase::Acquiring
                &&& a == (Action::AcquireImage { signal_slot: pre.frame })
            } else {
                halts(pre, post, a, outcome)
            }
        },
        (Phase::Acquiring, Event::AcquireReturned { outcome, image_index }) => {
            match spec_classify_acquire(outcome) {
                Disposition::Proceed => {
                    let owner = images(pre)[image_index as int];
                    if owner is Some && fences(pre)[owner.unwrap() as int] {
                        &&& same_resources(pre, post)
                        &&& post.frame == pre.frame
                        &&& post.frames_presented == pre.frames_presented
                        &&& post.phase == (Phase::WaitingOnPriorImageUse {
                            image_index,
                            prior_slot: owner.unwrap(),
                        })
                        &&& a == (Action::WaitForImageFence { slot: owner.unwrap() })
                    } else {
                        issues_submission(pre, post, a, image_index as int, None)
                    }
                },
                Disposition::Recreate => {
                    &&& same_resources(pre, post)
                    &&& post.frame == pre.frame
                    &&& post.frames_presented == pre.frames_presented
                    &&& post.phase == Phase::Recreating
                    &&& a == Action::RecreateSwapchain
                },
                Disposition::Fatal => halts(pre, post, a, outcome),
            }
        },
        (
            Phase::WaitingOnPriorImageUse { image_index, prior_slot },
            Event::ImageFenceWaited { outcome },
        ) => {
            if outcome is Success {
                issues_submission(pre, post, a, image_index as int, Some(prior_slot as int))
            } else {
                halts(pre, post, a, outcome)
            }
        },
        (Phase::Submitting { image_index }, Event::SubmitReturned { outcome }) => {
            if outcome is Success {
                &&& same_resources(pre, post)
                &&& post.frame == pre.frame
                &&& post.frames_presented == pre.frames_presented
                &&& post.phase == (Phase::Presenting { image_index })
                &&& a == (Action::PresentImage { wait_slot: pre.frame, image_index })
            } else {
                halts(pre, post, a, outcome)
            }
        },
        (Phase::Presenting { .. }, Event::PresentReturned { outcome }) => {
            match spec_classify_present(outcome) {
                Disposition::Proceed => {
                    &&& same_resources(pre, post)
                    &&& post.frame == (pre.frame + 1) % (MAX_FRAMES_IN_FLIGHT as int)
                    &&& post.frames_presented@ == pre.frames_presented@ + 1
                    &&& post.phase == Phase::Idle
                    &&& a == Action::FrameComplete
                },
                Disposition::Recreate => {
                    &&& same_resources(pre, post)
                    &&& post.frame == (pre.frame + 1) % (MAX_FRAMES_IN_FLIGHT as int)
                    &&& post.frames_presented@ == pre.frames_presented@ + 1
                    &&& post.phase == Phase::Recreating
                    &&& a == Action::RecreateSwapchain
                },
                Disposition::Fatal => halts(pre, post, a, outcome),
            }
        },
        (Phase::Recreating, Event::SwapchainRebuilt { image_count }) => {
            &&& post.frame == pre.frame
            &&& post.frames_presented == pre.frames_presented
            &&& post.image_count == image_count
            &&& fences(post) == seq![false, false]
            &&& images(post).len() == image_count
            &&& (forall|i: int| 0 <= i < image_count ==> images(post)[i] is None)
            &&& post.phase == Phase::Idle
            &&& a == Action::FrameComplete
        },
        (Phase::Recreating, Event::RebuildFailed { outcome }) => halts(pre, post, a, outcome),
        _ => false,
    }
}

/// Slots are used strictly round-robin: after any run of the engine, the
/// slot that drives the next frame is the number of frames presented so
/// far modulo `MAX_FRAMES_IN_FLIGHT` — and since the ring is that long, at
/// most `MAX_FRAMES_IN_FLIGHT` distinct slots can hold outstanding fences
/// at any instant.
pub proof fn lemma_slot_round_robin(engine: Engine)
    requires
        engine.inv(),
    ensures
        engine.frame == engine.frames_presented@ % (MAX_FRAMES_IN_FLIGHT as nat),
        crate::frames::outstanding_count(fences(engine)) <= MAX_FRAMES_IN_FLIGHT,
{
    engine.pool.lemma_outstanding_bounded();
}

/// No two in-flight submissions target the same image: between two
/// submissions that both reference one swapchain image, the engine
/// observes the earlier submission's fence signaled before issuing the
/// later one. Whenever a step issues a submission for an image that an
/// earlier submission claimed, the claiming slot's fence is either already
/// observed signaled, or is observed signaled by this very step — the
/// successful answer to the image-fence wait the engine demanded.
pub proof fn lemma_no_concurrent_image_use(
    pre: Engine,
    e: Event,
    post: Engine,
    a: Action,
    args: SubmitArgs,
)
    requires
        pre.inv(),
        pre.accepts(e),
        step_spec(pre, e, post, a),
        a == (Action::SubmitDraw { args }),
    ensures
        images(pre)[args.command_buffer as int] matches Some(prior) ==> {
            ||| !fences(pre)[prior as int]
            ||| {
                &&& pre.phase == (Phase::WaitingOnPriorImageUse {
                    image_index: args.command_buffer,
                    prior_slot: prior,
                })
                &&& e == (Event::ImageFenceWaited { outcome: GpuOutcome::Success })
            }
        },
{
}

/// A slot's resources are never reused while its previous submission may
/// still be in flight, and every submission is synchronized by the
/// current slot's own objects: it waits on that slot's image-available
/// semaphore at the color-attachment-output stage, signals that slot's
/// render-finished semaphore and fence, and is issued only when that
/// fence was observed signaled; afterwards the slot owns the image and
/// its fence is outstanding.
pub proof fn lemma_submission_uses_quiet_slot(
    pre: Engine,
    e: Event,
    post: Engine,
    a: Action,
    args: SubmitArgs,
)
    requires
        pre.inv(),
        pre.accepts(e),
        step_spec(pre, e, post, a),
        a == (Action::SubmitDraw { args }),
    ensures
        args == submission_for(pre.frame as int, args.command_buffer as int),
        args.wait_stage == STAGE_COLOR_ATTACHMENT_OUTPUT,
        !fences(pre)[pre.frame as int],
        fences(post)[pre.frame as int],
        images(post)[args.command_buffer as int] == Some(pre.frame),
        args.command_buffer < pre.image_count,
{
}

} // verus!
