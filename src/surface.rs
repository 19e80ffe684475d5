use vstd::prelude::*;
use crate::fence::{FenceView, FrameFenceTracker};

verus! {

/// Where a surface stands in its frame cycle.
#[derive(Clone, Copy, Debug, PartialEq, Eq, Structural)]
pub enum Phase {
    /// Between frames.
    Idle,
    /// Waiting for the platform's answer to an image acquisition.
    Acquiring,
    /// Image `image` is acquired (`suboptimal` when it no longer matches the
    /// surface exactly); its frame is being submitted and presented.
    Submitting { image: usize, suboptimal: bool },
    /// The swapchain is stale and must be recreated before the next frame.
    Invalidated,
    /// The window is closed; the surface takes no more frames.
    Closed,
}

/// What to do first in a tick.
#[derive(Clone, Copy, Debug, PartialEq, Eq, Structural)]
pub enum TickStep {
    /// Recreate the swapchain, then rebuild the pipeline and command buffers.
    Recreate,
    /// Acquire the next image.
    Acquire,
    /// Nothing: the surface is closed.
    Closed,
}

/// What the platform answered to an image acquisition.
#[derive(Clone, Copy, Debug, PartialEq, Eq, Structural)]
pub enum AcquireOutcome {
    /// An image was acquired; `suboptimal` tells that the swapchain no longer
    /// matches the surface exactly.
    Acquired { image_index: u32, suboptimal: bool },
    /// The swapchain no longer matches the surface.
    OutOfDate,
    /// Any other failure.
    Failed,
}

/// What became of a frame after its submission and presentation.
#[derive(Clone, Copy, Debug, PartialEq, Eq, Structural)]
pub enum PresentOutcome {
    /// Presented.
    Presented,
    /// Presented, but the swapchain no longer matches the surface exactly.
    Suboptimal,
    /// The swapchain no longer matches the surface.
    OutOfDate,
    /// Any other failure.
    Failed,
}

/// What to do with an acquisition.
#[derive(Clone, Copy, Debug, PartialEq, Eq, Structural)]
pub enum AcquireDecision {
    /// Draw into image `image`; `suboptimal` as the platform reported it.
    Draw { image: usize, suboptimal: bool },
    /// Draw nothing for this surface in this tick; it is recreated next tick.
    Skip,
}

/// Why a surface operation could not be done.
#[derive(Clone, Copy, Debug, PartialEq, Eq, Structural)]
pub enum SurfaceError {
    /// The call does not fit the surface's phase.
    OutOfOrder,
    /// The platform reported a failure that is not staleness.
    Fatal,
    /// The platform gave an image index beyond the swapchain's images.
    BadImageIndex,
    /// The new framebuffers are not one per swapchain image.
    FramebufferCount,
    /// Every framebuffer generation number has been used.
    GenerationExhausted,
}

/// A surface, as values.
pub ghost struct SurfaceView<I, Fb, F> {
    /// The extent of the swapchain images and of the framebuffers.
    pub extent: (u32, u32),
    pub images: Seq<I>,
    /// One framebuffer per image, built at `extent`.
    pub framebuffers: Seq<Fb>,
    pub fences: FenceView<F>,
    /// The swapchain must be recreated before the next frame.
    pub recreate_swapchain: bool,
    /// The window was resized since the last recreation.
    pub window_resized: bool,
    /// Number of swapchain builds so far; framebuffers of one build share it.
    pub generation: u64,
    pub phase: Phase,
}

impl<I, Fb, F> SurfaceView<I, Fb, F> {
    /// What a tick starts with.
    pub open spec fn tick_step(self) -> TickStep {
        if self.phase == Phase::Closed {
            TickStep::Closed
        } else if self.recreate_swapchain || self.window_resized || self.phase == Phase::Invalidated {
            TickStep::Recreate
        } else {
            TickStep::Acquire
        }
    }

    /// The surface after `begin_tick`.
    pub open spec fn after_begin_tick(self) -> SurfaceView<I, Fb, F> {
        match self.tick_step() {
            TickStep::Closed => self,
            TickStep::Recreate => SurfaceView { phase: Phase::Invalidated, ..self },
            TickStep::Acquire => SurfaceView { phase: Phase::Acquiring, ..self },
        }
    }

    /// The error that `acquire_next_image` gives on `o`, if any.
    pub open spec fn acquire_error(self, o: AcquireOutcome) -> Option<SurfaceError> {
        if self.phase != Phase::Acquiring {
            Some(SurfaceError::OutOfOrder)
        } else {
            match o {
                AcquireOutcome::Failed => Some(SurfaceError::Fatal),
                AcquireOutcome::Acquired { image_index, .. } => if image_index >= self.images.len() {
                    Some(SurfaceError::BadImageIndex)
                } else {
                    None
                },
                AcquireOutcome::OutOfDate => None,
            }
        }
    }

    /// The surface after `acquire_next_image` on `o` succeeded: on staleness
    /// it is marked for recreation and draws nothing; on an image, only its
    /// phase changes: the frame goes on to submission with that image.
    pub open spec fn after_acquire(self, o: AcquireOutcome) -> SurfaceView<I, Fb, F> {
        match o {
            AcquireOutcome::Acquired { image_index, suboptimal } => SurfaceView {
                phase: Phase::Submitting { image: image_index as usize, suboptimal },
                ..self
            },
            _ => SurfaceView { recreate_swapchain: true, phase: Phase::Invalidated, ..self },
        }
    }

    /// The fence slot of the image being submitted was emptied by
    /// `wait_slot`.
    pub open spec fn slot_waited(self) -> bool {
        self.phase is Submitting && self.fences.fences[self.phase->image as int] is None
    }

    /// The error that `finish_frame` gives on `o`, if any.
    pub open spec fn finish_error(self, o: PresentOutcome) -> Option<SurfaceError> {
        if !self.slot_waited() {
            Some(SurfaceError::OutOfOrder)
        } else if o == PresentOutcome::Failed {
            Some(SurfaceError::Fatal)
        } else {
            None
        }
    }

    /// The surface after a successful `finish_frame`: the frame's fence is
    /// stored in its image's slot, that slot becomes the previous one, and a
    /// suboptimal acquisition or a stale or suboptimal presentation marks the
    /// surface for recreation.
    pub open spec fn after_finish(self, fence: Option<F>, o: PresentOutcome) -> SurfaceView<
        I,
        Fb,
        F,
    > {
        SurfaceView {
            fences: self.fences.after_store(self.phase->image as int, fence),
            recreate_swapchain: self.recreate_swapchain || self.phase->suboptimal || o
                == PresentOutcome::OutOfDate || o == PresentOutcome::Suboptimal,
            phase: Phase::Idle,
            ..self
        }
    }

    /// Images, framebuffers and fence slots are one per image.
    pub open spec fn wf(self) -> bool {
        &&& self.framebuffers.len() == self.images.len()
        &&& self.fences.fences.len() == self.images.len()
        &&& self.phase is Submitting ==> self.phase->image < self.images.len()
    }

    /// The surface after a successful `recreate_swapchain`.
    pub open spec fn after_recreate(self, extent: (u32, u32), images: Seq<I>, framebuffers: Seq<
        Fb,
    >) -> SurfaceView<I, Fb, F> {
        SurfaceView {
            extent,
            images,
            framebuffers,
            fences: FenceView::<F>::empty(images.len()),
            recreate_swapchain: false,
            window_resized: false,
            generation: (self.generation + 1) as u64,
            phase: Phase::Idle,
        }
    }

    /// `recreate_swapchain` succeeds on these arguments.
    pub open spec fn can_recreate(self, images: Seq<I>, framebuffers: Seq<Fb>) -> bool {
        &&& self.phase != Phase::Closed
        &&& !(self.phase is Submitting)
        &&& framebuffers.len() == images.len()
        &&& self.generation < u64::MAX
    }
}

/// A surface whose acquisition the platform reports stale draws nothing in
/// that tick and is marked for recreation; its next tick starts with the
/// recreation, and once that is done the tick after acquires again.
pub proof fn lemma_stale_acquire_then_resume<I, Fb, F>(
    s: SurfaceView<I, Fb, F>,
    extent: (u32, u32),
    images: Seq<I>,
    framebuffers: Seq<Fb>,
)
    requires
        s.wf(),
        s.phase == Phase::Acquiring,
        s.generation < u64::MAX,
        framebuffers.len() == images.len(),
    ensures
        s.acquire_error(AcquireOutcome::OutOfDate) is None,
        ({
            let t = s.after_acquire(AcquireOutcome::OutOfDate);
            &&& t.recreate_swapchain
            &&& t.phase == Phase::Invalidated
            &&& t.fences == s.fences
            &&& t.tick_step() == TickStep::Recreate
            &&& t.after_begin_tick().can_recreate(images, framebuffers)
            &&& t.after_begin_tick().after_recreate(extent, images, framebuffers).tick_step()
                == TickStep::Acquire
        }),
{
}

/// One presentation surface: its swapchain images at one extent, one
/// framebuffer and one fence slot per image, the flags that call for a
/// recreation, and where it stands in its frame cycle.
///
/// The images and framebuffers are replaced together, never one without the
/// other.
pub struct WindowSurface<I, Fb, F> {
    extent: (u32, u32),
    images: Vec<I>,
    framebuffers: Vec<Fb>,
    fences: FrameFenceTracker<F>,
    recreate_swapchain: bool,
    window_resized: bool,
    generation: u64,
    phase: Phase,
}

impl<I, Fb, F> View for WindowSurface<I, Fb, F> {
    type V = SurfaceView<I, Fb, F>;

    closed spec fn view(&self) -> SurfaceView<I, Fb, F> {
        SurfaceView {
            extent: self.extent,
            images: self.images@,
            framebuffers: self.framebuffers@,
            fences: self.fences@,
            recreate_swapchain: self.recreate_swapchain,
            window_resized: self.window_resized,
            generation: self.generation,
            phase: self.phase,
        }
    }
}

impl<I, Fb, F> WindowSurface<I, Fb, F> {
    /// A surface over a new swapchain's images at `extent`, with their
    /// framebuffers; fails unless there is one framebuffer per image.
    pub fn new(extent: (u32, u32), images: Vec<I>, framebuffers: Vec<Fb>) -> (r: Result<
        WindowSurface<I, Fb, F>,
        SurfaceError,
    >)
        ensures
            framebuffers@.len() != images@.len() <==> r is Err,
            r is Err ==> r == Err::<WindowSurface<I, Fb, F>, SurfaceError>(
                SurfaceError::FramebufferCount,
            ),
            r is Ok ==> ({
                let s = r->Ok_0@;
                &&& s.wf()
                &&& s.extent == extent
                &&& s.images == images@
                &&& s.framebuffers == framebuffers@
                &&& s.fences == FenceView::<F>::empty(images@.len())
                &&& !s.recreate_swapchain && !s.window_resized
                &&& s.generation == 0
                &&& s.phase == Phase::Idle
            }),
    {
        if framebuffers.len() != images.len() {
            return Err(SurfaceError::FramebufferCount);
        }
        let fences = FrameFenceTracker::new(images.len());
        Ok(WindowSurface {
            extent,
            images,
            framebuffers,
            fences,
            recreate_swapchain: false,
            window_resized: false,
            generation: 0,
            phase: Phase::Idle,
        })
    }

    /// The extent of the swapchain images.
    pub fn extent(&self) -> (r: (u32, u32))
        ensures
            r == self@.extent,
    {
        self.extent
    }

    /// Number of swapchain images, hence of frames that can be in flight.
    pub fn frame_in_flight(&self) -> (r: usize)
        ensures
            r == self@.images.len(),
    {
        self.images.len()
    }

    /// The swapchain images.
    pub fn images(&self) -> (r: &Vec<I>)
        ensures
            r@ == self@.images,
    {
        &self.images
    }

    /// One framebuffer per swapchain image.
    pub fn framebuffers(&self) -> (r: &Vec<Fb>)
        ensures
            r@ == self@.framebuffers,
    {
        &self.framebuffers
    }

    /// The generation of the current framebuffers.
    pub fn generation(&self) -> (r: u64)
        ensures
            r == self@.generation,
    {
        self.generation
    }

    /// The surface's phase.
    pub fn phase(&self) -> (r: Phase)
        ensures
            r == self@.phase,
    {
        self.phase
    }

    /// Whether the swapchain must be recreated before the next frame.
    pub fn needs_recreate(&self) -> (r: bool)
        ensures
            r == self@.recreate_swapchain,
    {
        self.recreate_swapchain
    }

    /// Whether the window was resized since the last recreation.
    pub fn was_resized(&self) -> (r: bool)
        ensures
            r == self@.window_resized,
    {
        self.window_resized
    }

    /// Notes that the window was resized.
    pub fn window_resized(&mut self)
        requires
            old(self)@.wf(),
        ensures
            final(self)@.wf(),
            final(self)@ == (SurfaceView { window_resized: true, ..old(self)@ }),
    {
        self.window_resized = true;
    }

    /// Starts a tick: a closed surface does nothing; a surface that is stale,
    /// resized or flagged is to be recreated first; any other acquires its
    /// next image.
    pub fn begin_tick(&mut self) -> (r: TickStep)
        requires
            old(self)@.wf(),
        ensures
            final(self)@.wf(),
            r == old(self)@.tick_step(),
            final(self)@ == old(self)@.after_begin_tick(),
    {
        if self.phase == Phase::Closed {
            TickStep::Closed
        } else if self.recreate_swapchain || self.window_resized || self.phase == Phase::Invalidated {
            self.phase = Phase::Invalidated;
            TickStep::Recreate
        } else {
            self.phase = Phase::Acquiring;
            TickStep::Acquire
        }
    }

    /// Replaces the swapchain's images and framebuffers, together, by those of
    /// a swapchain recreated at `extent`. Every fence slot is emptied: the
    /// fences that were held are handed back so that the caller can wait on
    /// each before it releases what they guard. The surface is then ready for
    /// a frame.
    ///
    /// Fails, changing nothing, on a closed surface or one whose frame is
    /// being submitted, when there is not one framebuffer per image, or when
    /// the generation numbers are used up.
    pub fn recreate_swapchain(&mut self, extent: (u32, u32), images: Vec<I>, framebuffers: Vec<Fb>) -> (r:
        Result<Vec<Option<F>>, SurfaceError>)
        requires
            old(self)@.wf(),
        ensures
            final(self)@.wf(),
            r is Ok <==> old(self)@.can_recreate(images@, framebuffers@),
            old(self)@.phase == Phase::Closed || old(self)@.phase is Submitting <==> r
                == Err::<Vec<Option<F>>, SurfaceError>(SurfaceError::OutOfOrder),
            old(self)@.phase != Phase::Closed && !(old(self)@.phase is Submitting)
                && framebuffers@.len() != images@.len() <==> r == Err::<
                Vec<Option<F>>,
                SurfaceError,
            >(SurfaceError::FramebufferCount),
            old(self)@.phase != Phase::Closed && !(old(self)@.phase is Submitting)
                && framebuffers@.len() == images@.len() && old(self)@.generation == u64::MAX
                <==> r == Err::<Vec<Option<F>>, SurfaceError>(SurfaceError::GenerationExhausted),
            r is Ok ==> r->Ok_0@ == old(self)@.fences.fences && final(self)@ == old(
                self,
            )@.after_recreate(extent, images@, framebuffers@),
            r is Err ==> final(self)@ == old(self)@,
    {
        if self.phase == Phase::Closed {
            return Err(SurfaceError::OutOfOrder);
        }
        if let Phase::Submitting { .. } = self.phase {
            return Err(SurfaceError::OutOfOrder);
        }
        if framebuffers.len() != images.len() {
            return Err(SurfaceError::FramebufferCount);
        }
        if self.generation == u64::MAX {
            return Err(SurfaceError::GenerationExhausted);
        }
        let n = images.len();
        let held = self.fences.reset(n);
        self.extent = extent;
        self.images = images;
        self.framebuffers = framebuffers;
        self.recreate_swapchain = false;
        self.window_resized = false;
        self.generation = self.generation + 1;
        self.phase = Phase::Idle;
        Ok(held)
    }

    /// Takes the platform's answer to an image acquisition.
    ///
    /// On staleness the surface is marked for recreation and nothing is drawn
    /// in this tick. On an image, the image and its suboptimal flag are handed
    /// back and the frame goes on to submission; nothing else of the surface
    /// changes. Fails, outside the acquiring phase, on any other failure of
    /// the platform, or on an image index beyond the swapchain's images.
    pub fn acquire_next_image(&mut self, outcome: AcquireOutcome) -> (r: Result<
        AcquireDecision,
        SurfaceError,
    >)
        requires
            old(self)@.wf(),
        ensures
            final(self)@.wf(),
            match old(self)@.acquire_error(outcome) {
                Some(e) => r == Err::<AcquireDecision, SurfaceError>(e),
                None => r is Ok,
            },
            r is Err && old(self)@.phase != Phase::Acquiring ==> final(self)@ == old(self)@,
            r is Err && old(self)@.phase == Phase::Acquiring ==> final(self)@ == (SurfaceView {
                phase: Phase::Idle,
                ..old(self)@
            }),
            r is Ok ==> final(self)@ == old(self)@.after_acquire(outcome),
            r is Ok ==> match outcome {
                AcquireOutcome::Acquired { image_index, suboptimal } => r->Ok_0
                    == AcquireDecision::Draw { image: image_index as usize, suboptimal },
                _ => r->Ok_0 == AcquireDecision::Skip,
            },
    {
        if self.phase != Phase::Acquiring {
            return Err(SurfaceError::OutOfOrder);
        }
        match outcome {
            AcquireOutcome::OutOfDate => {
                self.recreate_swapchain = true;
                self.phase = Phase::Invalidated;
                Ok(AcquireDecision::Skip)
            },
            AcquireOutcome::Failed => {
                self.phase = Phase::Idle;
                Err(SurfaceError::Fatal)
            },
            AcquireOutcome::Acquired { image_index, suboptimal } => {
                let image = image_index as usize;
                if image >= self.images.len() {
                    self.phase = Phase::Idle;
                    return Err(SurfaceError::BadImageIndex);
                }
                self.phase = Phase::Submitting { image, suboptimal };
                Ok(AcquireDecision::Draw { image, suboptimal })
            },
        }
    }

    /// Hands over the fence of the previous frame on the image being
    /// submitted, if any; the caller waits on it before it submits. The
    /// image's slot is left empty. Fails, changing nothing, outside the
    /// submitting phase.
    pub fn wait_slot(&mut self) -> (r: Result<Option<F>, SurfaceError>)
        requires
            old(self)@.wf(),
        ensures
            final(self)@.wf(),
            !(old(self)@.phase is Submitting) <==> r is Err,
            r is Err ==> r == Err::<Option<F>, SurfaceError>(SurfaceError::OutOfOrder) && final(self)@
                == old(self)@,
            r is Ok ==> r->Ok_0 == old(self)@.fences.fences[old(self)@.phase->image as int]
                && final(self)@ == (SurfaceView {
                fences: old(self)@.fences.after_wait(old(self)@.phase->image as int),
                ..old(self)@
            }) && final(self)@.slot_waited(),
    {
        match self.phase {
            Phase::Submitting { image, .. } => {
                let taken = match self.fences.wait_slot(image) {
                    Ok(f) => f,
                    Err(_) => None,
                };
                Ok(taken)
            },
            _ => Err(SurfaceError::OutOfOrder),
        }
    }

    /// Ends the frame being submitted: stores its fence (`None` when the
    /// presentation was stale and nothing was flushed) in the slot of its
    /// image, which becomes the previous slot, and marks the surface for
    /// recreation when the acquisition was suboptimal or the presentation
    /// stale or suboptimal.
    ///
    /// Fails, changing nothing, outside the submitting phase or before the
    /// image's slot was emptied by `wait_slot`, so that a slot never holds
    /// two fences. A failure of the platform other than staleness is fatal:
    /// the frame is abandoned and the surface left idle.
    pub fn finish_frame(&mut self, fence: Option<F>, outcome: PresentOutcome) -> (r: Result<
        (),
        SurfaceError,
    >)
        requires
            old(self)@.wf(),
        ensures
            final(self)@.wf(),
            match old(self)@.finish_error(outcome) {
                Some(e) => r == Err::<(), SurfaceError>(e),
                None => r is Ok,
            },
            r == Err::<(), SurfaceError>(SurfaceError::OutOfOrder) ==> final(self)@ == old(self)@,
            r == Err::<(), SurfaceError>(SurfaceError::Fatal) ==> final(self)@ == (SurfaceView {
                phase: Phase::Idle,
                ..old(self)@
            }),
            r is Ok ==> final(self)@ == old(self)@.after_finish(fence, outcome),
    {
        match self.phase {
            Phase::Submitting { image, suboptimal } => {
                if self.fences.holds_fence(image) {
                    return Err(SurfaceError::OutOfOrder);
                }
                if outcome == PresentOutcome::Failed {
                    self.phase = Phase::Idle;
                    return Err(SurfaceError::Fatal);
                }
                let _ = self.fences.store_slot(image, fence);
                if suboptimal || outcome == PresentOutcome::OutOfDate || outcome
                    == PresentOutcome::Suboptimal {
                    self.recreate_swapchain = true;
                }
                self.phase = Phase::Idle;
                Ok(())
            },
            _ => Err(SurfaceError::OutOfOrder),
        }
    }

    /// Closes the surface: it takes no more frames, and every fence it held
    /// is handed back so that the caller can wait on each before it releases
    /// the surface's resources. Nothing else of the surface changes.
    pub fn close(&mut self) -> (r: Vec<Option<F>>)
        requires
            old(self)@.wf(),
        ensures
            final(self)@.wf(),
            r@ == old(self)@.fences.fences,
            final(self)@ == (SurfaceView {
                phase: Phase::Closed,
                fences: FenceView::<F>::empty(old(self)@.images.len()),
                ..old(self)@
            }),
    {
        let n = self.images.len();
        let held = self.fences.reset(n);
        self.phase = Phase::Closed;
        held
    }

    /// The fence of the previous submission, if it is still held: the next
    /// submission is ordered after it.
    pub fn chain_from_previous(&self) -> (r: Option<&F>)
        ensures
            match r {
                Some(f) => self@.fences.chain() == Some(*f),
                None => self@.fences.chain() is None,
            },
    {
        self.fences.chain_from_previous()
    }
}

} // verus!
