use vstd::prelude::*;

use crate::surface::Extent2D;

verus! {

/// Number of frames that may be in flight at once.
pub const FRAMES_IN_FLIGHT: usize = 3;

/// How long the CPU waits for a slot's fence, in nanoseconds (one second).
pub const FENCE_TIMEOUT_NS: u64 = 1_000_000_000;

/// How many frames in a row may fail before the swapchain is rebuilt.
pub const MAX_FRAME_RETRIES: u32 = 3;

/// The pause before the next frame grows by this many milliseconds with each
/// failure in a row.
pub const BACKOFF_STEP_MS: u64 = 10;

/// The fixed ring of frame slots, used round-robin.
#[derive(Clone, Copy, PartialEq, Eq, Structural, Debug)]
pub struct FrameRing {
    pub slot: usize,
}

impl FrameRing {
    pub open spec fn wf(&self) -> bool {
        self.slot < FRAMES_IN_FLIGHT
    }

    /// A ring whose next frame uses slot 0.
    pub fn new() -> (r: FrameRing)
        ensures
            r.wf(),
            r.slot == 0,
    {
        FrameRing { slot: 0 }
    }

    /// The slot the current frame uses.
    pub fn current_slot(&self) -> (r: usize)
        ensures
            r == self.slot,
    {
        self.slot
    }

    /// Moves on to the next slot, wrapping after the last one.
    pub fn advance(&mut self)
        requires
            old(self).wf(),
        ensures
            final(self).wf(),
            final(self).slot == (old(self).slot + 1) % (FRAMES_IN_FLIGHT as int),
    {
        self.slot = (self.slot + 1) % FRAMES_IN_FLIGHT;
    }
}

/// The slot reached from slot `start` after `k` calls of `FrameRing::advance`.
pub open spec fn slot_after(start: int, k: nat) -> int
    decreases k,
{
    if k == 0 {
        start
    } else {
        (slot_after(start, (k - 1) as nat) + 1) % (FRAMES_IN_FLIGHT as int)
    }
}

/// Slots are used round-robin: from slot 0, the slot after `k` completed
/// submissions is `k` modulo the number of frames in flight, so the slots
/// run 0, 1, 2, 0, 1, 2, and so on.
pub proof fn lemma_slots_cycle(k: nat)
    ensures
        slot_after(0, k) == (k as int) % (FRAMES_IN_FLIGHT as int),
    decreases k,
{
    if k > 0 {
        lemma_slots_cycle((k - 1) as nat);
    }
}

/// Within a frame, every step before presentation runs on the ring's current
/// slot: the fence, command buffer and semaphores of one slot only. With
/// `lemma_slots_cycle`, the frame after `k` submissions uses slot `k` modulo
/// the number of frames in flight.
pub proof fn lemma_steps_use_ring_slot(l: FrameLoop)
    requires
        l.wf(),
        l.pending is Some,
        l.pending != Some(FrameStep::Present),
    ensures
        l.frame_slot == l.ring.slot,
{
}

/// The outside work of one frame, in the order it is done.
#[derive(Clone, Copy, PartialEq, Eq, Structural, Debug)]
pub enum FrameStep {
    /// Wait, with a bounded timeout, for the slot's previous submission.
    WaitFence,
    /// Reset the slot's fence, which the wait has just seen signalled.
    ResetFence,
    /// Begin the slot's command buffer for one submission.
    BeginCommands,
    /// Acquire a swapchain image, signalling the slot's acquire semaphore.
    AcquireImage,
    /// Record the frame's commands into the slot's command buffer.
    Record,
    /// Submit the commands: wait on the acquire semaphore, signal the
    /// render-complete semaphore and the slot's fence.
    Submit,
    /// Present the image once the render-complete semaphore is signalled.
    Present,
}

/// Why the outside work of a frame failed.
#[derive(Clone, Copy, PartialEq, Eq, Structural, Debug)]
pub enum FrameError {
    /// A bounded wait ran out of time.
    Timeout,
    /// The swapchain no longer matches the surface (it was resized, or the
    /// presentation engine reported it out of date).
    OutOfDate,
    /// The driver reported a failure (its raw result code).
    VkError(i32),
}

/// What the loop tells the renderer about the outcome of the last request.
#[derive(Clone, Copy, PartialEq, Eq, Structural, Debug)]
pub enum FrameEvent {
    /// Start a new frame.
    Tick,
    /// The window's size changed.
    Resized,
    /// The requested step succeeded.
    Done,
    /// The requested acquisition succeeded with this image index.
    Acquired(u32),
    /// The requested step failed.
    Failed(FrameError),
}

/// What the renderer must do next.
#[derive(Clone, Copy, PartialEq, Eq, Structural, Debug)]
pub enum FrameAction {
    /// Perform `step` for frame slot `slot`, on image `image` once acquired.
    Run { step: FrameStep, slot: usize, image: Option<u32> },
    /// The frame was presented.
    FrameComplete,
    /// The frame on `slot` was abandoned after a failure. When `rearm_fence`
    /// holds, the slot's fence was reset and nothing was submitted to
    /// signal it: it must be replaced by a signalled fence. The next frame
    /// should start no sooner than `backoff_ms` milliseconds.
    FrameFailed { error: FrameError, slot: usize, rearm_fence: bool, backoff_ms: u64 },
    /// The swapchain must be rebuilt for the surface's current size before
    /// the next frame; `slot` and `rearm_fence` as for a failed frame.
    /// `error` is the failure that led here, to be reported once the
    /// swapchain is rebuilt; it is `None` only for a resize between frames.
    RecreateSwapchain { slot: usize, rearm_fence: bool, error: Option<FrameError> },
    /// The event does not fit the current state; nothing changed.
    Ignored,
}

/// The step that follows `s`, if any.
pub open spec fn step_after(s: FrameStep) -> Option<FrameStep> {
    match s {
        FrameStep::WaitFence => Some(FrameStep::ResetFence),
        FrameStep::ResetFence => Some(FrameStep::BeginCommands),
        FrameStep::BeginCommands => Some(FrameStep::AcquireImage),
        FrameStep::AcquireImage => Some(FrameStep::Record),
        FrameStep::Record => Some(FrameStep::Submit),
        FrameStep::Submit => Some(FrameStep::Present),
        FrameStep::Present => None,
    }
}

/// A failure while `s` is outstanding leaves the slot's fence reset with no
/// submission that will signal it.
pub open spec fn leaves_fence_unsignaled(s: FrameStep) -> bool {
    s == FrameStep::BeginCommands || s == FrameStep::AcquireImage || s == FrameStep::Record || s
        == FrameStep::Submit
}

/// The per-frame state machine: which step is outstanding, on which slot,
/// and which image the frame renders to.
#[derive(Clone, Copy, PartialEq, Eq, Structural, Debug)]
pub struct FrameLoop {
    pub ring: FrameRing,
    /// The step whose outcome is awaited; `None` between frames.
    pub pending: Option<FrameStep>,
    /// The acquired image, from acquisition until the frame ends.
    pub image: Option<u32>,
    /// Slot of the frame in progress (the ring moves on at submission).
    pub frame_slot: usize,
    /// Frames that failed in a row since the last presented frame or
    /// swapchain rebuild.
    pub failures: u32,
}

impl FrameLoop {
    pub open spec fn wf(&self) -> bool {
        &&& self.ring.wf()
        &&& self.frame_slot < FRAMES_IN_FLIGHT
        &&& self.failures < MAX_FRAME_RETRIES
        &&& (self.pending is None ==> self.image is None)
        &&& (self.pending matches Some(s) ==> {
            &&& (self.image is Some <==> (s == FrameStep::Record || s == FrameStep::Submit
                || s == FrameStep::Present))
            &&& (s != FrameStep::Present ==> self.frame_slot == self.ring.slot)
        })
    }

    /// A loop between frames, whose first frame uses slot 0.
    pub fn new() -> (r: FrameLoop)
        ensures
            r.wf(),
            r.ring.slot == 0,
            r.pending is None,
            r.failures == 0,
    {
        FrameLoop { ring: FrameRing::new(), pending: None, image: None, frame_slot: 0, failures: 0 }
    }

    fn run(&self, step: FrameStep) -> (r: FrameAction)
        ensures
            r == (FrameAction::Run { step, slot: self.frame_slot, image: self.image }),
    {
        FrameAction::Run { step, slot: self.frame_slot, image: self.image }
    }

    /// Advances the state machine by one event and says what to do next.
    ///
    /// A tick between frames starts a frame on the ring's current slot with a
    /// fence wait. Each success requests the next step; the acquisition
    /// records the image. A successful submission moves the ring to the next
    /// slot, so slots are used round-robin, once per submitted frame. A
    /// successful present ends the frame. Any failure abandons the frame and
    /// reports it with a back-off that grows with the failures in a row; a
    /// swapchain found out of date, a run of `MAX_FRAME_RETRIES` failures (so
    /// repeated timeouts too) or a resize between frames asks for the
    /// swapchain to be rebuilt instead, still carrying the failure so that it
    /// is reported. Events that do not fit the state are ignored.
    pub fn on_event(&mut self, event: FrameEvent) -> (r: FrameAction)
        requires
            old(self).wf(),
        ensures
            final(self).wf(),
            // Starting a frame.
            old(self).pending is None && event == FrameEvent::Tick ==> {
                &&& final(self).pending == Some(FrameStep::WaitFence)
                &&& final(self).ring == old(self).ring
                &&& final(self).frame_slot == old(self).ring.slot
                &&& final(self).failures == old(self).failures
                &&& r == (FrameAction::Run { step: FrameStep::WaitFence, slot: old(self).ring.slot, image: None })
            },
            // Steps that succeed without an image.
            old(self).pending is Some && old(self).pending != Some(FrameStep::AcquireImage)
                && event == FrameEvent::Done ==> {
                let s = old(self).pending->Some_0;
                &&& final(self).pending == step_after(s)
                &&& (s == FrameStep::Submit ==> final(self).ring.slot == (old(self).ring.slot + 1)
                    % (FRAMES_IN_FLIGHT as int))
                &&& (s != FrameStep::Submit ==> final(self).ring == old(self).ring)
                &&& final(self).frame_slot == old(self).frame_slot
                &&& final(self).failures == (if s == FrameStep::Present { 0 } else { old(self).failures })
                &&& (s == FrameStep::Present ==> final(self).image is None && r == FrameAction::FrameComplete)
                &&& (s != FrameStep::Present ==> {
                    &&& final(self).image == old(self).image
                    &&& r == (FrameAction::Run {
                        step: step_after(s)->Some_0,
                        slot: old(self).frame_slot,
                        image: old(self).image,
                    })
                })
            },
            // The acquisition succeeds.
            old(self).pending == Some(FrameStep::AcquireImage) && event is Acquired ==> {
                &&& final(self).pending == Some(FrameStep::Record)
                &&& final(self).image == Some(event->Acquired_0)
                &&& final(self).ring == old(self).ring
                &&& final(self).failures == old(self).failures
                &&& final(self).frame_slot == old(self).frame_slot
                &&& r == (FrameAction::Run {
                    step: FrameStep::Record,
                    slot: old(self).frame_slot,
                    image: Some(event->Acquired_0),
                })
            },
            // Any failure abandons the frame. The swapchain is rebuilt when it is
            // out of date or when failures have run up to the limit; otherwise
            // the next frame backs off in proportion to the failures in a row.
            old(self).pending is Some && event is Failed ==> {
                let rearm = leaves_fence_unsignaled(old(self).pending->Some_0);
                let rebuild = event->Failed_0 == FrameError::OutOfDate || old(self).failures + 1
                    >= MAX_FRAME_RETRIES;
                &&& final(self).pending is None
                &&& final(self).image is None
                &&& final(self).ring == old(self).ring
                &&& (rebuild ==> {
                    &&& final(self).failures == 0
                    &&& r == (FrameAction::RecreateSwapchain {
                        slot: old(self).frame_slot,
                        rearm_fence: rearm,
                        error: Some(event->Failed_0),
                    })
                })
                &&& (!rebuild ==> {
                    &&& final(self).failures == old(self).failures + 1
                    &&& r == (FrameAction::FrameFailed {
                        error: event->Failed_0,
                        slot: old(self).frame_slot,
                        rearm_fence: rearm,
                        backoff_ms: ((old(self).failures + 1) * BACKOFF_STEP_MS) as u64,
                    })
                })
            },
            // A resize between frames rebuilds the swapchain.
            old(self).pending is None && event == FrameEvent::Resized ==> {
                &&& *final(self) == *old(self)
                &&& r == (FrameAction::RecreateSwapchain { slot: old(self).ring.slot, rearm_fence: false, error: None })
            },
            // Everything else is ignored.
            !(old(self).pending is None && (event == FrameEvent::Tick || event == FrameEvent::Resized))
                && !(old(self).pending is Some && old(self).pending != Some(FrameStep::AcquireImage)
                && event == FrameEvent::Done)
                && !(old(self).pending == Some(FrameStep::AcquireImage) && event is Acquired)
                && !(old(self).pending is Some && event is Failed) ==> {
                &&& *final(self) == *old(self)
                &&& r == FrameAction::Ignored
            },
    {
        match (self.pending, event) {
            (None, FrameEvent::Tick) => {
                self.frame_slot = self.ring.current_slot();
                self.pending = Some(FrameStep::WaitFence);
                self.run(FrameStep::WaitFence)
            },
            (Some(FrameStep::AcquireImage), FrameEvent::Acquired(i)) => {
                self.image = Some(i);
                self.pending = Some(FrameStep::Record);
                self.run(FrameStep::Record)
            },
            (Some(s), FrameEvent::Failed(e)) => {
                let rearm_fence = match s {
                    FrameStep::BeginCommands | FrameStep::AcquireImage | FrameStep::Record
                    | FrameStep::Submit => true,
                    _ => false,
                };
                self.pending = None;
                self.image = None;
                let out_of_date = match e {
                    FrameError::OutOfDate => true,
                    _ => false,
                };
                if out_of_date || self.failures + 1 >= MAX_FRAME_RETRIES {
                    self.failures = 0;
                    FrameAction::RecreateSwapchain { slot: self.frame_slot, rearm_fence, error: Some(e) }
                } else {
                    self.failures = self.failures + 1;
                    let backoff_ms = self.failures as u64 * BACKOFF_STEP_MS;
                    FrameAction::FrameFailed { error: e, slot: self.frame_slot, rearm_fence, backoff_ms }
                }
            },
            (None, FrameEvent::Resized) => {
                FrameAction::RecreateSwapchain { slot: self.ring.slot, rearm_fence: false, error: None }
            },
            (Some(s), FrameEvent::Done) => {
                match s {
                    FrameStep::WaitFence => {
                        self.pending = Some(FrameStep::ResetFence);
                        self.run(FrameStep::ResetFence)
                    },
                    FrameStep::ResetFence => {
                        self.pending = Some(FrameStep::BeginCommands);
                        self.run(FrameStep::BeginCommands)
                    },
                    FrameStep::BeginCommands => {
                        self.pending = Some(FrameStep::AcquireImage);
                        self.run(FrameStep::AcquireImage)
                    },
                    FrameStep::AcquireImage => FrameAction::Ignored,
                    FrameStep::Record => {
                        self.pending = Some(FrameStep::Submit);
                        self.run(FrameStep::Submit)
                    },
                    FrameStep::Submit => {
                        self.ring.advance();
                        self.pending = Some(FrameStep::Present);
                        self.run(FrameStep::Present)
                    },
                    FrameStep::Present => {
                        self.pending = None;
                        self.image = None;
                        self.failures = 0;
                        FrameAction::FrameComplete
                    },
                }
            },
            _ => FrameAction::Ignored,
        }
    }
}

/// A viewport rectangle in pixels; a negative height flips it vertically.
#[derive(Clone, Copy, PartialEq, Eq, Structural, Debug)]
pub struct ViewportRect {
    pub x: i64,
    pub y: i64,
    pub width: i64,
    pub height: i64,
}

/// The viewport for a render area: full width, with the origin moved to the
/// bottom edge and the height negated so that Y points up.
pub fn flipped_viewport(extent: Extent2D) -> (r: ViewportRect)
    ensures
        r.x == 0,
        r.y == extent.height,
        r.width == extent.width,
        r.height == -(extent.height as int),
{
    let h = extent.height as i64;
    ViewportRect { x: 0, y: h, width: extent.width as i64, height: -h }
}

} // verus!
