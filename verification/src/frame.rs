//! The frame loop's decisions, as a state machine.
//!
//! The driver performs the outside work — recreating the swapchain,
//! acquiring an image, submitting and presenting, polling the window —
//! and reports each outcome here. Every decision (render, skip, rebuild,
//! stop) is taken by this module, and its contracts pin each one down:
//! a resize or an out-of-date signal forces a rebuild at the window's
//! current dimensions before the next acquire, a close event stops the
//! loop, and any other error aborts it for good.

use vstd::prelude::*;

verus! {

/// What the loop holds of the previous frame's GPU work.
#[derive(Clone, Copy, Debug, PartialEq, Eq, Structural)]
pub enum SyncHandle {
    /// A fresh handle representing no pending work, already complete.
    FreshCompleted,
    /// The submit-and-present future of an earlier frame, possibly pending.
    PendingSubmit,
}

/// One window event, as the loop reads it; anything else is `Other`.
#[derive(Clone, Copy, Debug, PartialEq, Eq, Structural)]
pub enum LoopEvent {
    CloseRequested,
    Resized,
    Other,
}

/// What image acquisition reported.
#[derive(Clone, Copy, Debug, PartialEq, Eq, Structural)]
pub enum AcquireOutcome {
    /// An image is ready; render into it.
    Acquired { image_index: usize },
    /// The swapchain no longer matches the surface.
    OutOfDate,
    /// Any other acquisition error.
    Fatal,
}

/// What the swapchain rebuild reported.
#[derive(Clone, Copy, Debug, PartialEq, Eq, Structural)]
pub enum RecreateOutcome {
    /// Rebuilt at the dimensions that were asked for.
    Created,
    /// The requested dimensions are not usable; try again next iteration.
    UnsupportedDimensions,
    /// Any other creation error.
    Failed,
}

/// What submit-and-present reported.
#[derive(Clone, Copy, Debug, PartialEq, Eq, Structural)]
pub enum PresentOutcome {
    /// The frame was submitted and queued for presentation.
    Completed,
    /// The swapchain no longer matches the surface.
    OutOfDate,
    /// Any other submit or present error.
    Failed,
}

/// The decision taken at the top of an iteration.
#[derive(Clone, Copy, Debug, PartialEq, Eq, Structural)]
pub enum FrameStep {
    /// The loop is over: the window was closed or an error was fatal.
    Stop,
    /// Rebuild the swapchain at these dimensions before anything else.
    Recreate { width: u32, height: u32 },
    /// The swapchain is current; acquire the next image.
    Acquire,
}

/// The decision taken after image acquisition.
#[derive(Clone, Copy, Debug, PartialEq, Eq, Structural)]
pub enum AcquireStep {
    /// Record and submit a command buffer for this image.
    Render { image_index: usize },
    /// Record nothing this frame.
    SkipFrame,
    /// The error was fatal; the loop is over.
    Stop,
}

/// The frame loop's whole state.
#[derive(Clone, Copy, Debug, PartialEq, Eq, Structural)]
pub struct FrameLoop {
    /// The swapchain must be rebuilt before the next image is acquired.
    pub recreate_swapchain: bool,
    /// A close event was received; the loop stops at its next decision.
    pub done: bool,
    /// A fatal error was met; no further frame may be rendered.
    pub aborted: bool,
    /// The previous frame's synchronization handle.
    pub prev_frame: SyncHandle,
    /// Pixel width the current swapchain was created with.
    pub swapchain_width: u32,
    /// Pixel height the current swapchain was created with.
    pub swapchain_height: u32,
}

impl FrameLoop {
    /// The loop keeps iterating: the window is open and no error was fatal.
    pub open spec fn running(self) -> bool {
        !self.done && !self.aborted
    }
}

/// The decision at the top of an iteration, given the window's current
/// physical dimensions.
pub open spec fn spec_begin_iteration(s: FrameLoop, window_width: u32, window_height: u32) -> FrameStep {
    if !s.running() {
        FrameStep::Stop
    } else if s.recreate_swapchain {
        FrameStep::Recreate { width: window_width, height: window_height }
    } else {
        FrameStep::Acquire
    }
}

/// The state after a successful swapchain rebuild at `width` by `height`.
pub open spec fn spec_after_recreated(s: FrameLoop, width: u32, height: u32) -> FrameLoop {
    FrameLoop {
        recreate_swapchain: false,
        swapchain_width: width,
        swapchain_height: height,
        ..s
    }
}

/// The state after the swapchain rebuild reported `outcome`, paired with
/// whether the iteration goes on to acquire an image.
pub open spec fn spec_after_recreate(
    s: FrameLoop,
    outcome: RecreateOutcome,
    width: u32,
    height: u32,
) -> (FrameLoop, bool) {
    match outcome {
        RecreateOutcome::Created => (spec_after_recreated(s, width, height), true),
        RecreateOutcome::UnsupportedDimensions => (s, false),
        RecreateOutcome::Failed => (FrameLoop { aborted: true, ..s }, false),
    }
}

/// The state and decision after image acquisition reported `outcome`.
pub open spec fn spec_after_acquire(s: FrameLoop, outcome: AcquireOutcome) -> (FrameLoop, AcquireStep) {
    match outcome {
        AcquireOutcome::Acquired { image_index } => (s, AcquireStep::Render { image_index }),
        AcquireOutcome::OutOfDate => (
            FrameLoop { recreate_swapchain: true, ..s },
            AcquireStep::SkipFrame,
        ),
        AcquireOutcome::Fatal => (FrameLoop { aborted: true, ..s }, AcquireStep::Stop),
    }
}

/// The state after submit-and-present reported `outcome`.
pub open spec fn spec_after_present(s: FrameLoop, outcome: PresentOutcome) -> FrameLoop {
    match outcome {
        PresentOutcome::Completed => FrameLoop { prev_frame: SyncHandle::PendingSubmit, ..s },
        PresentOutcome::OutOfDate => FrameLoop {
            recreate_swapchain: true,
            prev_frame: SyncHandle::FreshCompleted,
            ..s
        },
        PresentOutcome::Failed => FrameLoop {
            aborted: true,
            prev_frame: SyncHandle::FreshCompleted,
            ..s
        },
    }
}

/// The state after one window event.
pub open spec fn spec_after_event(s: FrameLoop, event: LoopEvent) -> FrameLoop {
    match event {
        LoopEvent::CloseRequested => FrameLoop { done: true, ..s },
        LoopEvent::Resized => FrameLoop { recreate_swapchain: true, ..s },
        LoopEvent::Other => s,
    }
}

/// Some event in the batch asks to close the window.
pub open spec fn has_close(events: Seq<LoopEvent>) -> bool {
    exists|i: int| 0 <= i < events.len() && events[i] is CloseRequested
}

/// Some event in the batch reports a resize.
pub open spec fn has_resize(events: Seq<LoopEvent>) -> bool {
    exists|i: int| 0 <= i < events.len() && events[i] is Resized
}

/// The state after one whole event-poll cycle.
pub open spec fn spec_after_events(s: FrameLoop, events: Seq<LoopEvent>) -> FrameLoop {
    FrameLoop {
        done: s.done || has_close(events),
        recreate_swapchain: s.recreate_swapchain || has_resize(events),
        ..s
    }
}

impl FrameLoop {
    /// A loop about to render its first frame into a swapchain of these
    /// dimensions: nothing pending, nothing stale, nothing stopping it.
    pub fn new(width: u32, height: u32) -> (s: FrameLoop)
        ensures
            s == (FrameLoop {
                recreate_swapchain: false,
                done: false,
                aborted: false,
                prev_frame: SyncHandle::FreshCompleted,
                swapchain_width: width,
                swapchain_height: height,
            }),
    {
        FrameLoop {
            recreate_swapchain: false,
            done: false,
            aborted: false,
            prev_frame: SyncHandle::FreshCompleted,
            swapchain_width: width,
            swapchain_height: height,
        }
    }

    /// The decision at the top of an iteration: stop when the loop is done
    /// or aborted; otherwise rebuild a stale swapchain at the window's
    /// current physical dimensions before any image is acquired; otherwise
    /// acquire.
    pub fn begin_iteration(&self, window_width: u32, window_height: u32) -> (step: FrameStep)
        ensures
            step == spec_begin_iteration(*self, window_width, window_height),
    {
        if self.done || self.aborted {
            FrameStep::Stop
        } else if self.recreate_swapchain {
            FrameStep::Recreate { width: window_width, height: window_height }
        } else {
            FrameStep::Acquire
        }
    }

    /// Note a successful swapchain rebuild: the staleness mark is cleared
    /// and the new dimensions are recorded; nothing else changes.
    pub fn on_swapchain_recreated(&mut self, width: u32, height: u32)
        requires
            old(self).running(),
            old(self).recreate_swapchain,
        ensures
            *final(self) == spec_after_recreated(*old(self), width, height),
    {
        self.recreate_swapchain = false;
        self.swapchain_width = width;
        self.swapchain_height = height;
    }

    /// Note the outcome of a swapchain rebuild and decide whether this
    /// iteration goes on to acquire an image. Unsupported dimensions leave
    /// the staleness mark in place so the next iteration retries; any
    /// other failure aborts the loop.
    pub fn on_recreate_result(&mut self, outcome: RecreateOutcome, width: u32, height: u32) -> (proceed: bool)
        requires
            old(self).running(),
            old(self).recreate_swapchain,
        ensures
            *final(self) == spec_after_recreate(*old(self), outcome, width, height).0,
            proceed == spec_after_recreate(*old(self), outcome, width, height).1,
    {
        match outcome {
            RecreateOutcome::Created => {
                self.on_swapchain_recreated(width, height);
                true
            },
            RecreateOutcome::UnsupportedDimensions => false,
            RecreateOutcome::Failed => {
                self.aborted = true;
                false
            },
        }
    }

    /// Note the outcome of image acquisition and decide what this frame
    /// does: render into the acquired image, skip the frame and mark the
    /// swapchain for rebuilding when it was out of date, or stop on any
    /// other error.
    pub fn on_acquire_result(&mut self, outcome: AcquireOutcome) -> (step: AcquireStep)
        requires
            old(self).running(),
            !old(self).recreate_swapchain,
        ensures
            *final(self) == spec_after_acquire(*old(self), outcome).0,
            step == spec_after_acquire(*old(self), outcome).1,
    {
        match outcome {
            AcquireOutcome::Acquired { image_index } => AcquireStep::Render { image_index },
            AcquireOutcome::OutOfDate => {
                self.recreate_swapchain = true;
                AcquireStep::SkipFrame
            },
            AcquireOutcome::Fatal => {
                self.aborted = true;
                AcquireStep::Stop
            },
        }
    }

    /// Note the outcome of submit-and-present. Success leaves the new
    /// frame's future as the handle to wait on; an out-of-date signal
    /// marks the swapchain stale and resets the handle to a fresh,
    /// already-completed one, so nothing keeps referencing the stale
    /// swapchain; any other error aborts the loop.
    pub fn on_present_result(&mut self, outcome: PresentOutcome)
        requires
            old(self).running(),
        ensures
            *final(self) == spec_after_present(*old(self), outcome),
    {
        match outcome {
            PresentOutcome::Completed => {
                self.prev_frame = SyncHandle::PendingSubmit;
            },
            PresentOutcome::OutOfDate => {
                self.recreate_swapchain = true;
                self.prev_frame = SyncHandle::FreshCompleted;
            },
            PresentOutcome::Failed => {
                self.aborted = true;
                self.prev_frame = SyncHandle::FreshCompleted;
            },
        }
    }

    /// Note one window event: a close request stops the loop at its next
    /// decision, a resize marks the swapchain stale, anything else is
    /// ignored.
    pub fn note_event(&mut self, event: LoopEvent)
        ensures
            *final(self) == spec_after_event(*old(self), event),
    {
        match event {
            LoopEvent::CloseRequested => {
                self.done = true;
            },
            LoopEvent::Resized => {
                self.recreate_swapchain = true;
            },
            LoopEvent::Other => {},
        }
    }

    /// Note one whole event-poll cycle: the loop is done exactly when it
    /// already was or some event asked to close, and the swapchain is
    /// stale exactly when it already was or some event was a resize.
    pub fn process_events(&mut self, events: &Vec<LoopEvent>)
        ensures
            *final(self) == spec_after_events(*old(self), events@),
    {
        let mut i: usize = 0;
        while i < events.len()
            invariant
                i <= events@.len(),
                self.done == (old(self).done || has_close(events@.take(i as int))),
                self.recreate_swapchain == (old(self).recreate_swapchain || has_resize(
                    events@.take(i as int),
                )),
                self.aborted == old(self).aborted,
                self.prev_frame == old(self).prev_frame,
                self.swapchain_width == old(self).swapchain_width,
                self.swapchain_height == old(self).swapchain_height,
            decreases events@.len() - i,
        {
            proof {
                assert(events@.take(i + 1)[i as int] == events@[i as int]);
                assert(forall|j: int| 0 <= j < i ==> events@.take(i + 1)[j] == events@.take(
                    i as int,
                )[j]);
            }
            let ev = events[i];
            self.note_event(ev);
            proof {
                lemma_batch_step(events@, i as int);
            }
            i = i + 1;
        }
        proof {
            assert(events@.take(events@.len() as int) =~= events@);
        }
    }
}

/// A resize forces a rebuild at the window's current dimensions: when a
/// running loop's poll cycle reports a resize and no close, its next
/// iteration rebuilds the swapchain at whatever physical dimensions the
/// window then has — it does not acquire an image first.
pub proof fn lemma_resize_recreates_before_acquire(
    s: FrameLoop,
    events: Seq<LoopEvent>,
    window_width: u32,
    window_height: u32,
)
    requires
        s.running(),
        has_resize(events),
        !has_close(events),
    ensures
        spec_begin_iteration(spec_after_events(s, events), window_width, window_height) == (
        FrameStep::Recreate { width: window_width, height: window_height }),
{
}

/// A close event stops the loop within one poll cycle: once the cycle's
/// events are noted, the loop is done and its next decision is to stop,
/// whatever else the cycle contained and whatever the window's size is.
pub proof fn lemma_close_stops_loop(
    s: FrameLoop,
    events: Seq<LoopEvent>,
    window_width: u32,
    window_height: u32,
)
    requires
        has_close(events),
    ensures
        spec_after_events(s, events).done,
        spec_begin_iteration(spec_after_events(s, events), window_width, window_height)
            == FrameStep::Stop,
{
}

/// An out-of-date signal from acquisition skips the frame: no command
/// buffer is recorded, the state is otherwise untouched, and the very
/// next iteration rebuilds the swapchain instead of acquiring.
pub proof fn lemma_acquire_out_of_date_skips_then_recreates(
    s: FrameLoop,
    window_width: u32,
    window_height: u32,
)
    requires
        s.running(),
    ensures
        spec_after_acquire(s, AcquireOutcome::OutOfDate).1 == AcquireStep::SkipFrame,
        spec_after_acquire(s, AcquireOutcome::OutOfDate).0 == (FrameLoop {
            recreate_swapchain: true,
            ..s
        }),
        spec_begin_iteration(
            spec_after_acquire(s, AcquireOutcome::OutOfDate).0,
            window_width,
            window_height,
        ) == (FrameStep::Recreate { width: window_width, height: window_height }),
{
}

/// An out-of-date signal from present resets the synchronization handle:
/// the loop drops the future that references the stale swapchain and
/// holds a fresh, already-completed handle instead, with the swapchain
/// marked for rebuilding and the loop still running.
pub proof fn lemma_present_out_of_date_resets_sync(s: FrameLoop)
    ensures
        spec_after_present(s, PresentOutcome::OutOfDate).prev_frame == SyncHandle::FreshCompleted,
        spec_after_present(s, PresentOutcome::OutOfDate).recreate_swapchain,
        spec_after_present(s, PresentOutcome::OutOfDate).done == s.done,
        spec_after_present(s, PresentOutcome::OutOfDate).aborted == s.aborted,
{
}

/// Any error other than the two out-of-date cases is fatal: a failed
/// rebuild, a fatal acquisition error and a failed present each leave
/// the loop aborted.
pub proof fn lemma_other_errors_abort(s: FrameLoop, width: u32, height: u32)
    ensures
        spec_after_recreate(s, RecreateOutcome::Failed, width, height).0.aborted,
        !spec_after_recreate(s, RecreateOutcome::Failed, width, height).1,
        spec_after_acquire(s, AcquireOutcome::Fatal).0.aborted,
        spec_after_acquire(s, AcquireOutcome::Fatal).1 == AcquireStep::Stop,
        spec_after_present(s, PresentOutcome::Failed).aborted,
{
}

/// An aborted loop renders no further frame: no poll cycle revives it,
/// and every subsequent iteration decision is to stop — in particular it
/// never reaches image acquisition again.
pub proof fn lemma_aborted_is_final(
    s: FrameLoop,
    events: Seq<LoopEvent>,
    window_width: u32,
    window_height: u32,
)
    requires
        s.aborted,
    ensures
        spec_after_events(s, events).aborted,
        spec_begin_iteration(s, window_width, window_height) == FrameStep::Stop,
        spec_begin_iteration(spec_after_events(s, events), window_width, window_height)
            == FrameStep::Stop,
{
}

/// Extending a processed prefix by one event extends `has_close` and
/// `has_resize` by exactly that event's contribution.
proof fn lemma_batch_step(events: Seq<LoopEvent>, i: int)
    requires
        0 <= i < events.len(),
    ensures
        has_close(events.take(i + 1)) == (has_close(events.take(i)) || events[i]
            is CloseRequested),
        has_resize(events.take(i + 1)) == (has_resize(events.take(i)) || events[i] is Resized),
{
    let shorter = events.take(i);
    let longer = events.take(i + 1);
    assert(longer.len() == i + 1);
    assert(longer[i] == events[i]);
    assert(forall|j: int| 0 <= j < i ==> longer[j] == shorter[j]);
    if has_close(shorter) {
        let w = choose|w: int| 0 <= w < shorter.len() && shorter[w] is CloseRequested;
        assert(longer[w] is CloseRequested);
    }
    if has_close(longer) {
        let w = choose|w: int| 0 <= w < longer.len() && longer[w] is CloseRequested;
        if w < i {
            assert(shorter[w] is CloseRequested);
        }
    }
    if has_resize(shorter) {
        let w = choose|w: int| 0 <= w < shorter.len() && shorter[w] is Resized;
        assert(longer[w] is Resized);
    }
    if has_resize(longer) {
        let w = choose|w: int| 0 <= w < longer.len() && longer[w] is Resized;
        if w < i {
            assert(shorter[w] is Resized);
        }
    }
}

} // verus!
