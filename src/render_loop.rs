//! The decisions of the render loop, one frame at a time.
//!
//! A frame runs: acquire an image on the current slot, wait for the slot's
//! fence, reset it, record and submit, present, move to the next slot. The
//! caller performs each [`FrameAction`] against the device and reports what
//! came back as a [`FrameEvent`]; [`RenderLoopDriver::step`] decides what
//! follows.
use vstd::prelude::*;

use crate::frame_ring::{count_true, lemma_count_true_bounded, FrameRing};

verus! {

/// Where the current frame stands.
#[derive(Clone, Copy, Debug, PartialEq, Eq, Structural)]
pub enum Phase {
    /// Between frames.
    Ready,
    /// An image was asked for.
    Acquiring,
    /// Waiting for the slot's fence.
    WaitingFence,
    /// The command buffer is being recorded and submitted.
    Submitting,
    /// The image was handed to the present queue.
    Presenting,
    /// The swapchain and the pipeline are being rebuilt.
    Rebuilding,
    /// A fatal error happened; nothing runs any more.
    Failed,
}

/// What the device returned for the last action.
#[derive(Clone, Copy, Debug, PartialEq, Eq, Structural)]
pub enum FrameEvent {
    /// The window asks for a new frame.
    RedrawRequested,
    /// The window changed size; the swapchain no longer fits it.
    Resized,
    /// Acquire gave an image; `suboptimal` is no reason to stop.
    Acquired { image_index: u32, suboptimal: bool },
    /// Acquire found the swapchain out of date.
    AcquireOutOfDate,
    AcquireFailed,
    FenceSignaled,
    /// The fence wait timed out; it is tried again.
    FenceTimeout,
    FenceFailed,
    Submitted,
    SubmitFailed,
    Presented { suboptimal: bool },
    /// Present found the swapchain out of date.
    PresentOutOfDate,
    PresentFailed,
    /// The swapchain and pipeline were rebuilt; the new chain has
    /// `image_count` images.
    SwapchainRebuilt { image_count: u32 },
}

/// What the caller does next.
#[derive(Clone, Copy, Debug, PartialEq, Eq, Structural)]
pub enum FrameAction {
    /// Acquire the next image, signalling the slot's image-acquired
    /// semaphore, with no timeout.
    Acquire { slot: usize },
    /// Wait for the slot's frame-complete fence, with no timeout.
    WaitFence { slot: usize },
    /// Reset the slot's fence, record its command buffer for the image,
    /// and submit it: wait on the image-acquired semaphore at the
    /// colour-attachment-output stage, signal the render-finished semaphore
    /// and the fence.
    RecordAndSubmit { slot: usize, image_index: u32 },
    /// Present the image, waiting on the slot's render-finished semaphore.
    Present { slot: usize, image_index: u32 },
    /// Wait for the device to go idle, destroy the image views, the
    /// swapchain and the pipeline, and build them again.
    RebuildSwapchain,
    /// The frame is over and the swapchain is suboptimal: log it, nothing
    /// more.
    ReportSuboptimal,
    /// The frame is over.
    Idle,
    /// Tear down and stop.
    Fatal,
    /// The event does not fit the current phase; nothing changed.
    Ignore,
}

/// The state of a driver as the contracts see it.
pub struct DriverView {
    pub phase: Phase,
    pub slot: nat,
    /// Per slot: submitted and not waited on yet.
    pub pending: Seq<bool>,
    pub image_index: u32,
    pub image_count: u32,
}

pub open spec fn initial_view(frames_in_flight: nat, image_count: u32) -> DriverView {
    DriverView {
        phase: Phase::Ready,
        slot: 0,
        pending: Seq::new(frames_in_flight, |i: int| false),
        image_index: 0,
        image_count,
    }
}

pub open spec fn holds_image(p: Phase) -> bool {
    p == Phase::WaitingFence || p == Phase::Submitting || p == Phase::Presenting
}

pub open spec fn view_wf(v: DriverView) -> bool {
    &&& v.pending.len() > 0
    &&& v.slot < v.pending.len()
    &&& v.phase == Phase::Submitting ==> !v.pending[v.slot as int]
    &&& holds_image(v.phase) ==> v.image_index < v.image_count
}

pub open spec fn failed(v: DriverView) -> (DriverView, FrameAction) {
    (DriverView { phase: Phase::Failed, ..v }, FrameAction::Fatal)
}

/// The transition table of the render loop.
pub open spec fn step_spec(v: DriverView, e: FrameEvent) -> (DriverView, FrameAction) {
    let slot = v.slot as usize;
    let next_slot = (v.slot + 1) % v.pending.len();
    match (v.phase, e) {
        (Phase::Ready, FrameEvent::RedrawRequested) => (
            DriverView { phase: Phase::Acquiring, ..v },
            FrameAction::Acquire { slot },
        ),
        (Phase::Ready, FrameEvent::Resized) => (
            DriverView { phase: Phase::Rebuilding, ..v },
            FrameAction::RebuildSwapchain,
        ),
        (Phase::Acquiring, FrameEvent::Acquired { image_index, suboptimal: _ }) => {
            if image_index < v.image_count {
                (
                    DriverView { phase: Phase::WaitingFence, image_index, ..v },
                    FrameAction::WaitFence { slot },
                )
            } else {
                failed(v)
            }
        },
        (Phase::Acquiring, FrameEvent::AcquireOutOfDate) => (
            DriverView { phase: Phase::Rebuilding, ..v },
            FrameAction::RebuildSwapchain,
        ),
        (Phase::Acquiring, FrameEvent::AcquireFailed) => failed(v),
        (Phase::WaitingFence, FrameEvent::FenceSignaled) => (
            DriverView {
                phase: Phase::Submitting,
                pending: v.pending.update(v.slot as int, false),
                ..v
            },
            FrameAction::RecordAndSubmit { slot, image_index: v.image_index },
        ),
        (Phase::WaitingFence, FrameEvent::FenceTimeout) => (v, FrameAction::WaitFence { slot }),
        (Phase::WaitingFence, FrameEvent::FenceFailed) => failed(v),
        (Phase::Submitting, FrameEvent::Submitted) => (
            DriverView {
                phase: Phase::Presenting,
                pending: v.pending.update(v.slot as int, true),
                ..v
            },
            FrameAction::Present { slot, image_index: v.image_index },
        ),
        (Phase::Submitting, FrameEvent::SubmitFailed) => failed(v),
        (Phase::Presenting, FrameEvent::Presented { suboptimal }) => (
            DriverView { phase: Phase::Ready, slot: next_slot, ..v },
            if suboptimal {
                FrameAction::ReportSuboptimal
            } else {
                FrameAction::Idle
            },
        ),
        (Phase::Presenting, FrameEvent::PresentOutOfDate) => (
            DriverView { phase: Phase::Rebuilding, slot: next_slot, ..v },
            FrameAction::RebuildSwapchain,
        ),
        (Phase::Presenting, FrameEvent::PresentFailed) => failed(v),
        (Phase::Rebuilding, FrameEvent::SwapchainRebuilt { image_count }) => (
            DriverView { phase: Phase::Ready, image_count, ..v },
            FrameAction::Idle,
        ),
        _ => (v, FrameAction::Ignore),
    }
}

/// The state after a run of events.
pub open spec fn run_spec(v: DriverView, es: Seq<FrameEvent>) -> DriverView
    decreases es.len(),
{
    if es.len() == 0 {
        v
    } else {
        run_spec(step_spec(v, es[0]).0, es.drop_first())
    }
}

/// Drives the frames of one swapchain over a ring of slots.
pub struct RenderLoopDriver {
    ring: FrameRing,
    phase: Phase,
    image_index: u32,
    image_count: u32,
}

impl View for RenderLoopDriver {
    type V = DriverView;

    closed spec fn view(&self) -> DriverView {
        DriverView {
            phase: self.phase,
            slot: self.ring.cursor_spec(),
            pending: self.ring.pending_spec(),
            image_index: self.image_index,
            image_count: self.image_count,
        }
    }
}

impl RenderLoopDriver {
    pub open spec fn wf(&self) -> bool {
        view_wf(self@)
    }

    /// A driver between frames, with `frames_in_flight` slots, none in
    /// flight, for a chain of `image_count` images.
    pub fn new(frames_in_flight: usize, image_count: u32) -> (r: RenderLoopDriver)
        requires
            frames_in_flight > 0,
        ensures
            r.wf(),
            r@ == initial_view(frames_in_flight as nat, image_count),
    {
        let ring = FrameRing::new(frames_in_flight);
        let r = RenderLoopDriver { ring, phase: Phase::Ready, image_index: 0, image_count };
        assert(r@.pending =~= initial_view(frames_in_flight as nat, image_count).pending);
        r
    }

    pub fn phase(&self) -> (r: Phase)
        ensures
            r == self@.phase,
    {
        self.phase
    }

    /// The slot of the current frame.
    pub fn slot(&self) -> (r: usize)
        ensures
            r == self@.slot,
    {
        self.ring.cursor()
    }

    pub fn frames_in_flight(&self) -> (r: usize)
        ensures
            r == self@.pending.len(),
    {
        self.ring.frames_in_flight()
    }

    /// The number of submissions whose fence was not waited on yet.
    pub fn in_flight(&self) -> (r: usize)
        ensures
            r == count_true(self@.pending),
    {
        self.ring.in_flight()
    }

    /// Takes the outcome of the last action and returns the next one.
    pub fn step(&mut self, event: FrameEvent) -> (r: FrameAction)
        requires
            old(self).wf(),
        ensures
            final(self).wf(),
            (final(self)@, r) == step_spec(old(self)@, event),
    {
        let slot = self.ring.cursor();
        match (self.phase, event) {
            (Phase::Ready, FrameEvent::RedrawRequested) => {
                self.phase = Phase::Acquiring;
                FrameAction::Acquire { slot }
            },
            (Phase::Ready, FrameEvent::Resized) => {
                self.phase = Phase::Rebuilding;
                FrameAction::RebuildSwapchain
            },
            (Phase::Acquiring, FrameEvent::Acquired { image_index, suboptimal: _ }) => {
                if image_index < self.image_count {
                    self.phase = Phase::WaitingFence;
                    self.image_index = image_index;
                    FrameAction::WaitFence { slot }
                } else {
                    self.phase = Phase::Failed;
                    FrameAction::Fatal
                }
            },
            (Phase::Acquiring, FrameEvent::AcquireOutOfDate) => {
                self.phase = Phase::Rebuilding;
                FrameAction::RebuildSwapchain
            },
            (Phase::WaitingFence, FrameEvent::FenceSignaled) => {
                self.ring.complete_current();
                self.phase = Phase::Submitting;
                FrameAction::RecordAndSubmit { slot, image_index: self.image_index }
            },
            (Phase::WaitingFence, FrameEvent::FenceTimeout) => FrameAction::WaitFence { slot },
            (Phase::Submitting, FrameEvent::Submitted) => {
                self.ring.mark_submitted();
                self.phase = Phase::Presenting;
                FrameAction::Present { slot, image_index: self.image_index }
            },
            (Phase::Presenting, FrameEvent::Presented { suboptimal }) => {
                self.ring.advance();
                self.phase = Phase::Ready;
                if suboptimal {
                    FrameAction::ReportSuboptimal
                } else {
                    FrameAction::Idle
                }
            },
            (Phase::Presenting, FrameEvent::PresentOutOfDate) => {
                self.ring.advance();
                self.phase = Phase::Rebuilding;
                FrameAction::RebuildSwapchain
            },
            (Phase::Rebuilding, FrameEvent::SwapchainRebuilt { image_count }) => {
                self.image_count = image_count;
                self.phase = Phase::Ready;
                FrameAction::Idle
            },
            (Phase::Acquiring, FrameEvent::AcquireFailed)
            | (Phase::WaitingFence, FrameEvent::FenceFailed)
            | (Phase::Submitting, FrameEvent::SubmitFailed)
            | (Phase::Presenting, FrameEvent::PresentFailed) => {
                self.phase = Phase::Failed;
                FrameAction::Fatal
            },
            _ => FrameAction::Ignore,
        }
    }
}

proof fn lemma_step_keeps_wf(v: DriverView, e: FrameEvent)
    requires
        view_wf(v),
    ensures
        view_wf(step_spec(v, e).0),
        step_spec(v, e).0.pending.len() == v.pending.len(),
{
    let n = v.pending.len();
    assert((v.slot + 1) % n < n) by (nonlinear_arith)
        requires
            n > 0,
    ;
}

proof fn lemma_run_keeps_wf(v: DriverView, es: Seq<FrameEvent>)
    requires
        view_wf(v),
    ensures
        view_wf(run_spec(v, es)),
        run_spec(v, es).pending.len() == v.pending.len(),
    decreases es.len(),
{
    if es.len() > 0 {
        lemma_step_keeps_wf(v, es[0]);
        lemma_run_keeps_wf(step_spec(v, es[0]).0, es.drop_first());
    }
}

/// After any run of events from a fresh driver, the command buffers that
/// were submitted and whose fence was not waited on yet are never more than
/// the frames in flight.
pub proof fn lemma_frames_in_flight_bounded(
    frames_in_flight: nat,
    image_count: u32,
    es: Seq<FrameEvent>,
)
    requires
        frames_in_flight > 0,
    ensures
        count_true(run_spec(initial_view(frames_in_flight, image_count), es).pending)
            <= frames_in_flight,
{
    let v0 = initial_view(frames_in_flight, image_count);
    lemma_run_keeps_wf(v0, es);
    lemma_count_true_bounded(run_spec(v0, es).pending);
}

/// An out-of-date swapchain at acquire abandons the frame: nothing is
/// submitted, the cursor stays, and the next action rebuilds the swapchain
/// and the pipeline.
pub proof fn lemma_stale_acquire_rebuilds(v: DriverView)
    requires
        v.phase == Phase::Acquiring,
    ensures
        step_spec(v, FrameEvent::AcquireOutOfDate).1 == FrameAction::RebuildSwapchain,
        step_spec(v, FrameEvent::AcquireOutOfDate).0.phase == Phase::Rebuilding,
        step_spec(v, FrameEvent::AcquireOutOfDate).0.pending == v.pending,
        step_spec(v, FrameEvent::AcquireOutOfDate).0.slot == v.slot,
{
}

/// While the swapchain is being rebuilt, no event but the end of the
/// rebuild moves the driver: in particular no image is acquired before it.
pub proof fn lemma_no_acquire_while_rebuilding(v: DriverView, e: FrameEvent)
    requires
        v.phase == Phase::Rebuilding,
        !(e is SwapchainRebuilt),
    ensures
        step_spec(v, e) == (v, FrameAction::Ignore),
{
}

/// A resize between frames, when no acquired image is pending, starts a
/// rebuild; nothing in flight is touched.
pub proof fn lemma_resize_rebuilds_between_frames(v: DriverView)
    requires
        v.phase == Phase::Ready,
    ensures
        step_spec(v, FrameEvent::Resized).1 == FrameAction::RebuildSwapchain,
        step_spec(v, FrameEvent::Resized).0 == (DriverView { phase: Phase::Rebuilding, ..v }),
{
}

/// A suboptimal present is only reported: the frame ends normally and no
/// rebuild follows.
pub proof fn lemma_suboptimal_present_only_reported(v: DriverView)
    requires
        v.phase == Phase::Presenting,
    ensures
        step_spec(v, FrameEvent::Presented { suboptimal: true }).1 == FrameAction::ReportSuboptimal,
        step_spec(v, FrameEvent::Presented { suboptimal: true }).0.phase == Phase::Ready,
        step_spec(v, FrameEvent::Presented { suboptimal: true }).0.image_count == v.image_count,
{
}

} // verus!
