//! The present loop, one request at a time.
//!
//! A frame goes through fence wait, fence reset, image acquisition, submission,
//! presentation and a device drain. None of these can be done from here, so the
//! loop is written as a state machine: [`FrameSync::step`] takes what the host
//! reports and answers with what the host must do next. Two frame slots take
//! turns, each with its own semaphores and fence.

use crate::engine::fence::{Fence, FenceStatus};
use crate::engine::pipeline::PipelineStage;
use crate::engine::semaphore::Semaphore;
use vstd::prelude::*;

verus! {

/// The time, in nanoseconds, that an image acquisition may take: no limit.
pub const ACQUIRE_TIMEOUT: u64 = 0xffff_ffff_ffff_ffff;

/// The number of frame slots, each with two semaphores and a fence of its own.
pub const FRAME_SLOTS: usize = 2;

/// One of the two frame slots.
#[derive(Clone, Copy, Debug, PartialEq, Eq, Structural)]
pub enum FrameSlot {
    First,
    Second,
}

impl FrameSlot {
    /// The slot's index: 0 or 1.
    pub open spec fn index(self) -> nat {
        match self {
            FrameSlot::First => 0,
            FrameSlot::Second => 1,
        }
    }

    /// The slot whose turn comes after this one's.
    pub open spec fn other(self) -> FrameSlot {
        match self {
            FrameSlot::First => FrameSlot::Second,
            FrameSlot::Second => FrameSlot::First,
        }
    }

    /// The slot's index, to find its semaphores and fence by.
    pub fn position(self) -> (index: usize)
        ensures
            index == self.index(),
            index < FRAME_SLOTS,
    {
        match self {
            FrameSlot::First => 0,
            FrameSlot::Second => 1,
        }
    }

    /// The slot that takes the next frame.
    pub fn successor(self) -> (slot: FrameSlot)
        ensures
            slot == self.other(),
    {
        match self {
            FrameSlot::First => FrameSlot::Second,
            FrameSlot::Second => FrameSlot::First,
        }
    }
}

/// The synchronization objects of one frame slot.
#[derive(Clone, Copy, Debug, PartialEq, Eq, Structural)]
pub struct SlotSync {
    /// Signaled by the swapchain once the acquired image may be drawn to.
    pub image_available: Semaphore,
    /// Signaled by the submission once drawing is done.
    pub render_finished: Semaphore,
    /// Signaled once the slot's submission has left the GPU.
    pub in_flight: Fence,
}

impl SlotSync {
    /// The state of a slot that no frame is using: nothing queued on its
    /// semaphores, its fence signaled.
    pub open spec fn at_rest(self) -> bool {
        &&& !self.image_available.signal_queued
        &&& !self.render_finished.signal_queued
        &&& self.in_flight.status == FenceStatus::Signaled
    }

    /// A slot's objects as they are created.
    pub fn new() -> (slot: SlotSync)
        ensures
            slot.at_rest(),
    {
        SlotSync {
            image_available: Semaphore::new(),
            render_finished: Semaphore::new(),
            in_flight: Fence::new(),
        }
    }
}

/// What the windowing side says at the boundary between two frames.
#[derive(Clone, Copy, Debug, PartialEq, Eq, Structural)]
pub enum WindowSignal {
    Continue,
    CloseRequested,
}

/// An error code of the driver.
#[derive(Clone, Copy, Debug, PartialEq, Eq, Structural)]
pub enum GpuError {
    /// The wait ended before the fence was signaled.
    Timeout,
    NotReady,
    /// The surface has changed and the swapchain no longer fits it.
    OutOfDate,
    SurfaceLost,
    DeviceLost,
    OutOfHostMemory,
    OutOfDeviceMemory,
    /// Any other code.
    Other(i32),
}

/// The steps of a frame.
#[derive(Clone, Copy, Debug, PartialEq, Eq, Structural)]
pub enum FrameStage {
    /// Between two frames.
    Idle,
    Wait,
    Reset,
    Acquire,
    Submit,
    Present,
    Drain,
}

/// What went wrong in a frame.
#[derive(Clone, Copy, Debug, PartialEq, Eq, Structural)]
pub enum FrameFault {
    /// The driver reported an error.
    Gpu(GpuError),
    /// The swapchain handed out an image for which no command buffer was recorded.
    ImageOutOfRange(u32),
    /// The host reported something that the loop had not asked for.
    OutOfTurn,
    /// The host reported something before the loop was started.
    NotStarted,
}

/// A failure of the present loop. Every failure ends the loop.
#[derive(Clone, Copy, Debug, PartialEq, Eq, Structural)]
pub struct FrameError {
    /// The step in which the loop failed.
    pub stage: FrameStage,
    pub fault: FrameFault,
}

impl FrameError {
    /// Whether a new swapchain would have cured the failure. The loop stops on
    /// such a failure like on any other; the mark is for the host's report.
    pub open spec fn calls_for_new_swapchain(self) -> bool {
        self.fault == FrameFault::Gpu(GpuError::OutOfDate)
    }

    /// Tells whether a new swapchain would have cured the failure.
    pub fn needs_new_swapchain(&self) -> (needed: bool)
        ensures
            needed == self.calls_for_new_swapchain(),
    {
        match self.fault {
            FrameFault::Gpu(GpuError::OutOfDate) => true,
            _ => false,
        }
    }
}

/// Where the loop stands: which report it is waiting for.
#[derive(Clone, Copy, Debug, PartialEq, Eq, Structural)]
pub enum FramePhase {
    /// Between two frames, waiting for the window's signal.
    Idle,
    /// Waiting for the slot's fence.
    Wait,
    /// Waiting for the fence to be reset.
    Reset,
    /// Waiting for the next image.
    Acquire,
    /// Waiting for the submission that draws to the given image to be queued.
    Submit(u32),
    /// Waiting for the presentation of the given image to be queued.
    Present(u32),
    /// Waiting for the device to fall idle.
    Drain,
    /// The window asked to close; no frame will be started.
    Stopped,
    /// The loop has failed.
    Failed(FrameError),
}

/// What the host reports to the loop.
#[derive(Clone, Copy, Debug, PartialEq, Eq)]
pub enum FrameEvent {
    /// The window's signal, asked for with [`FrameAction::AwaitSignal`].
    Window(WindowSignal),
    /// The end of a fence wait.
    FenceWaited(Result<(), GpuError>),
    /// The end of a fence reset.
    FenceReset(Result<(), GpuError>),
    /// The end of an image acquisition, with the image's index.
    ImageAcquired(Result<u32, GpuError>),
    /// A submission was queued, or refused.
    Submitted(Result<(), GpuError>),
    /// A presentation was queued, or refused.
    Presented(Result<(), GpuError>),
    /// The end of the wait for the device to fall idle.
    DeviceIdle(Result<(), GpuError>),
}

/// One submission to the graphics queue.
#[derive(Clone, Copy, Debug, PartialEq, Eq, Structural)]
pub struct Submission {
    /// The index of the one command buffer to submit.
    pub command_buffer: u32,
    /// The slot whose image-available semaphore the submission waits on.
    pub wait_semaphore: FrameSlot,
    /// Where in the pipeline it waits.
    pub wait_stage: PipelineStage,
    /// The slot whose render-finished semaphore the submission signals.
    pub signal_semaphore: FrameSlot,
    /// The slot whose fence is signaled when the submission has left the GPU.
    pub fence: FrameSlot,
}

/// One presentation request on the graphics queue.
#[derive(Clone, Copy, Debug, PartialEq, Eq, Structural)]
pub struct Presentation {
    /// The slot whose render-finished semaphore the presentation waits on.
    pub wait_semaphore: FrameSlot,
    /// The swapchain image to show.
    pub image_index: u32,
}

/// What the loop asks of the host.
#[derive(Clone, Copy, Debug, PartialEq, Eq, Structural)]
pub enum FrameAction {
    /// Ask the window whether to go on, and report [`FrameEvent::Window`].
    AwaitSignal,
    /// Wait for the slot's fence, for at most `timeout` nanoseconds.
    WaitForFence { slot: FrameSlot, timeout: u64 },
    /// Reset the slot's fence.
    ResetFence { slot: FrameSlot },
    /// Acquire the next image, with no fence, and have the slot's image-available
    /// semaphore signaled.
    AcquireImage { signal_semaphore: FrameSlot, timeout: u64 },
    Submit(Submission),
    Present(Presentation),
    /// Wait until the device is idle.
    WaitIdle,
    /// Leave the loop.
    Stop,
    /// Give up: the loop has failed.
    Abort(FrameError),
}

/// The state of the present loop.
#[derive(Clone, Copy, Debug, PartialEq, Eq, Structural)]
pub struct FrameSync {
    /// The number of swapchain images, each with a command buffer of its own.
    pub image_count: u32,
    /// The longest that a fence wait may take, in nanoseconds.
    pub fence_timeout: u64,
    /// The slot of the frame in progress, or of the next one.
    pub current_frame: FrameSlot,
    pub phase: FramePhase,
    pub first: SlotSync,
    pub second: SlotSync,
}

impl FrameSync {
    /// The objects of a slot.
    pub open spec fn slot(self, which: FrameSlot) -> SlotSync {
        match which {
            FrameSlot::First => self.first,
            FrameSlot::Second => self.second,
        }
    }

    /// The state with one slot's objects replaced.
    pub open spec fn with_slot(self, which: FrameSlot, value: SlotSync) -> FrameSync {
        match which {
            FrameSlot::First => FrameSync { first: value, ..self },
            FrameSlot::Second => FrameSync { second: value, ..self },
        }
    }

    /// The current slot's objects.
    pub open spec fn current(self) -> SlotSync {
        self.slot(self.current_frame)
    }

    /// The number of submissions that were handed a slot's fence and have not
    /// been seen to complete.
    pub open spec fn outstanding(self, which: FrameSlot) -> nat {
        if self.slot(which).in_flight.status == FenceStatus::Pending {
            1
        } else {
            0
        }
    }

    /// The states that the loop can be in. While a frame is in progress only the
    /// current slot is in use, and its objects stand as the steps taken so far
    /// have left them.
    pub open spec fn wf(self) -> bool {
        let current = self.current();
        let fence = current.in_flight.status;
        let acquired = current.image_available.signal_queued;
        let rendered = current.render_finished.signal_queued;
        &&& (self.phase is Failed || self.slot(self.current_frame.other()).at_rest())
        &&& match self.phase {
            FramePhase::Idle | FramePhase::Wait | FramePhase::Reset | FramePhase::Stopped =>
                current.at_rest(),
            FramePhase::Acquire => fence == FenceStatus::Unsignaled && acquired && !rendered,
            FramePhase::Submit(image) => {
                &&& image < self.image_count
                &&& fence == FenceStatus::Pending
                &&& !acquired
                &&& rendered
            },
            FramePhase::Present(image) => {
                &&& image < self.image_count
                &&& fence == FenceStatus::Pending
                &&& !acquired
                &&& !rendered
            },
            FramePhase::Drain => fence == FenceStatus::Pending && !acquired && !rendered,
            FramePhase::Failed(_) => true,
        }
    }

    /// The state in which the loop starts: the first slot's turn, between frames.
    pub open spec fn initial(image_count: u32, fence_timeout: u64) -> FrameSync {
        let rest = SlotSync {
            image_available: Semaphore { signal_queued: false },
            render_finished: Semaphore { signal_queued: false },
            in_flight: Fence { status: FenceStatus::Signaled },
        };
        FrameSync {
            image_count,
            fence_timeout,
            current_frame: FrameSlot::First,
            phase: FramePhase::Idle,
            first: rest,
            second: rest,
        }
    }

    /// The loop's answer to a failure: it stops for good.
    pub open spec fn failure(self, stage: FrameStage, fault: FrameFault) -> (
        FrameSync,
        FrameAction,
    ) {
        let error = FrameError { stage, fault };
        (FrameSync { phase: FramePhase::Failed(error), ..self }, FrameAction::Abort(error))
    }

    /// The loop's answer to a window signal between two frames: stop on a close
    /// request, else start the frame by waiting for the slot's fence.
    pub open spec fn after_signal(self, signal: WindowSignal) -> (FrameSync, FrameAction) {
        match signal {
            WindowSignal::CloseRequested => (
                FrameSync { phase: FramePhase::Stopped, ..self },
                FrameAction::Stop,
            ),
            WindowSignal::Continue => (
                FrameSync { phase: FramePhase::Wait, ..self },
                FrameAction::WaitForFence { slot: self.current_frame, timeout: self.fence_timeout },
            ),
        }
    }

    /// The state after the current slot's fence was seen signaled, and the
    /// request to reset it.
    pub open spec fn after_wait(self) -> (FrameSync, FrameAction) {
        let slot = SlotSync { in_flight: Fence { status: FenceStatus::Signaled }, ..self.current() };
        (
            FrameSync { phase: FramePhase::Reset, ..self.with_slot(self.current_frame, slot) },
            FrameAction::ResetFence { slot: self.current_frame },
        )
    }

    /// The state after the current slot's fence was reset, and the request for
    /// the next image, which queues a signal of the slot's image-available
    /// semaphore.
    pub open spec fn after_reset(self) -> (FrameSync, FrameAction) {
        let slot = SlotSync {
            in_flight: Fence { status: FenceStatus::Unsignaled },
            image_available: Semaphore { signal_queued: true },
            ..self.current()
        };
        (
            FrameSync { phase: FramePhase::Acquire, ..self.with_slot(self.current_frame, slot) },
            FrameAction::AcquireImage {
                signal_semaphore: self.current_frame,
                timeout: ACQUIRE_TIMEOUT,
            },
        )
    }

    /// The submission that draws to an acquired image in the current slot.
    pub open spec fn submission(self, image: u32) -> Submission {
        Submission {
            command_buffer: image,
            wait_semaphore: self.current_frame,
            wait_stage: PipelineStage::ColorAttachmentOutput,
            signal_semaphore: self.current_frame,
            fence: self.current_frame,
        }
    }

    /// The state after an image was acquired, and the submission of that image's
    /// command buffer: it takes the image-available signal, queues one of
    /// render-finished, and is handed the slot's fence. An image without a
    /// command buffer ends the loop.
    pub open spec fn after_acquire(self, image: u32) -> (FrameSync, FrameAction) {
        if image < self.image_count {
            let slot = SlotSync {
                image_available: Semaphore { signal_queued: false },
                render_finished: Semaphore { signal_queued: true },
                in_flight: Fence { status: FenceStatus::Pending },
            };
            (
                FrameSync {
                    phase: FramePhase::Submit(image),
                    ..self.with_slot(self.current_frame, slot)
                },
                FrameAction::Submit(self.submission(image)),
            )
        } else {
            self.failure(FrameStage::Acquire, FrameFault::ImageOutOfRange(image))
        }
    }

    /// The state after the submission was queued, and the presentation of the
    /// image, which takes the render-finished signal.
    pub open spec fn after_submit(self, image: u32) -> (FrameSync, FrameAction) {
        let slot = SlotSync {
            render_finished: Semaphore { signal_queued: false },
            ..self.current()
        };
        (
            FrameSync {
                phase: FramePhase::Present(image),
                ..self.with_slot(self.current_frame, slot)
            },
            FrameAction::Present(
                Presentation { wait_semaphore: self.current_frame, image_index: image },
            ),
        )
    }

    /// The state after the device fell idle: whatever was submitted has left the
    /// GPU, so the slot's fence is signaled, and the turn passes to the other
    /// slot.
    pub open spec fn after_drain(self) -> (FrameSync, FrameAction) {
        let slot = SlotSync { in_flight: Fence { status: FenceStatus::Signaled }, ..self.current() };
        (
            FrameSync {
                phase: FramePhase::Idle,
                current_frame: self.current_frame.other(),
                ..self.with_slot(self.current_frame, slot)
            },
            FrameAction::AwaitSignal,
        )
    }

    /// The step in which a phase's report is expected.
    pub open spec fn stage(self) -> FrameStage {
        match self.phase {
            FramePhase::Wait => FrameStage::Wait,
            FramePhase::Reset => FrameStage::Reset,
            FramePhase::Acquire => FrameStage::Acquire,
            FramePhase::Submit(_) => FrameStage::Submit,
            FramePhase::Present(_) => FrameStage::Present,
            FramePhase::Drain => FrameStage::Drain,
            _ => FrameStage::Idle,
        }
    }

    /// The loop's whole rule: the state that follows a report, and the request
    /// that answers it. A stopped or failed loop stays as it is. A report of an
    /// error, or one that the phase does not expect, ends the loop.
    pub open spec fn next(self, event: FrameEvent) -> (FrameSync, FrameAction) {
        match (self.phase, event) {
            (FramePhase::Stopped, _) => (self, FrameAction::Stop),
            (FramePhase::Failed(error), _) => (self, FrameAction::Abort(error)),
            (FramePhase::Idle, FrameEvent::Window(signal)) => self.after_signal(signal),
            (FramePhase::Wait, FrameEvent::FenceWaited(Ok(_))) => self.after_wait(),
            (FramePhase::Wait, FrameEvent::FenceWaited(Err(code))) => self.failure(
                FrameStage::Wait,
                FrameFault::Gpu(code),
            ),
            (FramePhase::Reset, FrameEvent::FenceReset(Ok(_))) => self.after_reset(),
            (FramePhase::Reset, FrameEvent::FenceReset(Err(code))) => self.failure(
                FrameStage::Reset,
                FrameFault::Gpu(code),
            ),
            (FramePhase::Acquire, FrameEvent::ImageAcquired(Ok(image))) => self.after_acquire(
                image,
            ),
            (FramePhase::Acquire, FrameEvent::ImageAcquired(Err(code))) => self.failure(
                FrameStage::Acquire,
                FrameFault::Gpu(code),
            ),
            (FramePhase::Submit(image), FrameEvent::Submitted(Ok(_))) => self.after_submit(image),
            (FramePhase::Submit(_), FrameEvent::Submitted(Err(code))) => self.failure(
                FrameStage::Submit,
                FrameFault::Gpu(code),
            ),
            (FramePhase::Present(_), FrameEvent::Presented(Ok(_))) => (
                FrameSync { phase: FramePhase::Drain, ..self },
                FrameAction::WaitIdle,
            ),
            (FramePhase::Present(_), FrameEvent::Presented(Err(code))) => self.failure(
                FrameStage::Present,
                FrameFault::Gpu(code),
            ),
            (FramePhase::Drain, FrameEvent::DeviceIdle(Ok(_))) => self.after_drain(),
            (FramePhase::Drain, FrameEvent::DeviceIdle(Err(code))) => self.failure(
                FrameStage::Drain,
                FrameFault::Gpu(code),
            ),
            _ => self.failure(self.stage(), FrameFault::OutOfTurn),
        }
    }

    /// The loop before its first frame, for a swapchain of `image_count` images.
    pub fn new(image_count: u32, fence_timeout: u64) -> (sync: FrameSync)
        ensures
            sync == FrameSync::initial(image_count, fence_timeout),
            sync.wf(),
    {
        FrameSync {
            image_count,
            fence_timeout,
            current_frame: FrameSlot::First,
            phase: FramePhase::Idle,
            first: SlotSync::new(),
            second: SlotSync::new(),
        }
    }

    fn current_slot(&self) -> (slot: SlotSync)
        ensures
            slot == self.current(),
    {
        match self.current_frame {
            FrameSlot::First => self.first,
            FrameSlot::Second => self.second,
        }
    }

    fn replace_current(self, value: SlotSync, phase: FramePhase) -> (sync: FrameSync)
        ensures
            sync == (FrameSync { phase, ..self.with_slot(self.current_frame, value) }),
    {
        match self.current_frame {
            FrameSlot::First => FrameSync { first: value, phase, ..self },
            FrameSlot::Second => FrameSync { second: value, phase, ..self },
        }
    }

    fn fail(self, stage: FrameStage, fault: FrameFault) -> (answer: (FrameSync, FrameAction))
        ensures
            answer == self.failure(stage, fault),
    {
        let error = FrameError { stage, fault };
        (FrameSync { phase: FramePhase::Failed(error), ..self }, FrameAction::Abort(error))
    }

    fn current_stage(&self) -> (stage: FrameStage)
        ensures
            stage == self.stage(),
    {
        match self.phase {
            FramePhase::Wait => FrameStage::Wait,
            FramePhase::Reset => FrameStage::Reset,
            FramePhase::Acquire => FrameStage::Acquire,
            FramePhase::Submit(_) => FrameStage::Submit,
            FramePhase::Present(_) => FrameStage::Present,
            FramePhase::Drain => FrameStage::Drain,
            _ => FrameStage::Idle,
        }
    }

    /// Decides, between two frames, whether another frame is started.
    fn main_loop(self, signal: WindowSignal) -> (answer: (FrameSync, FrameAction))
        ensures
            answer == self.after_signal(signal),
    {
        match signal {
            WindowSignal::CloseRequested => (
                FrameSync { phase: FramePhase::Stopped, ..self },
                FrameAction::Stop,
            ),
            WindowSignal::Continue => (
                FrameSync { phase: FramePhase::Wait, ..self },
                FrameAction::WaitForFence { slot: self.current_frame, timeout: self.fence_timeout },
            ),
        }
    }

    /// Takes the frame in progress one step further: from the report of the
    /// request made last to the next request.
    fn draw_frame(self, event: FrameEvent) -> (answer: (FrameSync, FrameAction))
        ensures
            !(self.phase is Idle) ==> answer == self.next(event),
            self.phase is Idle ==> answer == self.failure(FrameStage::Idle, FrameFault::OutOfTurn),
    {
        let current = self.current_slot();
        match (self.phase, event) {
            (FramePhase::Stopped, _) => (self, FrameAction::Stop),
            (FramePhase::Failed(error), _) => (self, FrameAction::Abort(error)),
            (FramePhase::Wait, FrameEvent::FenceWaited(Ok(_))) => {
                let slot = SlotSync { in_flight: Fence { status: FenceStatus::Signaled }, ..current };
                (
                    self.replace_current(slot, FramePhase::Reset),
                    FrameAction::ResetFence { slot: self.current_frame },
                )
            },
            (FramePhase::Wait, FrameEvent::FenceWaited(Err(code))) => self.fail(
                FrameStage::Wait,
                FrameFault::Gpu(code),
            ),
            (FramePhase::Reset, FrameEvent::FenceReset(Ok(_))) => {
                let slot = SlotSync {
                    in_flight: Fence { status: FenceStatus::Unsignaled },
                    image_available: Semaphore { signal_queued: true },
                    ..current
                };
                (
                    self.replace_current(slot, FramePhase::Acquire),
                    FrameAction::AcquireImage {
                        signal_semaphore: self.current_frame,
                        timeout: ACQUIRE_TIMEOUT,
                    },
                )
            },
            (FramePhase::Reset, FrameEvent::FenceReset(Err(code))) => self.fail(
                FrameStage::Reset,
                FrameFault::Gpu(code),
            ),
            (FramePhase::Acquire, FrameEvent::ImageAcquired(Ok(image))) => {
                if image < self.image_count {
                    let slot = SlotSync {
                        image_available: Semaphore { signal_queued: false },
                        render_finished: Semaphore { signal_queued: true },
                        in_flight: Fence { status: FenceStatus::Pending },
                    };
                    let submission = Submission {
                        command_buffer: image,
                        wait_semaphore: self.current_frame,
                        wait_stage: PipelineStage::ColorAttachmentOutput,
                        signal_semaphore: self.current_frame,
                        fence: self.current_frame,
                    };
                    (
                        self.replace_current(slot, FramePhase::Submit(image)),
                        FrameAction::Submit(submission),
                    )
                } else {
                    self.fail(FrameStage::Acquire, FrameFault::ImageOutOfRange(image))
                }
            },
            (FramePhase::Acquire, FrameEvent::ImageAcquired(Err(code))) => self.fail(
                FrameStage::Acquire,
                FrameFault::Gpu(code),
            ),
            (FramePhase::Submit(image), FrameEvent::Submitted(Ok(_))) => {
                let slot = SlotSync {
                    render_finished: Semaphore { signal_queued: false },
                    ..current
                };
                (
                    self.replace_current(slot, FramePhase::Present(image)),
                    FrameAction::Present(
                        Presentation { wait_semaphore: self.current_frame, image_index: image },
                    ),
                )
            },
            (FramePhase::Submit(_), FrameEvent::Submitted(Err(code))) => self.fail(
                FrameStage::Submit,
                FrameFault::Gpu(code),
            ),
            (FramePhase::Present(_), FrameEvent::Presented(Ok(_))) => (
                FrameSync { phase: FramePhase::Drain, ..self },
                FrameAction::WaitIdle,
            ),
            (FramePhase::Present(_), FrameEvent::Presented(Err(code))) => self.fail(
                FrameStage::Present,
                FrameFault::Gpu(code),
            ),
            (FramePhase::Drain, FrameEvent::DeviceIdle(Ok(_))) => {
                let slot = SlotSync { in_flight: Fence { status: FenceStatus::Signaled }, ..current };
                let drained = self.replace_current(slot, FramePhase::Idle);
                (
                    FrameSync { current_frame: self.current_frame.successor(), ..drained },
                    FrameAction::AwaitSignal,
                )
            },
            (FramePhase::Drain, FrameEvent::DeviceIdle(Err(code))) => self.fail(
                FrameStage::Drain,
                FrameFault::Gpu(code),
            ),
            _ => self.fail(self.current_stage(), FrameFault::OutOfTurn),
        }
    }

    /// Takes the loop one step further: from what the host reports to what it
    /// must do next.
    pub fn step(self, event: FrameEvent) -> (answer: (FrameSync, FrameAction))
        ensures
            answer == self.next(event),
            self.wf() ==> answer.0.wf(),
    {
        match (self.phase, event) {
            (FramePhase::Idle, FrameEvent::Window(signal)) => self.main_loop(signal),
            _ => self.draw_frame(event),
        }
    }
}

impl FrameSync {
    /// The state that a sequence of reports leads to, the oldest report first.
    pub open spec fn run(self, events: Seq<FrameEvent>) -> FrameSync
        decreases events.len(),
    {
        if events.len() == 0 {
            self
        } else {
            self.run(events.drop_last()).next(events.last()).0
        }
    }

    /// Whether a report ends a frame: the device fell idle while the loop was
    /// draining.
    pub open spec fn completes_frame(self, event: FrameEvent) -> bool {
        self.phase is Drain && event matches FrameEvent::DeviceIdle(Ok(_))
    }

    /// The number of frames that a sequence of reports brings to their end.
    pub open spec fn frames_completed(self, events: Seq<FrameEvent>) -> nat
        decreases events.len(),
    {
        if events.len() == 0 {
            0
        } else {
            let before = self.frames_completed(events.drop_last());
            if self.run(events.drop_last()).completes_frame(events.last()) {
                before + 1
            } else {
                before
            }
        }
    }
}

/// The loop never leaves the states described by [`FrameSync::wf`], whatever
/// the host reports.
pub proof fn next_keeps_wf(sync: FrameSync, event: FrameEvent)
    requires
        sync.wf(),
    ensures
        sync.next(event).0.wf(),
{
}

/// After any sequence of reports the loop is in a state described by
/// [`FrameSync::wf`], and it still serves the same swapchain with the same fence
/// timeout.
pub proof fn run_keeps_wf(sync: FrameSync, events: Seq<FrameEvent>)
    requires
        sync.wf(),
    ensures
        sync.run(events).wf(),
        sync.run(events).image_count == sync.image_count,
        sync.run(events).fence_timeout == sync.fence_timeout,
    decreases events.len(),
{
    if events.len() > 0 {
        run_keeps_wf(sync, events.drop_last());
        next_keeps_wf(sync.run(events.drop_last()), events.last());
    }
}

/// The turn passes to the other slot when a frame ends, and at no other time.
pub proof fn turn_passes_at_frame_end(sync: FrameSync, event: FrameEvent)
    ensures
        sync.completes_frame(event) ==> sync.next(event).0.current_frame
            == sync.current_frame.other(),
        !sync.completes_frame(event) ==> sync.next(event).0.current_frame == sync.current_frame,
{
}

/// The slots take turns: after any sequence of reports the current slot's index
/// is the index at the start plus the number of frames completed, modulo two.
/// From the initial state the frames so use the slots 0, 1, 0, 1 and so on.
pub proof fn slots_alternate(sync: FrameSync, events: Seq<FrameEvent>)
    ensures
        sync.run(events).current_frame.index() == (sync.current_frame.index()
            + sync.frames_completed(events)) % 2,
    decreases events.len(),
{
    if events.len() > 0 {
        slots_alternate(sync, events.drop_last());
        turn_passes_at_frame_end(sync.run(events.drop_last()), events.last());
    }
}

/// A submission is only asked for in the current slot, after the slot's fence was
/// seen signaled and was reset: at that moment no submission is outstanding in
/// either slot. It waits on and signals the slot's own semaphores and draws with
/// the command buffer of the image that was acquired.
pub proof fn submission_finds_slot_free(sync: FrameSync, event: FrameEvent)
    requires
        sync.wf(),
        sync.next(event).1 is Submit,
    ensures
        sync.phase is Acquire,
        sync.current().in_flight.status == FenceStatus::Unsignaled,
        sync.outstanding(FrameSlot::First) == 0,
        sync.outstanding(FrameSlot::Second) == 0,
        event matches FrameEvent::ImageAcquired(Ok(image)) && image < sync.image_count
            && sync.next(event).1 == FrameAction::Submit(sync.submission(image)),
        sync.next(event).0.outstanding(sync.current_frame) == 1,
        sync.next(event).0.outstanding(sync.current_frame.other()) == 0,
{
}

/// At any moment at most one submission is outstanding, so never more than one
/// in a slot.
pub proof fn one_submission_outstanding(sync: FrameSync, events: Seq<FrameEvent>)
    requires
        sync.wf(),
        !(sync.run(events).phase is Failed),
    ensures
        sync.run(events).outstanding(FrameSlot::First) + sync.run(events).outstanding(
            FrameSlot::Second,
        ) <= 1,
{
    run_keeps_wf(sync, events);
}

/// A fence with a submission outstanding is left alone until the submission is
/// known to have left the GPU: only the end of the device drain that closes the
/// frame changes it.
pub proof fn outstanding_until_completion(sync: FrameSync, event: FrameEvent, slot: FrameSlot)
    requires
        sync.wf(),
        sync.outstanding(slot) == 1,
        sync.next(event).0.outstanding(slot) == 0,
    ensures
        slot == sync.current_frame,
        sync.completes_frame(event),
{
}

/// A frame takes its steps in one order: wait for the slot's fence, reset it,
/// acquire an image, submit that image's command buffer, present the image, let
/// the device fall idle. Where every step succeeds, the loop ends the frame as
/// it began it, between two frames and with both slots at rest, but with the
/// other slot's turn.
pub proof fn frame_proceeds_in_order(sync: FrameSync, image: u32)
    requires
        sync.wf(),
        sync.phase is Idle,
        image < sync.image_count,
    ensures
        ({
            let slot = sync.current_frame;
            let waited = sync.next(FrameEvent::Window(WindowSignal::Continue));
            let reset = waited.0.next(FrameEvent::FenceWaited(Ok(())));
            let acquired = reset.0.next(FrameEvent::FenceReset(Ok(())));
            let submitted = acquired.0.next(FrameEvent::ImageAcquired(Ok(image)));
            let presented = submitted.0.next(FrameEvent::Submitted(Ok(())));
            let drained = presented.0.next(FrameEvent::Presented(Ok(())));
            let ended = drained.0.next(FrameEvent::DeviceIdle(Ok(())));
            &&& waited.1 == FrameAction::WaitForFence { slot, timeout: sync.fence_timeout }
            &&& reset.1 == FrameAction::ResetFence { slot }
            &&& acquired.1 == FrameAction::AcquireImage {
                signal_semaphore: slot,
                timeout: ACQUIRE_TIMEOUT,
            }
            &&& submitted.1 == FrameAction::Submit(sync.submission(image))
            &&& presented.1 == FrameAction::Present(
                Presentation { wait_semaphore: slot, image_index: image },
            )
            &&& drained.1 == FrameAction::WaitIdle
            &&& ended.1 == FrameAction::AwaitSignal
            &&& ended.0 == FrameSync { current_frame: slot.other(), ..sync }
        }),
{
}

/// A close request between two frames stops the loop at once: nothing is
/// submitted, and nothing will be.
pub proof fn close_request_stops(sync: FrameSync, later: Seq<FrameEvent>)
    requires
        sync.phase is Idle,
    ensures
        sync.next(FrameEvent::Window(WindowSignal::CloseRequested)).1 == FrameAction::Stop,
        sync.next(FrameEvent::Window(WindowSignal::CloseRequested)).0.run(later).phase
            is Stopped,
    decreases later.len(),
{
    if later.len() > 0 {
        close_request_stops(sync, later.drop_last());
    }
}


} // verus!
