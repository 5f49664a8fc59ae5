use vstd::prelude::*;

use crate::record::{extent_ok, frame_commands, record_frame, Extent2D, FrameCommand, MAX_SIDE};
use crate::swapchain::{swapchain_problem, SwapchainData, SwapchainError};

verus! {

/// How many frames may be in flight on the GPU at once.
pub const FRAME_SLOTS: usize = 2;

/// The bound, in nanoseconds, on every wait for a fence or a swapchain image.
/// A wait that runs out means the GPU has hung.
pub const WAIT_TIMEOUT_NS: u64 = 1_000_000_000;

/// What a frame slot's fence says about the work last submitted with it.
#[derive(Debug, Copy, Clone, PartialEq, Eq, Structural)]
pub enum FenceState {
    /// Signalled: nothing the slot submitted is still running.
    Signaled,
    /// Unsignalled, with submitted work that will signal it when done.
    InFlight,
    /// Unsignalled with nothing pending: the slot was reset and then nothing
    /// was submitted, so a wait on it would never end.
    Reset,
}

/// The synchronization state of one frame slot. The slot owns a fence, an
/// "image acquired" semaphore, a command pool and one command buffer.
#[derive(Debug, Copy, Clone, PartialEq, Eq, Structural)]
pub struct FrameData {
    pub fence: FenceState,
}

impl FrameData {
    /// A new slot: its fence is created signalled, so the first wait on it
    /// returns at once.
    pub fn new() -> (r: FrameData)
        ensures
            r.fence == FenceState::Signaled,
    {
        FrameData { fence: FenceState::Signaled }
    }
}

/// Where the engine stands between and within frames.
#[derive(Debug, Copy, Clone, PartialEq, Eq, Structural)]
pub enum Phase {
    /// Between frames.
    Idle,
    /// Waiting on the current slot's fence.
    WaitingFence,
    /// The slot's fence and command buffer were reset; a swapchain image is
    /// being acquired.
    Acquiring,
    /// The frame for swapchain image `image` was handed out to be submitted
    /// and presented.
    Presenting { image: u32 },
    /// The swapchain no longer matches the surface; a resize must come first.
    OutOfDate,
    /// A resize to `width` by `height` was handed out and not yet finished.
    Resizing { width: u32, height: u32 },
    /// A wait timed out or the GPU reported something impossible; nothing
    /// more can be rendered.
    Failed,
    /// Every resource was released.
    Destroyed,
}

/// What the caller reports back after carrying out the last action.
#[derive(Debug, Copy, Clone, PartialEq, Eq, Structural)]
pub enum FrameEvent {
    /// Start a new frame.
    Begin,
    /// The wait on the slot's fence succeeded.
    FenceSignaled,
    /// The wait on the slot's fence timed out.
    FenceTimedOut,
    /// Swapchain image `image` was acquired; `suboptimal` if the swapchain no
    /// longer matches the surface exactly but can still be presented.
    Acquired { image: u32, suboptimal: bool },
    /// Acquiring failed because the swapchain is out of date.
    AcquireOutOfDate,
    /// Acquiring timed out.
    AcquireTimedOut,
    /// The frame was submitted and presented.
    Presented { suboptimal: bool },
    /// The frame was submitted but presenting found the swapchain out of date.
    PresentOutOfDate,
}

/// One frame's submission. The command buffer, fence and "image acquired"
/// semaphore are those of frame slot `slot`; the submission waits on that
/// semaphore, signals "render complete" semaphore `render_semaphore` and the
/// slot's fence, and the presentation of image `image` waits on the same
/// "render complete" semaphore.
#[derive(Debug)]
pub struct FrameSubmission {
    pub slot: usize,
    pub image: u32,
    pub render_semaphore: u32,
    pub commands: Vec<FrameCommand>,
}

/// What the caller must do next.
#[derive(Debug)]
pub enum FrameAction {
    /// Wait on slot `slot`'s fence, for at most the wait timeout.
    WaitFence { slot: usize },
    /// Reset slot `slot`'s fence and command buffer, then acquire the next
    /// swapchain image with the slot's "image acquired" semaphore, for at
    /// most the wait timeout.
    ResetAndAcquire { slot: usize },
    /// Record the commands, submit them and present, as described.
    SubmitAndPresent(FrameSubmission),
    /// The frame is complete; `suboptimal` if the swapchain should be rebuilt
    /// when convenient.
    FrameDone { suboptimal: bool },
}

/// A frame action as a value.
pub enum ActionView {
    WaitFence { slot: int },
    ResetAndAcquire { slot: int },
    SubmitAndPresent { slot: int, image: u32, render_semaphore: u32, commands: Seq<FrameCommand> },
    FrameDone { suboptimal: bool },
}

impl View for FrameAction {
    type V = ActionView;

    open spec fn view(&self) -> ActionView {
        match self {
            FrameAction::WaitFence { slot } => ActionView::WaitFence { slot: *slot as int },
            FrameAction::ResetAndAcquire { slot } => ActionView::ResetAndAcquire { slot: *slot as int },
            FrameAction::SubmitAndPresent(s) => ActionView::SubmitAndPresent {
                slot: s.slot as int,
                image: s.image,
                render_semaphore: s.render_semaphore,
                commands: s.commands@,
            },
            FrameAction::FrameDone { suboptimal } => ActionView::FrameDone { suboptimal: *suboptimal },
        }
    }
}

/// Why a frame event was refused or a frame failed.
#[derive(Debug, Copy, Clone, PartialEq, Eq, Structural)]
pub enum RenderError {
    /// The event does not fit the step the frame is at.
    UnexpectedEvent,
    /// A fence wait timed out: the GPU is presumed hung.
    FenceTimeout,
    /// Acquiring a swapchain image timed out.
    AcquireTimeout,
    /// The acquired image index is not one of the swapchain's images.
    ImageOutOfRange,
    /// The swapchain is out of date; resize before rendering again.
    OutOfDate,
    /// An earlier failure stopped the engine.
    Failed,
    /// The engine was torn down.
    Destroyed,
}

/// A step of a resize, in the order they must be carried out.
#[derive(Debug, Copy, Clone, PartialEq, Eq, Structural)]
pub enum ResizeStep {
    /// Wait until the device is idle, so no in-flight work uses what follows.
    WaitIdle,
    DestroySwapchain,
    CreateSwapchain(Extent2D),
    DestroyDrawImage,
    CreateDrawImage(Extent2D),
    /// Point the descriptor that binds the draw image at the new image's view.
    RewriteDrawImageDescriptor,
}

/// Why a resize was refused.
#[derive(Debug, Copy, Clone, PartialEq, Eq, Structural)]
pub enum ResizeError {
    /// A side is zero (a minimized window): nothing is rebuilt.
    ZeroExtent,
    /// A side is too large to blit from or to.
    ExtentTooLarge,
    /// A frame is under way, or a resize is already in progress.
    NotBetweenFrames,
    /// There is no resize in progress to finish.
    NotResizing,
    /// The rebuilt swapchain has no images.
    NoSwapchainImages,
    /// An earlier failure stopped the engine.
    Failed,
    /// The engine was torn down.
    Destroyed,
}

/// A step of the final teardown, in the order they must be carried out.
#[derive(Debug, Copy, Clone, PartialEq, Eq, Structural)]
pub enum TeardownStep {
    WaitIdle,
    DestroyDescriptors,
    DestroyDrawImage,
    DestroySwapchain,
    DestroyPasses,
    DestroyFrameSync,
    DestroyAllocator,
    DestroyDevice,
    DestroyInstance,
}

/// The engine's state as values.
pub struct RendererView {
    pub frame_count: usize,
    pub frames: Seq<FrameData>,
    pub swapchain: SwapchainData,
    pub draw_extent: Extent2D,
    pub binds_draw_image: bool,
    pub phase: Phase,
    pub suboptimal: bool,
}

/// The frame slot that frame number `frame_count` uses.
pub open spec fn slot_of(frame_count: usize) -> int {
    (frame_count % 2) as int
}

/// `frame_count` advanced by one, wrapping at the top of `usize`.
pub open spec fn next_count(frame_count: usize) -> usize {
    if frame_count == usize::MAX {
        0
    } else {
        (frame_count + 1) as usize
    }
}

/// The engine's invariant: two frame slots, a usable swapchain and draw
/// image, and per phase what the current slot's fence must be.
pub open spec fn view_ok(v: RendererView) -> bool {
    &&& v.frames.len() == FRAME_SLOTS
    &&& v.swapchain.valid()
    &&& extent_ok(v.draw_extent)
    &&& match v.phase {
        Phase::WaitingFence => v.frames[slot_of(v.frame_count)].fence != FenceState::Reset,
        Phase::Acquiring => v.frames[slot_of(v.frame_count)].fence == FenceState::Reset,
        Phase::Presenting { image } => image < v.swapchain.image_count
            && v.frames[slot_of(v.frame_count)].fence == FenceState::InFlight,
        Phase::Resizing { width, height } => extent_ok(Extent2D { width, height }),
        _ => true,
    }
}

/// `v` with the current slot's fence set to `f` and the phase set to `p`.
pub open spec fn with_fence(v: RendererView, f: FenceState, p: Phase) -> RendererView {
    RendererView {
        frames: v.frames.update(slot_of(v.frame_count), FrameData { fence: f }),
        phase: p,
        ..v
    }
}

/// `v` with the phase set to `p`.
pub open spec fn with_phase(v: RendererView, p: Phase) -> RendererView {
    RendererView { phase: p, ..v }
}

/// One step of the frame protocol: the state after `e` and what is handed out.
pub open spec fn render_step(v: RendererView, e: FrameEvent) -> (RendererView, Result<ActionView, RenderError>) {
    let s = slot_of(v.frame_count);
    match v.phase {
        Phase::Destroyed => (v, Err(RenderError::Destroyed)),
        Phase::Failed => (v, Err(RenderError::Failed)),
        Phase::OutOfDate => (v, Err(RenderError::OutOfDate)),
        Phase::Idle => match e {
            FrameEvent::Begin => if v.frames[s].fence == FenceState::Reset {
                (with_fence(v, FenceState::Reset, Phase::Acquiring), Ok(ActionView::ResetAndAcquire { slot: s }))
            } else {
                (with_phase(v, Phase::WaitingFence), Ok(ActionView::WaitFence { slot: s }))
            },
            _ => (v, Err(RenderError::UnexpectedEvent)),
        },
        Phase::WaitingFence => match e {
            FrameEvent::FenceSignaled =>
                (with_fence(v, FenceState::Reset, Phase::Acquiring), Ok(ActionView::ResetAndAcquire { slot: s })),
            FrameEvent::FenceTimedOut => (with_phase(v, Phase::Failed), Err(RenderError::FenceTimeout)),
            _ => (v, Err(RenderError::UnexpectedEvent)),
        },
        Phase::Acquiring => match e {
            FrameEvent::Acquired { image, suboptimal } => if image < v.swapchain.image_count {
                (
                    RendererView { suboptimal, ..with_fence(v, FenceState::InFlight, Phase::Presenting { image }) },
                    Ok(ActionView::SubmitAndPresent {
                        slot: s,
                        image,
                        render_semaphore: image,
                        commands: frame_commands(image, v.draw_extent, v.swapchain.extent),
                    }),
                )
            } else {
                (with_phase(v, Phase::Failed), Err(RenderError::ImageOutOfRange))
            },
            FrameEvent::AcquireOutOfDate => (with_phase(v, Phase::OutOfDate), Err(RenderError::OutOfDate)),
            FrameEvent::AcquireTimedOut => (with_phase(v, Phase::Failed), Err(RenderError::AcquireTimeout)),
            _ => (v, Err(RenderError::UnexpectedEvent)),
        },
        Phase::Presenting { .. } => match e {
            FrameEvent::Presented { suboptimal } => (
                RendererView { frame_count: next_count(v.frame_count), phase: Phase::Idle, ..v },
                Ok(ActionView::FrameDone { suboptimal: v.suboptimal || suboptimal }),
            ),
            FrameEvent::PresentOutOfDate => (
                RendererView { frame_count: next_count(v.frame_count), phase: Phase::OutOfDate, ..v },
                Err(RenderError::OutOfDate),
            ),
            _ => (v, Err(RenderError::UnexpectedEvent)),
        },
        Phase::Resizing { .. } => (v, Err(RenderError::UnexpectedEvent)),
    }
}

/// The steps of a resize to `e`.
pub open spec fn resize_plan(e: Extent2D, binds_draw_image: bool) -> Seq<ResizeStep> {
    let core = seq![
        ResizeStep::WaitIdle,
        ResizeStep::DestroySwapchain,
        ResizeStep::CreateSwapchain(e),
        ResizeStep::DestroyDrawImage,
        ResizeStep::CreateDrawImage(e),
    ];
    if binds_draw_image {
        core.push(ResizeStep::RewriteDrawImageDescriptor)
    } else {
        core
    }
}

/// The outcome of asking to resize to `width` by `height`.
pub open spec fn resize_step(v: RendererView, width: u32, height: u32) -> (RendererView, Result<Seq<ResizeStep>, ResizeError>) {
    match v.phase {
        Phase::Destroyed => (v, Err(ResizeError::Destroyed)),
        Phase::Failed => (v, Err(ResizeError::Failed)),
        Phase::Idle | Phase::OutOfDate => if width == 0 || height == 0 {
            (v, Err(ResizeError::ZeroExtent))
        } else if width > MAX_SIDE || height > MAX_SIDE {
            (v, Err(ResizeError::ExtentTooLarge))
        } else {
            (
                with_phase(v, Phase::Resizing { width, height }),
                Ok(resize_plan(Extent2D { width, height }, v.binds_draw_image)),
            )
        },
        _ => (v, Err(ResizeError::NotBetweenFrames)),
    }
}

/// A slot's fence once the device has gone idle: work in flight has finished.
pub open spec fn idle_fence(f: FrameData) -> FrameData {
    if f.fence == FenceState::InFlight {
        FrameData { fence: FenceState::Signaled }
    } else {
        f
    }
}

/// The state after a resize to `e` finished with a swapchain of `image_count` images.
pub open spec fn resized(v: RendererView, e: Extent2D, image_count: u32) -> RendererView {
    RendererView {
        frames: v.frames.map_values(|f: FrameData| idle_fence(f)),
        swapchain: SwapchainData { extent: e, image_count },
        draw_extent: e,
        phase: Phase::Idle,
        suboptimal: false,
        ..v
    }
}

/// The teardown order: wait for the device, then release descriptors, the
/// draw image, the swapchain, the passes' pipelines, the frame slots, the
/// allocator, the device and the instance.
pub open spec fn teardown_order() -> Seq<TeardownStep> {
    seq![
        TeardownStep::WaitIdle,
        TeardownStep::DestroyDescriptors,
        TeardownStep::DestroyDrawImage,
        TeardownStep::DestroySwapchain,
        TeardownStep::DestroyPasses,
        TeardownStep::DestroyFrameSync,
        TeardownStep::DestroyAllocator,
        TeardownStep::DestroyDevice,
        TeardownStep::DestroyInstance,
    ]
}

/// The state of the render engine: the frame counter, the two frame slots,
/// the swapchain and draw image it renders through, and the protocol phase.
pub struct Renderer {
    frame_count: usize,
    frames: [FrameData; 2],
    swapchain: SwapchainData,
    draw_extent: Extent2D,
    binds_draw_image: bool,
    phase: Phase,
    suboptimal: bool,
}

impl View for Renderer {
    type V = RendererView;

    closed spec fn view(&self) -> RendererView {
        RendererView {
            frame_count: self.frame_count,
            frames: self.frames@,
            swapchain: self.swapchain,
            draw_extent: self.draw_extent,
            binds_draw_image: self.binds_draw_image,
            phase: self.phase,
            suboptimal: self.suboptimal,
        }
    }
}

impl Renderer {
    #[verifier::type_invariant]
    spec fn inv(self) -> bool {
        view_ok(self@)
    }

    /// The engine's state once it has just been created.
    pub open spec fn created(swapchain: SwapchainData, binds_draw_image: bool) -> RendererView {
        RendererView {
            frame_count: 0,
            frames: seq![FrameData { fence: FenceState::Signaled }, FrameData { fence: FenceState::Signaled }],
            swapchain,
            draw_extent: swapchain.extent,
            binds_draw_image,
            phase: Phase::Idle,
            suboptimal: false,
        }
    }

    /// A new engine for a window whose swapchain is `swapchain`; the draw
    /// image takes the window's size. `binds_draw_image` says whether a
    /// descriptor binds the draw image and must follow it on resize. A
    /// swapchain that cannot be rendered to is refused as its description
    /// would be.
    pub fn new(swapchain: SwapchainData, binds_draw_image: bool) -> (r: Result<Renderer, SwapchainError>)
        ensures
            r is Ok <==> swapchain.valid(),
            r is Ok ==> r->Ok_0@ == Self::created(swapchain, binds_draw_image),
            r is Err ==> swapchain_problem(swapchain.extent, swapchain.image_count) == Some(r->Err_0),
    {
        match SwapchainData::new(swapchain.extent, swapchain.image_count) {
            Err(e) => Err(e),
            Ok(_) => {
                let r = Renderer {
                    frame_count: 0,
                    frames: [FrameData::new(), FrameData::new()],
                    swapchain,
                    draw_extent: swapchain.extent,
                    binds_draw_image,
                    phase: Phase::Idle,
                    suboptimal: false,
                };
                assert(r.frames@ =~= seq![FrameData { fence: FenceState::Signaled }, FrameData { fence: FenceState::Signaled }]);
                Ok(r)
            },
        }
    }

    /// The number of frames completed so far, wrapping at the top of `usize`.
    pub fn frame_count(&self) -> (r: usize)
        ensures
            r == self@.frame_count,
    {
        self.frame_count
    }

    /// The frame slot the current or next frame uses.
    pub fn current_slot(&self) -> (r: usize)
        ensures
            r == slot_of(self@.frame_count),
            r < FRAME_SLOTS,
    {
        self.frame_count % 2
    }

    /// The size of the draw image.
    pub fn draw_extent(&self) -> (r: Extent2D)
        ensures
            r == self@.draw_extent,
    {
        self.draw_extent
    }

    /// The swapchain the engine presents through.
    pub fn swapchain(&self) -> (r: SwapchainData)
        ensures
            r == self@.swapchain,
    {
        self.swapchain
    }

    /// Where the engine stands.
    pub fn phase(&self) -> (r: Phase)
        ensures
            r == self@.phase,
    {
        self.phase
    }

    /// The state of frame slot `slot`'s fence.
    pub fn fence(&self, slot: usize) -> (r: FenceState)
        requires
            slot < FRAME_SLOTS,
        ensures
            r == self@.frames[slot as int].fence,
    {
        proof { use_type_invariant(self); }
        self.frames[slot].fence
    }

    /// Advances the frame protocol by the event `event`.
    ///
    /// A frame runs Begin, then the fence wait (skipped when the slot's last
    /// submission never happened), the reset of fence and command buffer and
    /// the acquire, then the submission and presentation, after which the
    /// frame counter advances. The "render complete" semaphore of a frame is
    /// the one of the acquired image, never the one of the frame slot.
    pub fn render(&mut self, event: FrameEvent) -> (r: Result<FrameAction, RenderError>)
        ensures
            view_ok(final(self)@),
            final(self)@ == render_step(old(self)@, event).0,
            match r {
                Ok(a) => render_step(old(self)@, event).1 == Ok::<_, RenderError>(a@),
                Err(e) => render_step(old(self)@, event).1 == Err::<ActionView, _>(e),
            },
    {
        proof { use_type_invariant(&*self); }
        let s: usize = self.frame_count % 2;
        match self.phase {
            Phase::Destroyed => Err(RenderError::Destroyed),
            Phase::Failed => Err(RenderError::Failed),
            Phase::OutOfDate => Err(RenderError::OutOfDate),
            Phase::Idle => match event {
                FrameEvent::Begin => {
                    if self.frames[s].fence == FenceState::Reset {
                        self.phase = Phase::Acquiring;
                        proof { assert(self.frames@ =~= old(self).frames@.update(s as int, FrameData { fence: FenceState::Reset })); }
                        Ok(FrameAction::ResetAndAcquire { slot: s })
                    } else {
                        self.phase = Phase::WaitingFence;
                        Ok(FrameAction::WaitFence { slot: s })
                    }
                },
                _ => Err(RenderError::UnexpectedEvent),
            },
            Phase::WaitingFence => match event {
                FrameEvent::FenceSignaled => {
                    let mut frames = self.frames;
                    frames[s] = FrameData { fence: FenceState::Reset };
                    *self = Renderer { frames, phase: Phase::Acquiring, ..*self };
                    Ok(FrameAction::ResetAndAcquire { slot: s })
                },
                FrameEvent::FenceTimedOut => {
                    self.phase = Phase::Failed;
                    Err(RenderError::FenceTimeout)
                },
                _ => Err(RenderError::UnexpectedEvent),
            },
            Phase::Acquiring => match event {
                FrameEvent::Acquired { image, suboptimal } => {
                    if image < self.swapchain.image_count {
                        let mut frames = self.frames;
                        frames[s] = FrameData { fence: FenceState::InFlight };
                        *self = Renderer { frames, phase: Phase::Presenting { image }, suboptimal, ..*self };
                        let commands = record_frame(image, self.draw_extent, self.swapchain.extent);
                        Ok(FrameAction::SubmitAndPresent(FrameSubmission {
                            slot: s,
                            image,
                            render_semaphore: image,
                            commands,
                        }))
                    } else {
                        self.phase = Phase::Failed;
                        Err(RenderError::ImageOutOfRange)
                    }
                },
                FrameEvent::AcquireOutOfDate => {
                    self.phase = Phase::OutOfDate;
                    Err(RenderError::OutOfDate)
                },
                FrameEvent::AcquireTimedOut => {
                    self.phase = Phase::Failed;
                    Err(RenderError::AcquireTimeout)
                },
                _ => Err(RenderError::UnexpectedEvent),
            },
            Phase::Presenting { .. } => match event {
                FrameEvent::Presented { suboptimal } => {
                    let done = self.suboptimal || suboptimal;
                    let frame_count = self.frame_count.wrapping_add(1);
                    *self = Renderer { frame_count, phase: Phase::Idle, ..*self };
                    Ok(FrameAction::FrameDone { suboptimal: done })
                },
                FrameEvent::PresentOutOfDate => {
                    let frame_count = self.frame_count.wrapping_add(1);
                    *self = Renderer { frame_count, phase: Phase::OutOfDate, ..*self };
                    Err(RenderError::OutOfDate)
                },
                _ => Err(RenderError::UnexpectedEvent),
            },
            Phase::Resizing { .. } => Err(RenderError::UnexpectedEvent),
        }
    }
    /// Asks to resize the swapchain and draw image to `width` by `height`.
    ///
    /// Between frames, and for a size whose sides are positive and small
    /// enough to blit, this hands out the steps to carry out and waits for
    /// `finish_resize`. A side of zero (a minimized window) is refused and
    /// nothing is rebuilt.
    pub fn resize(&mut self, width: u32, height: u32) -> (r: Result<Vec<ResizeStep>, ResizeError>)
        ensures
            view_ok(final(self)@),
            final(self)@ == resize_step(old(self)@, width, height).0,
            match r {
                Ok(plan) => resize_step(old(self)@, width, height).1 == Ok::<_, ResizeError>(plan@),
                Err(e) => resize_step(old(self)@, width, height).1 == Err::<Seq<ResizeStep>, _>(e),
            },
    {
        proof { use_type_invariant(&*self); }
        match self.phase {
            Phase::Destroyed => Err(ResizeError::Destroyed),
            Phase::Failed => Err(ResizeError::Failed),
            Phase::Idle | Phase::OutOfDate => {
                if width == 0 || height == 0 {
                    Err(ResizeError::ZeroExtent)
                } else if width > MAX_SIDE || height > MAX_SIDE {
                    Err(ResizeError::ExtentTooLarge)
                } else {
                    let e = Extent2D { width, height };
                    let mut plan: Vec<ResizeStep> = Vec::new();
                    plan.push(ResizeStep::WaitIdle);
                    plan.push(ResizeStep::DestroySwapchain);
                    plan.push(ResizeStep::CreateSwapchain(e));
                    plan.push(ResizeStep::DestroyDrawImage);
                    plan.push(ResizeStep::CreateDrawImage(e));
                    if self.binds_draw_image {
                        plan.push(ResizeStep::RewriteDrawImageDescriptor);
                    }
                    assert(plan@ =~= resize_plan(e, self.binds_draw_image));
                    self.phase = Phase::Resizing { width, height };
                    Ok(plan)
                }
            },
            _ => Err(ResizeError::NotBetweenFrames),
        }
    }

    /// Finishes the resize in progress once its steps were carried out; the
    /// rebuilt swapchain has `image_count` images. The device was idle, so no
    /// frame slot has work in flight afterwards.
    pub fn finish_resize(&mut self, image_count: u32) -> (r: Result<(), ResizeError>)
        ensures
            view_ok(final(self)@),
            match old(self)@.phase {
                Phase::Resizing { width, height } => if image_count == 0 {
                    r == Err::<(), _>(ResizeError::NoSwapchainImages) && final(self)@ == old(self)@
                } else {
                    r is Ok && final(self)@ == resized(old(self)@, Extent2D { width, height }, image_count)
                },
                Phase::Destroyed => r == Err::<(), _>(ResizeError::Destroyed) && final(self)@ == old(self)@,
                _ => r == Err::<(), _>(ResizeError::NotResizing) && final(self)@ == old(self)@,
            },
    {
        proof { use_type_invariant(&*self); }
        match self.phase {
            Phase::Resizing { width, height } => {
                if image_count == 0 {
                    return Err(ResizeError::NoSwapchainImages);
                }
                let e = Extent2D { width, height };
                let frames = [idle_slot(self.frames[0]), idle_slot(self.frames[1])];
                proof {
                    assert(frames@ =~= self.frames@.map_values(|f: FrameData| idle_fence(f)));
                }
                *self = Renderer {
                    frames,
                    swapchain: SwapchainData { extent: e, image_count },
                    draw_extent: e,
                    phase: Phase::Idle,
                    suboptimal: false,
                    ..*self
                };
                Ok(())
            },
            Phase::Destroyed => Err(ResizeError::Destroyed),
            _ => Err(ResizeError::NotResizing),
        }
    }

    /// Tears the engine down: hands out the release order once, and refuses
    /// every later frame, resize or teardown.
    pub fn teardown(&mut self) -> (r: Result<Vec<TeardownStep>, RenderError>)
        ensures
            view_ok(final(self)@),
            old(self)@.phase == Phase::Destroyed ==> r == Err::<Vec<TeardownStep>, _>(RenderError::Destroyed)
                && final(self)@ == old(self)@,
            old(self)@.phase != Phase::Destroyed ==> r is Ok && r->Ok_0@ == teardown_order()
                && final(self)@ == with_phase(old(self)@, Phase::Destroyed),
    {
        proof { use_type_invariant(&*self); }
        if self.phase == Phase::Destroyed {
            return Err(RenderError::Destroyed);
        }
        let mut steps: Vec<TeardownStep> = Vec::new();
        steps.push(TeardownStep::WaitIdle);
        steps.push(TeardownStep::DestroyDescriptors);
        steps.push(TeardownStep::DestroyDrawImage);
        steps.push(TeardownStep::DestroySwapchain);
        steps.push(TeardownStep::DestroyPasses);
        steps.push(TeardownStep::DestroyFrameSync);
        steps.push(TeardownStep::DestroyAllocator);
        steps.push(TeardownStep::DestroyDevice);
        steps.push(TeardownStep::DestroyInstance);
        assert(steps@ =~= teardown_order());
        self.phase = Phase::Destroyed;
        Ok(steps)
    }
}

/// A slot's state once the device has gone idle.
fn idle_slot(f: FrameData) -> (r: FrameData)
    ensures
        r == idle_fence(f),
{
    if f.fence == FenceState::InFlight {
        FrameData { fence: FenceState::Signaled }
    } else {
        f
    }
}

/// A resource that a resize destroys and rebuilds.
#[derive(Debug, Copy, Clone, PartialEq, Eq, Structural)]
pub enum Rebuilt {
    Swapchain,
    DrawImage,
}

/// How a step changes the number of live resources of kind `k`.
pub open spec fn live_delta(step: ResizeStep, k: Rebuilt) -> int {
    match (step, k) {
        (ResizeStep::DestroySwapchain, Rebuilt::Swapchain) => -1,
        (ResizeStep::CreateSwapchain(_), Rebuilt::Swapchain) => 1,
        (ResizeStep::DestroyDrawImage, Rebuilt::DrawImage) => -1,
        (ResizeStep::CreateDrawImage(_), Rebuilt::DrawImage) => 1,
        _ => 0,
    }
}

/// How many resources of kind `k` are live after the first `j` steps of
/// `plan`, starting from the one the engine holds.
pub open spec fn live_after(plan: Seq<ResizeStep>, k: Rebuilt, j: nat) -> int
    decreases j,
{
    if j == 0 || j > plan.len() {
        1
    } else {
        live_after(plan, k, (j - 1) as nat) + live_delta(plan[j - 1], k)
    }
}

/// Frame slots alternate: consecutive frames, also across the wrap of the
/// counter, use different slots, and the slot is the counter modulo two.
pub proof fn lemma_slots_alternate(frame_count: usize)
    ensures
        slot_of(frame_count) == frame_count % 2,
        0 <= slot_of(frame_count) < FRAME_SLOTS,
        slot_of(next_count(frame_count)) != slot_of(frame_count),
{
    assert(usize::MAX % 2 == 1) by {
        assert(usize::MAX == 0xffff_ffff || usize::MAX == 0xffff_ffff_ffff_ffff);
    }
}

/// A frame slot's command buffer is only reset once nothing in flight uses
/// it: either the wait on the slot's fence has just succeeded, or the slot's
/// fence was reset with nothing submitted after. The slot is always the one
/// of the current frame, and after the reset its fence is unsignalled with
/// nothing pending.
pub proof fn lemma_reset_follows_wait(v: RendererView, e: FrameEvent)
    requires
        view_ok(v),
    ensures
        render_step(v, e).1 matches Ok(ActionView::ResetAndAcquire { slot }) ==> {
            &&& slot == slot_of(v.frame_count)
            &&& (v.phase == Phase::WaitingFence && e == FrameEvent::FenceSignaled)
                || (v.phase == Phase::Idle && e == FrameEvent::Begin
                    && v.frames[slot].fence == FenceState::Reset)
            &&& render_step(v, e).0.frames[slot].fence == FenceState::Reset
        },
        render_step(v, e).1 matches Ok(ActionView::WaitFence { slot }) ==> slot == slot_of(v.frame_count),
        view_ok(render_step(v, e).0),
{
}

/// The "render complete" semaphore of a submission is chosen by the acquired
/// image, never by the frame slot: the submission signals, and presentation
/// waits on, the semaphore of the image that was acquired, and the recorded
/// commands leave exactly that image presentable.
pub proof fn lemma_semaphore_follows_image(v: RendererView, e: FrameEvent)
    requires
        view_ok(v),
    ensures
        render_step(v, e).1 matches Ok(ActionView::SubmitAndPresent { slot, image, render_semaphore, commands }) ==> {
            &&& e matches FrameEvent::Acquired { image: acquired, .. }
            &&& image == acquired
            &&& render_semaphore == image
            &&& image < v.swapchain.image_count
            &&& slot == slot_of(v.frame_count)
            &&& crate::record::layouts_in_order(commands)
            &&& crate::record::final_layout(commands, crate::record::ImageRef::Swapchain(image))
                == crate::record::Layout::PresentSrc
        },
{
    if let Ok(ActionView::SubmitAndPresent { image, .. }) = render_step(v, e).1 {
        crate::record::lemma_frame_layouts(image, v.draw_extent, v.swapchain.extent);
    }
}

/// After a resize to `width` by `height` is handed out and finished, the draw
/// image and the swapchain both have exactly that size.
pub proof fn lemma_resize_sets_extents(v: RendererView, width: u32, height: u32, image_count: u32)
    requires
        view_ok(v),
        v.phase == Phase::Idle || v.phase == Phase::OutOfDate,
        0 < width <= MAX_SIDE,
        0 < height <= MAX_SIDE,
    ensures
        resize_step(v, width, height).0.phase == (Phase::Resizing { width, height }),
        resized(resize_step(v, width, height).0, Extent2D { width, height }, image_count).draw_extent
            == (Extent2D { width, height }),
        resized(resize_step(v, width, height).0, Extent2D { width, height }, image_count).swapchain.extent
            == (Extent2D { width, height }),
{
}

/// Resizing twice to the same size hands out the same steps both times and
/// leaves the engine as the first resize left it.
pub proof fn lemma_resize_idempotent(v: RendererView, width: u32, height: u32, image_count: u32)
    requires
        view_ok(v),
        v.phase == Phase::Idle || v.phase == Phase::OutOfDate,
        0 < width <= MAX_SIDE,
        0 < height <= MAX_SIDE,
        image_count > 0,
    ensures
        ({
            let e = Extent2D { width, height };
            let once = resized(resize_step(v, width, height).0, e, image_count);
            let twice = resized(resize_step(once, width, height).0, e, image_count);
            &&& view_ok(once)
            &&& resize_step(once, width, height).1 == resize_step(v, width, height).1
            &&& twice == once
        }),
{
    let e = Extent2D { width, height };
    let once = resized(resize_step(v, width, height).0, e, image_count);
    let twice = resized(resize_step(once, width, height).0, e, image_count);
    assert(twice.frames =~= once.frames);
}

/// A resize plan leaks nothing and frees nothing twice: it first waits for
/// the device, never holds more than one swapchain or draw image, and ends
/// with exactly one of each.
pub proof fn lemma_resize_plan_balanced(e: Extent2D, binds_draw_image: bool, k: Rebuilt)
    ensures
        resize_plan(e, binds_draw_image)[0] == ResizeStep::WaitIdle,
        forall|j: nat| j <= resize_plan(e, binds_draw_image).len()
            ==> 0 <= #[trigger] live_after(resize_plan(e, binds_draw_image), k, j) <= 1,
        live_after(resize_plan(e, binds_draw_image), k, resize_plan(e, binds_draw_image).len()) == 1,
{
    let plan = resize_plan(e, binds_draw_image);
    reveal_with_fuel(live_after, 7);
    assert(plan.len() == 5 || plan.len() == 6);
    assert forall|j: nat| j <= plan.len() implies 0 <= #[trigger] live_after(plan, k, j) <= 1 by {
        assert(j <= 6);
    }
}

} // verus!
