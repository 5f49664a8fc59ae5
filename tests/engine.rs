use glacian::{
    record_frame, Extent2D, FenceState, FrameAction, FrameCommand, FrameEvent, ImageRef, Layout,
    Phase, RenderError, Renderer, ResizeError, ResizeStep, SwapchainData, SwapchainError,
    TeardownStep,
};

fn extent(width: u32, height: u32) -> Extent2D {
    Extent2D { width, height }
}

fn engine(width: u32, height: u32, images: u32) -> Renderer {
    let swapchain = SwapchainData::new(extent(width, height), images).unwrap();
    Renderer::new(swapchain, true).unwrap()
}

/// Runs one whole frame, acquiring `image`; returns the submission's slot,
/// image, render semaphore and commands.
fn run_frame(r: &mut Renderer, image: u32) -> (usize, u32, u32, Vec<FrameCommand>) {
    let slot = r.current_slot();
    match r.render(FrameEvent::Begin).unwrap() {
        FrameAction::WaitFence { slot: s } => {
            assert_eq!(s, slot);
            match r.render(FrameEvent::FenceSignaled).unwrap() {
                FrameAction::ResetAndAcquire { slot: s } => assert_eq!(s, slot),
                other => panic!("unexpected {:?}", other),
            }
        }
        FrameAction::ResetAndAcquire { slot: s } => assert_eq!(s, slot),
        other => panic!("unexpected {:?}", other),
    }
    assert_eq!(r.fence(slot), FenceState::Reset);
    let sub = match r
        .render(FrameEvent::Acquired { image, suboptimal: false })
        .unwrap()
    {
        FrameAction::SubmitAndPresent(sub) => sub,
        other => panic!("unexpected {:?}", other),
    };
    assert_eq!(r.fence(slot), FenceState::InFlight);
    match r.render(FrameEvent::Presented { suboptimal: false }).unwrap() {
        FrameAction::FrameDone { suboptimal } => assert!(!suboptimal),
        other => panic!("unexpected {:?}", other),
    }
    (sub.slot, sub.image, sub.render_semaphore, sub.commands)
}

fn final_layout(cmds: &[FrameCommand], image: ImageRef) -> Layout {
    let mut layout = Layout::Undefined;
    for c in cmds {
        if let FrameCommand::Transition { image: i, from, to } = c {
            if *i == image {
                assert!(*from == Layout::Undefined || *from == layout);
                layout = *to;
            }
        }
    }
    layout
}

#[test]
fn first_frame_on_800_by_600() {
    let mut r = engine(800, 600, 3);
    assert_eq!(r.frame_count(), 0);
    let (slot, image, sem, cmds) = run_frame(&mut r, 1);
    assert_eq!(slot, 0);
    assert_eq!(image, 1);
    assert_eq!(sem, 1);
    assert_eq!(r.frame_count(), 1);
    assert_eq!(r.phase(), Phase::Idle);
    assert_eq!(final_layout(&cmds, ImageRef::Swapchain(1)), Layout::PresentSrc);
    assert_eq!(final_layout(&cmds, ImageRef::Draw), Layout::TransferSrc);
    assert_eq!(cmds, record_frame(1, extent(800, 600), extent(800, 600)));
}

#[test]
fn recorded_frame_commands_in_order() {
    let cmds = record_frame(2, extent(1920, 1080), extent(1280, 720));
    assert_eq!(cmds.len(), 8);
    assert_eq!(cmds[0], FrameCommand::Begin);
    assert_eq!(
        cmds[1],
        FrameCommand::Transition { image: ImageRef::Draw, from: Layout::Undefined, to: Layout::ColorAttachment }
    );
    assert_eq!(cmds[2], FrameCommand::DrawSky { extent: extent(1920, 1080) });
    assert_eq!(
        cmds[5],
        FrameCommand::Blit { src: extent(1920, 1080), dst: extent(1280, 720), target: 2 }
    );
    assert_eq!(
        cmds[6],
        FrameCommand::Transition {
            image: ImageRef::Swapchain(2),
            from: Layout::TransferDst,
            to: Layout::PresentSrc
        }
    );
    assert_eq!(cmds[7], FrameCommand::End);
}

#[test]
fn resize_then_render_uses_new_extent() {
    let mut r = engine(800, 600, 3);
    let plan = r.resize(1920, 1080).unwrap();
    assert_eq!(
        plan,
        vec![
            ResizeStep::WaitIdle,
            ResizeStep::DestroySwapchain,
            ResizeStep::CreateSwapchain(extent(1920, 1080)),
            ResizeStep::DestroyDrawImage,
            ResizeStep::CreateDrawImage(extent(1920, 1080)),
            ResizeStep::RewriteDrawImageDescriptor,
        ]
    );
    assert_eq!(r.phase(), Phase::Resizing { width: 1920, height: 1080 });
    r.finish_resize(3).unwrap();
    assert_eq!(r.draw_extent(), extent(1920, 1080));
    assert_eq!(r.swapchain().extent, extent(1920, 1080));
    let (_, _, _, cmds) = run_frame(&mut r, 0);
    assert_eq!(cmds[2], FrameCommand::DrawSky { extent: extent(1920, 1080) });
    assert_eq!(r.frame_count(), 1);
}

#[test]
fn resize_to_zero_is_refused_and_keeps_state() {
    let mut r = engine(800, 600, 3);
    assert_eq!(r.resize(0, 0), Err(ResizeError::ZeroExtent));
    assert_eq!(r.resize(0, 600), Err(ResizeError::ZeroExtent));
    assert_eq!(r.resize(800, 0), Err(ResizeError::ZeroExtent));
    assert_eq!(r.phase(), Phase::Idle);
    assert_eq!(r.draw_extent(), extent(800, 600));
    run_frame(&mut r, 0);
    assert_eq!(r.frame_count(), 1);
}

#[test]
fn resize_too_large_is_refused() {
    let mut r = engine(800, 600, 3);
    assert_eq!(r.resize(0x8000_0000, 600), Err(ResizeError::ExtentTooLarge));
    assert_eq!(r.draw_extent(), extent(800, 600));
}

#[test]
fn resize_twice_with_same_size() {
    let mut r = engine(800, 600, 3);
    let first = r.resize(1024, 768).unwrap();
    r.finish_resize(4).unwrap();
    let after_first = (r.draw_extent(), r.swapchain(), r.frame_count(), r.phase());
    let second = r.resize(1024, 768).unwrap();
    r.finish_resize(4).unwrap();
    assert_eq!(first, second);
    assert_eq!((r.draw_extent(), r.swapchain(), r.frame_count(), r.phase()), after_first);
    for step in [ResizeStep::DestroySwapchain, ResizeStep::DestroyDrawImage] {
        assert_eq!(first.iter().filter(|s| **s == step).count(), 1);
    }
}

#[test]
fn resize_errors_by_phase() {
    let mut r = engine(800, 600, 3);
    assert_eq!(r.finish_resize(3), Err(ResizeError::NotResizing));
    r.render(FrameEvent::Begin).unwrap();
    assert_eq!(r.resize(640, 480), Err(ResizeError::NotBetweenFrames));
    let mut r = engine(800, 600, 3);
    r.resize(640, 480).unwrap();
    assert_eq!(r.finish_resize(0), Err(ResizeError::NoSwapchainImages));
    assert_eq!(r.phase(), Phase::Resizing { width: 640, height: 480 });
    assert_eq!(r.render(FrameEvent::Begin).unwrap_err(), RenderError::UnexpectedEvent);
}

#[test]
fn ten_thousand_frames_alternate_slots() {
    let mut r = engine(800, 600, 3);
    let mut waited = [0u32; 2];
    for n in 0..10_000usize {
        let slot = r.current_slot();
        assert_eq!(slot, n % 2);
        // Before its command buffer is reset the slot's fence must have been
        // waited on; the engine hands out the wait first.
        match r.render(FrameEvent::Begin).unwrap() {
            FrameAction::WaitFence { slot: s } => {
                assert_eq!(s, slot);
                waited[s] += 1;
            }
            other => panic!("unexpected {:?}", other),
        }
        match r.render(FrameEvent::FenceSignaled).unwrap() {
            FrameAction::ResetAndAcquire { slot: s } => assert_eq!(s, slot),
            other => panic!("unexpected {:?}", other),
        }
        let image = (n % 3) as u32;
        match r.render(FrameEvent::Acquired { image, suboptimal: false }).unwrap() {
            FrameAction::SubmitAndPresent(sub) => {
                assert_eq!(sub.slot, slot);
                assert_eq!(sub.render_semaphore, image);
            }
            other => panic!("unexpected {:?}", other),
        }
        r.render(FrameEvent::Presented { suboptimal: false }).unwrap();
    }
    assert_eq!(r.frame_count(), 10_000);
    assert_eq!(waited, [5_000, 5_000]);
}

#[test]
fn render_semaphore_follows_image_not_slot() {
    // Three swapchain images, two frame slots: image k is reused by slots
    // of both parities, and its semaphore must follow the image.
    let mut r = engine(800, 600, 3);
    let mut pairs = Vec::new();
    for image in [0u32, 1, 2, 0, 1, 2, 2, 0] {
        let (slot, img, sem, _) = run_frame(&mut r, image);
        assert_eq!(img, image);
        assert_eq!(sem, image);
        pairs.push((slot, sem));
    }
    assert!(pairs.iter().any(|(slot, sem)| *slot as u32 != *sem));
}

#[test]
fn fence_timeout_is_fatal() {
    let mut r = engine(800, 600, 3);
    r.render(FrameEvent::Begin).unwrap();
    assert_eq!(r.render(FrameEvent::FenceTimedOut).unwrap_err(), RenderError::FenceTimeout);
    assert_eq!(r.phase(), Phase::Failed);
    assert_eq!(r.render(FrameEvent::Begin).unwrap_err(), RenderError::Failed);
    assert_eq!(r.resize(640, 480), Err(ResizeError::Failed));
}

#[test]
fn acquire_timeout_is_fatal() {
    let mut r = engine(800, 600, 3);
    r.render(FrameEvent::Begin).unwrap();
    r.render(FrameEvent::FenceSignaled).unwrap();
    assert_eq!(r.render(FrameEvent::AcquireTimedOut).unwrap_err(), RenderError::AcquireTimeout);
    assert_eq!(r.phase(), Phase::Failed);
}

#[test]
fn image_index_out_of_range_is_fatal() {
    let mut r = engine(800, 600, 3);
    r.render(FrameEvent::Begin).unwrap();
    r.render(FrameEvent::FenceSignaled).unwrap();
    let e = r.render(FrameEvent::Acquired { image: 3, suboptimal: false }).unwrap_err();
    assert_eq!(e, RenderError::ImageOutOfRange);
}

#[test]
fn out_of_date_acquire_needs_resize_and_skips_dead_wait() {
    let mut r = engine(800, 600, 3);
    r.render(FrameEvent::Begin).unwrap();
    r.render(FrameEvent::FenceSignaled).unwrap();
    assert_eq!(r.render(FrameEvent::AcquireOutOfDate).unwrap_err(), RenderError::OutOfDate);
    assert_eq!(r.render(FrameEvent::Begin).unwrap_err(), RenderError::OutOfDate);
    assert_eq!(r.fence(0), FenceState::Reset);
    r.resize(800, 600).unwrap();
    r.finish_resize(3).unwrap();
    // Nothing was submitted on slot 0 after its reset, so no wait is handed out.
    match r.render(FrameEvent::Begin).unwrap() {
        FrameAction::ResetAndAcquire { slot } => assert_eq!(slot, 0),
        other => panic!("unexpected {:?}", other),
    }
    assert_eq!(r.frame_count(), 0);
}

#[test]
fn out_of_date_present_advances_and_needs_resize() {
    let mut r = engine(800, 600, 3);
    r.render(FrameEvent::Begin).unwrap();
    r.render(FrameEvent::FenceSignaled).unwrap();
    r.render(FrameEvent::Acquired { image: 0, suboptimal: true }).unwrap();
    assert_eq!(r.render(FrameEvent::PresentOutOfDate).unwrap_err(), RenderError::OutOfDate);
    assert_eq!(r.frame_count(), 1);
    assert_eq!(r.phase(), Phase::OutOfDate);
    r.resize(800, 600).unwrap();
    r.finish_resize(3).unwrap();
    // The device was idle, so the slot's submitted work is done.
    assert_eq!(r.fence(0), FenceState::Signaled);
}

#[test]
fn suboptimal_is_reported_when_frame_is_done() {
    let mut r = engine(800, 600, 3);
    r.render(FrameEvent::Begin).unwrap();
    r.render(FrameEvent::FenceSignaled).unwrap();
    r.render(FrameEvent::Acquired { image: 2, suboptimal: true }).unwrap();
    match r.render(FrameEvent::Presented { suboptimal: false }).unwrap() {
        FrameAction::FrameDone { suboptimal } => assert!(suboptimal),
        other => panic!("unexpected {:?}", other),
    }
}

#[test]
fn unexpected_events_change_nothing() {
    let mut r = engine(800, 600, 3);
    assert_eq!(r.render(FrameEvent::FenceSignaled).unwrap_err(), RenderError::UnexpectedEvent);
    assert_eq!(r.phase(), Phase::Idle);
    r.render(FrameEvent::Begin).unwrap();
    assert_eq!(r.render(FrameEvent::Begin).unwrap_err(), RenderError::UnexpectedEvent);
    assert_eq!(r.phase(), Phase::WaitingFence);
}

#[test]
fn teardown_runs_once_in_fixed_order() {
    let mut r = engine(800, 600, 3);
    let steps = r.teardown().unwrap();
    assert_eq!(
        steps,
        vec![
            TeardownStep::WaitIdle,
            TeardownStep::DestroyDescriptors,
            TeardownStep::DestroyDrawImage,
            TeardownStep::DestroySwapchain,
            TeardownStep::DestroyPasses,
            TeardownStep::DestroyFrameSync,
            TeardownStep::DestroyAllocator,
            TeardownStep::DestroyDevice,
            TeardownStep::DestroyInstance,
        ]
    );
    assert_eq!(r.teardown().unwrap_err(), RenderError::Destroyed);
    assert_eq!(r.render(FrameEvent::Begin).unwrap_err(), RenderError::Destroyed);
    assert_eq!(r.resize(640, 480), Err(ResizeError::Destroyed));
    assert_eq!(r.finish_resize(3), Err(ResizeError::Destroyed));
}

#[test]
fn engine_needs_usable_swapchain() {
    let sc = SwapchainData { extent: extent(800, 600), image_count: 0 };
    assert_eq!(Renderer::new(sc, false).err(), Some(SwapchainError::NoImages));
    let sc = SwapchainData { extent: extent(0, 600), image_count: 3 };
    assert_eq!(Renderer::new(sc, false).err(), Some(SwapchainError::ZeroExtent));
    let r = engine(640, 480, 2);
    assert_eq!(r.draw_extent(), extent(640, 480));
    assert_eq!(r.fence(0), FenceState::Signaled);
    assert_eq!(r.fence(1), FenceState::Signaled);
}

#[test]
fn resize_without_descriptor_has_no_rewrite() {
    let sc = SwapchainData::new(extent(800, 600), 3).unwrap();
    let mut r = Renderer::new(sc, false).unwrap();
    let plan = r.resize(100, 50).unwrap();
    assert_eq!(plan.len(), 5);
    assert_eq!(plan[4], ResizeStep::CreateDrawImage(extent(100, 50)));
}
