use sandbox_backend::wasm_host::{frame_region, pressed_flag, read_frame, render_step, write_key, FrameRegion, RenderEvent, RenderStep, MAX_KEY_BYTES};

#[test]
fn frame_regions() {
    assert_eq!(frame_region(0, 16, 100), FrameRegion::Unset);
    assert_eq!(frame_region(8, 0, 100), FrameRegion::Unset);
    assert_eq!(frame_region(90, 16, 100), FrameRegion::OutOfBounds);
    assert_eq!(frame_region(usize::MAX, 2, 100), FrameRegion::OutOfBounds);
    assert_eq!(frame_region(84, 16, 100), FrameRegion::Within { start: 84, end: 100 });
}

#[test]
fn frames_read_from_memory() {
    let mem: Vec<u8> = (0..32u8).collect();
    assert_eq!(read_frame(&mem, 4, 4), Ok(vec![4, 5, 6, 7]));
    assert_eq!(read_frame(&mem, 30, 4), Err(FrameRegion::OutOfBounds));
    assert_eq!(read_frame(&mem, 0, 4), Err(FrameRegion::Unset));
}

#[test]
fn keys_written_at_start_of_memory() {
    let mut mem = vec![0u8; 8];
    assert!(write_key(&mut mem, b"Enter"));
    assert_eq!(mem, b"Enter\0\0\0".to_vec());
}

#[test]
fn keys_that_do_not_fit() {
    let mut mem = vec![1u8; 5];
    assert!(!write_key(&mut mem, b"Enter"));
    assert_eq!(mem, vec![1u8; 5]);
    let mut big = vec![0u8; 4096];
    let long = vec![b'k'; MAX_KEY_BYTES];
    assert!(!write_key(&mut big, &long));
    assert!(write_key(&mut big, &long[..MAX_KEY_BYTES - 1]));
}

#[test]
fn pressed_flags() {
    assert_eq!(pressed_flag(true), 1);
    assert_eq!(pressed_flag(false), 0);
}

#[test]
fn render_loop_steps() {
    assert_eq!(render_step(RenderEvent::Cancelled), RenderStep::Stop);
    assert_eq!(render_step(RenderEvent::RenderFailed), RenderStep::Stop);
    assert_eq!(render_step(RenderEvent::ReceiverGone), RenderStep::Stop);
    assert_eq!(render_step(RenderEvent::Running), RenderStep::Continue);
    assert_eq!(render_step(RenderEvent::Rendered), RenderStep::Continue);
    assert_eq!(render_step(RenderEvent::FrameUnreadable), RenderStep::SkipFrame);
    assert_eq!(render_step(RenderEvent::FrameSent), RenderStep::FrameDone);
}
