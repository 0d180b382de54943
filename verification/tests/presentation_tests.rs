use camera_pipeline::error::PipelineError;
use camera_pipeline::presentation::{
    frame_fits, ExitReason, Presenter, TickAction, TickEvent, BYTES_PER_PIXEL, TICK_INTERVAL_NANOS,
};
use camera_pipeline::transport::FrameSlot;

#[test]
fn frame_of_a_window_is_width_by_height_by_three() {
    assert_eq!(BYTES_PER_PIXEL, 3);
    assert!(frame_fits(1280, 720, &vec![0u8; 2_764_800]));
    assert!(!frame_fits(1280, 720, &vec![0u8; 2_764_799]));
    assert!(!frame_fits(1280, 720, &vec![0u8; 2_764_801]));
    assert!(frame_fits(2, 2, &vec![0u8; 12]));
    assert!(!frame_fits(2, 2, &vec![0u8; 4]));
}

#[test]
fn frame_of_an_empty_window_is_empty() {
    assert!(frame_fits(0, 720, &Vec::new()));
    assert!(frame_fits(1280, 0, &Vec::new()));
    assert!(!frame_fits(0, 0, &vec![0u8; 1]));
}

#[test]
fn huge_windows_do_not_wrap_around() {
    assert!(!frame_fits(u32::MAX, u32::MAX, &Vec::new()));
    assert!(!frame_fits(u32::MAX, u32::MAX, &vec![0u8; 3]));
    assert!(!frame_fits(0x8000_0000, 0x8000_0000, &Vec::new()));
}

#[test]
fn sixty_ticks_a_second() {
    assert_eq!(TICK_INTERVAL_NANOS, 16_666_667);
}

#[test]
fn tick_draws_the_latest_frame_once() {
    let presenter = Presenter::new(2, 1);
    let mut slot = FrameSlot::new();
    slot.send(vec![1u8; 6]);
    slot.send(vec![2u8; 6]);
    slot.send(vec![3u8; 6]);
    assert_eq!(presenter.tick(TickEvent::Wake, &mut slot), TickAction::Draw(vec![3u8; 6]));
    assert_eq!(presenter.tick(TickEvent::Wake, &mut slot), TickAction::Skip);
}

#[test]
fn tick_without_a_frame_skips() {
    let presenter = Presenter::new(1280, 720);
    let mut slot = FrameSlot::new();
    assert_eq!(presenter.tick(TickEvent::Wake, &mut slot), TickAction::Skip);
    assert!(!slot.is_closed());
}

#[test]
fn frame_of_wrong_size_ends_the_loop() {
    let presenter = Presenter::new(2, 2);
    let mut slot = FrameSlot::new();
    slot.send(vec![0u8; 11]);
    assert_eq!(
        presenter.tick(TickEvent::Wake, &mut slot),
        TickAction::Exit(ExitReason::FrameSizeMismatch)
    );
    assert!(!slot.has_pending());
}

#[test]
fn close_request_ends_the_loop_and_leaves_the_slot() {
    let presenter = Presenter::new(1, 1);
    let mut slot = FrameSlot::new();
    slot.send(vec![9u8; 3]);
    assert_eq!(
        presenter.tick(TickEvent::CloseRequested, &mut slot),
        TickAction::Exit(ExitReason::WindowClosed)
    );
    assert!(slot.has_pending());
    assert_eq!(slot.try_receive(), Ok(Some(vec![9u8; 3])));
}

#[test]
fn closed_channel_ends_the_loop() {
    let presenter = Presenter::new(1, 1);
    let mut slot = FrameSlot::new();
    slot.send(vec![9u8; 3]);
    slot.close();
    assert_eq!(
        presenter.tick(TickEvent::Wake, &mut slot),
        TickAction::Exit(ExitReason::ChannelClosed)
    );
    assert_eq!(
        presenter.tick(TickEvent::Wake, &mut slot),
        TickAction::Exit(ExitReason::ChannelClosed)
    );
}

#[test]
fn every_error_has_its_own_message() {
    let errors = [
        PipelineError::DeviceUnavailable,
        PipelineError::FormatUnsupported,
        PipelineError::EnumerationError,
        PipelineError::StreamOpenError,
        PipelineError::CaptureFailure,
        PipelineError::ChannelClosed,
    ];
    for (i, a) in errors.iter().enumerate() {
        assert!(!a.message().is_empty());
        for b in errors.iter().skip(i + 1) {
            assert_ne!(a.message(), b.message());
        }
    }
    assert_eq!(
        PipelineError::DeviceUnavailable.message(),
        "capture device unavailable: no camera at this index, or it is in use"
    );
    assert_eq!(
        PipelineError::FormatUnsupported.message(),
        "capture format not supported: pick one of the modes the device lists"
    );
}
