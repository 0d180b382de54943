use camera_pipeline::error::PipelineError;
use camera_pipeline::transport::{CaptureControl, FrameSlot};

#[test]
fn new_slot_is_open_and_empty() {
    let mut slot = FrameSlot::new();
    assert!(!slot.is_closed());
    assert!(!slot.has_pending());
    assert_eq!(slot.try_receive(), Ok(None));
}

#[test]
fn last_of_many_sends_is_received() {
    let mut slot = FrameSlot::new();
    for n in 0..200u8 {
        slot.send(vec![n, n, n]);
        assert!(slot.has_pending());
    }
    assert_eq!(slot.try_receive(), Ok(Some(vec![199, 199, 199])));
    assert!(!slot.has_pending());
}

#[test]
fn frame_is_taken_once() {
    let mut slot = FrameSlot::new();
    slot.send(vec![7, 8, 9]);
    assert_eq!(slot.try_receive(), Ok(Some(vec![7, 8, 9])));
    assert_eq!(slot.try_receive(), Ok(None));
    assert_eq!(slot.try_receive(), Ok(None));
}

#[test]
fn three_frames_before_one_poll() {
    let f1 = vec![1u8; 12];
    let f2 = vec![2u8; 12];
    let f3 = vec![3u8; 12];
    let mut slot = FrameSlot::new();
    slot.send(f1);
    slot.send(f2);
    slot.send(f3.clone());
    assert_eq!(slot.try_receive(), Ok(Some(f3)));
    assert_eq!(slot.try_receive(), Ok(None));
}

#[test]
fn send_after_receive_is_seen_again() {
    let mut slot = FrameSlot::new();
    slot.send(vec![1]);
    assert_eq!(slot.try_receive(), Ok(Some(vec![1])));
    slot.send(vec![2]);
    assert_eq!(slot.try_receive(), Ok(Some(vec![2])));
}

#[test]
fn empty_frame_is_a_frame() {
    let mut slot = FrameSlot::new();
    slot.send(Vec::new());
    assert!(slot.has_pending());
    assert_eq!(slot.try_receive(), Ok(Some(Vec::new())));
}

#[test]
fn closed_slot_signals_channel_closed_for_good() {
    let mut slot = FrameSlot::new();
    slot.send(vec![1, 2, 3]);
    slot.close();
    assert!(slot.is_closed());
    assert!(!slot.has_pending());
    assert_eq!(slot.try_receive(), Err(PipelineError::ChannelClosed));
    slot.send(vec![4, 5, 6]);
    assert!(!slot.has_pending());
    assert_eq!(slot.try_receive(), Err(PipelineError::ChannelClosed));
    assert_eq!(slot.try_receive(), Err(PipelineError::ChannelClosed));
    slot.close();
    assert_eq!(slot.try_receive(), Err(PipelineError::ChannelClosed));
}

#[test]
fn delivered_frame_goes_into_the_slot() {
    let mut slot = FrameSlot::new();
    assert_eq!(slot.deliver(Ok(vec![1, 2])), CaptureControl::Continue);
    assert_eq!(slot.deliver(Ok(vec![3, 4])), CaptureControl::Continue);
    assert_eq!(slot.try_receive(), Ok(Some(vec![3, 4])));
}

#[test]
fn delivered_failure_closes_the_slot() {
    let mut slot = FrameSlot::new();
    assert_eq!(slot.deliver(Ok(vec![1, 2])), CaptureControl::Continue);
    assert_eq!(
        slot.deliver(Err(PipelineError::CaptureFailure)),
        CaptureControl::Stop(PipelineError::CaptureFailure)
    );
    assert!(slot.is_closed());
    assert_eq!(slot.try_receive(), Err(PipelineError::ChannelClosed));
}
