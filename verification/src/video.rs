//! A capture device with everything preset: the first camera of the
//! machine, at 1280 by 720, Motion-JPEG, sixty frames a second.

use vstd::prelude::*;
use crate::device::{grab_step, open_stream_step, DeviceState, DeviceStatus};
use crate::error::{frame_bytes, BackendFault, PipelineError};
use crate::format::{CaptureFormat, PixelEncoding, Resolution};
use crate::frame_grabber::FrameGrabber;

verus! {

/// The index of the device a `VideoDevice` claims.
pub const PRESET_INDEX: usize = 0;

/// The width a `VideoDevice` asks for.
pub const PRESET_WIDTH: u32 = 1280;

/// The height a `VideoDevice` asks for.
pub const PRESET_HEIGHT: u32 = 720;

/// The frame rate a `VideoDevice` asks for.
pub const PRESET_FRAME_RATE: u32 = 60;

/// The format a `VideoDevice` asks for.
pub open spec fn preset_format() -> CaptureFormat {
    CaptureFormat {
        resolution: Resolution { width: PRESET_WIDTH, height: PRESET_HEIGHT },
        encoding: PixelEncoding::Mjpeg,
        frame_rate: PRESET_FRAME_RATE,
    }
}

/// The first camera of the machine in its preset format.
pub struct VideoDevice {
    grabber: FrameGrabber,
}

impl View for VideoDevice {
    type V = DeviceStatus;

    closed spec fn view(&self) -> DeviceStatus {
        self.grabber@
    }
}

impl VideoDevice {
    /// Claims the first camera and sets it to the preset format.
    pub fn new() -> (r: Result<VideoDevice, PipelineError>)
        ensures
            match r {
                Ok(device) => device@ == (DeviceStatus {
                    state: DeviceState::Opened,
                    index: PRESET_INDEX,
                    format: Some(preset_format()),
                }),
                Err(e) => e == PipelineError::DeviceUnavailable || e
                    == PipelineError::FormatUnsupported,
            },
    {
        let format = CaptureFormat::new_from(
            PRESET_WIDTH,
            PRESET_HEIGHT,
            PixelEncoding::Mjpeg,
            PRESET_FRAME_RATE,
        );
        match FrameGrabber::new(PRESET_INDEX, Some(format)) {
            Ok(grabber) => Ok(VideoDevice { grabber }),
            Err(e) => Err(e),
        }
    }

    /// The state of the device and what it is bound to.
    pub fn status(&self) -> (status: DeviceStatus)
        ensures
            status == self@,
    {
        self.grabber.status()
    }

    /// The width and height the backend has the device set to; `None`
    /// exactly where no device is held.
    pub fn resolution(&self) -> (r: Option<(u32, u32)>)
        ensures
            r is Some <==> self@.state != DeviceState::Closed,
    {
        match self.grabber.resolution() {
            Some(size) => Some((size.width, size.height)),
            None => None,
        }
    }

    /// Starts the flow of frames.
    pub fn open(&mut self) -> (r: Result<(), PipelineError>)
        ensures
            exists|outcome: Result<(), BackendFault>|
                (final(self)@, r) == #[trigger] open_stream_step(old(self)@, outcome),
    {
        let r = self.grabber.open_stream();
        proof {
            let outcome = choose|outcome: Result<(), BackendFault>|
                (self.grabber@, r) == #[trigger] open_stream_step(old(self).grabber@, outcome);
            assert((self@, r) == open_stream_step(old(self)@, outcome));
        }
        r
    }

    /// Waits for the next frame of the stream and returns its bytes.
    pub fn grab_frame(&mut self) -> (r: Result<Vec<u8>, PipelineError>)
        ensures
            final(self)@ == old(self)@,
            exists|outcome: Result<Seq<u8>, BackendFault>|
                frame_bytes(r) == #[trigger] grab_step(old(self)@, outcome),
    {
        self.grabber.grab_frame()
    }
}

} // verus!
