//! The frame grabber: one capture device and the state it is in.

use vstd::prelude::*;
use nokhwa::Camera;
use crate::backend::{
    camera_abandon, camera_encodings, camera_frame, camera_new, camera_open_stream,
    camera_resolution, camera_resolutions, camera_set_index, camera_stop_stream, fault_of,
    query_backend,
};
use crate::device::{
    change_device_step, close_step, closed_at, grab_step, open_step, open_stream_step, status_wf,
    DeviceState, DeviceStatus,
};
use crate::error::{fails_with, frame_bytes, BackendFault, PipelineError};
use crate::format::{CaptureFormat, Resolution};
use crate::modes::{flatten_modes, EncodingProbe};

verus! {

/// Owns at most one capture device and lets frames be grabbed from it while
/// it streams.
pub struct FrameGrabber {
    device: Option<Camera>,
    streaming: bool,
    current_device_index: usize,
    current_format: Option<CaptureFormat>,
}

impl View for FrameGrabber {
    type V = DeviceStatus;

    /// The state follows from what is held: no device means `Closed`, and a
    /// closed grabber has no format.
    closed spec fn view(&self) -> DeviceStatus {
        match self.device {
            None => closed_at(self.current_device_index),
            Some(_) => DeviceStatus {
                state: if self.streaming {
                    DeviceState::Streaming
                } else {
                    DeviceState::Opened
                },
                index: self.current_device_index,
                format: self.current_format,
            },
        }
    }
}

/// The devices attached, given what the discovery answered: the list as it
/// came, which may be empty, or an `EnumerationError` where discovery itself
/// failed.
pub fn devices_from(found: Result<Vec<(usize, String)>, BackendFault>) -> (r: Result<
    Vec<(usize, String)>,
    PipelineError,
>)
    ensures
        match found {
            Ok(devices) => r == Ok::<Vec<(usize, String)>, PipelineError>(devices),
            Err(_) => r == Err::<Vec<(usize, String)>, PipelineError>(
                PipelineError::EnumerationError,
            ),
        },
{
    match found {
        Ok(devices) => Ok(devices),
        Err(_) => Err(PipelineError::EnumerationError),
    }
}

impl FrameGrabber {
    /// A grabber bound to `index` that holds no device.
    pub fn closed(index: usize) -> (grabber: FrameGrabber)
        ensures
            grabber@ == closed_at(index),
    {
        FrameGrabber {
            device: None,
            streaming: false,
            current_device_index: index,
            current_format: None,
        }
    }

    /// A grabber that has claimed the device at `index` and set it to
    /// `format`, or to the backend's default where there is none. Where the
    /// device cannot be opened nothing is claimed.
    pub fn new(index: usize, format: Option<CaptureFormat>) -> (r: Result<
        FrameGrabber,
        PipelineError,
    >)
        ensures
            match r {
                Ok(grabber) => grabber@ == (DeviceStatus {
                    state: DeviceState::Opened,
                    index,
                    format,
                }),
                Err(e) => e == PipelineError::DeviceUnavailable || e
                    == PipelineError::FormatUnsupported,
            },
    {
        let mut grabber = FrameGrabber::closed(index);
        match grabber.open(format) {
            Ok(_) => Ok(grabber),
            Err(e) => Err(e),
        }
    }

    /// A grabber that has claimed the device at `index`, set it to `format`
    /// and started its stream: the next thing to do is to grab. Where any of
    /// this fails the device is let go again.
    pub fn start(index: usize, format: Option<CaptureFormat>) -> (r: Result<
        FrameGrabber,
        PipelineError,
    >)
        ensures
            match r {
                Ok(grabber) => grabber@ == (DeviceStatus {
                    state: DeviceState::Streaming,
                    index,
                    format,
                }),
                Err(e) => e == PipelineError::DeviceUnavailable || e
                    == PipelineError::FormatUnsupported || e == PipelineError::StreamOpenError,
            },
    {
        let mut grabber = FrameGrabber::new(index, format)?;
        match grabber.open_stream() {
            Ok(_) => Ok(grabber),
            Err(e) => {
                grabber.close();
                Err(e)
            },
        }
    }

    /// The state of the grabber and what it is bound to.
    pub fn status(&self) -> (status: DeviceStatus)
        ensures
            status == self@,
    {
        match &self.device {
            None => DeviceStatus::closed(self.current_device_index),
            Some(_) => DeviceStatus {
                state: if self.streaming {
                    DeviceState::Streaming
                } else {
                    DeviceState::Opened
                },
                index: self.current_device_index,
                format: self.current_format,
            },
        }
    }

    /// Takes over the outcome of a step.
    fn settle(&mut self, status: DeviceStatus)
        requires
            old(self).device is Some <==> status.state != DeviceState::Closed,
            status.state == DeviceState::Closed ==> status.format is None,
        ensures
            final(self)@ == status,
            final(self).device == old(self).device,
    {
        self.streaming = status.is_streaming();
        self.current_device_index = status.index;
        self.current_format = status.format;
    }

    /// Lists the devices attached to the machine, each with its index and
    /// its name. No device attached is an empty list, not an error.
    pub fn list_devices() -> (r: Result<Vec<(usize, String)>, PipelineError>)
        ensures
            r is Ok || fails_with(r, PipelineError::EnumerationError),
    {
        match query_backend() {
            Ok(devices) => devices_from(Ok(devices)),
            Err(error) => devices_from(Err(fault_of(&error))),
        }
    }

    /// Claims the device the grabber is bound to and sets it to `format`, or
    /// to the backend's default where there is none. A grabber that holds a
    /// device already is left alone.
    pub fn open(&mut self, format: Option<CaptureFormat>) -> (r: Result<(), PipelineError>)
        ensures
            exists|outcome: Result<(), BackendFault>|
                (final(self)@, r) == #[trigger] open_step(old(self)@, format, outcome),
    {
        let mut status = self.status();
        if !status.may_open() {
            let r = status.open(format, Ok(()));
            return r;
        }
        match camera_new(self.current_device_index, format) {
            Ok(camera) => {
                let r = status.open(format, Ok(()));
                self.device = Some(camera);
                self.settle(status);
                r
            },
            Err(error) => {
                let fault = fault_of(&error);
                status.open(format, Err(fault))
            },
        }
    }

    /// Binds the grabber to the device at `index`. A device that was held is
    /// exchanged for the new one by the backend and no longer streams: a
    /// stream has to be opened again before the next frame.
    pub fn change_device(&mut self, index: usize) -> (r: Result<(), PipelineError>)
        ensures
            exists|outcome: Result<(), BackendFault>|
                (final(self)@, r) == #[trigger] change_device_step(old(self)@, index, outcome),
    {
        let mut status = self.status();
        match self.device.take() {
            None => {
                let r = status.change_device(index, Ok(()));
                self.settle(status);
                r
            },
            Some(mut camera) => {
                let outcome = match camera_set_index(&mut camera, index) {
                    Ok(_) => Ok(()),
                    Err(error) => Err(fault_of(&error)),
                };
                self.device = Some(camera);
                let r = status.change_device(index, outcome);
                self.settle(status);
                r
            },
        }
    }

    /// Asks the device for its pixel encodings and, for each, for the
    /// resolutions and frame rates it offers. An encoding whose probe fails
    /// is recorded as failed and the others are still asked.
    pub fn probe_modes(&mut self) -> (r: Result<Vec<EncodingProbe>, PipelineError>)
        ensures
            final(self)@ == old(self)@,
            old(self)@.state == DeviceState::Closed ==> fails_with(
                r,
                PipelineError::DeviceUnavailable,
            ),
            old(self)@.state != DeviceState::Closed ==> r is Ok || fails_with(
                r,
                PipelineError::EnumerationError,
            ),
    {
        match self.device.take() {
            None => Err(PipelineError::DeviceUnavailable),
            Some(mut camera) => {
                let r = match camera_encodings(&mut camera) {
                    Err(_) => Err(PipelineError::EnumerationError),
                    Ok(encodings) => {
                        let mut probes: Vec<EncodingProbe> = Vec::new();
                        let mut i: usize = 0;
                        while i < encodings.len()
                            invariant
                                i <= encodings.len(),
                                probes.len() == i,
                            decreases encodings.len() - i,
                        {
                            let outcome = match camera_resolutions(&mut camera, encodings[i]) {
                                Ok(resolutions) => Ok(resolutions),
                                Err(error) => Err(fault_of(&error)),
                            };
                            probes.push(EncodingProbe::from_outcome(encodings[i], outcome));
                            i += 1;
                        }
                        Ok(probes)
                    },
                };
                self.device = Some(camera);
                r
            },
        }
    }

    /// The modes the device supports: every encoding it names, at every
    /// resolution it offers for it, at every frame rate of that resolution,
    /// in the order in which the device answered.
    pub fn list_supported_modes(&mut self) -> (r: Result<Vec<CaptureFormat>, PipelineError>)
        ensures
            final(self)@ == old(self)@,
            old(self)@.state == DeviceState::Closed ==> fails_with(
                r,
                PipelineError::DeviceUnavailable,
            ),
            old(self)@.state != DeviceState::Closed ==> r is Ok || fails_with(
                r,
                PipelineError::EnumerationError,
            ),
    {
        match self.probe_modes() {
            Ok(probes) => Ok(flatten_modes(&probes)),
            Err(e) => Err(e),
        }
    }

    /// Does nothing: a format is fixed when a device is opened, and changing
    /// it means closing the device and opening it again.
    pub fn change_mode(&self) {
    }

    /// Starts the flow of frames on the device held.
    pub fn open_stream(&mut self) -> (r: Result<(), PipelineError>)
        ensures
            exists|outcome: Result<(), BackendFault>|
                (final(self)@, r) == #[trigger] open_stream_step(old(self)@, outcome),
    {
        let mut status = self.status();
        if self.streaming {
            let r = status.open_stream(Ok(()));
            return r;
        }
        match self.device.take() {
            None => status.open_stream(Ok(())),
            Some(mut camera) => {
                let outcome = match camera_open_stream(&mut camera) {
                    Ok(_) => Ok(()),
                    Err(error) => Err(fault_of(&error)),
                };
                self.device = Some(camera);
                let r = status.open_stream(outcome);
                self.settle(status);
                r
            },
        }
    }

    /// Waits for the next frame of the stream and returns its bytes. Only a
    /// streaming device is asked; the grabber stays as it is either way.
    pub fn grab_frame(&mut self) -> (r: Result<Vec<u8>, PipelineError>)
        ensures
            final(self)@ == old(self)@,
            exists|outcome: Result<Seq<u8>, BackendFault>|
                frame_bytes(r) == #[trigger] grab_step(old(self)@, outcome),
    {
        let status = self.status();
        if !status.is_streaming() {
            let r = status.grab_frame(Err(BackendFault::ReadFrame));
            assert(frame_bytes(r) == grab_step(
                old(self)@,
                Err::<Seq<u8>, BackendFault>(BackendFault::ReadFrame),
            ));
            return r;
        }
        match self.device.take() {
            None => Err(PipelineError::CaptureFailure),
            Some(mut camera) => {
                let outcome = match camera_frame(&mut camera) {
                    Ok(frame) => Ok(frame),
                    Err(error) => Err(fault_of(&error)),
                };
                self.device = Some(camera);
                let r = status.grab_frame(outcome);
                assert(frame_bytes(r) == grab_step(old(self)@, frame_bytes(outcome)));
                r
            },
        }
    }

    /// The resolution the backend has the device set to; `None` exactly
    /// where no device is held.
    pub fn resolution(&self) -> (r: Option<Resolution>)
        ensures
            r is Some <==> self@.state != DeviceState::Closed,
    {
        match &self.device {
            Some(camera) => Some(camera_resolution(camera)),
            None => None,
        }
    }

    /// Lets the device go. The stream is stopped first; a device whose
    /// stream cannot be stopped is abandoned as it is.
    pub fn close(&mut self)
        ensures
            final(self)@ == close_step(old(self)@),
    {
        match self.device.take() {
            Some(mut camera) => {
                match camera_stop_stream(&mut camera) {
                    Ok(_) => {},
                    Err(_) => camera_abandon(camera),
                }
            },
            None => {},
        }
        self.streaming = false;
        self.current_format = None;
    }
}

/// Whatever was done to a grabber, its status is well-formed: while it is
/// closed it has no format.
pub proof fn lemma_grabber_status_wf(grabber: FrameGrabber)
    ensures
        status_wf(grabber@),
{
}

} // verus!
