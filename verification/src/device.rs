//! The life of a capture device: `Closed`, `Opened`, `Streaming`.
//!
//! Each operation on a device is decided in two halves. The first half looks
//! at the state alone and says whether the backend is asked at all. The
//! second half takes what the backend answered and gives the next state and
//! the result. Both halves are the step functions of this module; they know
//! nothing of hardware and hold for every answer a backend can give.

use vstd::prelude::*;
use crate::error::{classify_open_failure, frame_bytes, open_failure, BackendFault, PipelineError};
use crate::format::CaptureFormat;

verus! {

/// Where a device stands.
#[derive(Clone, Copy, Debug, PartialEq, Eq, Structural)]
pub enum DeviceState {
    /// No device is held.
    Closed,
    /// The device is held and configured; no frames flow.
    Opened,
    /// Frames flow; this is the only state in which a frame can be grabbed.
    Streaming,
}

/// The state of a device together with what it is bound to.
#[derive(Clone, Copy, Debug, PartialEq, Eq)]
pub struct DeviceStatus {
    pub state: DeviceState,
    /// The index of the device this is bound to.
    pub index: usize,
    /// The format the device was opened with; `None` while closed, and where
    /// the backend was left to choose.
    pub format: Option<CaptureFormat>,
}

/// The status of a device that is bound to `index` and not open.
pub open spec fn closed_at(index: usize) -> DeviceStatus {
    DeviceStatus { state: DeviceState::Closed, index, format: None }
}

/// Opening. Only a closed device can be opened: one that is open already is
/// claimed. Success leaves it `Opened` with the requested format; failure
/// leaves it as it was, `Closed`.
pub open spec fn open_step(
    before: DeviceStatus,
    format: Option<CaptureFormat>,
    outcome: Result<(), BackendFault>,
) -> (DeviceStatus, Result<(), PipelineError>) {
    if before.state != DeviceState::Closed {
        (before, Err(PipelineError::DeviceUnavailable))
    } else {
        match outcome {
            Ok(_) => (
                DeviceStatus { state: DeviceState::Opened, index: before.index, format },
                Ok(()),
            ),
            Err(fault) => (before, Err(open_failure(fault))),
        }
    }
}

/// Rebinding to another index. A closed device only takes note of the new
/// index. An open device is handed over to the backend, which stops the
/// stream and claims the new device with the old format: on success the
/// device is `Opened` at the new index, on failure it is `Opened` at the old
/// one. Either way it no longer streams, and a stream has to be opened anew
/// before a frame can be grabbed.
pub open spec fn change_device_step(
    before: DeviceStatus,
    index: usize,
    outcome: Result<(), BackendFault>,
) -> (DeviceStatus, Result<(), PipelineError>) {
    if before.state == DeviceState::Closed {
        (DeviceStatus { state: DeviceState::Closed, index, format: before.format }, Ok(()))
    } else {
        match outcome {
            Ok(_) => (
                DeviceStatus { state: DeviceState::Opened, index, format: before.format },
                Ok(()),
            ),
            Err(fault) => (
                DeviceStatus {
                    state: DeviceState::Opened,
                    index: before.index,
                    format: before.format,
                },
                Err(open_failure(fault)),
            ),
        }
    }
}

/// Starting the stream. A closed device has nothing to start; a streaming
/// device is streaming already; an opened device streams if the driver
/// agrees.
pub open spec fn open_stream_step(before: DeviceStatus, outcome: Result<(), BackendFault>) -> (
    DeviceStatus,
    Result<(), PipelineError>,
) {
    match before.state {
        DeviceState::Closed => (before, Err(PipelineError::DeviceUnavailable)),
        DeviceState::Streaming => (before, Err(PipelineError::StreamOpenError)),
        DeviceState::Opened => match outcome {
            Ok(_) => (
                DeviceStatus {
                    state: DeviceState::Streaming,
                    index: before.index,
                    format: before.format,
                },
                Ok(()),
            ),
            Err(_) => (before, Err(PipelineError::StreamOpenError)),
        },
    }
}

/// Grabbing a frame. Outside `Streaming` there is no frame to grab. While
/// streaming, the frame is what the backend delivered, and any failure of
/// the backend is a capture failure. The device stays as it is.
pub open spec fn grab_step(before: DeviceStatus, outcome: Result<Seq<u8>, BackendFault>) -> Result<
    Seq<u8>,
    PipelineError,
> {
    if before.state != DeviceState::Streaming {
        Err(PipelineError::CaptureFailure)
    } else {
        match outcome {
            Ok(frame) => Ok(frame),
            Err(_) => Err(PipelineError::CaptureFailure),
        }
    }
}

/// Closing: the device is let go and only the index is remembered.
pub open spec fn close_step(before: DeviceStatus) -> DeviceStatus {
    closed_at(before.index)
}

/// What every status of a device satisfies: a closed device has no format.
pub open spec fn status_wf(status: DeviceStatus) -> bool {
    status.state == DeviceState::Closed ==> status.format is None
}

impl DeviceStatus {
    /// A device bound to `index` and not open.
    pub fn closed(index: usize) -> (status: DeviceStatus)
        ensures
            status == closed_at(index),
    {
        DeviceStatus { state: DeviceState::Closed, index, format: None }
    }

    /// Whether the backend has to be asked in order to open.
    pub fn may_open(&self) -> (b: bool)
        ensures
            b == (self.state == DeviceState::Closed),
    {
        match self.state {
            DeviceState::Closed => true,
            _ => false,
        }
    }

    /// Whether a device is held.
    pub fn is_open(&self) -> (b: bool)
        ensures
            b == (self.state != DeviceState::Closed),
    {
        match self.state {
            DeviceState::Closed => false,
            _ => true,
        }
    }

    /// Whether frames flow.
    pub fn is_streaming(&self) -> (b: bool)
        ensures
            b == (self.state == DeviceState::Streaming),
    {
        match self.state {
            DeviceState::Streaming => true,
            _ => false,
        }
    }

    /// Opens, given what the backend answered.
    pub fn open(&mut self, format: Option<CaptureFormat>, outcome: Result<(), BackendFault>) -> (r:
        Result<(), PipelineError>)
        ensures
            (*final(self), r) == open_step(*old(self), format, outcome),
    {
        if !self.may_open() {
            return Err(PipelineError::DeviceUnavailable);
        }
        match outcome {
            Ok(_) => {
                self.state = DeviceState::Opened;
                self.format = format;
                Ok(())
            },
            Err(fault) => Err(classify_open_failure(fault)),
        }
    }

    /// Rebinds to `index`, given what the backend answered.
    pub fn change_device(&mut self, index: usize, outcome: Result<(), BackendFault>) -> (r: Result<
        (),
        PipelineError,
    >)
        ensures
            (*final(self), r) == change_device_step(*old(self), index, outcome),
    {
        if !self.is_open() {
            self.index = index;
            return Ok(());
        }
        self.state = DeviceState::Opened;
        match outcome {
            Ok(_) => {
                self.index = index;
                Ok(())
            },
            Err(fault) => Err(classify_open_failure(fault)),
        }
    }

    /// Starts the stream, given what the backend answered.
    pub fn open_stream(&mut self, outcome: Result<(), BackendFault>) -> (r: Result<
        (),
        PipelineError,
    >)
        ensures
            (*final(self), r) == open_stream_step(*old(self), outcome),
    {
        match self.state {
            DeviceState::Closed => Err(PipelineError::DeviceUnavailable),
            DeviceState::Streaming => Err(PipelineError::StreamOpenError),
            DeviceState::Opened => match outcome {
                Ok(_) => {
                    self.state = DeviceState::Streaming;
                    Ok(())
                },
                Err(_) => Err(PipelineError::StreamOpenError),
            },
        }
    }

    /// Hands on a grabbed frame, given what the backend delivered.
    pub fn grab_frame(&self, outcome: Result<Vec<u8>, BackendFault>) -> (r: Result<
        Vec<u8>,
        PipelineError,
    >)
        ensures
            frame_bytes(r) == grab_step(*self, frame_bytes(outcome)),
    {
        if !self.is_streaming() {
            return Err(PipelineError::CaptureFailure);
        }
        match outcome {
            Ok(frame) => Ok(frame),
            Err(_) => Err(PipelineError::CaptureFailure),
        }
    }

    /// Lets the device go.
    pub fn close(&mut self)
        ensures
            *final(self) == close_step(*old(self)),
    {
        self.state = DeviceState::Closed;
        self.format = None;
    }
}

/// Opening with a format the driver rejects fails with `FormatUnsupported`
/// and leaves the device closed, exactly as it was; and whatever makes an
/// opening fail, the device is closed afterwards.
pub proof fn lemma_failed_open_stays_closed(
    before: DeviceStatus,
    format: Option<CaptureFormat>,
    fault: BackendFault,
)
    requires
        before.state == DeviceState::Closed,
    ensures
        open_step(before, format, Err(BackendFault::SetProperty)) == (
            before,
            Err::<(), PipelineError>(PipelineError::FormatUnsupported),
        ),
        open_step(before, format, Err(fault)).0 == before,
        open_step(before, format, Err(fault)).1 is Err,
{
}

/// After a device was rebound, no frame can be grabbed until a stream has
/// been opened again, whatever the backend answered to the rebinding and
/// whatever it would deliver.
pub proof fn lemma_change_device_stops_grabbing(
    before: DeviceStatus,
    index: usize,
    outcome: Result<(), BackendFault>,
    delivered: Result<Seq<u8>, BackendFault>,
)
    ensures
        change_device_step(before, index, outcome).0.state != DeviceState::Streaming,
        grab_step(change_device_step(before, index, outcome).0, delivered) == Err::<
            Seq<u8>,
            PipelineError,
        >(PipelineError::CaptureFailure),
{
}

/// Every step keeps a status well-formed.
pub proof fn lemma_steps_keep_wf(
    before: DeviceStatus,
    index: usize,
    format: Option<CaptureFormat>,
    outcome: Result<(), BackendFault>,
)
    requires
        status_wf(before),
    ensures
        status_wf(open_step(before, format, outcome).0),
        status_wf(change_device_step(before, index, outcome).0),
        status_wf(open_stream_step(before, outcome).0),
        status_wf(close_step(before)),
{
}

} // verus!
