//! Error kinds of the pipeline, and how failures reported by the capture
//! backend are sorted into them.

use vstd::prelude::*;

verus! {

/// What can go wrong in the pipeline.
#[derive(Clone, Copy, Debug, PartialEq, Eq, Structural)]
pub enum PipelineError {
    /// The device index does not exist, is claimed by someone else, or no
    /// device is bound.
    DeviceUnavailable,
    /// The hardware or driver rejected the requested capture format.
    FormatUnsupported,
    /// The discovery subsystem failed while listing devices or encodings.
    EnumerationError,
    /// The device is already streaming, or the driver refused to start.
    StreamOpenError,
    /// The stream is not running, or the hardware failed to deliver a frame.
    CaptureFailure,
    /// The capture side is gone; no frame will ever arrive again.
    ChannelClosed,
}

/// What the user is told of an error.
pub open spec fn error_text(e: PipelineError) -> Seq<char> {
    match e {
        PipelineError::DeviceUnavailable =>
            "capture device unavailable: no camera at this index, or it is in use"@,
        PipelineError::FormatUnsupported =>
            "capture format not supported: pick one of the modes the device lists"@,
        PipelineError::EnumerationError => "could not enumerate capture devices or modes"@,
        PipelineError::StreamOpenError =>
            "could not start the stream: it is running already, or the driver refused"@,
        PipelineError::CaptureFailure =>
            "could not capture a frame: the stream is not running, or the hardware failed"@,
        PipelineError::ChannelClosed => "the capture side has ended: no more frames will arrive"@,
    }
}

impl PipelineError {
    /// A sentence for the user that says what went wrong and, where there is
    /// something to do about it, what.
    pub fn message(&self) -> (text: &'static str)
        ensures
            text@ == error_text(*self),
    {
        match self {
            PipelineError::DeviceUnavailable =>
                "capture device unavailable: no camera at this index, or it is in use",
            PipelineError::FormatUnsupported =>
                "capture format not supported: pick one of the modes the device lists",
            PipelineError::EnumerationError => "could not enumerate capture devices or modes",
            PipelineError::StreamOpenError =>
                "could not start the stream: it is running already, or the driver refused",
            PipelineError::CaptureFailure =>
                "could not capture a frame: the stream is not running, or the hardware failed",
            PipelineError::ChannelClosed => "the capture side has ended: no more frames will arrive",
        }
    }
}

/// The kind of a failure reported by the capture backend, without its text.
#[derive(Clone, Copy, Debug, PartialEq, Eq, Structural)]
pub enum BackendFault {
    Initialize,
    Shutdown,
    General,
    Structure,
    OpenDevice,
    GetProperty,
    SetProperty,
    OpenStream,
    ReadFrame,
    ProcessFrame,
    StreamShutdown,
    UnsupportedOperation,
    NotImplemented,
}

/// The error of a failed attempt to open a device. Only a rejected setting
/// means that the format is at fault; every other failure means that the
/// device could not be had.
pub open spec fn open_failure(fault: BackendFault) -> PipelineError {
    if fault == BackendFault::SetProperty {
        PipelineError::FormatUnsupported
    } else {
        PipelineError::DeviceUnavailable
    }
}

/// Sorts the failure of an attempt to open a device.
pub fn classify_open_failure(fault: BackendFault) -> (e: PipelineError)
    ensures
        e == open_failure(fault),
{
    match fault {
        BackendFault::SetProperty => PipelineError::FormatUnsupported,
        _ => PipelineError::DeviceUnavailable,
    }
}

/// Whether `r` is the failure `e`.
pub open spec fn fails_with<T>(r: Result<T, PipelineError>, e: PipelineError) -> bool {
    r == Err::<T, PipelineError>(e)
}

/// A result that carries a frame, with the frame taken as its bytes.
pub open spec fn frame_bytes<E>(r: Result<Vec<u8>, E>) -> Result<Seq<u8>, E> {
    match r {
        Ok(frame) => Ok(frame@),
        Err(e) => Err(e),
    }
}

} // verus!
