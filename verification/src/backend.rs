//! The capture backend. Everything here is taken on trust: Verus reads the
//! contracts and not the bodies. The outcome of each call depends on the
//! hardware, so no contract claims anything of it; what the library makes of
//! an outcome is decided, and proved, elsewhere.

use vstd::prelude::*;
use nokhwa::{query_devices, Camera, CameraFormat, CaptureAPIBackend, FrameFormat, NokhwaError};
use crate::error::BackendFault;
use crate::format::{CaptureFormat, PixelEncoding, Resolution};
use crate::modes::ResolutionRates;

verus! {

/// `nokhwa::Camera`, a handle to one claimed capture device. Nothing inside
/// it is visible to proofs.
#[verifier::external_type_specification]
#[verifier::external_body]
pub struct ExCamera(Camera);

/// `nokhwa::NokhwaError`, the backend's error. Nothing inside it is visible
/// to proofs.
#[verifier::external_type_specification]
#[verifier::external_body]
pub struct ExNokhwaError(NokhwaError);

/// Tells the variants of `nokhwa::NokhwaError` apart, one kind for each,
/// and drops their text. No claim is made of which kind comes out.
#[verifier::external_body]
pub(crate) fn fault_of(error: &NokhwaError) -> BackendFault {
    match error {
        NokhwaError::InitializeError { .. } => BackendFault::Initialize,
        NokhwaError::ShutdownError { .. } => BackendFault::Shutdown,
        NokhwaError::GeneralError(..) => BackendFault::General,
        NokhwaError::StructureError { .. } => BackendFault::Structure,
        NokhwaError::OpenDeviceError(..) => BackendFault::OpenDevice,
        NokhwaError::GetPropertyError { .. } => BackendFault::GetProperty,
        NokhwaError::SetPropertyError { .. } => BackendFault::SetProperty,
        NokhwaError::OpenStreamError(..) => BackendFault::OpenStream,
        NokhwaError::ReadFrameError(..) => BackendFault::ReadFrame,
        NokhwaError::ProcessFrameError { .. } => BackendFault::ProcessFrame,
        NokhwaError::StreamShutdownError(..) => BackendFault::StreamShutdown,
        NokhwaError::UnsupportedOperationError(..) => BackendFault::UnsupportedOperation,
        NokhwaError::NotImplementedError(..) => BackendFault::NotImplemented,
    }
}

/// Calls `nokhwa::query_devices` with the backend left to the platform, and
/// keeps of each device its index and its name, in the order given. What is
/// attached is the machine's to say: no claim is made of the outcome.
#[verifier::external_body]
pub(crate) fn query_backend() -> (found: Result<Vec<(usize, String)>, NokhwaError>) {
    let devices = query_devices(CaptureAPIBackend::Auto)?;
    Ok(devices.into_iter().map(|device| (device.index(), device.human_name())).collect())
}

/// Calls `nokhwa::Camera::new`, which claims the device at `index` and sets
/// it to `format`, or to the backend's default where there is none. No claim
/// is made of the outcome.
#[verifier::external_body]
pub(crate) fn camera_new(index: usize, format: Option<CaptureFormat>) -> (outcome: Result<
    Camera,
    NokhwaError,
>) {
    let requested = format.map(|f| {
        let encoding = match f.encoding {
            PixelEncoding::Mjpeg => FrameFormat::MJPEG,
            PixelEncoding::Yuyv => FrameFormat::YUYV,
        };
        CameraFormat::new_from(f.resolution.width, f.resolution.height, encoding, f.frame_rate)
    });
    Camera::new(index, requested)
}

/// Calls `nokhwa::Camera::set_index`, which stops the stream and claims the
/// device at `index` with the format in use. No claim is made of the outcome.
#[verifier::external_body]
pub(crate) fn camera_set_index(camera: &mut Camera, index: usize) -> (outcome: Result<
    (),
    NokhwaError,
>) {
    camera.set_index(index)
}

/// Calls `nokhwa::Camera::compatible_fourcc`, which asks the device for the
/// pixel encodings it offers. No claim is made of the outcome.
#[verifier::external_body]
pub(crate) fn camera_encodings(camera: &mut Camera) -> (outcome: Result<
    Vec<PixelEncoding>,
    NokhwaError,
>) {
    let offered = camera.compatible_fourcc()?;
    Ok(
        offered.into_iter().map(
            |encoding|
                match encoding {
                    FrameFormat::MJPEG => PixelEncoding::Mjpeg,
                    FrameFormat::YUYV => PixelEncoding::Yuyv,
                },
        ).collect(),
    )
}

/// Calls `nokhwa::Camera::compatible_list_by_resolution`, which asks the
/// device for the resolutions it offers in one encoding and the frame rates
/// of each. The backend answers with a hash map; the entries come out in the
/// order in which that map is walked. No claim is made of the outcome.
#[verifier::external_body]
pub(crate) fn camera_resolutions(camera: &mut Camera, encoding: PixelEncoding) -> (outcome: Result<
    Vec<ResolutionRates>,
    NokhwaError,
>) {
    let asked = match encoding {
        PixelEncoding::Mjpeg => FrameFormat::MJPEG,
        PixelEncoding::Yuyv => FrameFormat::YUYV,
    };
    let offered = camera.compatible_list_by_resolution(asked)?;
    Ok(
        offered.into_iter().map(
            |(size, rates)|
                ResolutionRates { resolution: Resolution { width: size.width(), height: size.height() }, rates },
        ).collect(),
    )
}

/// Calls `nokhwa::Camera::resolution`, the resolution the backend has the
/// device set to. No claim is made of it.
#[verifier::external_body]
pub(crate) fn camera_resolution(camera: &Camera) -> (size: Resolution) {
    let size = camera.resolution();
    Resolution { width: size.width(), height: size.height() }
}

/// Calls `nokhwa::Camera::open_stream`, which starts the flow of frames. No
/// claim is made of the outcome.
#[verifier::external_body]
pub(crate) fn camera_open_stream(camera: &mut Camera) -> (outcome: Result<(), NokhwaError>) {
    camera.open_stream()
}

/// Calls `nokhwa::Camera::stop_stream`, which ends the flow of frames. No
/// claim is made of the outcome.
#[verifier::external_body]
pub(crate) fn camera_stop_stream(camera: &mut Camera) -> (outcome: Result<(), NokhwaError>) {
    camera.stop_stream()
}

/// Calls `nokhwa::Camera::frame`, which waits for the next frame and decodes
/// it, and hands on the bytes of the decoded image. No claim is made of the
/// outcome, nor of how long the wait is.
#[verifier::external_body]
pub(crate) fn camera_frame(camera: &mut Camera) -> (outcome: Result<Vec<u8>, NokhwaError>) {
    let image = camera.frame()?;
    Ok(image.into_raw())
}

/// Calls `std::mem::forget` on a camera, so that the backend's teardown,
/// which panics where the stream cannot be stopped, does not run.
#[verifier::external_body]
pub(crate) fn camera_abandon(camera: Camera) {
    std::mem::forget(camera)
}

} // verus!
