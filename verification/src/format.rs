//! Capture formats: resolution, pixel encoding and frame rate.

use vstd::prelude::*;

verus! {

/// How the bytes of a frame are encoded on the wire between device and host.
#[derive(Clone, Copy, Debug, PartialEq, Eq, Structural)]
pub enum PixelEncoding {
    /// Motion-JPEG: a compressed stream, one JPEG image per frame.
    Mjpeg,
    /// Packed YUV 4:2:2, uncompressed.
    Yuyv,
}

/// Frame dimensions in pixels.
#[derive(Clone, Copy, Debug, PartialEq, Eq, Structural)]
pub struct Resolution {
    pub width: u32,
    pub height: u32,
}

impl Resolution {
    pub fn new(width: u32, height: u32) -> (r: Resolution)
        ensures
            r.width == width,
            r.height == height,
    {
        Resolution { width, height }
    }
}

/// One way a device can stream: resolution, pixel encoding and frames per
/// second.
#[derive(Clone, Copy, Debug, PartialEq, Eq, Structural)]
pub struct CaptureFormat {
    pub resolution: Resolution,
    pub encoding: PixelEncoding,
    pub frame_rate: u32,
}

impl CaptureFormat {
    pub fn new(resolution: Resolution, encoding: PixelEncoding, frame_rate: u32) -> (f:
        CaptureFormat)
        ensures
            f.resolution == resolution,
            f.encoding == encoding,
            f.frame_rate == frame_rate,
    {
        CaptureFormat { resolution, encoding, frame_rate }
    }

    /// The same format, given by bare width and height.
    pub fn new_from(width: u32, height: u32, encoding: PixelEncoding, frame_rate: u32) -> (f:
        CaptureFormat)
        ensures
            f == (CaptureFormat { resolution: Resolution { width, height }, encoding, frame_rate }),
    {
        CaptureFormat { resolution: Resolution { width, height }, encoding, frame_rate }
    }
}

} // verus!
