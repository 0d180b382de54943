use camera_pipeline::error::{BackendFault, PipelineError};
use camera_pipeline::format::{CaptureFormat, PixelEncoding, Resolution};
use camera_pipeline::modes::{flatten_modes, modes_from, supports, EncodingProbe, ResolutionRates};

fn r1() -> Resolution {
    Resolution::new(1280, 720)
}

fn r2() -> Resolution {
    Resolution::new(640, 480)
}

fn e1_probe() -> EncodingProbe {
    EncodingProbe::listed(PixelEncoding::Mjpeg, vec![ResolutionRates::new(r1(), vec![30, 60])])
}

fn e2_probe() -> EncodingProbe {
    EncodingProbe::listed(PixelEncoding::Yuyv, vec![ResolutionRates::new(r2(), vec![25])])
}

#[test]
fn two_encodings_give_three_modes_in_order() {
    let modes = flatten_modes(&vec![e1_probe(), e2_probe()]);
    assert_eq!(
        modes,
        vec![
            CaptureFormat::new(r1(), PixelEncoding::Mjpeg, 30),
            CaptureFormat::new(r1(), PixelEncoding::Mjpeg, 60),
            CaptureFormat::new(r2(), PixelEncoding::Yuyv, 25),
        ]
    );
}

#[test]
fn failed_probe_is_skipped_without_error() {
    let probes = vec![e1_probe(), EncodingProbe::failed(PixelEncoding::Yuyv)];
    let modes = flatten_modes(&probes);
    assert_eq!(
        modes,
        vec![
            CaptureFormat::new(r1(), PixelEncoding::Mjpeg, 30),
            CaptureFormat::new(r1(), PixelEncoding::Mjpeg, 60),
        ]
    );
    assert_eq!(modes_from(Ok(probes)), Ok(modes));
}

#[test]
fn failed_probe_in_front_does_not_stop_the_rest() {
    let modes = flatten_modes(&vec![EncodingProbe::failed(PixelEncoding::Mjpeg), e2_probe()]);
    assert_eq!(modes, vec![CaptureFormat::new(r2(), PixelEncoding::Yuyv, 25)]);
}

#[test]
fn probe_from_outcome_keeps_answer_and_drops_fault() {
    let listed = EncodingProbe::from_outcome(
        PixelEncoding::Mjpeg,
        Ok(vec![ResolutionRates::new(r1(), vec![30, 60])]),
    );
    assert_eq!(flatten_modes(&vec![listed]).len(), 2);
    let failed = EncodingProbe::from_outcome(PixelEncoding::Yuyv, Err(BackendFault::GetProperty));
    assert!(failed.outcome.is_none());
    assert_eq!(failed.encoding, PixelEncoding::Yuyv);
}

#[test]
fn no_probes_give_no_modes() {
    assert_eq!(flatten_modes(&Vec::new()), Vec::new());
    assert_eq!(modes_from(Ok(Vec::new())), Ok(Vec::new()));
}

#[test]
fn encoding_without_resolutions_or_rates_gives_no_modes() {
    let probes = vec![
        EncodingProbe::listed(PixelEncoding::Mjpeg, Vec::new()),
        EncodingProbe::listed(PixelEncoding::Yuyv, vec![ResolutionRates::new(r2(), Vec::new())]),
    ];
    assert_eq!(flatten_modes(&probes), Vec::new());
}

#[test]
fn resolutions_and_rates_keep_the_order_given() {
    let probes = vec![EncodingProbe::listed(
        PixelEncoding::Yuyv,
        vec![ResolutionRates::new(r2(), vec![60, 15]), ResolutionRates::new(r1(), vec![10])],
    )];
    assert_eq!(
        flatten_modes(&probes),
        vec![
            CaptureFormat::new(r2(), PixelEncoding::Yuyv, 60),
            CaptureFormat::new(r2(), PixelEncoding::Yuyv, 15),
            CaptureFormat::new(r1(), PixelEncoding::Yuyv, 10),
        ]
    );
}

#[test]
fn modes_of_two_lots_are_the_modes_of_each_in_turn() {
    let mut joined = flatten_modes(&vec![e1_probe()]);
    joined.extend(flatten_modes(&vec![e2_probe()]));
    assert_eq!(flatten_modes(&vec![e1_probe(), e2_probe()]), joined);
}

#[test]
fn failed_encoding_query_is_an_enumeration_error() {
    assert_eq!(modes_from(Err(BackendFault::GetProperty)), Err(PipelineError::EnumerationError));
    assert_eq!(
        modes_from(Err(BackendFault::UnsupportedOperation)),
        Err(PipelineError::EnumerationError)
    );
}

#[test]
fn supports_finds_listed_modes_only() {
    let modes = flatten_modes(&vec![e1_probe(), e2_probe()]);
    assert!(supports(&modes, CaptureFormat::new_from(1280, 720, PixelEncoding::Mjpeg, 60)));
    assert!(supports(&modes, CaptureFormat::new_from(640, 480, PixelEncoding::Yuyv, 25)));
    assert!(!supports(&modes, CaptureFormat::new_from(640, 480, PixelEncoding::Yuyv, 30)));
    assert!(!supports(&modes, CaptureFormat::new_from(1280, 720, PixelEncoding::Yuyv, 60)));
    assert!(!supports(&Vec::new(), CaptureFormat::new_from(1280, 720, PixelEncoding::Mjpeg, 60)));
}
