//! The set of modes a device supports, built from what its probes report.
//!
//! A device is asked for its pixel encodings, then, encoding by encoding,
//! for the resolutions it offers and the frame rates each of them runs at.
//! The answers are flattened into one sequence of capture formats, in the
//! order in which the device gave them.

use vstd::prelude::*;
use crate::error::{BackendFault, PipelineError};
use crate::format::{CaptureFormat, PixelEncoding, Resolution};

verus! {

/// One resolution with the frame rates a device offers at it.
#[derive(Debug)]
pub struct ResolutionRates {
    pub resolution: Resolution,
    pub rates: Vec<u32>,
}

/// What asking a device about one pixel encoding gave: the resolutions it
/// listed, or `None` where the question itself failed.
#[derive(Debug)]
pub struct EncodingProbe {
    pub encoding: PixelEncoding,
    pub outcome: Option<Vec<ResolutionRates>>,
}

impl ResolutionRates {
    pub fn new(resolution: Resolution, rates: Vec<u32>) -> (r: ResolutionRates)
        ensures
            r.resolution == resolution,
            r.rates == rates,
    {
        ResolutionRates { resolution, rates }
    }
}

impl EncodingProbe {
    /// A probe that answered.
    pub fn listed(encoding: PixelEncoding, resolutions: Vec<ResolutionRates>) -> (p: EncodingProbe)
        ensures
            p.encoding == encoding,
            p.outcome == Some(resolutions),
    {
        EncodingProbe { encoding, outcome: Some(resolutions) }
    }

    /// A probe that failed.
    pub fn failed(encoding: PixelEncoding) -> (p: EncodingProbe)
        ensures
            p.encoding == encoding,
            p.outcome is None,
    {
        EncodingProbe { encoding, outcome: None }
    }

    /// The probe of `encoding`, given what the backend answered. Why a probe
    /// failed is of no interest: the encoding is passed over.
    pub fn from_outcome(
        encoding: PixelEncoding,
        outcome: Result<Vec<ResolutionRates>, BackendFault>,
    ) -> (p: EncodingProbe)
        ensures
            p.encoding == encoding,
            p.outcome == match outcome {
                Ok(resolutions) => Some(resolutions),
                Err(_) => None,
            },
    {
        match outcome {
            Ok(resolutions) => EncodingProbe { encoding, outcome: Some(resolutions) },
            Err(_) => EncodingProbe { encoding, outcome: None },
        }
    }
}

/// The modes of one encoding at one resolution: one per frame rate, in the
/// order of the rates.
pub open spec fn modes_at(encoding: PixelEncoding, resolution: Resolution, rates: Seq<u32>) -> Seq<
    CaptureFormat,
> {
    Seq::new(
        rates.len(),
        |i: int| CaptureFormat { resolution, encoding, frame_rate: rates[i] },
    )
}

/// The modes of one encoding: those of its first resolution, then those of
/// its second, and so on.
pub open spec fn modes_of_encoding(encoding: PixelEncoding, listed: Seq<ResolutionRates>) -> Seq<
    CaptureFormat,
>
    decreases listed.len(),
{
    if listed.len() == 0 {
        Seq::empty()
    } else {
        modes_of_encoding(encoding, listed.drop_last()) + modes_at(
            encoding,
            listed.last().resolution,
            listed.last().rates@,
        )
    }
}

/// The modes one probe contributes: none where it failed.
pub open spec fn modes_of_probe(probe: EncodingProbe) -> Seq<CaptureFormat> {
    match probe.outcome {
        Some(listed) => modes_of_encoding(probe.encoding, listed@),
        None => Seq::empty(),
    }
}

/// All modes of a device: encoding by encoding, resolution by resolution,
/// rate by rate.
pub open spec fn supported_modes(probes: Seq<EncodingProbe>) -> Seq<CaptureFormat>
    decreases probes.len(),
{
    if probes.len() == 0 {
        Seq::empty()
    } else {
        supported_modes(probes.drop_last()) + modes_of_probe(probes.last())
    }
}

/// Appends to `modes` one format per frame rate.
fn push_rates(
    modes: &mut Vec<CaptureFormat>,
    encoding: PixelEncoding,
    resolution: Resolution,
    rates: &Vec<u32>,
)
    ensures
        final(modes)@ == old(modes)@ + modes_at(encoding, resolution, rates@),
{
    let mut k: usize = 0;
    while k < rates.len()
        invariant
            k <= rates.len(),
            modes@ == old(modes)@ + modes_at(encoding, resolution, rates@.take(k as int)),
        decreases rates.len() - k,
    {
        modes.push(CaptureFormat { resolution, encoding, frame_rate: rates[k] });
        assert(modes_at(encoding, resolution, rates@.take(k + 1)) == modes_at(
            encoding,
            resolution,
            rates@.take(k as int),
        ).push(CaptureFormat { resolution, encoding, frame_rate: rates@[k as int] }));
        k += 1;
    }
    assert(rates@.take(k as int) == rates@);
}

/// Appends to `modes` the modes of one encoding.
fn push_encoding(
    modes: &mut Vec<CaptureFormat>,
    encoding: PixelEncoding,
    listed: &Vec<ResolutionRates>,
)
    ensures
        final(modes)@ == old(modes)@ + modes_of_encoding(encoding, listed@),
{
    let mut j: usize = 0;
    while j < listed.len()
        invariant
            j <= listed.len(),
            modes@ == old(modes)@ + modes_of_encoding(encoding, listed@.take(j as int)),
        decreases listed.len() - j,
    {
        push_rates(modes, encoding, listed[j].resolution, &listed[j].rates);
        assert(listed@.take(j + 1).drop_last() == listed@.take(j as int));
        j += 1;
    }
    assert(listed@.take(j as int) == listed@);
}

/// Flattens the answers of a device into its supported modes. A probe that
/// failed is passed over and never makes the whole fail.
pub fn flatten_modes(probes: &Vec<EncodingProbe>) -> (modes: Vec<CaptureFormat>)
    ensures
        modes@ == supported_modes(probes@),
{
    let mut modes: Vec<CaptureFormat> = Vec::new();
    let mut i: usize = 0;
    while i < probes.len()
        invariant
            i <= probes.len(),
            modes@ == supported_modes(probes@.take(i as int)),
        decreases probes.len() - i,
    {
        match &probes[i].outcome {
            Some(listed) => {
                push_encoding(&mut modes, probes[i].encoding, listed);
            },
            None => {},
        }
        assert(probes@.take(i + 1).drop_last() == probes@.take(i as int));
        i += 1;
    }
    assert(probes@.take(i as int) == probes@);
    modes
}

/// Whether `requested` is among `modes`.
pub fn supports(modes: &Vec<CaptureFormat>, requested: CaptureFormat) -> (found: bool)
    ensures
        found == modes@.contains(requested),
{
    let mut i: usize = 0;
    while i < modes.len()
        invariant
            i <= modes.len(),
            forall|j: int| 0 <= j < i ==> modes@[j] != requested,
        decreases modes.len() - i,
    {
        if modes[i] == requested {
            return true;
        }
        i += 1;
    }
    false
}

/// The modes of a device, given what asking it for its encodings led to:
/// the flattened probes where the device named its encodings, an
/// `EnumerationError` where it did not.
pub fn modes_from(probed: Result<Vec<EncodingProbe>, BackendFault>) -> (r: Result<
    Vec<CaptureFormat>,
    PipelineError,
>)
    ensures
        match probed {
            Ok(probes) => r matches Ok(modes) && modes@ == supported_modes(probes@),
            Err(_) => r matches Err(e) && e == PipelineError::EnumerationError,
        },
{
    match probed {
        Ok(probes) => Ok(flatten_modes(&probes)),
        Err(_) => Err(PipelineError::EnumerationError),
    }
}

/// Whether `rates` lists the mode `m`: its resolution, with its frame rate
/// among the rates.
pub open spec fn rates_offer(rates: ResolutionRates, m: CaptureFormat) -> bool {
    rates.resolution == m.resolution && rates.rates@.contains(m.frame_rate)
}

/// Whether `probe` offers the mode `m`: it answered, for the encoding of
/// `m`, and one of the resolutions it listed lists `m`.
pub open spec fn probe_offers(probe: EncodingProbe, m: CaptureFormat) -> bool {
    &&& probe.encoding == m.encoding
    &&& probe.outcome matches Some(listed)
    &&& exists|j: int| 0 <= j < listed@.len() && rates_offer(#[trigger] listed@[j], m)
}

/// Whether one of `probes` offers the mode `m`.
pub open spec fn device_offers(probes: Seq<EncodingProbe>, m: CaptureFormat) -> bool {
    exists|i: int| 0 <= i < probes.len() && probe_offers(#[trigger] probes[i], m)
}

/// Whether `m` is among the modes of one encoding's resolutions.
proof fn lemma_encoding_modes(encoding: PixelEncoding, listed: Seq<ResolutionRates>, m: CaptureFormat)
    ensures
        modes_of_encoding(encoding, listed).contains(m) <==> encoding == m.encoding && exists|
            j: int,
        | 0 <= j < listed.len() && rates_offer(#[trigger] listed[j], m),
    decreases listed.len(),
{
    if listed.len() > 0 {
        let front = modes_of_encoding(encoding, listed.drop_last());
        let back = modes_at(encoding, listed.last().resolution, listed.last().rates@);
        lemma_encoding_modes(encoding, listed.drop_last(), m);
        if front.contains(m) {
            let at = choose|at: int| 0 <= at < front.len() && front[at] == m;
            assert((front + back)[at] == m);
            let j = choose|j: int|
                0 <= j < listed.drop_last().len() && rates_offer(
                    #[trigger] listed.drop_last()[j],
                    m,
                );
            assert(rates_offer(listed[j], m));
        }
        if back.contains(m) {
            let at = choose|at: int| 0 <= at < back.len() && back[at] == m;
            assert((front + back)[front.len() + at] == m);
            assert(listed.last().rates@[at] == m.frame_rate);
            assert(rates_offer(listed[listed.len() - 1], m));
        }
        if (front + back).contains(m) {
            let at = choose|at: int| 0 <= at < (front + back).len() && (front + back)[at] == m;
            if at < front.len() {
                assert(front[at] == m);
            } else {
                assert(back[at - front.len()] == m);
            }
        }
        if encoding == m.encoding && exists|j: int|
            0 <= j < listed.len() && rates_offer(#[trigger] listed[j], m) {
            let j = choose|j: int| 0 <= j < listed.len() && rates_offer(#[trigger] listed[j], m);
            if j < listed.len() - 1 {
                assert(rates_offer(listed.drop_last()[j], m));
            } else {
                let k = choose|k: int|
                    0 <= k < listed.last().rates@.len() && listed.last().rates@[k]
                        == m.frame_rate;
                assert(back[k] == m);
            }
        }
    }
}

/// The modes of a device are exactly the combinations it offers: a format
/// is among them if and only if some probe answered for its encoding and
/// listed its resolution with its frame rate.
pub proof fn lemma_modes_are_what_is_offered(probes: Seq<EncodingProbe>, m: CaptureFormat)
    ensures
        supported_modes(probes).contains(m) <==> device_offers(probes, m),
    decreases probes.len(),
{
    if probes.len() > 0 {
        let front = supported_modes(probes.drop_last());
        let back = modes_of_probe(probes.last());
        lemma_modes_are_what_is_offered(probes.drop_last(), m);
        match probes.last().outcome {
            Some(listed) => lemma_encoding_modes(probes.last().encoding, listed@, m),
            None => {},
        }
        if front.contains(m) {
            let at = choose|at: int| 0 <= at < front.len() && front[at] == m;
            assert((front + back)[at] == m);
            let i = choose|i: int|
                0 <= i < probes.drop_last().len() && probe_offers(
                    #[trigger] probes.drop_last()[i],
                    m,
                );
            assert(probe_offers(probes[i], m));
        }
        if back.contains(m) {
            let at = choose|at: int| 0 <= at < back.len() && back[at] == m;
            assert((front + back)[front.len() + at] == m);
            assert(probe_offers(probes[probes.len() - 1], m));
        }
        if (front + back).contains(m) {
            let at = choose|at: int| 0 <= at < (front + back).len() && (front + back)[at] == m;
            if at < front.len() {
                assert(front[at] == m);
            } else {
                assert(back[at - front.len()] == m);
            }
        }
        if device_offers(probes, m) {
            let i = choose|i: int| 0 <= i < probes.len() && probe_offers(#[trigger] probes[i], m);
            if i < probes.len() - 1 {
                assert(probe_offers(probes.drop_last()[i], m));
            } else {
                assert(back.contains(m));
            }
        }
    }
}

/// A probe that failed adds nothing, wherever it stands among the others.
pub proof fn lemma_failed_probe_adds_nothing(
    before: Seq<EncodingProbe>,
    probe: EncodingProbe,
    after: Seq<EncodingProbe>,
)
    requires
        probe.outcome is None,
    ensures
        supported_modes(before + seq![probe] + after) == supported_modes(before + after),
{
    lemma_modes_concat(before, seq![probe]);
    lemma_modes_concat(before + seq![probe], after);
    lemma_modes_concat(before, after);
    assert(supported_modes(seq![probe]) == Seq::<CaptureFormat>::empty()) by {
        assert(seq![probe].drop_last().len() == 0);
        assert(seq![probe].last() == probe);
        assert(supported_modes(seq![probe].drop_last()) == Seq::<CaptureFormat>::empty());
    }
}

/// The modes of probes laid end to end are the modes of the first lot, then
/// those of the second: the order of the probes is the order of the modes.
pub proof fn lemma_modes_concat(first: Seq<EncodingProbe>, second: Seq<EncodingProbe>)
    ensures
        supported_modes(first + second) == supported_modes(first) + supported_modes(second),
    decreases second.len(),
{
    if second.len() == 0 {
        assert(first + second == first);
    } else {
        lemma_modes_concat(first, second.drop_last());
        assert((first + second).drop_last() == first + second.drop_last());
    }
}

} // verus!
