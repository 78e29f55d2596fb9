//! Typed model of one SigMF metadata document: global recording information,
//! per-segment captures, and per-signal annotations, with open extension
//! bags for forward compatibility.

use vstd::prelude::*;

use crate::numeric::Fixed;

verus! {

/// Geolocation of a recording: a type tag and a coordinate list
/// (longitude-like and latitude-like entries are read positionally).
#[derive(Clone, Debug)]
pub struct GeoLocation {
    /// The geometry type tag.
    pub geo_type: String,
    /// The coordinate pair (further entries are preserved but unread).
    pub coordinates: Vec<Fixed>,
}

/// Global recording information of one metadata document.
#[derive(Clone, Debug)]
pub struct GlobalInfo {
    /// Sample-encoding identifier.
    pub datatype: String,
    /// Sample rate in hertz.
    pub sample_rate: Fixed,
    /// Format version string.
    pub version: String,
    /// Free-form description.
    pub description: Option<String>,
    /// Author.
    pub author: Option<String>,
    /// License.
    pub license: Option<String>,
    /// Hardware description.
    pub hardware: Option<String>,
    /// Recording location.
    pub geolocation: Option<GeoLocation>,
}

/// One contiguous recording segment's context.
#[derive(Clone, Debug)]
pub struct CaptureInfo {
    /// Starting sample offset.
    pub sample_start: Option<u64>,
    /// Center frequency in hertz.
    pub frequency: Option<Fixed>,
    /// Timestamp text.
    pub timestamp: Option<String>,
    /// Automatic-gain-control flag.
    pub agc: Option<bool>,
    /// Gain value.
    pub gain: Option<Fixed>,
    /// Sequence number.
    pub sequence_num: Option<u64>,
    /// Unrecognized keys, preserved as raw text and not otherwise
    /// interpreted.
    pub extra_fields: Vec<(String, String)>,
}

/// A named probability score from an arbitrary detector class.
#[derive(Clone, Debug)]
pub struct CustomClassProbField {
    /// The detector class name.
    pub class_name: String,
    /// The probability score.
    pub class_prob: Fixed,
}

/// One detected signal-of-interest within the recording.
#[derive(Clone, Debug)]
pub struct AnnotationInfo {
    /// Start offset in samples.
    pub sample_start: u64,
    /// Length in samples.
    pub sample_count: u64,
    /// Lower frequency edge in hertz.
    pub freq_lower_edge: Option<Fixed>,
    /// Upper frequency edge in hertz.
    pub freq_upper_edge: Option<Fixed>,
    /// Analog amplitude-modulation probability.
    pub analog_am_prob: Option<Fixed>,
    /// Analog frequency-modulation probability.
    pub analog_fm_prob: Option<Fixed>,
    /// Amplitude-shift-keying probability.
    pub ask_prob: Option<Fixed>,
    /// Frequency-shift-keying probability.
    pub fsk_prob: Option<Fixed>,
    /// Phase-shift-keying probability.
    pub psk_prob: Option<Fixed>,
    /// Chirp probability.
    pub chirp_prob: Option<Fixed>,
    /// Constellation probability.
    pub constellation_prob: Option<Fixed>,
    /// Chirp-spread-spectrum probability.
    pub css_prob: Option<Fixed>,
    /// Named custom-classifier probabilities.
    pub custom_classifier_probs: Option<Vec<CustomClassProbField>>,
    /// Machine-detected "no signal present" flag.
    pub ml_no_sig: Option<bool>,
    /// On-off-keying probability.
    pub ook_prob: Option<Fixed>,
    /// Hardware handle string.
    pub sdr_handle: Option<String>,
    /// Signal bandwidth in hertz.
    pub sig_bandwidth: Option<Fixed>,
    /// Signal center frequency in hertz.
    pub sig_center_freq: Option<Fixed>,
    /// Measured power relative to full scale.
    pub sig_power_dbfs: Option<Fixed>,
    /// Measured power in decibel-milliwatts.
    pub sig_power_dbm: Option<Fixed>,
    /// Measured signal-to-noise ratio.
    pub sig_snr: Option<Fixed>,
    /// Opaque identifier.
    pub uuid: Option<String>,
}

/// One whole metadata document.
#[derive(Clone, Debug)]
pub struct SigMFMetadata {
    /// Global recording information.
    pub global: GlobalInfo,
    /// Per-segment captures; may be empty.
    pub captures: Vec<CaptureInfo>,
    /// Per-signal annotations; optional.
    pub annotations: Option<Vec<AnnotationInfo>>,
}

} // verus!
