//! The flat output-row schema: a fixed, ordered set of named typed columns.
//! Column names and types are part of the public contract; consumers bind to
//! them verbatim.

use vstd::prelude::*;
use vstd::string::StringExecFns;

use crate::numeric::Fixed;
use crate::strutil::str_eq;

verus! {

/// Identifier of one column of the fixed row schema, in schema order.
#[derive(Clone, Copy, Debug, PartialEq, Eq, Structural)]
pub enum ColumnId {
    /// `meta_filename`: metadata document file name.
    MetaFilename,
    /// `data_filename`: companion binary file name.
    DataFilename,
    /// `num_samples`: derived sample count.
    NumSamples,
    /// `file_size_bytes`: companion binary file size.
    FileSizeBytes,
    /// `duration_s`: recording duration in seconds.
    DurationS,
    /// `sample_rate_hz`: sample rate.
    SampleRateHz,
    /// `datatype`: declared sample encoding.
    Datatype,
    /// `sigmf_version`: format version.
    SigmfVersion,
    /// `author`: author.
    Author,
    /// `hardware`: hardware description.
    Hardware,
    /// `latitude`: first geolocation coordinate.
    Latitude,
    /// `longitude`: second geolocation coordinate.
    Longitude,
    /// `geo_type`: geolocation type tag.
    GeoType,
    /// `center_freq_hz`: capture center frequency.
    CenterFreqHz,
    /// `capture_datetime`: capture timestamp.
    CaptureDatetime,
    /// `gain`: capture gain.
    Gain,
    /// `agc`: capture automatic-gain-control flag.
    Agc,
    /// `sequence_num`: capture sequence number.
    SequenceNum,
    /// `snr_db`: measured signal-to-noise ratio.
    SnrDb,
    /// `power_dbm`: measured power.
    PowerDbm,
    /// `power_dbfs`: measured power relative to full scale.
    PowerDbfs,
    /// `sig_bandwidth_hz`: signal bandwidth.
    SigBandwidthHz,
    /// `sig_center_freq_hz`: signal center frequency.
    SigCenterFreqHz,
    /// `ml_ask_prob`: amplitude-shift-keying probability.
    MlAskProb,
    /// `ml_psk_prob`: phase-shift-keying probability.
    MlPskProb,
    /// `ml_fsk_prob`: frequency-shift-keying probability.
    MlFskProb,
    /// `ml_am_prob`: analog amplitude-modulation probability.
    MlAmProb,
    /// `ml_fm_prob`: analog frequency-modulation probability.
    MlFmProb,
    /// `ml_ook_prob`: on-off-keying probability.
    MlOokProb,
    /// `ml_chirp_prob`: chirp probability.
    MlChirpProb,
    /// `ml_constellation_prob`: constellation probability.
    MlConstellationProb,
    /// `ml_css_prob`: chirp-spread-spectrum probability.
    MlCssProb,
    /// `ml_wifi_prob`: custom classifier score for class `wifi`.
    MlWifiProb,
    /// `ml_cell_prob`: custom classifier score for class `cell`.
    MlCellProb,
    /// `ml_radar_prob`: custom classifier score for class `radar`.
    MlRadarProb,
    /// `ml_no_sig`: machine-detected "no signal present" flag.
    MlNoSig,
    /// `sig_uuid`: opaque signal identifier.
    SigUuid,
    /// `sdr_handle`: hardware handle.
    SdrHandle,
    /// `freq_lower_edge_hz`: lower frequency edge of the first annotation.
    FreqLowerEdgeHz,
    /// `freq_upper_edge_hz`: upper frequency edge of the first annotation.
    FreqUpperEdgeHz,
}

/// The closed set of column value types the filter engine dispatches on.
#[derive(Clone, Copy, Debug, PartialEq, Eq, Structural)]
pub enum ColumnType {
    /// Text.
    Str,
    /// Fixed-point real number.
    Float,
    /// Signed 64-bit integer.
    Int,
    /// Unsigned 64-bit integer.
    UInt,
    /// Boolean.
    Bool,
}

/// One cell value of a row.
#[derive(Debug)]
pub enum CellValue {
    /// Text.
    S(String),
    /// Fixed-point real number.
    F(Fixed),
    /// Signed 64-bit integer.
    I(i64),
    /// Unsigned 64-bit integer.
    U(u64),
    /// Boolean.
    B(bool),
}

/// Mathematical model of a cell value.
pub ghost enum CellModel {
    /// Text.
    S(Seq<char>),
    /// Fixed-point units.
    F(int),
    /// Signed integer.
    I(int),
    /// Unsigned integer.
    U(int),
    /// Boolean.
    B(bool),
}

impl View for CellValue {
    type V = CellModel;

    open spec fn view(&self) -> CellModel {
        match self {
            CellValue::S(s) => CellModel::S(s@),
            CellValue::F(f) => CellModel::F(f@),
            CellValue::I(i) => CellModel::I(*i as int),
            CellValue::U(u) => CellModel::U(*u as int),
            CellValue::B(b) => CellModel::B(*b),
        }
    }
}

/// The declared type of each column.
pub open spec fn spec_column_type(id: ColumnId) -> ColumnType {
    match id {
        ColumnId::MetaFilename => ColumnType::Str,
        ColumnId::DataFilename => ColumnType::Str,
        ColumnId::NumSamples => ColumnType::UInt,
        ColumnId::FileSizeBytes => ColumnType::UInt,
        ColumnId::DurationS => ColumnType::Float,
        ColumnId::SampleRateHz => ColumnType::Float,
        ColumnId::Datatype => ColumnType::Str,
        ColumnId::SigmfVersion => ColumnType::Str,
        ColumnId::Author => ColumnType::Str,
        ColumnId::Hardware => ColumnType::Str,
        ColumnId::Latitude => ColumnType::Float,
        ColumnId::Longitude => ColumnType::Float,
        ColumnId::GeoType => ColumnType::Str,
        ColumnId::CenterFreqHz => ColumnType::Float,
        ColumnId::CaptureDatetime => ColumnType::Str,
        ColumnId::Gain => ColumnType::Float,
        ColumnId::Agc => ColumnType::Bool,
        ColumnId::SequenceNum => ColumnType::UInt,
        ColumnId::SnrDb => ColumnType::Float,
        ColumnId::PowerDbm => ColumnType::Float,
        ColumnId::PowerDbfs => ColumnType::Float,
        ColumnId::SigBandwidthHz => ColumnType::Float,
        ColumnId::SigCenterFreqHz => ColumnType::Float,
        ColumnId::MlAskProb => ColumnType::Float,
        ColumnId::MlPskProb => ColumnType::Float,
        ColumnId::MlFskProb => ColumnType::Float,
        ColumnId::MlAmProb => ColumnType::Float,
        ColumnId::MlFmProb => ColumnType::Float,
        ColumnId::MlOokProb => ColumnType::Float,
        ColumnId::MlChirpProb => ColumnType::Float,
        ColumnId::MlConstellationProb => ColumnType::Float,
        ColumnId::MlCssProb => ColumnType::Float,
        ColumnId::MlWifiProb => ColumnType::Float,
        ColumnId::MlCellProb => ColumnType::Float,
        ColumnId::MlRadarProb => ColumnType::Float,
        ColumnId::MlNoSig => ColumnType::Bool,
        ColumnId::SigUuid => ColumnType::Str,
        ColumnId::SdrHandle => ColumnType::Str,
        ColumnId::FreqLowerEdgeHz => ColumnType::Float,
        ColumnId::FreqUpperEdgeHz => ColumnType::Float,
    }
}

/// The declared type of each column.
pub fn column_type(id: ColumnId) -> (r: ColumnType)
    ensures
        r == spec_column_type(id),
{
    match id {
        ColumnId::MetaFilename => ColumnType::Str,
        ColumnId::DataFilename => ColumnType::Str,
        ColumnId::NumSamples => ColumnType::UInt,
        ColumnId::FileSizeBytes => ColumnType::UInt,
        ColumnId::DurationS => ColumnType::Float,
        ColumnId::SampleRateHz => ColumnType::Float,
        ColumnId::Datatype => ColumnType::Str,
        ColumnId::SigmfVersion => ColumnType::Str,
        ColumnId::Author => ColumnType::Str,
        ColumnId::Hardware => ColumnType::Str,
        ColumnId::Latitude => ColumnType::Float,
        ColumnId::Longitude => ColumnType::Float,
        ColumnId::GeoType => ColumnType::Str,
        ColumnId::CenterFreqHz => ColumnType::Float,
        ColumnId::CaptureDatetime => ColumnType::Str,
        ColumnId::Gain => ColumnType::Float,
        ColumnId::Agc => ColumnType::Bool,
        ColumnId::SequenceNum => ColumnType::UInt,
        ColumnId::SnrDb => ColumnType::Float,
        ColumnId::PowerDbm => ColumnType::Float,
        ColumnId::PowerDbfs => ColumnType::Float,
        ColumnId::SigBandwidthHz => ColumnType::Float,
        ColumnId::SigCenterFreqHz => ColumnType::Float,
        ColumnId::MlAskProb => ColumnType::Float,
        ColumnId::MlPskProb => ColumnType::Float,
        ColumnId::MlFskProb => ColumnType::Float,
        ColumnId::MlAmProb => ColumnType::Float,
        ColumnId::MlFmProb => ColumnType::Float,
        ColumnId::MlOokProb => ColumnType::Float,
        ColumnId::MlChirpProb => ColumnType::Float,
        ColumnId::MlConstellationProb => ColumnType::Float,
        ColumnId::MlCssProb => ColumnType::Float,
        ColumnId::MlWifiProb => ColumnType::Float,
        ColumnId::MlCellProb => ColumnType::Float,
        ColumnId::MlRadarProb => ColumnType::Float,
        ColumnId::MlNoSig => ColumnType::Bool,
        ColumnId::SigUuid => ColumnType::Str,
        ColumnId::SdrHandle => ColumnType::Str,
        ColumnId::FreqLowerEdgeHz => ColumnType::Float,
        ColumnId::FreqUpperEdgeHz => ColumnType::Float,
    }
}

/// The column a name denotes, or nothing for a name outside the schema.
pub open spec fn spec_column_id(name: Seq<char>) -> Option<ColumnId> {
    if name == "meta_filename"@ {
        Some(ColumnId::MetaFilename)
    } else if name == "data_filename"@ {
        Some(ColumnId::DataFilename)
    } else if name == "num_samples"@ {
        Some(ColumnId::NumSamples)
    } else if name == "file_size_bytes"@ {
        Some(ColumnId::FileSizeBytes)
    } else if name == "duration_s"@ {
        Some(ColumnId::DurationS)
    } else if name == "sample_rate_hz"@ {
        Some(ColumnId::SampleRateHz)
    } else if name == "datatype"@ {
        Some(ColumnId::Datatype)
    } else if name == "sigmf_version"@ {
        Some(ColumnId::SigmfVersion)
    } else if name == "author"@ {
        Some(ColumnId::Author)
    } else if name == "hardware"@ {
        Some(ColumnId::Hardware)
    } else if name == "latitude"@ {
        Some(ColumnId::Latitude)
    } else if name == "longitude"@ {
        Some(ColumnId::Longitude)
    } else if name == "geo_type"@ {
        Some(ColumnId::GeoType)
    } else if name == "center_freq_hz"@ {
        Some(ColumnId::CenterFreqHz)
    } else if name == "capture_datetime"@ {
        Some(ColumnId::CaptureDatetime)
    } else if name == "gain"@ {
        Some(ColumnId::Gain)
    } else if name == "agc"@ {
        Some(ColumnId::Agc)
    } else if name == "sequence_num"@ {
        Some(ColumnId::SequenceNum)
    } else if name == "snr_db"@ {
        Some(ColumnId::SnrDb)
    } else if name == "power_dbm"@ {
        Some(ColumnId::PowerDbm)
    } else if name == "power_dbfs"@ {
        Some(ColumnId::PowerDbfs)
    } else if name == "sig_bandwidth_hz"@ {
        Some(ColumnId::SigBandwidthHz)
    } else if name == "sig_center_freq_hz"@ {
        Some(ColumnId::SigCenterFreqHz)
    } else if name == "ml_ask_prob"@ {
        Some(ColumnId::MlAskProb)
    } else if name == "ml_psk_prob"@ {
        Some(ColumnId::MlPskProb)
    } else if name == "ml_fsk_prob"@ {
        Some(ColumnId::MlFskProb)
    } else if name == "ml_am_prob"@ {
        Some(ColumnId::MlAmProb)
    } else if name == "ml_fm_prob"@ {
        Some(ColumnId::MlFmProb)
    } else if name == "ml_ook_prob"@ {
        Some(ColumnId::MlOokProb)
    } else if name == "ml_chirp_prob"@ {
        Some(ColumnId::MlChirpProb)
    } else if name == "ml_constellation_prob"@ {
        Some(ColumnId::MlConstellationProb)
    } else if name == "ml_css_prob"@ {
        Some(ColumnId::MlCssProb)
    } else if name == "ml_wifi_prob"@ {
        Some(ColumnId::MlWifiProb)
    } else if name == "ml_cell_prob"@ {
        Some(ColumnId::MlCellProb)
    } else if name == "ml_radar_prob"@ {
        Some(ColumnId::MlRadarProb)
    } else if name == "ml_no_sig"@ {
        Some(ColumnId::MlNoSig)
    } else if name == "sig_uuid"@ {
        Some(ColumnId::SigUuid)
    } else if name == "sdr_handle"@ {
        Some(ColumnId::SdrHandle)
    } else if name == "freq_lower_edge_hz"@ {
        Some(ColumnId::FreqLowerEdgeHz)
    } else if name == "freq_upper_edge_hz"@ {
        Some(ColumnId::FreqUpperEdgeHz)
    } else {
        None
    }
}

/// Resolves a column name against the schema.
pub fn column_id_of(name: &str) -> (r: Option<ColumnId>)
    ensures
        r == spec_column_id(name@),
{
    if str_eq(name, "meta_filename") {
        Some(ColumnId::MetaFilename)
    } else if str_eq(name, "data_filename") {
        Some(ColumnId::DataFilename)
    } else if str_eq(name, "num_samples") {
        Some(ColumnId::NumSamples)
    } else if str_eq(name, "file_size_bytes") {
        Some(ColumnId::FileSizeBytes)
    } else if str_eq(name, "duration_s") {
        Some(ColumnId::DurationS)
    } else if str_eq(name, "sample_rate_hz") {
        Some(ColumnId::SampleRateHz)
    } else if str_eq(name, "datatype") {
        Some(ColumnId::Datatype)
    } else if str_eq(name, "sigmf_version") {
        Some(ColumnId::SigmfVersion)
    } else if str_eq(name, "author") {
        Some(ColumnId::Author)
    } else if str_eq(name, "hardware") {
        Some(ColumnId::Hardware)
    } else if str_eq(name, "latitude") {
        Some(ColumnId::Latitude)
    } else if str_eq(name, "longitude") {
        Some(ColumnId::Longitude)
    } else if str_eq(name, "geo_type") {
        Some(ColumnId::GeoType)
    } else if str_eq(name, "center_freq_hz") {
        Some(ColumnId::CenterFreqHz)
    } else if str_eq(name, "capture_datetime") {
        Some(ColumnId::CaptureDatetime)
    } else if str_eq(name, "gain") {
        Some(ColumnId::Gain)
    } else if str_eq(name, "agc") {
        Some(ColumnId::Agc)
    } else if str_eq(name, "sequence_num") {
        Some(ColumnId::SequenceNum)
    } else if str_eq(name, "snr_db") {
        Some(ColumnId::SnrDb)
    } else if str_eq(name, "power_dbm") {
        Some(ColumnId::PowerDbm)
    } else if str_eq(name, "power_dbfs") {
        Some(ColumnId::PowerDbfs)
    } else if str_eq(name, "sig_bandwidth_hz") {
        Some(ColumnId::SigBandwidthHz)
    } else if str_eq(name, "sig_center_freq_hz") {
        Some(ColumnId::SigCenterFreqHz)
    } else if str_eq(name, "ml_ask_prob") {
        Some(ColumnId::MlAskProb)
    } else if str_eq(name, "ml_psk_prob") {
        Some(ColumnId::MlPskProb)
    } else if str_eq(name, "ml_fsk_prob") {
        Some(ColumnId::MlFskProb)
    } else if str_eq(name, "ml_am_prob") {
        Some(ColumnId::MlAmProb)
    } else if str_eq(name, "ml_fm_prob") {
        Some(ColumnId::MlFmProb)
    } else if str_eq(name, "ml_ook_prob") {
        Some(ColumnId::MlOokProb)
    } else if str_eq(name, "ml_chirp_prob") {
        Some(ColumnId::MlChirpProb)
    } else if str_eq(name, "ml_constellation_prob") {
        Some(ColumnId::MlConstellationProb)
    } else if str_eq(name, "ml_css_prob") {
        Some(ColumnId::MlCssProb)
    } else if str_eq(name, "ml_wifi_prob") {
        Some(ColumnId::MlWifiProb)
    } else if str_eq(name, "ml_cell_prob") {
        Some(ColumnId::MlCellProb)
    } else if str_eq(name, "ml_radar_prob") {
        Some(ColumnId::MlRadarProb)
    } else if str_eq(name, "ml_no_sig") {
        Some(ColumnId::MlNoSig)
    } else if str_eq(name, "sig_uuid") {
        Some(ColumnId::SigUuid)
    } else if str_eq(name, "sdr_handle") {
        Some(ColumnId::SdrHandle)
    } else if str_eq(name, "freq_lower_edge_hz") {
        Some(ColumnId::FreqLowerEdgeHz)
    } else if str_eq(name, "freq_upper_edge_hz") {
        Some(ColumnId::FreqUpperEdgeHz)
    } else {
        None
    }
}

/// One flat record of the output table; never mutated after creation.
#[derive(Debug)]
pub struct Row {
    /// Metadata document file name.
    pub meta_filename: String,
    /// Companion binary file name.
    pub data_filename: String,
    /// Derived sample count.
    pub num_samples: u64,
    /// Companion binary file size in bytes.
    pub file_size_bytes: u64,
    /// Duration in seconds.
    pub duration_s: Fixed,
    /// Sample rate in hertz.
    pub sample_rate_hz: Fixed,
    /// Declared sample encoding.
    pub datatype: String,
    /// Format version.
    pub sigmf_version: String,
    /// Author, empty when absent.
    pub author: String,
    /// Hardware description, empty when absent.
    pub hardware: String,
    /// First geolocation coordinate, zero when absent.
    pub latitude: Fixed,
    /// Second geolocation coordinate, zero when absent.
    pub longitude: Fixed,
    /// Geolocation type tag, empty when absent.
    pub geo_type: String,
    /// Capture center frequency, zero when absent.
    pub center_freq_hz: Fixed,
    /// Capture timestamp, empty when absent.
    pub capture_datetime: String,
    /// Capture gain, zero when absent.
    pub gain: Fixed,
    /// Capture automatic-gain-control flag, false when absent.
    pub agc: bool,
    /// Capture sequence number, zero when absent.
    pub sequence_num: u64,
    /// Measured signal-to-noise ratio, zero when absent.
    pub snr_db: Fixed,
    /// Measured power, zero when absent.
    pub power_dbm: Fixed,
    /// Measured power relative to full scale, zero when absent.
    pub power_dbfs: Fixed,
    /// Signal bandwidth, zero when absent.
    pub sig_bandwidth_hz: Fixed,
    /// Signal center frequency, zero when absent.
    pub sig_center_freq_hz: Fixed,
    /// Amplitude-shift-keying probability, zero when absent.
    pub ml_ask_prob: Fixed,
    /// Phase-shift-keying probability, zero when absent.
    pub ml_psk_prob: Fixed,
    /// Frequency-shift-keying probability, zero when absent.
    pub ml_fsk_prob: Fixed,
    /// Analog amplitude-modulation probability, zero when absent.
    pub ml_am_prob: Fixed,
    /// Analog frequency-modulation probability, zero when absent.
    pub ml_fm_prob: Fixed,
    /// On-off-keying probability, zero when absent.
    pub ml_ook_prob: Fixed,
    /// Chirp probability, zero when absent.
    pub ml_chirp_prob: Fixed,
    /// Constellation probability, zero when absent.
    pub ml_constellation_prob: Fixed,
    /// Chirp-spread-spectrum probability, zero when absent.
    pub ml_css_prob: Fixed,
    /// Custom classifier score for class `wifi`, zero when absent.
    pub ml_wifi_prob: Fixed,
    /// Custom classifier score for class `cell`, zero when absent.
    pub ml_cell_prob: Fixed,
    /// Custom classifier score for class `radar`, zero when absent.
    pub ml_radar_prob: Fixed,
    /// Machine-detected "no signal present" flag, false when absent.
    pub ml_no_sig: bool,
    /// Opaque signal identifier, empty when absent.
    pub sig_uuid: String,
    /// Hardware handle, empty when absent.
    pub sdr_handle: String,
    /// Lower frequency edge of the first annotation, zero when absent.
    pub freq_lower_edge_hz: Fixed,
    /// Upper frequency edge of the first annotation, zero when absent.
    pub freq_upper_edge_hz: Fixed,
}

/// Mathematical model of a [`Row`]: the same fields over character
/// sequences, integers and booleans. Fixed-point fields are in units.
#[verifier::ext_equal]
pub ghost struct RowModel {
    /// Metadata document file name.
    pub meta_filename: Seq<char>,
    /// Companion binary file name.
    pub data_filename: Seq<char>,
    /// Derived sample count.
    pub num_samples: int,
    /// Companion binary file size in bytes.
    pub file_size_bytes: int,
    /// Duration in fixed-point units.
    pub duration_s: int,
    /// Sample rate in fixed-point units.
    pub sample_rate_hz: int,
    /// Declared sample encoding.
    pub datatype: Seq<char>,
    /// Format version.
    pub sigmf_version: Seq<char>,
    /// Author.
    pub author: Seq<char>,
    /// Hardware description.
    pub hardware: Seq<char>,
    /// First geolocation coordinate in fixed-point units.
    pub latitude: int,
    /// Second geolocation coordinate in fixed-point units.
    pub longitude: int,
    /// Geolocation type tag.
    pub geo_type: Seq<char>,
    /// Capture center frequency in fixed-point units.
    pub center_freq_hz: int,
    /// Capture timestamp.
    pub capture_datetime: Seq<char>,
    /// Capture gain in fixed-point units.
    pub gain: int,
    /// Capture automatic-gain-control flag.
    pub agc: bool,
    /// Capture sequence number.
    pub sequence_num: int,
    /// Measured signal-to-noise ratio in fixed-point units.
    pub snr_db: int,
    /// Measured power in fixed-point units.
    pub power_dbm: int,
    /// Measured power relative to full scale in fixed-point units.
    pub power_dbfs: int,
    /// Signal bandwidth in fixed-point units.
    pub sig_bandwidth_hz: int,
    /// Signal center frequency in fixed-point units.
    pub sig_center_freq_hz: int,
    /// Amplitude-shift-keying probability in fixed-point units.
    pub ml_ask_prob: int,
    /// Phase-shift-keying probability in fixed-point units.
    pub ml_psk_prob: int,
    /// Frequency-shift-keying probability in fixed-point units.
    pub ml_fsk_prob: int,
    /// Analog amplitude-modulation probability in fixed-point units.
    pub ml_am_prob: int,
    /// Analog frequency-modulation probability in fixed-point units.
    pub ml_fm_prob: int,
    /// On-off-keying probability in fixed-point units.
    pub ml_ook_prob: int,
    /// Chirp probability in fixed-point units.
    pub ml_chirp_prob: int,
    /// Constellation probability in fixed-point units.
    pub ml_constellation_prob: int,
    /// Chirp-spread-spectrum probability in fixed-point units.
    pub ml_css_prob: int,
    /// Custom classifier score for class `wifi` in fixed-point units.
    pub ml_wifi_prob: int,
    /// Custom classifier score for class `cell` in fixed-point units.
    pub ml_cell_prob: int,
    /// Custom classifier score for class `radar` in fixed-point units.
    pub ml_radar_prob: int,
    /// Machine-detected "no signal present" flag.
    pub ml_no_sig: bool,
    /// Opaque signal identifier.
    pub sig_uuid: Seq<char>,
    /// Hardware handle.
    pub sdr_handle: Seq<char>,
    /// Lower frequency edge in fixed-point units.
    pub freq_lower_edge_hz: int,
    /// Upper frequency edge in fixed-point units.
    pub freq_upper_edge_hz: int,
}

impl View for Row {
    type V = RowModel;

    open spec fn view(&self) -> RowModel {
        RowModel {
            meta_filename: self.meta_filename@,
            data_filename: self.data_filename@,
            num_samples: self.num_samples as int,
            file_size_bytes: self.file_size_bytes as int,
            duration_s: self.duration_s@,
            sample_rate_hz: self.sample_rate_hz@,
            datatype: self.datatype@,
            sigmf_version: self.sigmf_version@,
            author: self.author@,
            hardware: self.hardware@,
            latitude: self.latitude@,
            longitude: self.longitude@,
            geo_type: self.geo_type@,
            center_freq_hz: self.center_freq_hz@,
            capture_datetime: self.capture_datetime@,
            gain: self.gain@,
            agc: self.agc,
            sequence_num: self.sequence_num as int,
            snr_db: self.snr_db@,
            power_dbm: self.power_dbm@,
            power_dbfs: self.power_dbfs@,
            sig_bandwidth_hz: self.sig_bandwidth_hz@,
            sig_center_freq_hz: self.sig_center_freq_hz@,
            ml_ask_prob: self.ml_ask_prob@,
            ml_psk_prob: self.ml_psk_prob@,
            ml_fsk_prob: self.ml_fsk_prob@,
            ml_am_prob: self.ml_am_prob@,
            ml_fm_prob: self.ml_fm_prob@,
            ml_ook_prob: self.ml_ook_prob@,
            ml_chirp_prob: self.ml_chirp_prob@,
            ml_constellation_prob: self.ml_constellation_prob@,
            ml_css_prob: self.ml_css_prob@,
            ml_wifi_prob: self.ml_wifi_prob@,
            ml_cell_prob: self.ml_cell_prob@,
            ml_radar_prob: self.ml_radar_prob@,
            ml_no_sig: self.ml_no_sig,
            sig_uuid: self.sig_uuid@,
            sdr_handle: self.sdr_handle@,
            freq_lower_edge_hz: self.freq_lower_edge_hz@,
            freq_upper_edge_hz: self.freq_upper_edge_hz@,
        }
    }
}

/// The cell a row's model holds in a given column.
pub open spec fn spec_cell(m: RowModel, id: ColumnId) -> CellModel {
    match id {
        ColumnId::MetaFilename => CellModel::S(m.meta_filename),
        ColumnId::DataFilename => CellModel::S(m.data_filename),
        ColumnId::NumSamples => CellModel::U(m.num_samples),
        ColumnId::FileSizeBytes => CellModel::U(m.file_size_bytes),
        ColumnId::DurationS => CellModel::F(m.duration_s),
        ColumnId::SampleRateHz => CellModel::F(m.sample_rate_hz),
        ColumnId::Datatype => CellModel::S(m.datatype),
        ColumnId::SigmfVersion => CellModel::S(m.sigmf_version),
        ColumnId::Author => CellModel::S(m.author),
        ColumnId::Hardware => CellModel::S(m.hardware),
        ColumnId::Latitude => CellModel::F(m.latitude),
        ColumnId::Longitude => CellModel::F(m.longitude),
        ColumnId::GeoType => CellModel::S(m.geo_type),
        ColumnId::CenterFreqHz => CellModel::F(m.center_freq_hz),
        ColumnId::CaptureDatetime => CellModel::S(m.capture_datetime),
        ColumnId::Gain => CellModel::F(m.gain),
        ColumnId::Agc => CellModel::B(m.agc),
        ColumnId::SequenceNum => CellModel::U(m.sequence_num),
        ColumnId::SnrDb => CellModel::F(m.snr_db),
        ColumnId::PowerDbm => CellModel::F(m.power_dbm),
        ColumnId::PowerDbfs => CellModel::F(m.power_dbfs),
        ColumnId::SigBandwidthHz => CellModel::F(m.sig_bandwidth_hz),
        ColumnId::SigCenterFreqHz => CellModel::F(m.sig_center_freq_hz),
        ColumnId::MlAskProb => CellModel::F(m.ml_ask_prob),
        ColumnId::MlPskProb => CellModel::F(m.ml_psk_prob),
        ColumnId::MlFskProb => CellModel::F(m.ml_fsk_prob),
        ColumnId::MlAmProb => CellModel::F(m.ml_am_prob),
        ColumnId::MlFmProb => CellModel::F(m.ml_fm_prob),
        ColumnId::MlOokProb => CellModel::F(m.ml_ook_prob),
        ColumnId::MlChirpProb => CellModel::F(m.ml_chirp_prob),
        ColumnId::MlConstellationProb => CellModel::F(m.ml_constellation_prob),
        ColumnId::MlCssProb => CellModel::F(m.ml_css_prob),
        ColumnId::MlWifiProb => CellModel::F(m.ml_wifi_prob),
        ColumnId::MlCellProb => CellModel::F(m.ml_cell_prob),
        ColumnId::MlRadarProb => CellModel::F(m.ml_radar_prob),
        ColumnId::MlNoSig => CellModel::B(m.ml_no_sig),
        ColumnId::SigUuid => CellModel::S(m.sig_uuid),
        ColumnId::SdrHandle => CellModel::S(m.sdr_handle),
        ColumnId::FreqLowerEdgeHz => CellModel::F(m.freq_lower_edge_hz),
        ColumnId::FreqUpperEdgeHz => CellModel::F(m.freq_upper_edge_hz),
    }
}

impl Row {
    /// The value this row holds in the given column.
    pub fn cell(&self, id: ColumnId) -> (r: CellValue)
        ensures
            r@ == spec_cell(self@, id),
    {
        match id {
            ColumnId::MetaFilename => CellValue::S(self.meta_filename.clone()),
            ColumnId::DataFilename => CellValue::S(self.data_filename.clone()),
            ColumnId::NumSamples => CellValue::U(self.num_samples),
            ColumnId::FileSizeBytes => CellValue::U(self.file_size_bytes),
            ColumnId::DurationS => CellValue::F(self.duration_s),
            ColumnId::SampleRateHz => CellValue::F(self.sample_rate_hz),
            ColumnId::Datatype => CellValue::S(self.datatype.clone()),
            ColumnId::SigmfVersion => CellValue::S(self.sigmf_version.clone()),
            ColumnId::Author => CellValue::S(self.author.clone()),
            ColumnId::Hardware => CellValue::S(self.hardware.clone()),
            ColumnId::Latitude => CellValue::F(self.latitude),
            ColumnId::Longitude => CellValue::F(self.longitude),
            ColumnId::GeoType => CellValue::S(self.geo_type.clone()),
            ColumnId::CenterFreqHz => CellValue::F(self.center_freq_hz),
            ColumnId::CaptureDatetime => CellValue::S(self.capture_datetime.clone()),
            ColumnId::Gain => CellValue::F(self.gain),
            ColumnId::Agc => CellValue::B(self.agc),
            ColumnId::SequenceNum => CellValue::U(self.sequence_num),
            ColumnId::SnrDb => CellValue::F(self.snr_db),
            ColumnId::PowerDbm => CellValue::F(self.power_dbm),
            ColumnId::PowerDbfs => CellValue::F(self.power_dbfs),
            ColumnId::SigBandwidthHz => CellValue::F(self.sig_bandwidth_hz),
            ColumnId::SigCenterFreqHz => CellValue::F(self.sig_center_freq_hz),
            ColumnId::MlAskProb => CellValue::F(self.ml_ask_prob),
            ColumnId::MlPskProb => CellValue::F(self.ml_psk_prob),
            ColumnId::MlFskProb => CellValue::F(self.ml_fsk_prob),
            ColumnId::MlAmProb => CellValue::F(self.ml_am_prob),
            ColumnId::MlFmProb => CellValue::F(self.ml_fm_prob),
            ColumnId::MlOokProb => CellValue::F(self.ml_ook_prob),
            ColumnId::MlChirpProb => CellValue::F(self.ml_chirp_prob),
            ColumnId::MlConstellationProb => CellValue::F(self.ml_constellation_prob),
            ColumnId::MlCssProb => CellValue::F(self.ml_css_prob),
            ColumnId::MlWifiProb => CellValue::F(self.ml_wifi_prob),
            ColumnId::MlCellProb => CellValue::F(self.ml_cell_prob),
            ColumnId::MlRadarProb => CellValue::F(self.ml_radar_prob),
            ColumnId::MlNoSig => CellValue::B(self.ml_no_sig),
            ColumnId::SigUuid => CellValue::S(self.sig_uuid.clone()),
            ColumnId::SdrHandle => CellValue::S(self.sdr_handle.clone()),
            ColumnId::FreqLowerEdgeHz => CellValue::F(self.freq_lower_edge_hz),
            ColumnId::FreqUpperEdgeHz => CellValue::F(self.freq_upper_edge_hz),
        }
    }

    /// Whether this row equals another, field for field.
    pub fn eq_row(&self, other: &Row) -> (r: bool)
        ensures
            r == (self@ == other@),
    {
        let r = self.meta_filename == other.meta_filename && self.data_filename
            == other.data_filename && self.num_samples == other.num_samples
            && self.file_size_bytes == other.file_size_bytes && self.duration_s == other.duration_s
            && self.sample_rate_hz == other.sample_rate_hz && self.datatype == other.datatype
            && self.sigmf_version == other.sigmf_version && self.author == other.author
            && self.hardware == other.hardware && self.latitude == other.latitude
            && self.longitude == other.longitude && self.geo_type == other.geo_type
            && self.center_freq_hz == other.center_freq_hz && self.capture_datetime
            == other.capture_datetime && self.gain == other.gain && self.agc == other.agc
            && self.sequence_num == other.sequence_num && self.snr_db == other.snr_db
            && self.power_dbm == other.power_dbm && self.power_dbfs == other.power_dbfs
            && self.sig_bandwidth_hz == other.sig_bandwidth_hz && self.sig_center_freq_hz
            == other.sig_center_freq_hz && self.ml_ask_prob == other.ml_ask_prob
            && self.ml_psk_prob == other.ml_psk_prob && self.ml_fsk_prob == other.ml_fsk_prob
            && self.ml_am_prob == other.ml_am_prob && self.ml_fm_prob == other.ml_fm_prob
            && self.ml_ook_prob == other.ml_ook_prob && self.ml_chirp_prob == other.ml_chirp_prob
            && self.ml_constellation_prob == other.ml_constellation_prob && self.ml_css_prob
            == other.ml_css_prob && self.ml_wifi_prob == other.ml_wifi_prob && self.ml_cell_prob
            == other.ml_cell_prob && self.ml_radar_prob == other.ml_radar_prob && self.ml_no_sig
            == other.ml_no_sig && self.sig_uuid == other.sig_uuid && self.sdr_handle
            == other.sdr_handle && self.freq_lower_edge_hz == other.freq_lower_edge_hz
            && self.freq_upper_edge_hz == other.freq_upper_edge_hz;
        proof {
            if r {
                assert(self@ =~= other@);
            }
        }
        r
    }
}

impl Clone for Row {
    /// An exact copy.
    fn clone(&self) -> (r: Self)
        ensures
            r == *self,
    {
        Row {
            meta_filename: self.meta_filename.clone(),
            data_filename: self.data_filename.clone(),
            num_samples: self.num_samples,
            file_size_bytes: self.file_size_bytes,
            duration_s: self.duration_s,
            sample_rate_hz: self.sample_rate_hz,
            datatype: self.datatype.clone(),
            sigmf_version: self.sigmf_version.clone(),
            author: self.author.clone(),
            hardware: self.hardware.clone(),
            latitude: self.latitude,
            longitude: self.longitude,
            geo_type: self.geo_type.clone(),
            center_freq_hz: self.center_freq_hz,
            capture_datetime: self.capture_datetime.clone(),
            gain: self.gain,
            agc: self.agc,
            sequence_num: self.sequence_num,
            snr_db: self.snr_db,
            power_dbm: self.power_dbm,
            power_dbfs: self.power_dbfs,
            sig_bandwidth_hz: self.sig_bandwidth_hz,
            sig_center_freq_hz: self.sig_center_freq_hz,
            ml_ask_prob: self.ml_ask_prob,
            ml_psk_prob: self.ml_psk_prob,
            ml_fsk_prob: self.ml_fsk_prob,
            ml_am_prob: self.ml_am_prob,
            ml_fm_prob: self.ml_fm_prob,
            ml_ook_prob: self.ml_ook_prob,
            ml_chirp_prob: self.ml_chirp_prob,
            ml_constellation_prob: self.ml_constellation_prob,
            ml_css_prob: self.ml_css_prob,
            ml_wifi_prob: self.ml_wifi_prob,
            ml_cell_prob: self.ml_cell_prob,
            ml_radar_prob: self.ml_radar_prob,
            ml_no_sig: self.ml_no_sig,
            sig_uuid: self.sig_uuid.clone(),
            sdr_handle: self.sdr_handle.clone(),
            freq_lower_edge_hz: self.freq_lower_edge_hz,
            freq_upper_edge_hz: self.freq_upper_edge_hz,
        }
    }
}

/// The names of all columns, in schema order.
pub fn column_names() -> (r: Vec<String>)
    ensures
        r@.len() == 40,
        r@[0]@ == "meta_filename"@,
        r@[1]@ == "data_filename"@,
        r@[2]@ == "num_samples"@,
        r@[3]@ == "file_size_bytes"@,
        r@[4]@ == "duration_s"@,
        r@[5]@ == "sample_rate_hz"@,
        r@[6]@ == "datatype"@,
        r@[7]@ == "sigmf_version"@,
        r@[8]@ == "author"@,
        r@[9]@ == "hardware"@,
        r@[10]@ == "latitude"@,
        r@[11]@ == "longitude"@,
        r@[12]@ == "geo_type"@,
        r@[13]@ == "center_freq_hz"@,
        r@[14]@ == "capture_datetime"@,
        r@[15]@ == "gain"@,
        r@[16]@ == "agc"@,
        r@[17]@ == "sequence_num"@,
        r@[18]@ == "snr_db"@,
        r@[19]@ == "power_dbm"@,
        r@[20]@ == "power_dbfs"@,
        r@[21]@ == "sig_bandwidth_hz"@,
        r@[22]@ == "sig_center_freq_hz"@,
        r@[23]@ == "ml_ask_prob"@,
        r@[24]@ == "ml_psk_prob"@,
        r@[25]@ == "ml_fsk_prob"@,
        r@[26]@ == "ml_am_prob"@,
        r@[27]@ == "ml_fm_prob"@,
        r@[28]@ == "ml_ook_prob"@,
        r@[29]@ == "ml_chirp_prob"@,
        r@[30]@ == "ml_constellation_prob"@,
        r@[31]@ == "ml_css_prob"@,
        r@[32]@ == "ml_wifi_prob"@,
        r@[33]@ == "ml_cell_prob"@,
        r@[34]@ == "ml_radar_prob"@,
        r@[35]@ == "ml_no_sig"@,
        r@[36]@ == "sig_uuid"@,
        r@[37]@ == "sdr_handle"@,
        r@[38]@ == "freq_lower_edge_hz"@,
        r@[39]@ == "freq_upper_edge_hz"@,
{
    let mut v: Vec<String> = Vec::new();
    v.push(String::from_str("meta_filename"));
    v.push(String::from_str("data_filename"));
    v.push(String::from_str("num_samples"));
    v.push(String::from_str("file_size_bytes"));
    v.push(String::from_str("duration_s"));
    v.push(String::from_str("sample_rate_hz"));
    v.push(String::from_str("datatype"));
    v.push(String::from_str("sigmf_version"));
    v.push(String::from_str("author"));
    v.push(String::from_str("hardware"));
    v.push(String::from_str("latitude"));
    v.push(String::from_str("longitude"));
    v.push(String::from_str("geo_type"));
    v.push(String::from_str("center_freq_hz"));
    v.push(String::from_str("capture_datetime"));
    v.push(String::from_str("gain"));
    v.push(String::from_str("agc"));
    v.push(String::from_str("sequence_num"));
    v.push(String::from_str("snr_db"));
    v.push(String::from_str("power_dbm"));
    v.push(String::from_str("power_dbfs"));
    v.push(String::from_str("sig_bandwidth_hz"));
    v.push(String::from_str("sig_center_freq_hz"));
    v.push(String::from_str("ml_ask_prob"));
    v.push(String::from_str("ml_psk_prob"));
    v.push(String::from_str("ml_fsk_prob"));
    v.push(String::from_str("ml_am_prob"));
    v.push(String::from_str("ml_fm_prob"));
    v.push(String::from_str("ml_ook_prob"));
    v.push(String::from_str("ml_chirp_prob"));
    v.push(String::from_str("ml_constellation_prob"));
    v.push(String::from_str("ml_css_prob"));
    v.push(String::from_str("ml_wifi_prob"));
    v.push(String::from_str("ml_cell_prob"));
    v.push(String::from_str("ml_radar_prob"));
    v.push(String::from_str("ml_no_sig"));
    v.push(String::from_str("sig_uuid"));
    v.push(String::from_str("sdr_handle"));
    v.push(String::from_str("freq_lower_edge_hz"));
    v.push(String::from_str("freq_upper_edge_hz"));
    v
}

} // verus!
