//! Single-file validation and row projection: turns one metadata document
//! plus externally measured file facts into one or more flat rows.

use vstd::prelude::*;
use vstd::string::StringExecFns;

use crate::dataset::Dataset;
use crate::datatypes::SigMFDataType;
use crate::errors::ErrModel;
use crate::errors::SigError;
use crate::metadata::AnnotationInfo;
use crate::metadata::CaptureInfo;
use crate::metadata::CustomClassProbField;
use crate::metadata::SigMFMetadata;
use crate::numeric::Fixed;
use crate::numeric::spec_duration_units;
use crate::numeric::duration_fixed;
use crate::pathnames::spec_with_extension;
use crate::pathnames::spec_file_name;
use crate::pathnames::with_extension;
use crate::pathnames::file_name_of;
use crate::row::Row;
use crate::row::RowModel;

verus! {

/// The plain, externally measured facts about one candidate file pair, as a
/// caller that can reach the filesystem hands them in.
pub struct FileInput {
    /// Path of the metadata document.
    pub meta_path: String,
    /// The decoded document, or nothing when it could not be read or decoded.
    pub metadata: Option<SigMFMetadata>,
    /// Whether the companion binary file exists.
    pub data_file_exists: bool,
    /// Size in bytes of the companion binary file as measured at projection
    /// time, or nothing when it is absent then.
    pub file_size_bytes: Option<u64>,
}

/// The result of successfully validating one file: the typed document, the
/// resolved sample encoding, and the companion binary file's path.
pub struct SigMFParser {
    /// The typed metadata document.
    pub metadata: SigMFMetadata,
    /// The resolved sample encoding.
    pub data_type: SigMFDataType,
    /// The derived companion binary file path.
    pub data_file_path: String,
}

/// The companion binary file path derived from a metadata document path.
pub open spec fn spec_data_path(meta_path: Seq<char>) -> Seq<char> {
    spec_with_extension(meta_path, "sigmf-data"@)
}

/// The error a file input produces when it cannot be validated, in the
/// order the checks run: decoding, datatype, companion file.
pub open spec fn spec_input_error(input: FileInput) -> ErrModel {
    match input.metadata {
        None => ErrModel::MetadataParse(input.meta_path@),
        Some(md) => if crate::datatypes::spec_datatype_of(md.global.datatype@) is None {
            ErrModel::UnsupportedDatatype(md.global.datatype@)
        } else {
            ErrModel::MissingDataFile(spec_data_path(input.meta_path@))
        },
    }
}

/// Whether a file input validates: the document decoded, its datatype is
/// supported, and the companion binary file exists.
pub open spec fn spec_input_ok(input: FileInput) -> bool {
    &&& input.metadata is Some
    &&& crate::datatypes::spec_datatype_of(input.metadata->0.global.datatype@) is Some
    &&& input.data_file_exists
}

/// The annotation list of a document; empty when the document has none.
pub open spec fn spec_annotations(md: SigMFMetadata) -> Seq<AnnotationInfo> {
    match md.annotations {
        Some(v) => v@,
        None => Seq::empty(),
    }
}

/// Whether an annotation is an ML annotation: it carries a signal center
/// frequency, an amplitude-shift or phase-shift probability, or a non-empty
/// custom-classifier list.
pub open spec fn spec_is_ml(a: AnnotationInfo) -> bool {
    ||| a.sig_center_freq is Some
    ||| a.ask_prob is Some
    ||| a.psk_prob is Some
    ||| (a.custom_classifier_probs matches Some(v) && v@.len() > 0)
}

/// The subsequence of ML annotations, in order.
pub open spec fn spec_ml_of(anns: Seq<AnnotationInfo>) -> Seq<AnnotationInfo>
    decreases anns.len(),
{
    if anns.len() == 0 {
        Seq::empty()
    } else {
        let rest = spec_ml_of(anns.drop_first());
        if spec_is_ml(anns[0]) {
            seq![anns[0]] + rest
        } else {
            rest
        }
    }
}

/// Appending one annotation extends the ML subsequence by it exactly when
/// it is an ML annotation.
pub proof fn lemma_ml_of_push(anns: Seq<AnnotationInfo>, a: AnnotationInfo)
    ensures
        spec_ml_of(anns.push(a)) == if spec_is_ml(a) {
            spec_ml_of(anns).push(a)
        } else {
            spec_ml_of(anns)
        },
    decreases anns.len(),
{
    let p = anns.push(a);
    reveal_with_fuel(spec_ml_of, 3);
    assert(p.len() == anns.len() + 1);
    if anns.len() == 0 {
        assert(p[0] == a);
        assert(p.drop_first() =~= Seq::<AnnotationInfo>::empty());
        if spec_is_ml(a) {
            assert(seq![a] + Seq::<AnnotationInfo>::empty() =~= Seq::<
                AnnotationInfo,
            >::empty().push(a));
        }
    } else {
        assert(p[0] == anns[0]);
        assert(p.drop_first() =~= anns.drop_first().push(a));
        lemma_ml_of_push(anns.drop_first(), a);
        if spec_is_ml(a) {
            if spec_is_ml(anns[0]) {
                assert(seq![anns[0]] + spec_ml_of(anns.drop_first()).push(a) =~= (seq![anns[0]]
                    + spec_ml_of(anns.drop_first())).push(a));
            }
        }
    }
}

/// The first capture carrying a frequency.
pub open spec fn spec_first_freq(cs: Seq<CaptureInfo>) -> Option<CaptureInfo>
    decreases cs.len(),
{
    if cs.len() == 0 {
        None
    } else if cs[0].frequency is Some {
        Some(cs[0])
    } else {
        spec_first_freq(cs.drop_first())
    }
}

/// The first capture carrying a timestamp.
pub open spec fn spec_first_timestamp(cs: Seq<CaptureInfo>) -> Option<CaptureInfo>
    decreases cs.len(),
{
    if cs.len() == 0 {
        None
    } else if cs[0].timestamp is Some {
        Some(cs[0])
    } else {
        spec_first_timestamp(cs.drop_first())
    }
}

/// The first capture carrying a gain or an automatic-gain-control flag.
pub open spec fn spec_first_ds_info(cs: Seq<CaptureInfo>) -> Option<CaptureInfo>
    decreases cs.len(),
{
    if cs.len() == 0 {
        None
    } else if cs[0].gain is Some || cs[0].agc is Some {
        Some(cs[0])
    } else {
        spec_first_ds_info(cs.drop_first())
    }
}

/// `spec_first_freq` is characterized by the first qualifying index.
pub proof fn lemma_first_freq_is(cs: Seq<CaptureInfo>, i: int)
    requires
        0 <= i <= cs.len(),
        forall|k: int| 0 <= k < i ==> (#[trigger] cs[k]).frequency is None,
        i < cs.len() ==> cs[i].frequency is Some,
    ensures
        spec_first_freq(cs) == if i == cs.len() {
            None::<CaptureInfo>
        } else {
            Some(cs[i])
        },
    decreases cs.len(),
{
    if cs.len() > 0 && i > 0 {
        lemma_first_freq_is(cs.drop_first(), i - 1);
    }
}

/// `spec_first_timestamp` is characterized by the first qualifying index.
pub proof fn lemma_first_timestamp_is(cs: Seq<CaptureInfo>, i: int)
    requires
        0 <= i <= cs.len(),
        forall|k: int| 0 <= k < i ==> (#[trigger] cs[k]).timestamp is None,
        i < cs.len() ==> cs[i].timestamp is Some,
    ensures
        spec_first_timestamp(cs) == if i == cs.len() {
            None::<CaptureInfo>
        } else {
            Some(cs[i])
        },
    decreases cs.len(),
{
    if cs.len() > 0 && i > 0 {
        lemma_first_timestamp_is(cs.drop_first(), i - 1);
    }
}

/// `spec_first_ds_info` is characterized by the first qualifying index.
pub proof fn lemma_first_ds_info_is(cs: Seq<CaptureInfo>, i: int)
    requires
        0 <= i <= cs.len(),
        forall|k: int| 0 <= k < i ==> (#[trigger] cs[k]).gain is None && cs[k].agc is None,
        i < cs.len() ==> cs[i].gain is Some || cs[i].agc is Some,
    ensures
        spec_first_ds_info(cs) == if i == cs.len() {
            None::<CaptureInfo>
        } else {
            Some(cs[i])
        },
    decreases cs.len(),
{
    if cs.len() > 0 && i > 0 {
        lemma_first_ds_info_is(cs.drop_first(), i - 1);
    }
}

/// Index of the first capture carrying a frequency.
#[verifier::loop_isolation(false)]
fn find_first_freq(cs: &Vec<CaptureInfo>) -> (r: Option<usize>)
    ensures
        match r {
            Some(i) => i < cs@.len() && spec_first_freq(cs@) == Some(cs@[i as int]),
            None => spec_first_freq(cs@) is None,
        },
{
    let n = cs.len();
    let mut i: usize = 0;
    while i < n
        invariant
            i <= n,
            forall|k: int| 0 <= k < i ==> (#[trigger] cs@[k]).frequency is None,
        decreases n - i,
    {
        if cs[i].frequency.is_some() {
            proof {
                lemma_first_freq_is(cs@, i as int);
            }
            return Some(i);
        }
        i += 1;
    }
    proof {
        lemma_first_freq_is(cs@, n as int);
    }
    None
}

/// Index of the first capture carrying a timestamp.
#[verifier::loop_isolation(false)]
fn find_first_timestamp(cs: &Vec<CaptureInfo>) -> (r: Option<usize>)
    ensures
        match r {
            Some(i) => i < cs@.len() && spec_first_timestamp(cs@) == Some(cs@[i as int]),
            None => spec_first_timestamp(cs@) is None,
        },
{
    let n = cs.len();
    let mut i: usize = 0;
    while i < n
        invariant
            i <= n,
            forall|k: int| 0 <= k < i ==> (#[trigger] cs@[k]).timestamp is None,
        decreases n - i,
    {
        if cs[i].timestamp.is_some() {
            proof {
                lemma_first_timestamp_is(cs@, i as int);
            }
            return Some(i);
        }
        i += 1;
    }
    proof {
        lemma_first_timestamp_is(cs@, n as int);
    }
    None
}

/// Index of the first capture carrying a gain or an automatic-gain-control
/// flag.
#[verifier::loop_isolation(false)]
fn find_first_ds_info(cs: &Vec<CaptureInfo>) -> (r: Option<usize>)
    ensures
        match r {
            Some(i) => i < cs@.len() && spec_first_ds_info(cs@) == Some(cs@[i as int]),
            None => spec_first_ds_info(cs@) is None,
        },
{
    let n = cs.len();
    let mut i: usize = 0;
    while i < n
        invariant
            i <= n,
            forall|k: int| 0 <= k < i ==> (#[trigger] cs@[k]).gain is None && cs@[k].agc is None,
        decreases n - i,
    {
        if cs[i].gain.is_some() || cs[i].agc.is_some() {
            proof {
                lemma_first_ds_info_is(cs@, i as int);
            }
            return Some(i);
        }
        i += 1;
    }
    proof {
        lemma_first_ds_info_is(cs@, n as int);
    }
    None
}

/// With no ML annotation, every annotation-derived field of the projected
/// row is its documented default: zero, false, or an empty string. The
/// frequency-edge fields track the file's first annotation rather than the
/// row's ML annotation and are not among them.
pub proof fn lemma_default_row_annotation_fields(p: SigMFParser, file_size: Option<u64>)
    ensures
        ({
            let m = spec_row(p, file_size, None::<AnnotationInfo>);
            &&& m.snr_db == 0
            &&& m.power_dbm == 0
            &&& m.power_dbfs == 0
            &&& m.sig_bandwidth_hz == 0
            &&& m.sig_center_freq_hz == 0
            &&& m.ml_ask_prob == 0
            &&& m.ml_psk_prob == 0
            &&& m.ml_fsk_prob == 0
            &&& m.ml_am_prob == 0
            &&& m.ml_fm_prob == 0
            &&& m.ml_ook_prob == 0
            &&& m.ml_chirp_prob == 0
            &&& m.ml_constellation_prob == 0
            &&& m.ml_css_prob == 0
            &&& m.ml_wifi_prob == 0
            &&& m.ml_cell_prob == 0
            &&& m.ml_radar_prob == 0
            &&& m.ml_no_sig == false
            &&& m.sig_uuid == Seq::<char>::empty()
            &&& m.sdr_handle == Seq::<char>::empty()
        }),
{
}

/// Rows projected from one file for different ML annotations share all
/// file-, global- and capture-derived field values; only annotation-derived
/// fields can differ.
pub proof fn lemma_rows_share_file_fields(
    p: SigMFParser,
    file_size: Option<u64>,
    a: AnnotationInfo,
    b: AnnotationInfo,
)
    ensures
        ({
            let ra = spec_row(p, file_size, Some(a));
            let rb = spec_row(p, file_size, Some(b));
            &&& ra.meta_filename == rb.meta_filename
            &&& ra.data_filename == rb.data_filename
            &&& ra.num_samples == rb.num_samples
            &&& ra.file_size_bytes == rb.file_size_bytes
            &&& ra.duration_s == rb.duration_s
            &&& ra.sample_rate_hz == rb.sample_rate_hz
            &&& ra.datatype == rb.datatype
            &&& ra.sigmf_version == rb.sigmf_version
            &&& ra.author == rb.author
            &&& ra.hardware == rb.hardware
            &&& ra.latitude == rb.latitude
            &&& ra.longitude == rb.longitude
            &&& ra.geo_type == rb.geo_type
            &&& ra.center_freq_hz == rb.center_freq_hz
            &&& ra.capture_datetime == rb.capture_datetime
            &&& ra.gain == rb.gain
            &&& ra.agc == rb.agc
            &&& ra.sequence_num == rb.sequence_num
            &&& ra.freq_lower_edge_hz == rb.freq_lower_edge_hz
            &&& ra.freq_upper_edge_hz == rb.freq_upper_edge_hz
        }),
{
}

/// `num_samples` is exactly the truncating integer quotient of the file
/// size by the per-sample byte width, for both supported datatypes.
pub proof fn lemma_num_samples_quotient(p: SigMFParser, sz: u64, ml: Option<AnnotationInfo>)
    ensures
        spec_row(p, Some(sz), ml).num_samples == sz as int
            / p.data_type.spec_sample_size_bytes() as int,
{
}

/// The text of an optional string, empty when absent.
pub open spec fn opt_str(o: Option<String>) -> Seq<char> {
    match o {
        Some(s) => s@,
        None => Seq::empty(),
    }
}

/// The units of an optional fixed-point number, zero when absent.
pub open spec fn opt_fixed(o: Option<Fixed>) -> int {
    match o {
        Some(f) => f@,
        None => 0,
    }
}

/// An optional flag, false when absent.
pub open spec fn opt_bool(o: Option<bool>) -> bool {
    match o {
        Some(b) => b,
        None => false,
    }
}

/// An optional unsigned integer, zero when absent.
pub open spec fn opt_u64(o: Option<u64>) -> int {
    match o {
        Some(u) => u as int,
        None => 0,
    }
}

/// An optional borrowed annotation, by value.
pub open spec fn spec_opt_deref(o: Option<&AnnotationInfo>) -> Option<AnnotationInfo> {
    match o {
        Some(a) => Some(*a),
        None => None,
    }
}

/// The first score in a custom-classifier list carrying the given class
/// name.
pub open spec fn spec_find_class(list: Seq<CustomClassProbField>, name: Seq<char>) -> Option<Fixed>
    decreases list.len(),
{
    if list.len() == 0 {
        None
    } else if list[0].class_name@ == name {
        Some(list[0].class_prob)
    } else {
        spec_find_class(list.drop_first(), name)
    }
}

/// An annotation's score for a named custom class; absence of the
/// annotation, of the list, or of the class yields nothing.
pub open spec fn spec_custom_lookup(ml: Option<AnnotationInfo>, name: Seq<char>) -> Option<Fixed> {
    match ml {
        None => None,
        Some(a) => match a.custom_classifier_probs {
            None => None,
            Some(v) => spec_find_class(v@, name),
        },
    }
}

/// The units of a named custom-class score, zero when absent.
pub open spec fn spec_custom_or_zero(ml: Option<AnnotationInfo>, name: Seq<char>) -> int {
    match spec_custom_lookup(ml, name) {
        Some(f) => f@,
        None => 0,
    }
}

/// `spec_find_class` is characterized by the first qualifying index.
pub proof fn lemma_find_class_is(list: Seq<CustomClassProbField>, name: Seq<char>, i: int)
    requires
        0 <= i <= list.len(),
        forall|k: int| 0 <= k < i ==> (#[trigger] list[k]).class_name@ != name,
        i < list.len() ==> list[i].class_name@ == name,
    ensures
        spec_find_class(list, name) == if i == list.len() {
            None::<Fixed>
        } else {
            Some(list[i].class_prob)
        },
    decreases list.len(),
{
    if list.len() > 0 && i > 0 {
        lemma_find_class_is(list.drop_first(), name, i - 1);
    }
}

/// The derived sample count: file size over per-sample width, truncating;
/// zero when the companion file is absent.
pub open spec fn spec_num_samples(file_size: Option<u64>, dt: SigMFDataType) -> int {
    match file_size {
        None => 0,
        Some(sz) => (sz as int) / (dt.spec_sample_size_bytes() as int),
    }
}

/// The recorded file size; zero when the companion file is absent.
pub open spec fn spec_file_size(file_size: Option<u64>) -> int {
    match file_size {
        None => 0,
        Some(sz) => sz as int,
    }
}

/// The one flat row a file projects to for a given (possibly absent) ML
/// annotation, from its typed document, resolved encoding, and companion
/// binary file path.
///
/// Frequency-edge fields come from the first annotation of the file's full
/// annotation list, whichever ML annotation the row is for; this mirrors
/// the upstream projection as documented, rather than tracking the row's
/// own annotation.
pub open spec fn spec_row_of(
    md: SigMFMetadata,
    dt: SigMFDataType,
    data_file_path: Seq<char>,
    file_size: Option<u64>,
    ml: Option<AnnotationInfo>,
) -> RowModel {
    let g = md.global;
    let caps = md.captures@;
    let anns = spec_annotations(md);
    let cf = spec_first_freq(caps);
    let ct = spec_first_timestamp(caps);
    let cd = spec_first_ds_info(caps);
    let ns = spec_num_samples(file_size, dt);
    (RowModel {
        meta_filename: spec_file_name(spec_with_extension(data_file_path, "sigmf-meta"@)),
        data_filename: spec_file_name(data_file_path),
        num_samples: ns,
        file_size_bytes: spec_file_size(file_size),
        duration_s: spec_duration_units(ns, g.sample_rate@),
        sample_rate_hz: g.sample_rate@,
        datatype: g.datatype@,
        sigmf_version: g.version@,
        author: opt_str(g.author),
        hardware: opt_str(g.hardware),
        latitude: match g.geolocation {
            Some(geo) => if geo.coordinates@.len() > 0 {
                geo.coordinates@[0]@
            } else {
                0
            },
            None => 0,
        },
        longitude: match g.geolocation {
            Some(geo) => if geo.coordinates@.len() > 1 {
                geo.coordinates@[1]@
            } else {
                0
            },
            None => 0,
        },
        geo_type: match g.geolocation {
            Some(geo) => geo.geo_type@,
            None => Seq::empty(),
        },
        center_freq_hz: match cf {
            Some(c) => opt_fixed(c.frequency),
            None => 0,
        },
        capture_datetime: match ct {
            Some(c) => opt_str(c.timestamp),
            None => Seq::empty(),
        },
        gain: match cd {
            Some(c) => opt_fixed(c.gain),
            None => 0,
        },
        agc: match cd {
            Some(c) => opt_bool(c.agc),
            None => false,
        },
        sequence_num: match cd {
            Some(c) => opt_u64(c.sequence_num),
            None => 0,
        },
        snr_db: match ml {
            Some(a) => opt_fixed(a.sig_snr),
            None => 0,
        },
        power_dbm: match ml {
            Some(a) => opt_fixed(a.sig_power_dbm),
            None => 0,
        },
        power_dbfs: match ml {
            Some(a) => opt_fixed(a.sig_power_dbfs),
            None => 0,
        },
        sig_bandwidth_hz: match ml {
            Some(a) => opt_fixed(a.sig_bandwidth),
            None => 0,
        },
        sig_center_freq_hz: match ml {
            Some(a) => opt_fixed(a.sig_center_freq),
            None => 0,
        },
        ml_ask_prob: match ml {
            Some(a) => opt_fixed(a.ask_prob),
            None => 0,
        },
        ml_psk_prob: match ml {
            Some(a) => opt_fixed(a.psk_prob),
            None => 0,
        },
        ml_fsk_prob: match ml {
            Some(a) => opt_fixed(a.fsk_prob),
            None => 0,
        },
        ml_am_prob: match ml {
            Some(a) => opt_fixed(a.analog_am_prob),
            None => 0,
        },
        ml_fm_prob: match ml {
            Some(a) => opt_fixed(a.analog_fm_prob),
            None => 0,
        },
        ml_ook_prob: match ml {
            Some(a) => opt_fixed(a.ook_prob),
            None => 0,
        },
        ml_chirp_prob: match ml {
            Some(a) => opt_fixed(a.chirp_prob),
            None => 0,
        },
        ml_constellation_prob: match ml {
            Some(a) => opt_fixed(a.constellation_prob),
            None => 0,
        },
        ml_css_prob: match ml {
            Some(a) => opt_fixed(a.css_prob),
            None => 0,
        },
        ml_wifi_prob: spec_custom_or_zero(ml, "wifi"@),
        ml_cell_prob: spec_custom_or_zero(ml, "cell"@),
        ml_radar_prob: spec_custom_or_zero(ml, "radar"@),
        ml_no_sig: match ml {
            Some(a) => opt_bool(a.ml_no_sig),
            None => false,
        },
        sig_uuid: match ml {
            Some(a) => opt_str(a.uuid),
            None => Seq::empty(),
        },
        sdr_handle: match ml {
            Some(a) => opt_str(a.sdr_handle),
            None => Seq::empty(),
        },
        freq_lower_edge_hz: if anns.len() > 0 {
            opt_fixed(anns[0].freq_lower_edge)
        } else {
            0
        },
        freq_upper_edge_hz: if anns.len() > 0 {
            opt_fixed(anns[0].freq_upper_edge)
        } else {
            0
        },
    })
}

/// The one flat row a parsed file projects to for a given (possibly
/// absent) ML annotation.
pub open spec fn spec_row(p: SigMFParser, file_size: Option<u64>, ml: Option<AnnotationInfo>) -> RowModel {
    spec_row_of(p.metadata, p.data_type, p.data_file_path@, file_size, ml)
}

/// An optional fixed-point number, or zero.
fn opt_fixed_or_zero(o: &Option<Fixed>) -> (r: Fixed)
    ensures
        r@ == opt_fixed(*o),
{
    match o {
        Some(f) => *f,
        None => Fixed::zero(),
    }
}

/// An optional string, or empty.
fn opt_str_or_empty(o: &Option<String>) -> (r: String)
    ensures
        r@ == opt_str(*o),
{
    match o {
        Some(s) => s.clone(),
        None => String::new(),
    }
}

/// An optional flag, or false.
fn opt_bool_or_false(o: &Option<bool>) -> (r: bool)
    ensures
        r == opt_bool(*o),
{
    match o {
        Some(b) => *b,
        None => false,
    }
}

/// An optional unsigned integer, or zero.
fn opt_u64_or_zero(o: &Option<u64>) -> (r: u64)
    ensures
        r as int == opt_u64(*o),
{
    match o {
        Some(u) => *u,
        None => 0,
    }
}

impl SigMFParser {
    /// Validates one file input: the document must have decoded, its
    /// declared datatype must resolve, and the companion binary file must
    /// exist; each failure is the corresponding error and no partial value
    /// is returned.
    pub fn from_input(input: FileInput) -> (r: Result<SigMFParser, SigError>)
        ensures
            r is Ok <==> spec_input_ok(input),
            r matches Ok(p) ==> {
                &&& input.metadata == Some(p.metadata)
                &&& Some(p.data_type) == crate::datatypes::spec_datatype_of(
                    p.metadata.global.datatype@,
                )
                &&& p.data_file_path@ == spec_data_path(input.meta_path@)
            },
            r matches Err(e) ==> e@ == spec_input_error(input),
    {
        let FileInput { meta_path, metadata, data_file_exists, file_size_bytes: _ } = input;
        let md = match metadata {
            None => {
                return Err(SigError::MetadataParseError(meta_path));
            },
            Some(md) => md,
        };
        let data_type = match SigMFDataType::from_string(md.global.datatype.as_str()) {
            Err(e) => {
                return Err(e);
            },
            Ok(d) => d,
        };
        let data_file_path = with_extension(meta_path.as_str(), "sigmf-data");
        if !data_file_exists {
            return Err(SigError::MissingDataFile(data_file_path));
        }
        Ok(SigMFParser { metadata: md, data_type, data_file_path })
    }

    /// Whether an annotation counts as an ML annotation.
    fn is_ml_annotation(&self, ann: &AnnotationInfo) -> (r: bool)
        ensures
            r == spec_is_ml(*ann),
    {
        ann.sig_center_freq.is_some() || ann.ask_prob.is_some() || ann.psk_prob.is_some() || (
        match &ann.custom_classifier_probs {
            Some(v) => v.len() > 0,
            None => false,
        })
    }

    /// The given annotation's score for a named custom class, by
    /// name-matched lookup; absence yields nothing, never an error.
    #[verifier::loop_isolation(false)]
    fn get_custom_classifier_prob_for_annotation(
        &self,
        ml_annotation: Option<&AnnotationInfo>,
        class_name: &str,
    ) -> (r: Option<Fixed>)
        ensures
            r == spec_custom_lookup(spec_opt_deref(ml_annotation), class_name@),
    {
        let a = match ml_annotation {
            None => {
                return None;
            },
            Some(a) => a,
        };
        let list = match &a.custom_classifier_probs {
            None => {
                return None;
            },
            Some(v) => v,
        };
        let n = list.len();
        let mut i: usize = 0;
        while i < n
            invariant
                i <= n,
                n == list@.len(),
                forall|k: int| 0 <= k < i ==> (#[trigger] list@[k]).class_name@ != class_name@,
            decreases n - i,
        {
            if crate::strutil::str_eq(list[i].class_name.as_str(), class_name) {
                proof {
                    lemma_find_class_is(list@, class_name@, i as int);
                }
                return Some(list[i].class_prob);
            }
            i += 1;
        }
        proof {
            lemma_find_class_is(list@, class_name@, n as int);
        }
        None
    }

    /// Projects one row for the given (possibly absent) ML annotation.
    #[verifier::rlimit(60)]
    fn project_row(&self, file_size_bytes: Option<u64>, ml: Option<&AnnotationInfo>) -> (r: Row)
        ensures
            r@ == spec_row(*self, file_size_bytes, spec_opt_deref(ml)),
    {
        let (num_samples, file_size) = match file_size_bytes {
            Some(sz) => {
                proof {
                    assert(self.data_type.spec_sample_size_bytes() == 8
                        || self.data_type.spec_sample_size_bytes() == 4);
                }
                let s = self.data_type.sample_size_bytes() as u64;
                (sz / s, sz)
            },
            None => (0u64, 0u64),
        };
        let meta_full = with_extension(self.data_file_path.as_str(), "sigmf-meta");
        let meta_filename = file_name_of(meta_full.as_str());
        let data_filename = file_name_of(self.data_file_path.as_str());
        let g = &self.metadata.global;
        let (latitude, longitude, geo_type) = match &g.geolocation {
            Some(geo) => {
                let lat = if geo.coordinates.len() > 0 {
                    geo.coordinates[0]
                } else {
                    Fixed::zero()
                };
                let lon = if geo.coordinates.len() > 1 {
                    geo.coordinates[1]
                } else {
                    Fixed::zero()
                };
                (lat, lon, geo.geo_type.clone())
            },
            None => (Fixed::zero(), Fixed::zero(), String::new()),
        };
        let caps = &self.metadata.captures;
        let center_freq_hz = match find_first_freq(caps) {
            Some(i) => opt_fixed_or_zero(&caps[i].frequency),
            None => Fixed::zero(),
        };
        let capture_datetime = match find_first_timestamp(caps) {
            Some(i) => opt_str_or_empty(&caps[i].timestamp),
            None => String::new(),
        };
        let (gain, agc, sequence_num) = match find_first_ds_info(caps) {
            Some(i) => (
                opt_fixed_or_zero(&caps[i].gain),
                opt_bool_or_false(&caps[i].agc),
                opt_u64_or_zero(&caps[i].sequence_num),
            ),
            None => (Fixed::zero(), false, 0u64),
        };
        let (freq_lower_edge_hz, freq_upper_edge_hz) = match &self.metadata.annotations {
            Some(v) => if v.len() > 0 {
                (opt_fixed_or_zero(&v[0].freq_lower_edge), opt_fixed_or_zero(&v[0].freq_upper_edge))
            } else {
                (Fixed::zero(), Fixed::zero())
            },
            None => (Fixed::zero(), Fixed::zero()),
        };
        let ml_wifi = match self.get_custom_classifier_prob_for_annotation(ml, "wifi") {
            Some(f) => f,
            None => Fixed::zero(),
        };
        let ml_cell = match self.get_custom_classifier_prob_for_annotation(ml, "cell") {
            Some(f) => f,
            None => Fixed::zero(),
        };
        let ml_radar = match self.get_custom_classifier_prob_for_annotation(ml, "radar") {
            Some(f) => f,
            None => Fixed::zero(),
        };
        let row = Row {
            meta_filename,
            data_filename,
            num_samples,
            file_size_bytes: file_size,
            duration_s: duration_fixed(num_samples, g.sample_rate),
            sample_rate_hz: g.sample_rate,
            datatype: g.datatype.clone(),
            sigmf_version: g.version.clone(),
            author: opt_str_or_empty(&g.author),
            hardware: opt_str_or_empty(&g.hardware),
            latitude,
            longitude,
            geo_type,
            center_freq_hz,
            capture_datetime,
            gain,
            agc,
            sequence_num,
            snr_db: match ml {
                Some(a) => opt_fixed_or_zero(&a.sig_snr),
                None => Fixed::zero(),
            },
            power_dbm: match ml {
                Some(a) => opt_fixed_or_zero(&a.sig_power_dbm),
                None => Fixed::zero(),
            },
            power_dbfs: match ml {
                Some(a) => opt_fixed_or_zero(&a.sig_power_dbfs),
                None => Fixed::zero(),
            },
            sig_bandwidth_hz: match ml {
                Some(a) => opt_fixed_or_zero(&a.sig_bandwidth),
                None => Fixed::zero(),
            },
            sig_center_freq_hz: match ml {
                Some(a) => opt_fixed_or_zero(&a.sig_center_freq),
                None => Fixed::zero(),
            },
            ml_ask_prob: match ml {
                Some(a) => opt_fixed_or_zero(&a.ask_prob),
                None => Fixed::zero(),
            },
            ml_psk_prob: match ml {
                Some(a) => opt_fixed_or_zero(&a.psk_prob),
                None => Fixed::zero(),
            },
            ml_fsk_prob: match ml {
                Some(a) => opt_fixed_or_zero(&a.fsk_prob),
                None => Fixed::zero(),
            },
            ml_am_prob: match ml {
                Some(a) => opt_fixed_or_zero(&a.analog_am_prob),
                None => Fixed::zero(),
            },
            ml_fm_prob: match ml {
                Some(a) => opt_fixed_or_zero(&a.analog_fm_prob),
                None => Fixed::zero(),
            },
            ml_ook_prob: match ml {
                Some(a) => opt_fixed_or_zero(&a.ook_prob),
                None => Fixed::zero(),
            },
            ml_chirp_prob: match ml {
                Some(a) => opt_fixed_or_zero(&a.chirp_prob),
                None => Fixed::zero(),
            },
            ml_constellation_prob: match ml {
                Some(a) => opt_fixed_or_zero(&a.constellation_prob),
                None => Fixed::zero(),
            },
            ml_css_prob: match ml {
                Some(a) => opt_fixed_or_zero(&a.css_prob),
                None => Fixed::zero(),
            },
            ml_wifi_prob: ml_wifi,
            ml_cell_prob: ml_cell,
            ml_radar_prob: ml_radar,
            ml_no_sig: match ml {
                Some(a) => opt_bool_or_false(&a.ml_no_sig),
                None => false,
            },
            sig_uuid: match ml {
                Some(a) => opt_str_or_empty(&a.uuid),
                None => String::new(),
            },
            sdr_handle: match ml {
                Some(a) => opt_str_or_empty(&a.sdr_handle),
                None => String::new(),
            },
            freq_lower_edge_hz,
            freq_upper_edge_hz,
        };
        proof {
            assert(row@ =~= spec_row(*self, file_size_bytes, spec_opt_deref(ml)));
        }
        row
    }

    /// Projects this parsed file into its rows: one per ML annotation, or a
    /// single row with defaulted annotation-derived fields when there is
    /// none. Shared file, global and capture-derived fields are identical
    /// across the rows.
    #[verifier::loop_isolation(false)]
    pub fn to_summary_rows(&self, file_size_bytes: Option<u64>) -> (d: Dataset)
        ensures
            ({
                let mls = spec_ml_of(spec_annotations(self.metadata));
                &&& mls.len() == 0 ==> d@.len() == 1 && d@[0] == spec_row(
                    *self,
                    file_size_bytes,
                    None::<AnnotationInfo>,
                )
                &&& mls.len() > 0 ==> d@.len() == mls.len() && (forall|i: int|
                    0 <= i < mls.len() ==> d@[i] == spec_row(
                        *self,
                        file_size_bytes,
                        Some(mls[i]),
                    ))
            }),
    {
        let mut rows: Vec<Row> = Vec::new();
        match &self.metadata.annotations {
            None => {
                proof {
                    assert(spec_annotations(self.metadata) =~= Seq::<AnnotationInfo>::empty());
                }
                let row = self.project_row(file_size_bytes, None);
                rows.push(row);
            },
            Some(v) => {
                let ghost anns = v@;
                proof {
                    assert(spec_annotations(self.metadata) == anns);
                }
                let n = v.len();
                let mut i: usize = 0;
                while i < n
                    invariant
                        i <= n,
                        rows@.len() == spec_ml_of(anns.take(i as int)).len(),
                        forall|k: int|
                            0 <= k < rows@.len() ==> rows@[k]@ == spec_row(
                                *self,
                                file_size_bytes,
                                Some(spec_ml_of(anns.take(i as int))[k]),
                            ),
                    decreases n - i,
                {
                    proof {
                        assert(anns.take(i + 1) =~= anns.take(i as int).push(anns[i as int]));
                        lemma_ml_of_push(anns.take(i as int), anns[i as int]);
                    }
                    if self.is_ml_annotation(&v[i]) {
                        let row = self.project_row(file_size_bytes, Some(&v[i]));
                        rows.push(row);
                    }
                    i += 1;
                }
                proof {
                    assert(anns.take(n as int) =~= anns);
                }
                if rows.len() == 0 {
                    let row = self.project_row(file_size_bytes, None);
                    rows.push(row);
                }
            },
        }
        Dataset { rows }
    }

    /// Projects this parsed file's rows; alias of [`Self::to_summary_rows`].
    pub fn to_summary_row(&self, file_size_bytes: Option<u64>) -> (d: Dataset)
        ensures
            ({
                let mls = spec_ml_of(spec_annotations(self.metadata));
                &&& mls.len() == 0 ==> d@.len() == 1 && d@[0] == spec_row(
                    *self,
                    file_size_bytes,
                    None::<AnnotationInfo>,
                )
                &&& mls.len() > 0 ==> d@.len() == mls.len() && (forall|i: int|
                    0 <= i < mls.len() ==> d@[i] == spec_row(
                        *self,
                        file_size_bytes,
                        Some(mls[i]),
                    ))
            }),
    {
        self.to_summary_rows(file_size_bytes)
    }

    /// The recording's sample rate.
    pub fn sample_rate(&self) -> (r: Fixed)
        ensures
            r == self.metadata.global.sample_rate,
    {
        self.metadata.global.sample_rate
    }

    /// The document's annotations, if any.
    pub fn get_annotations(&self) -> (r: Option<&Vec<AnnotationInfo>>)
        ensures
            match r {
                Some(v) => self.metadata.annotations == Some(*v),
                None => self.metadata.annotations is None,
            },
    {
        self.metadata.annotations.as_ref()
    }

    /// The document's captures.
    pub fn get_captures(&self) -> (r: &Vec<CaptureInfo>)
        ensures
            *r == self.metadata.captures,
    {
        &self.metadata.captures
    }
}

} // verus!
