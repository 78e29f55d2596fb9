use sig_viewer::datatypes::SigMFDataType;
use sig_viewer::errors::SigError;
use sig_viewer::metadata::AnnotationInfo;
use sig_viewer::metadata::CaptureInfo;
use sig_viewer::metadata::CustomClassProbField;
use sig_viewer::metadata::GeoLocation;
use sig_viewer::metadata::GlobalInfo;
use sig_viewer::metadata::SigMFMetadata;
use sig_viewer::numeric::FIXED_SCALE;
use sig_viewer::numeric::Fixed;
use sig_viewer::parser::FileInput;
use sig_viewer::parser::SigMFParser;

fn basic_global(datatype: &str, rate_units: i128) -> GlobalInfo {
    GlobalInfo {
        datatype: datatype.to_string(),
        sample_rate: Fixed::from_units(rate_units),
        version: "1.0.0".to_string(),
        description: None,
        author: None,
        license: None,
        hardware: None,
        geolocation: None,
    }
}

fn blank_annotation() -> AnnotationInfo {
    AnnotationInfo {
        sample_start: 0,
        sample_count: 0,
        freq_lower_edge: None,
        freq_upper_edge: None,
        analog_am_prob: None,
        analog_fm_prob: None,
        ask_prob: None,
        fsk_prob: None,
        psk_prob: None,
        chirp_prob: None,
        constellation_prob: None,
        css_prob: None,
        custom_classifier_probs: None,
        ml_no_sig: None,
        ook_prob: None,
        sdr_handle: None,
        sig_bandwidth: None,
        sig_center_freq: None,
        sig_power_dbfs: None,
        sig_power_dbm: None,
        sig_snr: None,
        uuid: None,
    }
}

fn blank_capture() -> CaptureInfo {
    CaptureInfo {
        sample_start: None,
        frequency: None,
        timestamp: None,
        agc: None,
        gain: None,
        sequence_num: None,
        extra_fields: Vec::new(),
    }
}

fn parse(md: SigMFMetadata) -> SigMFParser {
    let input = FileInput {
        meta_path: "captures/example.sigmf-meta".to_string(),
        metadata: Some(md),
        data_file_exists: true,
        file_size_bytes: Some(64),
    };
    SigMFParser::from_input(input).unwrap()
}

#[test]
fn no_annotations_gives_one_defaulted_row() {
    let md = SigMFMetadata {
        global: basic_global("cf32_le", 8 * FIXED_SCALE),
        captures: vec![],
        annotations: None,
    };
    let d = parse(md).to_summary_rows(Some(64));
    assert_eq!(d.height(), 1);
    let row = d.get_row(0);
    assert_eq!(row.meta_filename, "example.sigmf-meta");
    assert_eq!(row.data_filename, "example.sigmf-data");
    assert_eq!(row.num_samples, 8);
    assert_eq!(row.file_size_bytes, 64);
    // 8 samples at 8 Hz is one second.
    assert_eq!(row.duration_s, Fixed::from_units(FIXED_SCALE));
    assert_eq!(row.snr_db, Fixed::from_units(0));
    assert_eq!(row.power_dbm, Fixed::from_units(0));
    assert_eq!(row.sig_center_freq_hz, Fixed::from_units(0));
    assert_eq!(row.ml_ask_prob, Fixed::from_units(0));
    assert_eq!(row.ml_wifi_prob, Fixed::from_units(0));
    assert!(!row.ml_no_sig);
    assert_eq!(row.sig_uuid, "");
    assert_eq!(row.sdr_handle, "");
    assert_eq!(row.freq_lower_edge_hz, Fixed::from_units(0));
    assert_eq!(row.freq_upper_edge_hz, Fixed::from_units(0));
}

#[test]
fn non_ml_annotations_give_one_defaulted_row() {
    // A descriptive annotation without ML markers does not multiply rows,
    // but its frequency edges still reach the row.
    let mut ann = blank_annotation();
    ann.freq_lower_edge = Some(Fixed::from_units(100 * FIXED_SCALE));
    ann.freq_upper_edge = Some(Fixed::from_units(200 * FIXED_SCALE));
    let md = SigMFMetadata {
        global: basic_global("cf32_le", 8 * FIXED_SCALE),
        captures: vec![],
        annotations: Some(vec![ann]),
    };
    let d = parse(md).to_summary_rows(Some(64));
    assert_eq!(d.height(), 1);
    let row = d.get_row(0);
    assert_eq!(row.sig_uuid, "");
    assert_eq!(row.freq_lower_edge_hz, Fixed::from_units(100 * FIXED_SCALE));
    assert_eq!(row.freq_upper_edge_hz, Fixed::from_units(200 * FIXED_SCALE));
}

#[test]
fn one_row_per_ml_annotation_sharing_context() {
    let mut a1 = blank_annotation();
    a1.ask_prob = Some(Fixed::from_units(900_000_000));
    a1.uuid = Some("sig-1".to_string());
    let mut plain = blank_annotation();
    plain.freq_lower_edge = Some(Fixed::from_units(42));
    let mut a2 = blank_annotation();
    a2.sig_center_freq = Some(Fixed::from_units(100 * FIXED_SCALE));
    a2.uuid = Some("sig-2".to_string());
    let mut cap = blank_capture();
    cap.frequency = Some(Fixed::from_units(915 * FIXED_SCALE));
    let md = SigMFMetadata {
        global: basic_global("ci16_le", 4 * FIXED_SCALE),
        captures: vec![cap],
        annotations: Some(vec![a1, plain, a2]),
    };
    let d = parse(md).to_summary_rows(Some(64));
    // Two of the three annotations are ML annotations.
    assert_eq!(d.height(), 2);
    let r0 = d.get_row(0);
    let r1 = d.get_row(1);
    assert_eq!(r0.sig_uuid, "sig-1");
    assert_eq!(r1.sig_uuid, "sig-2");
    assert_eq!(r0.ml_ask_prob, Fixed::from_units(900_000_000));
    assert_eq!(r1.ml_ask_prob, Fixed::from_units(0));
    // Shared file-, global- and capture-derived fields are identical.
    assert_eq!(r0.meta_filename, r1.meta_filename);
    assert_eq!(r0.data_filename, r1.data_filename);
    assert_eq!(r0.num_samples, r1.num_samples);
    assert_eq!(r0.file_size_bytes, r1.file_size_bytes);
    assert_eq!(r0.duration_s, r1.duration_s);
    assert_eq!(r0.sample_rate_hz, r1.sample_rate_hz);
    assert_eq!(r0.datatype, r1.datatype);
    assert_eq!(r0.center_freq_hz, r1.center_freq_hz);
    assert_eq!(r0.center_freq_hz, Fixed::from_units(915 * FIXED_SCALE));
    // The frequency edges come from the first annotation of the full list,
    // not from each row's own annotation.
    assert_eq!(r0.freq_lower_edge_hz, Fixed::from_units(0));
    assert_eq!(r1.freq_lower_edge_hz, Fixed::from_units(0));
}

#[test]
fn empty_custom_classifier_list_is_not_ml() {
    let mut ann = blank_annotation();
    ann.custom_classifier_probs = Some(vec![]);
    let md = SigMFMetadata {
        global: basic_global("cf32_le", 8 * FIXED_SCALE),
        captures: vec![],
        annotations: Some(vec![ann]),
    };
    let d = parse(md).to_summary_rows(Some(64));
    assert_eq!(d.height(), 1);
    assert_eq!(d.get_row(0).sig_uuid, "");
}

#[test]
fn num_samples_truncates_for_both_datatypes() {
    // 100 bytes of 8-byte samples: 12 whole samples.
    let md = SigMFMetadata {
        global: basic_global("cf32_le", FIXED_SCALE),
        captures: vec![],
        annotations: None,
    };
    let d = parse(md).to_summary_rows(Some(100));
    assert_eq!(d.get_row(0).num_samples, 12);
    assert_eq!(d.get_row(0).file_size_bytes, 100);
    // 100 bytes of 4-byte samples: 25 samples.
    let md = SigMFMetadata {
        global: basic_global("ci16_le", FIXED_SCALE),
        captures: vec![],
        annotations: None,
    };
    let d = parse(md).to_summary_rows(Some(100));
    assert_eq!(d.get_row(0).num_samples, 25);
}

#[test]
fn absent_data_file_projects_zero_counts() {
    let md = SigMFMetadata {
        global: basic_global("cf32_le", FIXED_SCALE),
        captures: vec![],
        annotations: None,
    };
    let d = parse(md).to_summary_rows(None);
    assert_eq!(d.get_row(0).num_samples, 0);
    assert_eq!(d.get_row(0).file_size_bytes, 0);
    assert_eq!(d.get_row(0).duration_s, Fixed::from_units(0));
}

#[test]
fn capture_fields_come_from_first_qualifying_captures() {
    // Frequency, timestamp and gain live on different captures; each field
    // comes from the first capture carrying it.
    let mut c1 = blank_capture();
    c1.timestamp = Some("2024-01-01T00:00:00Z".to_string());
    let mut c2 = blank_capture();
    c2.frequency = Some(Fixed::from_units(100));
    c2.timestamp = Some("later".to_string());
    let mut c3 = blank_capture();
    c3.agc = Some(true);
    c3.sequence_num = Some(7);
    let md = SigMFMetadata {
        global: basic_global("cf32_le", FIXED_SCALE),
        captures: vec![c1, c2, c3],
        annotations: None,
    };
    let d = parse(md).to_summary_rows(Some(8));
    let row = d.get_row(0);
    assert_eq!(row.capture_datetime, "2024-01-01T00:00:00Z");
    assert_eq!(row.center_freq_hz, Fixed::from_units(100));
    assert!(row.agc);
    // The gain capture has no gain value, so gain defaults to zero.
    assert_eq!(row.gain, Fixed::from_units(0));
    assert_eq!(row.sequence_num, 7);
}

#[test]
fn custom_classifier_scores_by_name() {
    let mut ann = blank_annotation();
    ann.custom_classifier_probs = Some(vec![
        CustomClassProbField { class_name: "radar".to_string(), class_prob: Fixed::from_units(250_000_000) },
        CustomClassProbField { class_name: "wifi".to_string(), class_prob: Fixed::from_units(750_000_000) },
        CustomClassProbField { class_name: "lte".to_string(), class_prob: Fixed::from_units(100_000_000) },
    ]);
    let md = SigMFMetadata {
        global: basic_global("cf32_le", FIXED_SCALE),
        captures: vec![],
        annotations: Some(vec![ann]),
    };
    let d = parse(md).to_summary_rows(Some(8));
    assert_eq!(d.height(), 1);
    let row = d.get_row(0);
    assert_eq!(row.ml_wifi_prob, Fixed::from_units(750_000_000));
    assert_eq!(row.ml_radar_prob, Fixed::from_units(250_000_000));
    // No "cell" entry: defaults to zero; the unknown "lte" class is ignored.
    assert_eq!(row.ml_cell_prob, Fixed::from_units(0));
}

#[test]
fn geolocation_coordinates_fill_latitude_and_longitude() {
    let mut g = basic_global("cf32_le", FIXED_SCALE);
    g.geolocation = Some(GeoLocation {
        geo_type: "Point".to_string(),
        coordinates: vec![Fixed::from_units(10), Fixed::from_units(20)],
    });
    g.author = Some("ada".to_string());
    g.hardware = Some("sdr-0".to_string());
    let md = SigMFMetadata { global: g, captures: vec![], annotations: None };
    let d = parse(md).to_summary_rows(Some(8));
    let row = d.get_row(0);
    assert_eq!(row.latitude, Fixed::from_units(10));
    assert_eq!(row.longitude, Fixed::from_units(20));
    assert_eq!(row.geo_type, "Point");
    assert_eq!(row.author, "ada");
    assert_eq!(row.hardware, "sdr-0");
}

#[test]
fn unsupported_datatype_fails_validation() {
    let md = SigMFMetadata {
        global: basic_global("foo_bar", FIXED_SCALE),
        captures: vec![],
        annotations: None,
    };
    let input = FileInput {
        meta_path: "x.sigmf-meta".to_string(),
        metadata: Some(md),
        data_file_exists: true,
        file_size_bytes: Some(8),
    };
    match SigMFParser::from_input(input) {
        Err(SigError::UnsupportedDatatype(s)) => assert_eq!(s, "foo_bar"),
        _ => panic!("expected an unsupported-datatype error"),
    }
}

#[test]
fn missing_data_file_fails_validation() {
    let md = SigMFMetadata {
        global: basic_global("cf32_le", FIXED_SCALE),
        captures: vec![],
        annotations: None,
    };
    let input = FileInput {
        meta_path: "dir/x.sigmf-meta".to_string(),
        metadata: Some(md),
        data_file_exists: false,
        file_size_bytes: None,
    };
    match SigMFParser::from_input(input) {
        Err(SigError::MissingDataFile(p)) => assert_eq!(p, "dir/x.sigmf-data"),
        _ => panic!("expected a missing-data-file error"),
    }
}

#[test]
fn undecodable_document_fails_validation() {
    let input = FileInput {
        meta_path: "bad.sigmf-meta".to_string(),
        metadata: None,
        data_file_exists: true,
        file_size_bytes: Some(8),
    };
    match SigMFParser::from_input(input) {
        Err(SigError::MetadataParseError(p)) => assert_eq!(p, "bad.sigmf-meta"),
        _ => panic!("expected a metadata-parse error"),
    }
}

#[test]
fn parser_getters_expose_the_document() {
    let mut cap = blank_capture();
    cap.gain = Some(Fixed::from_units(30 * FIXED_SCALE));
    let md = SigMFMetadata {
        global: basic_global("cf32_le", 48_000 * FIXED_SCALE),
        captures: vec![cap],
        annotations: Some(vec![blank_annotation()]),
    };
    let p = parse(md);
    assert_eq!(p.sample_rate(), Fixed::from_units(48_000 * FIXED_SCALE));
    assert_eq!(p.get_captures().len(), 1);
    assert_eq!(p.get_annotations().unwrap().len(), 1);
    assert_eq!(p.data_file_path, "captures/example.sigmf-data");
    assert_eq!(p.data_type, SigMFDataType::Cf32Le);
}

#[test]
fn to_summary_row_matches_to_summary_rows() {
    let md = SigMFMetadata {
        global: basic_global("cf32_le", FIXED_SCALE),
        captures: vec![],
        annotations: None,
    };
    let p = parse(md);
    let a = p.to_summary_rows(Some(32));
    let b = p.to_summary_row(Some(32));
    assert!(a.eq_dataset(&b));
}
