use sig_viewer::dataset::SigMFDataset;
use sig_viewer::errors::SigError;
use sig_viewer::metadata::AnnotationInfo;
use sig_viewer::metadata::GlobalInfo;
use sig_viewer::metadata::SigMFMetadata;
use sig_viewer::numeric::FIXED_SCALE;
use sig_viewer::numeric::Fixed;
use sig_viewer::parser::FileInput;

fn basic_global(datatype: &str) -> GlobalInfo {
    GlobalInfo {
        datatype: datatype.to_string(),
        sample_rate: Fixed::from_units(FIXED_SCALE),
        version: "1.0.0".to_string(),
        description: None,
        author: None,
        license: None,
        hardware: None,
        geolocation: None,
    }
}

fn ml_annotation(uuid: &str) -> AnnotationInfo {
    AnnotationInfo {
        sample_start: 0,
        sample_count: 0,
        freq_lower_edge: None,
        freq_upper_edge: None,
        analog_am_prob: None,
        analog_fm_prob: None,
        ask_prob: Some(Fixed::from_units(500_000_000)),
        fsk_prob: None,
        psk_prob: None,
        chirp_prob: None,
        constellation_prob: None,
        css_prob: None,
        custom_classifier_probs: None,
        ml_no_sig: None,
        ook_prob: None,
        sdr_handle: None,
        sig_bandwidth: None,
        sig_center_freq: None,
        sig_power_dbfs: None,
        sig_power_dbm: None,
        sig_snr: None,
        uuid: Some(uuid.to_string()),
    }
}

fn good_input(name: &str, uuids: &[&str]) -> FileInput {
    let anns: Vec<AnnotationInfo> = uuids.iter().map(|u| ml_annotation(u)).collect();
    FileInput {
        meta_path: format!("{}.sigmf-meta", name),
        metadata: Some(SigMFMetadata {
            global: basic_global("cf32_le"),
            captures: vec![],
            annotations: if anns.is_empty() { None } else { Some(anns) },
        }),
        data_file_exists: true,
        file_size_bytes: Some(64),
    }
}

fn bad_input(name: &str) -> FileInput {
    FileInput {
        meta_path: format!("{}.sigmf-meta", name),
        metadata: None,
        data_file_exists: true,
        file_size_bytes: None,
    }
}

#[test]
fn empty_directory_fails_with_no_valid_files() {
    match SigMFDataset::assemble(vec![]) {
        Err(SigError::NoValidFiles) => {},
        _ => panic!("expected a no-valid-files error"),
    }
}

#[test]
fn all_failing_inputs_fail_with_no_valid_files() {
    match SigMFDataset::assemble(vec![bad_input("a"), bad_input("b")]) {
        Err(SigError::NoValidFiles) => {},
        _ => panic!("expected a no-valid-files error"),
    }
}

#[test]
fn assembly_preserves_discovery_order() {
    let inputs = vec![
        good_input("a", &["a-1", "a-2"]),
        good_input("b", &[]),
        good_input("c", &["c-1"]),
    ];
    let out = SigMFDataset::assemble(inputs).unwrap();
    let d = out.dataset;
    assert_eq!(d.height(), 4);
    assert_eq!(d.get_row(0).sig_uuid, "a-1");
    assert_eq!(d.get_row(1).sig_uuid, "a-2");
    assert_eq!(d.get_row(2).sig_uuid, "");
    assert_eq!(d.get_row(2).meta_filename, "b.sigmf-meta");
    assert_eq!(d.get_row(3).sig_uuid, "c-1");
    assert!(out.failures.is_empty());
}

#[test]
fn per_file_failures_are_recorded_and_skipped() {
    let inputs = vec![good_input("a", &["a-1"]), bad_input("broken"), good_input("c", &["c-1"])];
    let out = SigMFDataset::assemble(inputs).unwrap();
    assert_eq!(out.dataset.height(), 2);
    assert_eq!(out.dataset.get_row(0).sig_uuid, "a-1");
    assert_eq!(out.dataset.get_row(1).sig_uuid, "c-1");
    assert_eq!(out.failures.len(), 1);
    assert_eq!(out.failures[0].0, "broken.sigmf-meta");
    assert!(matches!(out.failures[0].1, SigError::MetadataParseError(_)));
}

#[test]
fn from_files_is_strict() {
    let inputs = vec![good_input("a", &["a-1"]), bad_input("broken")];
    match SigMFDataset::from_files(inputs) {
        Err(SigError::MetadataParseError(p)) => assert_eq!(p, "broken.sigmf-meta"),
        _ => panic!("expected the failing file's error"),
    }
}

#[test]
fn from_files_empty_list_fails() {
    match SigMFDataset::from_files(vec![]) {
        Err(SigError::NoValidFiles) => {},
        _ => panic!("expected a no-valid-files error"),
    }
}

#[test]
fn from_files_concatenates_in_order() {
    let inputs = vec![good_input("a", &["a-1"]), good_input("b", &["b-1", "b-2"])];
    let d = SigMFDataset::from_files(inputs).unwrap();
    assert_eq!(d.height(), 3);
    assert_eq!(d.get_row(0).sig_uuid, "a-1");
    assert_eq!(d.get_row(1).sig_uuid, "b-1");
    assert_eq!(d.get_row(2).sig_uuid, "b-2");
}
