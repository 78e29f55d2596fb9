use sig_viewer::dataset::Dataset;
use sig_viewer::errors::SigError;
use sig_viewer::filter::PredKind;
use sig_viewer::filter::apply_filters;
use sig_viewer::filter::cell_passes;
use sig_viewer::filter::parse_bool;
use sig_viewer::numeric::FIXED_SCALE;
use sig_viewer::numeric::Fixed;
use sig_viewer::row::CellValue;
use sig_viewer::row::Row;

fn default_row() -> Row {
    Row {
        meta_filename: "m.sigmf-meta".to_string(),
        data_filename: "m.sigmf-data".to_string(),
        num_samples: 0,
        file_size_bytes: 0,
        duration_s: Fixed::from_units(0),
        sample_rate_hz: Fixed::from_units(0),
        datatype: "cf32_le".to_string(),
        sigmf_version: "1.0.0".to_string(),
        author: String::new(),
        hardware: String::new(),
        latitude: Fixed::from_units(0),
        longitude: Fixed::from_units(0),
        geo_type: String::new(),
        center_freq_hz: Fixed::from_units(0),
        capture_datetime: String::new(),
        gain: Fixed::from_units(0),
        agc: false,
        sequence_num: 0,
        snr_db: Fixed::from_units(0),
        power_dbm: Fixed::from_units(0),
        power_dbfs: Fixed::from_units(0),
        sig_bandwidth_hz: Fixed::from_units(0),
        sig_center_freq_hz: Fixed::from_units(0),
        ml_ask_prob: Fixed::from_units(0),
        ml_psk_prob: Fixed::from_units(0),
        ml_fsk_prob: Fixed::from_units(0),
        ml_am_prob: Fixed::from_units(0),
        ml_fm_prob: Fixed::from_units(0),
        ml_ook_prob: Fixed::from_units(0),
        ml_chirp_prob: Fixed::from_units(0),
        ml_constellation_prob: Fixed::from_units(0),
        ml_css_prob: Fixed::from_units(0),
        ml_wifi_prob: Fixed::from_units(0),
        ml_cell_prob: Fixed::from_units(0),
        ml_radar_prob: Fixed::from_units(0),
        ml_no_sig: false,
        sig_uuid: String::new(),
        sdr_handle: String::new(),
        freq_lower_edge_hz: Fixed::from_units(0),
        freq_upper_edge_hz: Fixed::from_units(0),
    }
}

fn snr_row(units: i128) -> Row {
    let mut r = default_row();
    r.snr_db = Fixed::from_units(units);
    r
}

fn filters(entries: &[(&str, &str)]) -> Vec<(String, String)> {
    entries.iter().map(|(k, v)| (k.to_string(), v.to_string())).collect()
}

#[test]
fn float_filter_keeps_values_at_least_the_number() {
    // Values 1.0, 5.0, 9.0 with filter text "5" keep exactly 5.0 and 9.0.
    let d = Dataset {
        rows: vec![
            snr_row(1 * FIXED_SCALE),
            snr_row(5 * FIXED_SCALE),
            snr_row(9 * FIXED_SCALE),
        ],
    };
    let out = apply_filters(&d, &filters(&[("snr_db", "5")])).unwrap();
    assert_eq!(out.height(), 2);
    assert_eq!(out.get_row(0).snr_db, Fixed::from_units(5 * FIXED_SCALE));
    assert_eq!(out.get_row(1).snr_db, Fixed::from_units(9 * FIXED_SCALE));
}

#[test]
fn boolean_filter_is_case_insensitive() {
    let mut on = default_row();
    on.agc = true;
    let off = default_row();
    let d = Dataset { rows: vec![off, on] };
    let out = apply_filters(&d, &filters(&[("agc", "TRUE")])).unwrap();
    assert_eq!(out.height(), 1);
    assert!(out.get_row(0).agc);
    let out = apply_filters(&d, &filters(&[("agc", "False")])).unwrap();
    assert_eq!(out.height(), 1);
    assert!(!out.get_row(0).agc);
}

#[test]
fn string_filter_requires_exact_equality() {
    let mut a = default_row();
    a.sig_uuid = "alpha".to_string();
    let mut b = default_row();
    b.sig_uuid = "alphabet".to_string();
    let d = Dataset { rows: vec![a, b] };
    let out = apply_filters(&d, &filters(&[("sig_uuid", "alpha")])).unwrap();
    assert_eq!(out.height(), 1);
    assert_eq!(out.get_row(0).sig_uuid, "alpha");
}

#[test]
fn integer_filter_on_unsigned_column() {
    let mut a = default_row();
    a.num_samples = 10;
    let mut b = default_row();
    b.num_samples = 100;
    let d = Dataset { rows: vec![a, b] };
    let out = apply_filters(&d, &filters(&[("num_samples", "50")])).unwrap();
    assert_eq!(out.height(), 1);
    assert_eq!(out.get_row(0).num_samples, 100);
    // A negative bound keeps every unsigned value.
    let out = apply_filters(&d, &filters(&[("num_samples", "-3")])).unwrap();
    assert_eq!(out.height(), 2);
}

#[test]
fn unparsable_numeric_text_constrains_nothing() {
    let d = Dataset { rows: vec![snr_row(1), snr_row(2)] };
    let out = apply_filters(&d, &filters(&[("snr_db", "not-a-number")])).unwrap();
    assert_eq!(out.height(), 2);
    let out = apply_filters(&d, &filters(&[("agc", "maybe")])).unwrap();
    assert_eq!(out.height(), 2);
}

#[test]
fn blank_mapping_returns_the_dataset_unchanged() {
    let d = Dataset { rows: vec![snr_row(1), snr_row(2), snr_row(3)] };
    let out = apply_filters(&d, &filters(&[("snr_db", ""), ("sig_uuid", "")])).unwrap();
    assert!(out.eq_dataset(&d));
}

#[test]
fn blank_entry_with_unknown_name_is_ignored() {
    let d = Dataset { rows: vec![snr_row(1)] };
    let out = apply_filters(&d, &filters(&[("no_such_column", "")])).unwrap();
    assert!(out.eq_dataset(&d));
}

#[test]
fn filtering_twice_equals_filtering_once() {
    let d = Dataset {
        rows: vec![snr_row(1 * FIXED_SCALE), snr_row(5 * FIXED_SCALE), snr_row(9 * FIXED_SCALE)],
    };
    let m = filters(&[("snr_db", "5")]);
    let once = apply_filters(&d, &m).unwrap();
    let twice = apply_filters(&once, &m).unwrap();
    assert!(twice.eq_dataset(&once));
}

#[test]
fn filtering_commutes_with_concatenation() {
    let a = Dataset { rows: vec![snr_row(1 * FIXED_SCALE), snr_row(9 * FIXED_SCALE)] };
    let b = Dataset { rows: vec![snr_row(5 * FIXED_SCALE), snr_row(0)] };
    let m = filters(&[("snr_db", "5")]);
    let fa = apply_filters(&a, &m).unwrap();
    let fb = apply_filters(&b, &m).unwrap();
    let whole = Dataset { rows: a.rows.into_iter().chain(b.rows.into_iter()).collect() };
    let fw = apply_filters(&whole, &m).unwrap();
    let glued = fa.concat(fb);
    assert!(fw.eq_dataset(&glued));
}

#[test]
fn conjoined_predicates_all_apply() {
    let mut a = default_row();
    a.snr_db = Fixed::from_units(10 * FIXED_SCALE);
    a.sig_uuid = "keep".to_string();
    let mut b = default_row();
    b.snr_db = Fixed::from_units(10 * FIXED_SCALE);
    b.sig_uuid = "drop".to_string();
    let mut c = default_row();
    c.snr_db = Fixed::from_units(1 * FIXED_SCALE);
    c.sig_uuid = "keep".to_string();
    let d = Dataset { rows: vec![a, b, c] };
    let out = apply_filters(&d, &filters(&[("snr_db", "5"), ("sig_uuid", "keep")])).unwrap();
    assert_eq!(out.height(), 1);
    assert_eq!(out.get_row(0).sig_uuid, "keep");
    assert_eq!(out.get_row(0).snr_db, Fixed::from_units(10 * FIXED_SCALE));
}

#[test]
fn unknown_column_with_text_is_an_error() {
    let d = Dataset { rows: vec![default_row()] };
    match apply_filters(&d, &filters(&[("no_such_column", "5")])) {
        Err(SigError::FilterEvaluationError(c)) => assert_eq!(c, "no_such_column"),
        _ => panic!("expected a filter-evaluation error"),
    }
}

#[test]
fn signed_integer_cells_compare_against_the_bound() {
    // No schema column is signed today; the predicate semantics are still
    // defined and reachable through the cell predicate itself.
    let cell = CellValue::I(-5);
    assert!(cell_passes(&cell, &PredKind::IntGe(-10)));
    assert!(!cell_passes(&cell, &PredKind::IntGe(0)));
}

#[test]
fn parse_bool_accepts_only_true_and_false() {
    assert_eq!(parse_bool("true"), Some(true));
    assert_eq!(parse_bool("TRUE"), Some(true));
    assert_eq!(parse_bool("FaLsE"), Some(false));
    assert_eq!(parse_bool("yes"), None);
    assert_eq!(parse_bool(""), None);
}
