use sig_viewer::pathnames::file_name_of;
use sig_viewer::pathnames::with_extension;
use sig_viewer::row::ColumnId;
use sig_viewer::row::ColumnType;
use sig_viewer::row::column_id_of;
use sig_viewer::row::column_names;
use sig_viewer::row::column_type;

#[test]
fn replaces_an_existing_extension() {
    assert_eq!(with_extension("cap/x.sigmf-meta", "sigmf-data"), "cap/x.sigmf-data");
    assert_eq!(with_extension("x.sigmf-data", "sigmf-meta"), "x.sigmf-meta");
}

#[test]
fn appends_when_there_is_no_extension() {
    assert_eq!(with_extension("cap/x", "sigmf-data"), "cap/x.sigmf-data");
}

#[test]
fn a_leading_dot_is_not_an_extension() {
    assert_eq!(with_extension(".hidden", "sigmf-data"), ".hidden.sigmf-data");
    assert_eq!(with_extension("d/.hidden", "sigmf-data"), "d/.hidden.sigmf-data");
}

#[test]
fn only_the_last_extension_is_replaced() {
    assert_eq!(with_extension("a.b/x.y.z", "w"), "a.b/x.y.w");
}

#[test]
fn dots_in_directories_do_not_count() {
    assert_eq!(with_extension("a.b/x", "w"), "a.b/x.w");
}

#[test]
fn file_name_is_the_last_component() {
    assert_eq!(file_name_of("a/b/c.sigmf-data"), "c.sigmf-data");
    assert_eq!(file_name_of("c.sigmf-data"), "c.sigmf-data");
    assert_eq!(file_name_of("/abs/path/f"), "f");
}

#[test]
fn schema_has_forty_named_columns() {
    let names = column_names();
    assert_eq!(names.len(), 40);
    assert_eq!(names[0], "meta_filename");
    assert_eq!(names[39], "freq_upper_edge_hz");
    // Every listed name resolves to a column.
    for n in &names {
        assert!(column_id_of(n).is_some());
    }
    assert!(column_id_of("not_a_column").is_none());
}

#[test]
fn column_types_dispatch_by_declared_type() {
    assert_eq!(column_type(column_id_of("meta_filename").unwrap()), ColumnType::Str);
    assert_eq!(column_type(column_id_of("snr_db").unwrap()), ColumnType::Float);
    assert_eq!(column_type(column_id_of("num_samples").unwrap()), ColumnType::UInt);
    assert_eq!(column_type(column_id_of("agc").unwrap()), ColumnType::Bool);
    assert_eq!(column_id_of("ml_wifi_prob").unwrap(), ColumnId::MlWifiProb);
}
