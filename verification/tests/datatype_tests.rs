use sig_viewer::datatypes::SigMFDataType;
use sig_viewer::errors::SigError;

#[test]
fn resolves_cf32() {
    let dt = SigMFDataType::from_string("cf32_le").unwrap();
    assert_eq!(dt, SigMFDataType::Cf32Le);
    assert_eq!(dt.sample_size_bytes(), 8);
    assert!(dt.is_complex());
}

#[test]
fn resolves_ci16() {
    let dt = SigMFDataType::from_string("ci16_le").unwrap();
    assert_eq!(dt, SigMFDataType::Ci16Le);
    assert_eq!(dt.sample_size_bytes(), 4);
    assert!(dt.is_complex());
}

#[test]
fn rejects_unknown_datatype() {
    let r = SigMFDataType::from_string("foo_bar");
    match r {
        Err(SigError::UnsupportedDatatype(s)) => assert_eq!(s, "foo_bar"),
        _ => panic!("expected an unsupported-datatype error"),
    }
}

#[test]
fn unsupported_datatype_message_names_the_string() {
    let r = SigMFDataType::from_string("cf64_le");
    match r {
        Err(e) => assert_eq!(e.message(), "unsupported datatype: cf64_le"),
        _ => panic!("expected an error"),
    }
}
