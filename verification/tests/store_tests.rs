use expect_test_bytes::store::{golden_of_read, not_found_to_none, Golden, IoError};

#[test]
fn success_is_wrapped_in_some() {
    assert_eq!(not_found_to_none::<u32>(Ok(5)), Ok(Some(5)));
}

#[test]
fn not_found_becomes_none() {
    assert_eq!(not_found_to_none::<u32>(Err(IoError::NotFound)), Ok(None));
}

#[test]
fn other_errors_are_passed_through() {
    assert_eq!(not_found_to_none::<u32>(Err(IoError::Failure)), Err(IoError::Failure));
}

#[test]
fn read_content_becomes_a_present_record() {
    let r = golden_of_read(Ok(b"example\n".to_vec()));
    match r {
        Ok(Golden::Present(bytes)) => assert_eq!(bytes, b"example\n"),
        _ => panic!("expected a present record"),
    }
}

#[test]
fn missing_file_becomes_an_absent_record() {
    let r = golden_of_read(Err(IoError::NotFound));
    assert!(matches!(r, Ok(Golden::Absent)));
}

#[test]
fn read_failure_stays_an_error() {
    let r = golden_of_read(Err(IoError::Failure));
    assert!(matches!(r, Err(IoError::Failure)));
}
