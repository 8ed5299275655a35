use oci_core::diag::{
    classify_status, diagnostic_result, extract_diagnostic, StatusClass, OCI_ERROR,
    OCI_INVALID_HANDLE, OCI_NO_DATA, OCI_SUCCESS,
};
use oci_core::error::OciError;

#[test]
fn error_status_asks_for_the_diagnostic() {
    assert_eq!(classify_status(OCI_ERROR), StatusClass::NeedsDiagnostic);
}

#[test]
fn invalid_handle_status_is_its_own_failure() {
    assert_eq!(classify_status(OCI_INVALID_HANDLE), StatusClass::InvalidHandle);
}

#[test]
fn other_statuses_are_treated_as_success() {
    for status in [OCI_SUCCESS, 1, OCI_NO_DATA, 99, -3123] {
        assert_eq!(classify_status(status), StatusClass::Success);
    }
}

#[test]
fn diagnostic_is_cut_at_the_first_terminating_byte() {
    let buf = vec![b'O', b'R', b'A', b'-', b'1', 0, b'x', 0, b'y'];
    assert_eq!(extract_diagnostic(&buf), b"ORA-1".to_vec());
}

#[test]
fn diagnostic_without_terminator_is_taken_whole() {
    let buf = vec![b'a', b'b', b'c'];
    assert_eq!(extract_diagnostic(&buf), b"abc".to_vec());
}

#[test]
fn leading_terminator_gives_an_empty_diagnostic() {
    let buf = vec![0, b'a', b'b'];
    assert_eq!(extract_diagnostic(&buf), Vec::<u8>::new());
}

#[test]
fn no_data_from_the_diagnostic_read_means_success() {
    let buf = vec![0u8; 8];
    assert!(diagnostic_result(OCI_NO_DATA, &buf).is_ok());
}

#[test]
fn any_other_diagnostic_read_is_a_command_failure() {
    let buf = vec![b'O', b'R', b'A', b'-', b'0', b'0', b'9', b'4', b'2', 0, 0];
    match diagnostic_result(OCI_SUCCESS, &buf) {
        Err(OciError::CommandFailure(d)) => assert_eq!(d, b"ORA-00942".to_vec()),
        _ => panic!("expected a command failure carrying the diagnostic"),
    }
}
