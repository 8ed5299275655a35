use oci_core::error::OciError;
use oci_core::url::parse_db_string;

#[test]
fn check_parse_database_url_1() {
    let input = "oci://user/password@//localhost:1234/my_database";
    let output = parse_db_string(input).unwrap();
    assert_eq!(
        output,
        (
            "user".into(),
            "password".into(),
            "localhost:1234/my_database".into()
        )
    );
}

#[test]
fn check_parse_database_url_2() {
    let input = "oci://user/password@//localhost/my_database";
    let output = parse_db_string(input).unwrap();
    assert_eq!(
        output,
        (
            "user".into(),
            "password".into(),
            "localhost/my_database".into()
        )
    );
}

#[test]
fn wrong_scheme_is_invalid_url() {
    let r = parse_db_string("postgres://user/password@//localhost/db");
    match r {
        Err(OciError::InvalidConnectionUrl(msg)) => {
            assert_eq!(
                msg,
                "Could not use postgres://user/password@//localhost/db with oci backend"
            );
        }
        other => panic!("expected invalid-URL error, got {:?}", other.is_ok()),
    }
}

#[test]
fn empty_string_is_invalid_url() {
    assert!(matches!(
        parse_db_string(""),
        Err(OciError::InvalidConnectionUrl(_))
    ));
}

#[test]
fn scheme_alone_is_invalid_url() {
    // no second double-slash delimiter at all
    assert!(matches!(
        parse_db_string("oci://user/password@localhost/db"),
        Err(OciError::InvalidConnectionUrl(_))
    ));
}

#[test]
fn extra_double_slash_is_invalid_url() {
    // four segments instead of three
    assert!(matches!(
        parse_db_string("oci://user/password@//localhost//db"),
        Err(OciError::InvalidConnectionUrl(_))
    ));
}

#[test]
fn middle_without_slash_is_invalid_url() {
    // the middle segment lacks the user/password delimiter
    assert!(matches!(
        parse_db_string("oci://userpassword@//localhost/db"),
        Err(OciError::InvalidConnectionUrl(_))
    ));
}

#[test]
fn password_final_character_is_trimmed() {
    let (user, password, host) = parse_db_string("oci://u/p@//h/s").unwrap();
    assert_eq!(user, "u");
    assert_eq!(password, "p");
    assert_eq!(host, "h/s");
}

#[test]
fn empty_password_stays_empty() {
    // the password part is a lone delimiter: trimming leaves it empty
    let (user, password, host) = parse_db_string("oci://u/@//h/s").unwrap();
    assert_eq!(user, "u");
    assert_eq!(password, "");
    assert_eq!(host, "h/s");
}

#[test]
fn host_passes_through_unmodified() {
    let (_, _, host) =
        parse_db_string("oci://user/password@//192.168.2.81:1521/orcl").unwrap();
    assert_eq!(host, "192.168.2.81:1521/orcl");
}
