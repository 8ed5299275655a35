use oci_core::error::OciError;
use oci_core::types::{
    resolve_column_type, ColumnDescriptor, OciDataType, SQLT_AFC, SQLT_BDOUBLE, SQLT_BFLOAT,
    SQLT_CHR, SQLT_DATE, SQLT_FLT, SQLT_IBDOUBLE, SQLT_IBFLOAT, SQLT_INT, SQLT_LNG, SQLT_LVC,
    SQLT_NUM, SQLT_ODT, SQLT_STR, SQLT_TIMESTAMP, SQLT_TIMESTAMP_LTZ, SQLT_TIMESTAMP_TZ,
    SQLT_UIN, SQLT_VCS, SQLT_VST,
};

fn desc(data_type: u32, precision: i16, scale: i8, char_size: u32) -> ColumnDescriptor {
    ColumnDescriptor {
        data_type,
        precision,
        scale,
        char_size,
    }
}

#[test]
fn integer_codes_resolve_to_eight_byte_integer() {
    assert_eq!(
        resolve_column_type(desc(SQLT_INT, 0, 0, 0)).unwrap(),
        (SQLT_INT, 8)
    );
    assert_eq!(
        resolve_column_type(desc(SQLT_UIN, 0, 0, 0)).unwrap(),
        (SQLT_INT, 8)
    );
}

#[test]
fn numeric_scale_zero_resolves_by_precision() {
    assert_eq!(
        resolve_column_type(desc(SQLT_NUM, 5, 0, 0)).unwrap(),
        (SQLT_INT, 2)
    );
    assert_eq!(
        resolve_column_type(desc(SQLT_NUM, 10, 0, 0)).unwrap(),
        (SQLT_INT, 4)
    );
    assert_eq!(
        resolve_column_type(desc(SQLT_NUM, 19, 0, 0)).unwrap(),
        (SQLT_INT, 8)
    );
    assert_eq!(
        resolve_column_type(desc(SQLT_NUM, 38, 0, 0)).unwrap(),
        (SQLT_INT, 21)
    );
    assert_eq!(
        resolve_column_type(desc(SQLT_NUM, 0, 0, 0)).unwrap(),
        (SQLT_INT, 21)
    );
}

#[test]
fn numeric_nonzero_scale_resolves_to_eight_byte_float() {
    assert_eq!(
        resolve_column_type(desc(SQLT_NUM, 10, 2, 0)).unwrap(),
        (SQLT_FLT, 8)
    );
    assert_eq!(
        resolve_column_type(desc(SQLT_NUM, 5, -1, 0)).unwrap(),
        (SQLT_FLT, 8)
    );
}

#[test]
fn double_family_resolves_to_eight_byte_double() {
    for code in [SQLT_BDOUBLE, SQLT_LNG, SQLT_IBDOUBLE] {
        assert_eq!(
            resolve_column_type(desc(code, 0, 0, 0)).unwrap(),
            (SQLT_BDOUBLE, 8)
        );
    }
}

#[test]
fn single_float_family_resolves_to_four_byte_float() {
    for code in [SQLT_FLT, SQLT_BFLOAT, SQLT_IBFLOAT] {
        assert_eq!(
            resolve_column_type(desc(code, 0, 0, 0)).unwrap(),
            (SQLT_BFLOAT, 4)
        );
    }
}

#[test]
fn string_family_takes_width_from_character_size() {
    for code in [
        SQLT_CHR,
        SQLT_VCS,
        SQLT_LVC,
        SQLT_AFC,
        SQLT_VST,
        SQLT_ODT,
        SQLT_DATE,
        SQLT_TIMESTAMP,
        SQLT_TIMESTAMP_TZ,
        SQLT_TIMESTAMP_LTZ,
    ] {
        assert_eq!(
            resolve_column_type(desc(code, 0, 0, 77)).unwrap(),
            (SQLT_STR, 77)
        );
    }
}

#[test]
fn codes_outside_the_table_are_unsupported() {
    for code in [0u32, 113, 250, 999] {
        match resolve_column_type(desc(code, 0, 0, 0)) {
            Err(OciError::UnsupportedType(c)) => assert_eq!(c, code),
            _ => panic!("expected unsupported-type error for code {}", code),
        }
    }
}

#[test]
fn resolution_is_a_pure_stable_function() {
    let d = desc(SQLT_NUM, 10, 0, 0);
    assert_eq!(
        resolve_column_type(d).unwrap(),
        resolve_column_type(d).unwrap()
    );
}

#[test]
fn type_tags_round_trip_through_raw_codes() {
    for tag in [
        OciDataType::Integer,
        OciDataType::Float,
        OciDataType::Double,
        OciDataType::BinaryFloat,
        OciDataType::Text,
        OciDataType::Char,
    ] {
        assert_eq!(OciDataType::from_raw(tag.to_raw()), Some(tag));
    }
    assert_eq!(OciDataType::from_raw(999), None);
}
