use oci_core::cursor::{Cursor, CursorState, CursorStep, FetchOutcome, Field};
use oci_core::error::OciError;
use oci_core::indicator_is_null;
use oci_core::types::OciDataType;

fn integer_field() -> Field {
    Field::new(vec![0u8; 8], -1, OciDataType::Integer)
}

#[test]
fn field_is_null_iff_indicator_is_minus_one() {
    for indicator in [-3i16, -2, -1, 0, 1, 2, 100, i16::MIN, i16::MAX] {
        let f = Field::new(vec![0u8; 4], indicator, OciDataType::Text);
        assert_eq!(f.is_null(), indicator == -1);
        assert_eq!(indicator_is_null(indicator), indicator == -1);
    }
}

#[test]
fn fresh_cursor_is_active_at_row_zero() {
    let c = Cursor::new(vec![integer_field()]);
    assert_eq!(c.state, CursorState::Active);
    assert_eq!(c.current_row, 0);
    assert_eq!(c.fields.len(), 1);
}

#[test]
fn row_outcome_yields_snapshot_and_counts_the_row() {
    let mut c = Cursor::new(vec![integer_field(), integer_field()]);
    let step = c.advance(FetchOutcome::Row(vec![
        (vec![1, 2, 3, 4, 5, 6, 7, 8], 0),
        (vec![], -1),
    ]));
    match step {
        CursorStep::Row(row) => {
            assert_eq!(row.columns, vec![vec![1, 2, 3, 4, 5, 6, 7, 8], vec![]]);
            assert_eq!(row.nulls, vec![false, true]);
        }
        _ => panic!("expected a row"),
    }
    assert_eq!(c.state, CursorState::Active);
    assert_eq!(c.current_row, 1);
    assert_eq!(c.fields[0].buffer, vec![1, 2, 3, 4, 5, 6, 7, 8]);
    assert_eq!(c.fields[0].indicator, 0);
    assert!(!c.fields[0].is_null());
    assert!(c.fields[1].is_null());
}

#[test]
fn exhaustion_is_idempotent() {
    let mut c = Cursor::new(vec![integer_field()]);
    assert!(matches!(c.advance(FetchOutcome::NoData), CursorStep::End));
    assert_eq!(c.state, CursorState::Exhausted);
    // a later advance yields nothing, whatever the native layer would report
    assert!(matches!(
        c.advance(FetchOutcome::Row(vec![(vec![9, 9, 9, 9, 9, 9, 9, 9], 0)])),
        CursorStep::End
    ));
    assert!(matches!(c.advance(FetchOutcome::NoData), CursorStep::End));
    assert_eq!(c.state, CursorState::Exhausted);
    assert_eq!(c.current_row, 0);
}

#[test]
fn fetch_failure_is_yielded_once_then_treated_as_end() {
    let mut c = Cursor::new(vec![integer_field()]);
    let step = c.advance(FetchOutcome::Failure(vec![b'O', b'R', b'A']));
    match step {
        CursorStep::Failure(OciError::CommandFailure(d)) => assert_eq!(d, b"ORA".to_vec()),
        _ => panic!("expected the fetch failure as the yielded item"),
    }
    assert_eq!(c.state, CursorState::Failed);
    // defensively, further advances yield an immediate end
    assert!(matches!(
        c.advance(FetchOutcome::Row(vec![(vec![1, 2, 3, 4, 5, 6, 7, 8], 0)])),
        CursorStep::End
    ));
    assert_eq!(c.state, CursorState::Failed);
}

#[test]
fn row_counter_counts_every_fetched_row() {
    let mut c = Cursor::new(vec![integer_field()]);
    for k in 1..=5u32 {
        let step = c.advance(FetchOutcome::Row(vec![(vec![k as u8; 8], 0)]));
        assert!(matches!(step, CursorStep::Row(_)));
        assert_eq!(c.current_row, k);
    }
    assert!(matches!(c.advance(FetchOutcome::NoData), CursorStep::End));
    assert_eq!(c.current_row, 5);
}

#[test]
fn fixed_width_bytes_round_trip_through_bind_and_fetch() {
    // bind a fixed-width integer value, then fetch it back through a
    // matching-type column: the byte content is reproduced identically
    let mut stmt = oci_core::stmt::Statement::prepare("SELECT v FROM t");
    let value: Vec<u8> = vec![0x11, 0x22, 0x33, 0x44, 0x55, 0x66, 0x77, 0x88];
    let bind = stmt.bind(OciDataType::Integer, Some(value.clone()));
    assert_eq!(bind.bytes, value);

    let mut fields: Vec<Field> = Vec::new();
    stmt.define(&mut fields, oci_core::types::SQLT_INT, 8, 1).unwrap();
    let mut cursor = Cursor::new(fields);
    // a matching-type column echoes the bound bytes back from the fetch
    let step = cursor.advance(FetchOutcome::Row(vec![(bind.bytes.clone(), 0)]));
    match step {
        CursorStep::Row(row) => assert_eq!(row.columns[0], value),
        _ => panic!("expected a row"),
    }
    assert_eq!(cursor.fields[0].buffer, value);
}
