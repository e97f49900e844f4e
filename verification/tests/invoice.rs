use sloppy::invoice::{
    columns_unreadable, invoice_from_columns, invoice_from_row, invoice_row_unreadable,
    join_amount_halves, parse_json_columns, try_invoice_from_row, JsonColumns, RowError, SqlValue,
    TransactionKind,
};

fn text(s: &str) -> SqlValue {
    SqlValue::Text(s.as_bytes().to_vec())
}

fn full_row() -> Vec<SqlValue> {
    vec![
        text("\"incoming\""),
        text("lnbc1"),
        SqlValue::Null,
        text(""),
        text("pre"),
        text("hash"),
        SqlValue::Integer(1),
        SqlValue::Integer(5),
        SqlValue::Integer(0),
        SqlValue::Integer(7),
        text("1700000000"),
        text("null"),
        text("1700000100"),
        text("{\"k\": [1, 2]}"),
    ]
}

#[test]
fn reads_a_full_row() {
    let row = full_row();
    assert!(!invoice_row_unreadable(&row));
    let rec = invoice_from_row(&row).unwrap();
    assert_eq!(rec.transaction_type, Some(TransactionKind::Incoming));
    assert_eq!(rec.invoice.as_deref(), Some("lnbc1"));
    assert_eq!(rec.description, None);
    assert_eq!(rec.description_hash.as_deref(), Some(""));
    assert_eq!(rec.preimage.as_deref(), Some("pre"));
    assert_eq!(rec.payment_hash, "hash");
    assert_eq!(rec.amount, (1u64 << 32) | 5);
    assert_eq!(rec.fees_paid, 7);
    assert_eq!(rec.created_at, 1_700_000_000);
    assert_eq!(rec.expires_at, None);
    assert_eq!(rec.settled_at, Some(1_700_000_100));
    assert_eq!(rec.metadata, Some(serde_json::from_str::<serde_json::Value>("{\"k\": [1, 2]}").unwrap()));
}

#[test]
fn missing_payment_hash_fails() {
    let mut row = full_row();
    row[5] = SqlValue::Null;
    assert_eq!(try_invoice_from_row(&row).unwrap().unwrap_err(), RowError::InvalidColumnType(5));
    row[5] = SqlValue::Text(vec![0xff]);
    assert_eq!(invoice_from_row(&row).unwrap_err(), RowError::ConversionFailure(5));
    row.truncate(5);
    assert_eq!(invoice_from_row(&row).unwrap_err(), RowError::InvalidColumnIndex(5));
}

#[test]
fn amounts_must_be_integers() {
    let mut row = full_row();
    row[8] = SqlValue::Real;
    assert_eq!(invoice_from_row(&row).unwrap_err(), RowError::InvalidColumnType(8));
    let mut row = full_row();
    row[13] = SqlValue::Integer(3);
    assert_eq!(invoice_from_row(&row).unwrap_err(), RowError::InvalidColumnType(13));
}

#[test]
fn bad_json_makes_a_row_unreadable() {
    let mut row = full_row();
    row[0] = text("incoming");
    assert!(invoice_row_unreadable(&row));
    assert!(try_invoice_from_row(&row).is_none());
    let mut row = full_row();
    row[12] = text("null");
    assert!(invoice_row_unreadable(&row));
    let mut row = full_row();
    row[10] = SqlValue::Null;
    assert!(invoice_row_unreadable(&row));
    let mut row = full_row();
    row[13] = text("{");
    assert!(invoice_row_unreadable(&row));
    // an earlier error wins over a later panic
    let mut row = full_row();
    row[6] = SqlValue::Null;
    row[10] = SqlValue::Null;
    assert!(!invoice_row_unreadable(&row));
    assert_eq!(invoice_from_row(&row).unwrap_err(), RowError::InvalidColumnType(6));
}

#[test]
fn optional_columns_tolerate_nulls() {
    let mut row = full_row();
    row[0] = SqlValue::Null;
    row[11] = text("42");
    row[13] = SqlValue::Null;
    let rec = invoice_from_row(&row).unwrap();
    assert_eq!(rec.transaction_type, None);
    assert_eq!(rec.expires_at, Some(42));
    assert_eq!(rec.metadata, None);
    let mut row = full_row();
    row[0] = text("null");
    assert_eq!(invoice_from_row(&row).unwrap().transaction_type, None);
    row[0] = text(" \"outgoing\" ");
    assert_eq!(invoice_from_row(&row).unwrap().transaction_type, Some(TransactionKind::Outgoing));
}

#[test]
fn halves_join_into_an_amount() {
    assert_eq!(join_amount_halves(0, 0), 0);
    assert_eq!(join_amount_halves(1, 0), 1 << 32);
    assert_eq!(join_amount_halves(0, -1), u64::MAX);
    for a in [0u64, 1, 0xffff_ffff, 0x1_0000_0000, 123_456_789_012_345, u64::MAX] {
        assert_eq!(join_amount_halves((a >> 32) as i64, (a & 0xffff_ffff) as i64), a);
    }
}

fn parsed_full_row() -> JsonColumns {
    JsonColumns {
        transaction_type: Some(Some(TransactionKind::Incoming)),
        created_at: Some(Some(1_700_000_000)),
        expires_at: Some(None),
        settled_at: Some(Some(Some(1_700_000_100))),
        metadata: Some(serde_json::Value::Bool(true)),
    }
}

#[test]
fn json_columns_parse_the_stored_texts() {
    let j = parse_json_columns(&full_row());
    assert_eq!(j.transaction_type, Some(Some(TransactionKind::Incoming)));
    assert_eq!(j.created_at, Some(Some(1_700_000_000)));
    assert_eq!(j.expires_at, Some(None));
    assert_eq!(j.settled_at, Some(Some(Some(1_700_000_100))));
    assert_eq!(j.metadata, Some(serde_json::from_str::<serde_json::Value>("{\"k\": [1, 2]}").unwrap()));
    let mut row = full_row();
    row[0] = text("incoming");
    row[10] = SqlValue::Null;
    row[13] = SqlValue::Null;
    let j = parse_json_columns(&row);
    assert_eq!(j.transaction_type, None);
    assert_eq!(j.created_at, None);
    assert_eq!(j.metadata, None);
}

#[test]
fn reads_a_row_with_given_json_columns() {
    let row = full_row();
    assert!(!columns_unreadable(&row, &parsed_full_row()));
    let rec = invoice_from_columns(&row, parsed_full_row()).unwrap();
    assert_eq!(rec.transaction_type, Some(TransactionKind::Incoming));
    assert_eq!(rec.payment_hash, "hash");
    assert_eq!(rec.amount, (1u64 << 32) | 5);
    assert_eq!(rec.created_at, 1_700_000_000);
    assert_eq!(rec.expires_at, None);
    assert_eq!(rec.settled_at, Some(1_700_000_100));
    assert_eq!(rec.metadata, Some(serde_json::Value::Bool(true)));
    // a column without text is not consulted
    let mut row = full_row();
    row[0] = SqlValue::Null;
    row[13] = SqlValue::Null;
    let rec = invoice_from_columns(&row, parsed_full_row()).unwrap();
    assert_eq!(rec.transaction_type, None);
    assert_eq!(rec.metadata, None);
}

#[test]
fn given_json_columns_that_failed_make_a_row_unreadable() {
    let row = full_row();
    let mut j = parsed_full_row();
    j.settled_at = Some(None);
    assert!(columns_unreadable(&row, &j));
    let mut j = parsed_full_row();
    j.metadata = None;
    assert!(columns_unreadable(&row, &j));
    let mut j = parsed_full_row();
    j.created_at = None;
    assert!(columns_unreadable(&row, &j));
    let mut row = full_row();
    row[7] = SqlValue::Null;
    assert!(!columns_unreadable(&row, &j));
    assert_eq!(invoice_from_columns(&row, j).unwrap_err(), RowError::InvalidColumnType(7));
}
