use preaching_partner::datatypes::DbError;
use preaching_partner::queries::{self, SqlValue};
use preaching_partner::token_store::read_token;

fn malformed() -> String {
    "pool timed out while waiting for an open connection".to_string()
}

fn stored_text(token: &[u8; 32]) -> Vec<u8> {
    match &queries::save_access_token(token).binds[0] {
        SqlValue::Text(s) => s.as_bytes().to_vec(),
        other => panic!("expected text, got {:?}", other),
    }
}

#[test]
fn saved_token_reads_back() {
    let token: [u8; 32] = core::array::from_fn(|i| (i * 7 + 3) as u8);
    let fetched = Ok(vec![Ok(stored_text(&token))]);
    assert!(matches!(read_token(fetched, malformed()), Ok(t) if t == token));
}

#[test]
fn uppercase_hex_reads_too() {
    let text = "AB".repeat(32).into_bytes();
    assert!(matches!(read_token(Ok(vec![Ok(text)]), malformed()), Ok(t) if t == [0xab; 32]));
}

#[test]
fn no_token_row_is_a_count_of_zero() {
    assert!(matches!(read_token(Ok(vec![]), malformed()), Err(DbError::InvalidToken(0))));
}

#[test]
fn two_token_rows_are_a_count_of_two() {
    let rows = vec![Ok(stored_text(&[1; 32])), Ok(stored_text(&[2; 32]))];
    assert!(matches!(read_token(Ok(rows), malformed()), Err(DbError::InvalidToken(2))));
}

#[test]
fn non_hex_token_row_is_invalid() {
    let rows = vec![Ok(b"zz".repeat(32))];
    assert!(matches!(read_token(Ok(rows), malformed()), Err(DbError::InvalidRow(e)) if e == malformed()));
}

#[test]
fn unreadable_token_column_is_invalid() {
    let rows = vec![Err("no column named token".to_string())];
    assert!(matches!(
        read_token(Ok(rows), malformed()),
        Err(DbError::InvalidRow(e)) if e == "no column named token"
    ));
}

#[test]
fn failed_token_select_is_a_query_failure() {
    assert!(matches!(
        read_token(Err("database is locked".to_string()), malformed()),
        Err(DbError::QueryFailure(e)) if e == "database is locked"
    ));
}
