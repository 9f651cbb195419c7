use preaching_partner::datatypes::{AddressError, DbError};
use preaching_partner::sync::{failure_report, SyncKind};

#[test]
fn db_error_messages() {
    let cases = vec![
        (DbError::InvalidLocation("x".to_string()), "db not found: x"),
        (DbError::InvalidToken(42), "token returned an invalid number of users: 42"),
        (DbError::InvalidToken(0), "token returned an invalid number of users: 0"),
        (DbError::InvalidRow("x".to_string()), "an invalid row was passed to a parsing function: x"),
        (DbError::ConnectionFailure("x".to_string()), "connection to db failed: x"),
        (DbError::QueryFailure("x".to_string()), "a query failed to run: x"),
        (DbError::SerialiseError("x".to_string()), "failed to serialise data: x"),
        (
            DbError::AddressFailure(AddressError::SqlxError("x".to_string())),
            "something went wrong with the addresses: something went wrong with sqlx: x",
        ),
        (
            DbError::AddressFailure(AddressError::DeserialiseError("x".to_string())),
            "something went wrong with the addresses: something went wrong deserialising the tags: x",
        ),
        (DbError::UnknownError("x".to_string()), "an unknown error occured: x"),
        (DbError::Error, "a dberror::error error occured"),
    ];
    for (error, text) in cases {
        assert_eq!(error.to_message(), text);
    }
}

#[test]
fn sync_failure_reports() {
    let e = DbError::QueryFailure("locked".to_string());
    assert_eq!(failure_report(SyncKind::ServiceGroups, &e), "Syncing groups failed: a query failed to run: locked");
    assert_eq!(
        failure_report(SyncKind::Addresses, &DbError::InvalidToken(1234567)),
        "Syncing addresses failed: token returned an invalid number of users: 1234567"
    );
}
