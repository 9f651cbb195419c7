use preaching_partner::datatypes::{
    AddressDetails, AddressError, AddressTags, CategoryDetails, CongDetails, DbError, GroupDetails,
    MapDetails, StreetDetails, UserPublicDetails,
};
use preaching_partner::queries::{self, SqlValue, Statement};
use preaching_partner::rows;

fn text(v: &SqlValue) -> &str {
    match v {
        SqlValue::Text(s) => s.as_str(),
        other => panic!("expected text, got {:?}", other),
    }
}

fn uint(v: &SqlValue) -> u32 {
    match v {
        SqlValue::Uint(n) => *n,
        other => panic!("expected an integer, got {:?}", other),
    }
}

fn cong(remove: bool, updated: u32) -> CongDetails {
    CongDetails { cong_id: 7, cong_name: "North".to_string(), remove, updated }
}

#[test]
fn save_tokens_store_lowercase_hex() {
    let token = [0xabu8; 32];
    let s: Statement = queries::save_access_token(&token);
    assert_eq!(s.sql, "INSERT INTO tokens(refresh, token) VALUES (false, ?)");
    assert_eq!(s.binds.len(), 1);
    assert_eq!(text(&s.binds[0]), "ab".repeat(32));
    let r = queries::save_refresh_token(&[0x01u8; 32]);
    assert_eq!(r.sql, "INSERT INTO tokens(refresh, token) VALUES (true, ?)");
    assert_eq!(text(&r.binds[0]), "01".repeat(32));
}

#[test]
fn token_reads_select_by_kind() {
    assert_eq!(queries::get_refresh_token().sql, "SELECT token FROM tokens WHERE refresh = true");
    assert_eq!(queries::get_access_token().sql, "SELECT token FROM tokens WHERE refresh = false");
    assert!(queries::get_access_token().binds.is_empty());
}

#[test]
fn congregation_timestamps_are_hex_of_hex_of_msgpack() {
    // 300 is 0xcd 0x01 0x2c in MessagePack, "cd012c" in hex, and that text in hex again.
    let s = queries::add_congregation(cong(false, 300));
    assert_eq!(s.sql, "INSERT INTO congregation(id, name, updated) VALUES (?, ?, ?)");
    assert_eq!(uint(&s.binds[0]), 7);
    assert_eq!(text(&s.binds[1]), "North");
    assert_eq!(text(&s.binds[2]), "636430313263");
    let u = queries::update_congregation(cong(false, 5));
    assert_eq!(u.sql, "UPDATE congregation SET name = ?, updated = ? WHERE id = ?");
    // 5 is the fixint 0x05: "05", then "3035".
    assert_eq!(text(&u.binds[1]), "3035");
    assert_eq!(uint(&u.binds[2]), 7);
}

#[test]
fn removed_congregation_is_deleted() {
    let s = queries::update_congregation(cong(true, 5));
    assert_eq!(s.sql, "DELETE FROM congregation WHERE id = ?");
    assert_eq!(s.binds.len(), 1);
    assert_eq!(uint(&s.binds[0]), 7);
}

#[test]
fn category_timestamps_encode_each_width() {
    let category = |updated: u32, remove: bool| CategoryDetails {
        id: 3,
        name: "Town".to_string(),
        prefix: "T".to_string(),
        congregation: 7,
        updated,
        remove,
    };
    // 200 needs the 0xcc marker, 70000 the 0xce marker.
    assert_eq!(text(&queries::add_category(category(200, false)).binds[4]), "ccc8");
    assert_eq!(text(&queries::add_category(category(70000, false)).binds[4]), "ce00011170");
    assert_eq!(text(&queries::add_category(category(127, false)).binds[4]), "7f");
    let u = queries::update_category(category(1, false));
    assert_eq!(
        u.sql,
        "UPDATE categories SET name = ?, prefix = ?, congregation = ?, updated = ? WHERE id = ?"
    );
    assert_eq!(text(&u.binds[3]), "3031");
    // A removed category is deleted from the congregation table.
    let d = queries::update_category(category(1, true));
    assert_eq!(d.sql, "DELETE FROM congregation WHERE id = ?");
    assert_eq!(uint(&d.binds[0]), 3);
}

#[test]
fn service_group_is_deleted_by_either_flag() {
    let group = |group_deleted: bool, pair_deleted: bool| GroupDetails {
        id: 4,
        name: "Group".to_string(),
        cong: 7,
        elder: 9,
        updated: 65536,
        group_deleted,
        pair_deleted,
    };
    assert_eq!(queries::update_service_group(group(false, true)).sql, "DELETE FROM service_group WHERE id = ?");
    assert_eq!(queries::update_service_group(group(true, false)).sql, "DELETE FROM service_group WHERE id = ?");
    let u = queries::update_service_group(group(false, false));
    assert_eq!(uint(&u.binds[2]), 9);
    // 65536 is 0xce 00 01 00 00.
    assert_eq!(text(&u.binds[3]), "63653030303130303030");
    let a = queries::add_service_group(group(false, false));
    assert_eq!(text(&a.binds[4]), "ce00010000");
}

#[test]
fn maps_users_streets_and_logs() {
    let map = MapDetails {
        id: 1,
        name: "Map".to_string(),
        image_name: "map.png".to_string(),
        assignee: 2,
        assigner: 3,
        image: Some(vec![1, 2]),
        category: 4,
        deleted: false,
    };
    let a = queries::add_map(&map);
    assert_eq!(text(&a.binds[5]), "map.png");
    assert_eq!(uint(&a.binds[4]), 4);
    let u = queries::update_map(&map);
    assert_eq!(text(&u.binds[1]), "map.png");
    assert_eq!(uint(&u.binds[5]), 1);
    let gone = MapDetails { deleted: true, ..map };
    assert_eq!(queries::update_map(&gone).sql, "DELETE FROM maps WHERE id = ?");
    let user = UserPublicDetails { id: 8, name: "Ann".to_string(), deleted: false };
    assert_eq!(queries::update_user(user).sql, "UPDATE users SET name = ? WHERE id = ?");
    assert_eq!(
        queries::update_user(UserPublicDetails { id: 8, name: "Ann".to_string(), deleted: true }).sql,
        "DELETE FROM users WHERE id = ?"
    );
    let street = StreetDetails { id: 5, map_id: 1, name: "High St".to_string(), deleted: false };
    assert_eq!(text(&queries::update_street(&street).binds[1]), "High St");
    assert_eq!(uint(&queries::get_streets(1).binds[0]), 1);
    let log = queries::add_log(0, "hello", 99);
    assert_eq!(log.sql, "INSERT INTO logs(code, message, timestamp) VALUES (?, ?, ?)");
    assert_eq!(text(&log.binds[1]), "hello");
    assert_eq!(uint(&log.binds[2]), 99);
    let checked = queries::update_address_checked(6, true);
    assert!(matches!(checked.binds[0], SqlValue::Bool(true)));
}

fn address(deleted: bool) -> AddressDetails {
    AddressDetails {
        id: 6,
        street_id: 5,
        number: "12".to_string(),
        tags: vec![AddressTags::DoNotCall],
        visited: true,
        deleted,
    }
}

#[test]
fn address_writes_need_encoded_tags() {
    match queries::add_address(&address(false), Err("bad".to_string())) {
        Err(DbError::SerialiseError(e)) => assert_eq!(e, "bad"),
        other => panic!("unexpected {:?}", other),
    }
    let s = queries::add_address(&address(false), Ok(vec![0x91, 0xa9])).unwrap();
    assert!(matches!(&s.binds[3], SqlValue::Blob(b) if b == &vec![0x91, 0xa9]));
    assert!(matches!(s.binds[4], SqlValue::Bool(true)));
    // A deleted address is deleted whatever its tags.
    let d = queries::update_address(&address(true), Err("bad".to_string())).unwrap();
    assert_eq!(d.sql, "DELETE FROM addresses WHERE id = ?");
    assert!(matches!(
        queries::update_address(&address(false), Err("bad".to_string())),
        Err(DbError::SerialiseError(_))
    ));
    let u = queries::update_address(&address(false), Ok(vec![0x90])).unwrap();
    assert_eq!(uint(&u.binds[4]), 6);
}

#[test]
fn single_row_counts_rows() {
    let none: Result<Vec<Result<u32, String>>, String> = Ok(vec![]);
    assert!(matches!(rows::single_row(none), Err(DbError::InvalidToken(0))));
    assert!(matches!(rows::single_row(Ok(vec![Ok(1u32), Ok(2)])), Err(DbError::InvalidToken(2))));
    assert!(matches!(rows::single_row(Ok(vec![Ok(5u32)])), Ok(5)));
    match rows::single_row::<u32>(Ok(vec![Err("column".to_string())])) {
        Err(DbError::InvalidRow(e)) => assert_eq!(e, "column"),
        other => panic!("unexpected {:?}", other),
    }
    assert!(matches!(rows::single_row::<u32>(Err("down".to_string())), Err(DbError::QueryFailure(_))));
    assert!(matches!(
        rows::single_address_row(Ok(vec![Err(AddressError::DeserialiseError("x".to_string()))])),
        Err(DbError::AddressFailure(AddressError::DeserialiseError(_)))
    ));
}

#[test]
fn lists_skip_or_stop_at_bad_rows() {
    let fetched: Result<Vec<Result<u32, String>>, String> =
        Ok(vec![Ok(1), Err("x".to_string()), Ok(3)]);
    assert_eq!(rows::rows_skipping_failures(fetched).unwrap(), vec![1, 3]);
    let fetched: Result<Vec<Result<u32, String>>, String> =
        Ok(vec![Ok(1), Err("first".to_string()), Err("second".to_string())]);
    match rows::all_rows(fetched) {
        Err(DbError::InvalidRow(e)) => assert_eq!(e, "first"),
        other => panic!("unexpected {:?}", other),
    }
    assert_eq!(rows::all_rows::<u32>(Ok(vec![Ok(4), Ok(5)])).unwrap(), vec![4, 5]);
    assert!(rows::execution_result(Ok(())).is_ok());
    assert!(matches!(rows::execution_result(Err("x".to_string())), Err(DbError::QueryFailure(_))));
}

#[test]
fn addresses_are_collected_street_after_street() {
    let a = |id: u32| rows::address_row_to_details(id, 5, "1".to_string(), vec![], false);
    let ok = rows::address_rows(vec![Ok(vec![Ok(a(1)), Ok(a(2))]), Ok(vec![]), Ok(vec![Ok(a(3))])]).unwrap();
    assert_eq!(ok.iter().map(|x| x.id).collect::<Vec<_>>(), vec![1, 2, 3]);
    let failed = rows::address_rows(vec![
        Ok(vec![Ok(a(1))]),
        Err("query".to_string()),
        Ok(vec![Err(AddressError::SqlxError("late".to_string()))]),
    ]);
    assert!(matches!(failed, Err(DbError::QueryFailure(e)) if e == "query"));
    let bad = rows::address_rows(vec![Ok(vec![Ok(a(1)), Err(AddressError::SqlxError("tags".to_string()))])]);
    assert!(matches!(bad, Err(DbError::AddressFailure(AddressError::SqlxError(_)))));
}

#[test]
fn stored_token_reads_back() {
    let token: [u8; 32] = core::array::from_fn(|i| (i * 37 + 5) as u8);
    let stored = queries::save_access_token(&token);
    let bytes = text(&stored.binds[0]).as_bytes().to_vec();
    assert!(rows::token_text_fits(&bytes));
    assert_eq!(rows::token_row_to_details(&bytes), Some(token));
}

#[test]
fn token_text_decoding() {
    let upper = "AB".repeat(32);
    assert_eq!(rows::token_row_to_details(upper.as_bytes()), Some([0xab; 32]));
    let not_hex = "zz".repeat(32);
    assert_eq!(rows::token_row_to_details(not_hex.as_bytes()), None);
    assert_eq!(rows::token_row_to_details(b"abc"), None);
    assert!(!rows::token_text_fits(b"abcd"));
    assert!(rows::token_text_fits(b"abc"));
}

#[test]
fn rows_build_stored_details() {
    let c = rows::cong_row_to_details(1, "A".to_string(), 2);
    assert!(!c.remove);
    let g = rows::group_row_to_details(1, "G".to_string(), 2, 3, 4);
    assert!(!g.group_deleted && !g.pair_deleted);
    let m = rows::map_row_to_details(1, "M".to_string(), 2, 3, "f.png".to_string(), 4);
    assert_eq!(m.image_name, "f.png");
    assert!(m.image.is_none() && !m.deleted);
    let d = rows::map_row_to_display_details(1, "M".to_string(), "f.png".to_string(), 4);
    assert_eq!(d.display_name, "M");
    assert!(!rows::street_row_to_details(1, 2, "S".to_string()).deleted);
    assert!(!rows::user_row_to_details(1, "U".to_string()).deleted);
    assert!(!rows::category_row_to_details(1, "C".to_string(), "P".to_string(), 2, 3).remove);
}
