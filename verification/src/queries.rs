//! The SQL statements of the local database, as plain values: the text of
//! each statement and the values bound to its parameters, in order. Which
//! statement an operation runs, and with what, is decided here; running it
//! is left to the caller.

use vstd::prelude::*;
use crate::datatypes::{
    AddressDetails, CategoryDetails, CongDetails, DbError, GroupDetails, MapDetails, StreetDetails,
    UserPublicDetails,
};
use crate::encoding::{
    ascii_bytes, hex_encode, hex_encode_bytes, hex_encode_text, lemma_hex_text_ascii, msgpack_u32,
    msgpack_uint,
};

verus! {

/// A value bound to a statement parameter.
#[derive(Debug)]
pub enum SqlValue {
    Uint(u32),
    Text(String),
    Blob(Vec<u8>),
    Bool(bool),
}

/// The mathematical content of a `SqlValue`.
pub enum SqlValueView {
    Uint(u32),
    Text(Seq<char>),
    Blob(Seq<u8>),
    Bool(bool),
}

impl View for SqlValue {
    type V = SqlValueView;

    open spec fn view(&self) -> SqlValueView {
        match self {
            SqlValue::Uint(n) => SqlValueView::Uint(*n),
            SqlValue::Text(s) => SqlValueView::Text(s@),
            SqlValue::Blob(b) => SqlValueView::Blob(b@),
            SqlValue::Bool(b) => SqlValueView::Bool(*b),
        }
    }
}

/// A statement: its SQL text and the values of its `?` parameters.
#[derive(Debug)]
pub struct Statement {
    pub sql: &'static str,
    pub binds: Vec<SqlValue>,
}

impl Statement {
    /// The bound values, as mathematical values.
    pub open spec fn binds_view(self) -> Seq<SqlValueView> {
        self.binds@.map_values(|v: SqlValue| v@)
    }

    /// The statement is `sql` with the parameters `binds`.
    pub open spec fn is(self, sql: Seq<char>, binds: Seq<SqlValueView>) -> bool {
        self.sql@ == sql && self.binds_view() == binds
    }
}

/// How a token is stored: its lowercase hexadecimal text.
pub open spec fn stored_token(token: Seq<u8>) -> Seq<char> {
    hex_encode_text(token)
}

/// How a timestamp is stored by the insertions of categories and service
/// groups: the hexadecimal text of its MessagePack encoding.
pub open spec fn stored_timestamp(updated: u32) -> Seq<char> {
    hex_encode_text(msgpack_uint(updated))
}

/// How a timestamp is stored by the other writes: the hexadecimal text of
/// that hexadecimal text.
pub open spec fn stored_timestamp_twice(updated: u32) -> Seq<char> {
    hex_encode_text(hex_encode_bytes(msgpack_uint(updated)))
}

fn timestamp_text(updated: u32) -> (text: String)
    ensures
        text@ == stored_timestamp(updated),
{
    let encoded = msgpack_u32(updated);
    hex_encode(encoded.as_slice())
}

fn timestamp_text_twice(updated: u32) -> (text: String)
    ensures
        text@ == stored_timestamp_twice(updated),
{
    let once = timestamp_text(updated);
    let once_str = once.as_str();
    let bytes = once_str.as_bytes();
    proof {
        lemma_hex_text_ascii(msgpack_uint(updated));
        vstd::string::is_ascii_spec_bytes(once_str);
        assert(bytes@ =~= ascii_bytes(once@));
    }
    hex_encode(bytes)
}

fn token_text(token: &[u8; 32]) -> (text: String)
    ensures
        text@ == stored_token(token@),
{
    hex_encode(token.as_slice())
}

/// Stores an access token.
pub fn save_access_token(token: &[u8; 32]) -> (s: Statement)
    ensures
        s.is(
            "INSERT INTO tokens(refresh, token) VALUES (false, ?)"@,
            seq![SqlValueView::Text(stored_token(token@))],
        ),
{
    let s = Statement {
        sql: "INSERT INTO tokens(refresh, token) VALUES (false, ?)",
        binds: vec![SqlValue::Text(token_text(token))],
    };
    assert(s.binds_view() =~= seq![SqlValueView::Text(stored_token(token@))]);
    s
}

/// Stores a refresh token.
pub fn save_refresh_token(token: &[u8; 32]) -> (s: Statement)
    ensures
        s.is(
            "INSERT INTO tokens(refresh, token) VALUES (true, ?)"@,
            seq![SqlValueView::Text(stored_token(token@))],
        ),
{
    let s = Statement {
        sql: "INSERT INTO tokens(refresh, token) VALUES (true, ?)",
        binds: vec![SqlValue::Text(token_text(token))],
    };
    assert(s.binds_view() =~= seq![SqlValueView::Text(stored_token(token@))]);
    s
}

/// Reads the stored refresh tokens.
pub fn get_refresh_token() -> (s: Statement)
    ensures
        s.is("SELECT token FROM tokens WHERE refresh = true"@, seq![]),
{
    let s = Statement { sql: "SELECT token FROM tokens WHERE refresh = true", binds: Vec::new() };
    assert(s.binds_view() =~= seq![]);
    s
}

/// Reads the stored access tokens.
pub fn get_access_token() -> (s: Statement)
    ensures
        s.is("SELECT token FROM tokens WHERE refresh = false"@, seq![]),
{
    let s = Statement { sql: "SELECT token FROM tokens WHERE refresh = false", binds: Vec::new() };
    assert(s.binds_view() =~= seq![]);
    s
}

fn select_by_id(sql: &'static str, id: u32) -> (s: Statement)
    ensures
        s.is(sql@, seq![SqlValueView::Uint(id)]),
{
    let s = Statement { sql, binds: vec![SqlValue::Uint(id)] };
    assert(s.binds_view() =~= seq![SqlValueView::Uint(id)]);
    s
}

/// Reads the congregation `id`.
pub fn get_congregation(id: u32) -> (s: Statement)
    ensures
        s.is("SELECT * FROM congregation WHERE id = ?"@, seq![SqlValueView::Uint(id)]),
{
    select_by_id("SELECT * FROM congregation WHERE id = ?", id)
}

/// Inserts a congregation.
pub fn add_congregation(cong: CongDetails) -> (s: Statement)
    ensures
        s.is(
            "INSERT INTO congregation(id, name, updated) VALUES (?, ?, ?)"@,
            seq![
                SqlValueView::Uint(cong.cong_id),
                SqlValueView::Text(cong.cong_name@),
                SqlValueView::Text(stored_timestamp_twice(cong.updated)),
            ],
        ),
{
    let ghost name = cong.cong_name@;
    let updated = timestamp_text_twice(cong.updated);
    let s = Statement {
        sql: "INSERT INTO congregation(id, name, updated) VALUES (?, ?, ?)",
        binds: vec![SqlValue::Uint(cong.cong_id), SqlValue::Text(cong.cong_name), SqlValue::Text(updated)],
    };
    assert(s.binds_view() =~= seq![
        SqlValueView::Uint(cong.cong_id),
        SqlValueView::Text(name),
        SqlValueView::Text(stored_timestamp_twice(cong.updated)),
    ]);
    s
}

/// Deletes a congregation marked `remove`, else writes its name and timestamp.
pub fn update_congregation(cong: CongDetails) -> (s: Statement)
    ensures
        cong.remove ==> s.is(
            "DELETE FROM congregation WHERE id = ?"@,
            seq![SqlValueView::Uint(cong.cong_id)],
        ),
        !cong.remove ==> s.is(
            "UPDATE congregation SET name = ?, updated = ? WHERE id = ?"@,
            seq![
                SqlValueView::Text(cong.cong_name@),
                SqlValueView::Text(stored_timestamp_twice(cong.updated)),
                SqlValueView::Uint(cong.cong_id),
            ],
        ),
{
    if cong.remove {
        select_by_id("DELETE FROM congregation WHERE id = ?", cong.cong_id)
    } else {
        let ghost name = cong.cong_name@;
        let updated = timestamp_text_twice(cong.updated);
        let s = Statement {
            sql: "UPDATE congregation SET name = ?, updated = ? WHERE id = ?",
            binds: vec![SqlValue::Text(cong.cong_name), SqlValue::Text(updated), SqlValue::Uint(cong.cong_id)],
        };
        assert(s.binds_view() =~= seq![
            SqlValueView::Text(name),
            SqlValueView::Text(stored_timestamp_twice(cong.updated)),
            SqlValueView::Uint(cong.cong_id),
        ]);
        s
    }
}

/// Reads the category `id`.
pub fn get_category(id: u32) -> (s: Statement)
    ensures
        s.is("SELECT * FROM categories WHERE id = ?"@, seq![SqlValueView::Uint(id)]),
{
    select_by_id("SELECT * FROM categories WHERE id = ?", id)
}

/// Inserts a category.
pub fn add_category(category: CategoryDetails) -> (s: Statement)
    ensures
        s.is(
            "INSERT INTO categories(id, name, prefix, congregation, updated) VALUES (?, ?, ?, ?, ?)"@,
            seq![
                SqlValueView::Uint(category.id),
                SqlValueView::Text(category.name@),
                SqlValueView::Text(category.prefix@),
                SqlValueView::Uint(category.congregation),
                SqlValueView::Text(stored_timestamp(category.updated)),
            ],
        ),
{
    let ghost name = category.name@;
    let ghost prefix = category.prefix@;
    let updated = timestamp_text(category.updated);
    let s = Statement {
        sql: "INSERT INTO categories(id, name, prefix, congregation, updated) VALUES (?, ?, ?, ?, ?)",
        binds: vec![
            SqlValue::Uint(category.id),
            SqlValue::Text(category.name),
            SqlValue::Text(category.prefix),
            SqlValue::Uint(category.congregation),
            SqlValue::Text(updated),
        ],
    };
    assert(s.binds_view() =~= seq![
        SqlValueView::Uint(category.id),
        SqlValueView::Text(name),
        SqlValueView::Text(prefix),
        SqlValueView::Uint(category.congregation),
        SqlValueView::Text(stored_timestamp(category.updated)),
    ]);
    s
}

/// A category marked `remove` is deleted by its id from the congregation
/// table (not from the categories table);
/// any other is written in full.
pub fn update_category(category: CategoryDetails) -> (s: Statement)
    ensures
        category.remove ==> s.is(
            "DELETE FROM congregation WHERE id = ?"@,
            seq![SqlValueView::Uint(category.id)],
        ),
        !category.remove ==> s.is(
            "UPDATE categories SET name = ?, prefix = ?, congregation = ?, updated = ? WHERE id = ?"@,
            seq![
                SqlValueView::Text(category.name@),
                SqlValueView::Text(category.prefix@),
                SqlValueView::Uint(category.congregation),
                SqlValueView::Text(stored_timestamp_twice(category.updated)),
                SqlValueView::Uint(category.id),
            ],
        ),
{
    if category.remove {
        select_by_id("DELETE FROM congregation WHERE id = ?", category.id)
    } else {
        let ghost name = category.name@;
        let ghost prefix = category.prefix@;
        let updated = timestamp_text_twice(category.updated);
        let s = Statement {
            sql: "UPDATE categories SET name = ?, prefix = ?, congregation = ?, updated = ? WHERE id = ?",
            binds: vec![
                SqlValue::Text(category.name),
                SqlValue::Text(category.prefix),
                SqlValue::Uint(category.congregation),
                SqlValue::Text(updated),
                SqlValue::Uint(category.id),
            ],
        };
        assert(s.binds_view() =~= seq![
            SqlValueView::Text(name),
            SqlValueView::Text(prefix),
            SqlValueView::Uint(category.congregation),
            SqlValueView::Text(stored_timestamp_twice(category.updated)),
            SqlValueView::Uint(category.id),
        ]);
        s
    }
}

/// Reads the service group `id`.
pub fn get_service_group(id: u32) -> (s: Statement)
    ensures
        s.is("SELECT * FROM service_group WHERE id = ?"@, seq![SqlValueView::Uint(id)]),
{
    select_by_id("SELECT * FROM service_group WHERE id = ?", id)
}

/// Inserts a service group.
pub fn add_service_group(details: GroupDetails) -> (s: Statement)
    ensures
        s.is(
            "INSERT INTO service_group(id, name, congregation, elder, updated) VALUES (?, ?, ?, ?, ?)"@,
            seq![
                SqlValueView::Uint(details.id),
                SqlValueView::Text(details.name@),
                SqlValueView::Uint(details.cong),
                SqlValueView::Uint(details.elder),
                SqlValueView::Text(stored_timestamp(details.updated)),
            ],
        ),
{
    let ghost name = details.name@;
    let updated = timestamp_text(details.updated);
    let s = Statement {
        sql: "INSERT INTO service_group(id, name, congregation, elder, updated) VALUES (?, ?, ?, ?, ?)",
        binds: vec![
            SqlValue::Uint(details.id),
            SqlValue::Text(details.name),
            SqlValue::Uint(details.cong),
            SqlValue::Uint(details.elder),
            SqlValue::Text(updated),
        ],
    };
    assert(s.binds_view() =~= seq![
        SqlValueView::Uint(details.id),
        SqlValueView::Text(name),
        SqlValueView::Uint(details.cong),
        SqlValueView::Uint(details.elder),
        SqlValueView::Text(stored_timestamp(details.updated)),
    ]);
    s
}

/// Deletes a service group when either deletion flag is set, else writes it.
pub fn update_service_group(details: GroupDetails) -> (s: Statement)
    ensures
        (details.group_deleted || details.pair_deleted) ==> s.is(
            "DELETE FROM service_group WHERE id = ?"@,
            seq![SqlValueView::Uint(details.id)],
        ),
        !(details.group_deleted || details.pair_deleted) ==> s.is(
            "UPDATE service_group SET name = ?, congregation = ?, elder = ?, updated = ? WHERE id = ?"@,
            seq![
                SqlValueView::Text(details.name@),
                SqlValueView::Uint(details.cong),
                SqlValueView::Uint(details.elder),
                SqlValueView::Text(stored_timestamp_twice(details.updated)),
                SqlValueView::Uint(details.id),
            ],
        ),
{
    if details.group_deleted || details.pair_deleted {
        select_by_id("DELETE FROM service_group WHERE id = ?", details.id)
    } else {
        let ghost name = details.name@;
        let updated = timestamp_text_twice(details.updated);
        let s = Statement {
            sql: "UPDATE service_group SET name = ?, congregation = ?, elder = ?, updated = ? WHERE id = ?",
            binds: vec![
                SqlValue::Text(details.name),
                SqlValue::Uint(details.cong),
                SqlValue::Uint(details.elder),
                SqlValue::Text(updated),
                SqlValue::Uint(details.id),
            ],
        };
        assert(s.binds_view() =~= seq![
            SqlValueView::Text(name),
            SqlValueView::Uint(details.cong),
            SqlValueView::Uint(details.elder),
            SqlValueView::Text(stored_timestamp_twice(details.updated)),
            SqlValueView::Uint(details.id),
        ]);
        s
    }
}

/// Lists every map joined with its category.
pub fn get_maps() -> (s: Statement)
    ensures
        s.is(
            "SELECT maps.id AS id, maps.name AS name, maps.category AS category, maps.file_name AS file_name, categories.prefix AS prefix FROM maps INNER JOIN categories ON maps.category=categories.id"@,
            seq![],
        ),
{
    let s = Statement {
        sql: "SELECT maps.id AS id, maps.name AS name, maps.category AS category, maps.file_name AS file_name, categories.prefix AS prefix FROM maps INNER JOIN categories ON maps.category=categories.id",
        binds: Vec::new(),
    };
    assert(s.binds_view() =~= seq![]);
    s
}

/// Reads the map `id`.
pub fn get_map(id: u32) -> (s: Statement)
    ensures
        s.is("SELECT * FROM maps WHERE id = ?"@, seq![SqlValueView::Uint(id)]),
{
    select_by_id("SELECT * FROM maps WHERE id = ?", id)
}

/// Inserts a map; its image and deletion flag are not stored.
pub fn add_map(map: &MapDetails) -> (s: Statement)
    ensures
        s.is(
            "INSERT INTO maps(id, name, assignee, assigner, category, file_name) VALUES (?, ?, ?, ?, ?, ?)"@,
            seq![
                SqlValueView::Uint(map.id),
                SqlValueView::Text(map.name@),
                SqlValueView::Uint(map.assignee),
                SqlValueView::Uint(map.assigner),
                SqlValueView::Uint(map.category),
                SqlValueView::Text(map.image_name@),
            ],
        ),
{
    let s = Statement {
        sql: "INSERT INTO maps(id, name, assignee, assigner, category, file_name) VALUES (?, ?, ?, ?, ?, ?)",
        binds: vec![
            SqlValue::Uint(map.id),
            SqlValue::Text(map.name.clone()),
            SqlValue::Uint(map.assignee),
            SqlValue::Uint(map.assigner),
            SqlValue::Uint(map.category),
            SqlValue::Text(map.image_name.clone()),
        ],
    };
    assert(s.binds_view() =~= seq![
        SqlValueView::Uint(map.id),
        SqlValueView::Text(map.name@),
        SqlValueView::Uint(map.assignee),
        SqlValueView::Uint(map.assigner),
        SqlValueView::Uint(map.category),
        SqlValueView::Text(map.image_name@),
    ]);
    s
}

/// Deletes a map marked `deleted`, else writes it.
pub fn update_map(map: &MapDetails) -> (s: Statement)
    ensures
        map.deleted ==> s.is("DELETE FROM maps WHERE id = ?"@, seq![SqlValueView::Uint(map.id)]),
        !map.deleted ==> s.is(
            "UPDATE maps SET name = ?, file_name = ?, assignee = ?, assigner = ?, category = ? WHERE id = ?"@,
            seq![
                SqlValueView::Text(map.name@),
                SqlValueView::Text(map.image_name@),
                SqlValueView::Uint(map.assignee),
                SqlValueView::Uint(map.assigner),
                SqlValueView::Uint(map.category),
                SqlValueView::Uint(map.id),
            ],
        ),
{
    if map.deleted {
        select_by_id("DELETE FROM maps WHERE id = ?", map.id)
    } else {
        let s = Statement {
            sql: "UPDATE maps SET name = ?, file_name = ?, assignee = ?, assigner = ?, category = ? WHERE id = ?",
            binds: vec![
                SqlValue::Text(map.name.clone()),
                SqlValue::Text(map.image_name.clone()),
                SqlValue::Uint(map.assignee),
                SqlValue::Uint(map.assigner),
                SqlValue::Uint(map.category),
                SqlValue::Uint(map.id),
            ],
        };
        assert(s.binds_view() =~= seq![
            SqlValueView::Text(map.name@),
            SqlValueView::Text(map.image_name@),
            SqlValueView::Uint(map.assignee),
            SqlValueView::Uint(map.assigner),
            SqlValueView::Uint(map.category),
            SqlValueView::Uint(map.id),
        ]);
        s
    }
}

/// Reads the user `id`.
pub fn get_user(id: u32) -> (s: Statement)
    ensures
        s.is("SELECT * FROM users WHERE id = ?"@, seq![SqlValueView::Uint(id)]),
{
    select_by_id("SELECT * FROM users WHERE id = ?", id)
}

/// Inserts a user.
pub fn add_user(details: UserPublicDetails) -> (s: Statement)
    ensures
        s.is(
            "INSERT INTO users(id, name) VALUES (?, ?)"@,
            seq![SqlValueView::Uint(details.id), SqlValueView::Text(details.name@)],
        ),
{
    let ghost name = details.name@;
    let s = Statement {
        sql: "INSERT INTO users(id, name) VALUES (?, ?)",
        binds: vec![SqlValue::Uint(details.id), SqlValue::Text(details.name)],
    };
    assert(s.binds_view() =~= seq![SqlValueView::Uint(details.id), SqlValueView::Text(name)]);
    s
}

/// Deletes a user marked `deleted`, else writes its name.
pub fn update_user(details: UserPublicDetails) -> (s: Statement)
    ensures
        details.deleted ==> s.is(
            "DELETE FROM users WHERE id = ?"@,
            seq![SqlValueView::Uint(details.id)],
        ),
        !details.deleted ==> s.is(
            "UPDATE users SET name = ? WHERE id = ?"@,
            seq![SqlValueView::Text(details.name@), SqlValueView::Uint(details.id)],
        ),
{
    if details.deleted {
        select_by_id("DELETE FROM users WHERE id = ?", details.id)
    } else {
        let ghost name = details.name@;
        let s = Statement {
            sql: "UPDATE users SET name = ? WHERE id = ?",
            binds: vec![SqlValue::Text(details.name), SqlValue::Uint(details.id)],
        };
        assert(s.binds_view() =~= seq![SqlValueView::Text(name), SqlValueView::Uint(details.id)]);
        s
    }
}

/// Reads the streets of the map `map_id`.
pub fn get_streets(map_id: u32) -> (s: Statement)
    ensures
        s.is("SELECT * FROM streets WHERE map_id = ?"@, seq![SqlValueView::Uint(map_id)]),
{
    select_by_id("SELECT * FROM streets WHERE map_id = ?", map_id)
}

/// Reads the street `id`.
pub fn get_street(id: u32) -> (s: Statement)
    ensures
        s.is("SELECT * FROM streets WHERE id = ?"@, seq![SqlValueView::Uint(id)]),
{
    select_by_id("SELECT * FROM streets WHERE id = ?", id)
}

/// Inserts a street.
pub fn add_street(details: &StreetDetails) -> (s: Statement)
    ensures
        s.is(
            "INSERT INTO streets(id, map_id, name) VALUES (?, ?, ?)"@,
            seq![
                SqlValueView::Uint(details.id),
                SqlValueView::Uint(details.map_id),
                SqlValueView::Text(details.name@),
            ],
        ),
{
    let s = Statement {
        sql: "INSERT INTO streets(id, map_id, name) VALUES (?, ?, ?)",
        binds: vec![
            SqlValue::Uint(details.id),
            SqlValue::Uint(details.map_id),
            SqlValue::Text(details.name.clone()),
        ],
    };
    assert(s.binds_view() =~= seq![
        SqlValueView::Uint(details.id),
        SqlValueView::Uint(details.map_id),
        SqlValueView::Text(details.name@),
    ]);
    s
}

/// Deletes a street marked `deleted`, else writes it.
pub fn update_street(details: &StreetDetails) -> (s: Statement)
    ensures
        details.deleted ==> s.is(
            "DELETE FROM streets WHERE id = ?"@,
            seq![SqlValueView::Uint(details.id)],
        ),
        !details.deleted ==> s.is(
            "UPDATE streets SET map_id = ?, name = ? WHERE id = ?"@,
            seq![
                SqlValueView::Uint(details.map_id),
                SqlValueView::Text(details.name@),
                SqlValueView::Uint(details.id),
            ],
        ),
{
    if details.deleted {
        select_by_id("DELETE FROM streets WHERE id = ?", details.id)
    } else {
        let s = Statement {
            sql: "UPDATE streets SET map_id = ?, name = ? WHERE id = ?",
            binds: vec![
                SqlValue::Uint(details.map_id),
                SqlValue::Text(details.name.clone()),
                SqlValue::Uint(details.id),
            ],
        };
        assert(s.binds_view() =~= seq![
            SqlValueView::Uint(details.map_id),
            SqlValueView::Text(details.name@),
            SqlValueView::Uint(details.id),
        ]);
        s
    }
}

/// Reads the addresses of the street `street_id`.
pub fn get_street_addresses(street_id: u32) -> (s: Statement)
    ensures
        s.is("SELECT * FROM addresses WHERE street_id = ?"@, seq![SqlValueView::Uint(street_id)]),
{
    select_by_id("SELECT * FROM addresses WHERE street_id = ?", street_id)
}

/// Reads the address `id`.
pub fn get_address(id: u32) -> (s: Statement)
    ensures
        s.is("SELECT * FROM addresses WHERE id = ?"@, seq![SqlValueView::Uint(id)]),
{
    select_by_id("SELECT * FROM addresses WHERE id = ?", id)
}

/// Inserts an address, given the result of encoding its tags: an encoding
/// failure is a `SerialiseError` and no statement.
pub fn add_address(details: &AddressDetails, encoded_tags: Result<Vec<u8>, String>) -> (r: Result<
    Statement,
    DbError,
>)
    ensures
        encoded_tags matches Err(e) ==> r == Err::<Statement, DbError>(DbError::SerialiseError(e)),
        encoded_tags matches Ok(tags) ==> (r matches Ok(s) && s.is(
            "INSERT INTO addresses(id, street_id, number, tags, visited) VALUES (?, ?, ?, ?, ?)"@,
            seq![
                SqlValueView::Uint(details.id),
                SqlValueView::Uint(details.street_id),
                SqlValueView::Text(details.number@),
                SqlValueView::Blob(tags@),
                SqlValueView::Bool(details.visited),
            ],
        )),
{
    match encoded_tags {
        Err(e) => Err(DbError::SerialiseError(e)),
        Ok(tags) => {
            let ghost tags_view = tags@;
            let s = Statement {
                sql: "INSERT INTO addresses(id, street_id, number, tags, visited) VALUES (?, ?, ?, ?, ?)",
                binds: vec![
                    SqlValue::Uint(details.id),
                    SqlValue::Uint(details.street_id),
                    SqlValue::Text(details.number.clone()),
                    SqlValue::Blob(tags),
                    SqlValue::Bool(details.visited),
                ],
            };
            assert(s.binds_view() =~= seq![
                SqlValueView::Uint(details.id),
                SqlValueView::Uint(details.street_id),
                SqlValueView::Text(details.number@),
                SqlValueView::Blob(tags_view),
                SqlValueView::Bool(details.visited),
            ]);
            Ok(s)
        },
    }
}

/// Deletes an address marked `deleted` (its tags are not needed then); else
/// writes it, given the result of encoding its tags, a failure of which is a
/// `SerialiseError`.
pub fn update_address(details: &AddressDetails, encoded_tags: Result<Vec<u8>, String>) -> (r: Result<
    Statement,
    DbError,
>)
    ensures
        details.deleted ==> (r matches Ok(s) && s.is(
            "DELETE FROM addresses WHERE id = ?"@,
            seq![SqlValueView::Uint(details.id)],
        )),
        !details.deleted ==> (encoded_tags matches Err(e) ==> r == Err::<Statement, DbError>(
            DbError::SerialiseError(e),
        )),
        !details.deleted ==> (encoded_tags matches Ok(tags) ==> r matches Ok(s) && s.is(
            "UPDATE addresses SET street_id = ?, number = ?, tags = ?, visited = ? WHERE id = ?"@,
            seq![
                SqlValueView::Uint(details.street_id),
                SqlValueView::Text(details.number@),
                SqlValueView::Blob(tags@),
                SqlValueView::Bool(details.visited),
                SqlValueView::Uint(details.id),
            ],
        )),
{
    if details.deleted {
        Ok(select_by_id("DELETE FROM addresses WHERE id = ?", details.id))
    } else {
        match encoded_tags {
            Err(e) => Err(DbError::SerialiseError(e)),
            Ok(tags) => {
                let ghost tags_view = tags@;
                let s = Statement {
                    sql: "UPDATE addresses SET street_id = ?, number = ?, tags = ?, visited = ? WHERE id = ?",
                    binds: vec![
                        SqlValue::Uint(details.street_id),
                        SqlValue::Text(details.number.clone()),
                        SqlValue::Blob(tags),
                        SqlValue::Bool(details.visited),
                        SqlValue::Uint(details.id),
                    ],
                };
                assert(s.binds_view() =~= seq![
                    SqlValueView::Uint(details.street_id),
                    SqlValueView::Text(details.number@),
                    SqlValueView::Blob(tags_view),
                    SqlValueView::Bool(details.visited),
                    SqlValueView::Uint(details.id),
                ]);
                Ok(s)
            },
        }
    }
}

/// Marks the address `id` visited or not.
pub fn update_address_checked(id: u32, checked: bool) -> (s: Statement)
    ensures
        s.is(
            "UPDATE addresses SET visited = ? WHERE id = ?"@,
            seq![SqlValueView::Bool(checked), SqlValueView::Uint(id)],
        ),
{
    let s = Statement {
        sql: "UPDATE addresses SET visited = ? WHERE id = ?",
        binds: vec![SqlValue::Bool(checked), SqlValue::Uint(id)],
    };
    assert(s.binds_view() =~= seq![SqlValueView::Bool(checked), SqlValueView::Uint(id)]);
    s
}

/// Records a log entry.
pub fn add_log(code: u32, message: &str, timestamp: u32) -> (s: Statement)
    ensures
        s.is(
            "INSERT INTO logs(code, message, timestamp) VALUES (?, ?, ?)"@,
            seq![SqlValueView::Uint(code), SqlValueView::Text(message@), SqlValueView::Uint(timestamp)],
        ),
{
    let s = Statement {
        sql: "INSERT INTO logs(code, message, timestamp) VALUES (?, ?, ?)",
        binds: vec![
            SqlValue::Uint(code),
            SqlValue::Text(String::from_str(message)),
            SqlValue::Uint(timestamp),
        ],
    };
    assert(s.binds_view() =~= seq![
        SqlValueView::Uint(code),
        SqlValueView::Text(message@),
        SqlValueView::Uint(timestamp),
    ]);
    s
}

} // verus!
