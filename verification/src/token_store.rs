//! The tokens table, as the token statements of `queries` write and read it:
//! saving a token appends a row holding its flag and the bytes of its
//! stored text; reading selects the rows of one flag, in order, and must
//! find exactly one.

use vstd::prelude::*;
use crate::datatypes::DbError;
use crate::encoding::{ascii_bytes, hex_decode_bytes, is_hex_text};
use crate::queries::stored_token;
use crate::rows::{lemma_stored_token_reads_back, token_row_to_details, token_text_well_sized};

verus! {

/// A row of the tokens table: whether it holds a refresh token, and the
/// bytes of its token column.
pub struct TokenRow {
    pub refresh: bool,
    pub text: Seq<u8>,
}

/// The row that saving `token` appends (`save_refresh_token` when `refresh`,
/// else `save_access_token`): the ASCII bytes of the token's stored text.
pub open spec fn saved_token_row(refresh: bool, token: Seq<u8>) -> TokenRow {
    TokenRow { refresh, text: ascii_bytes(stored_token(token)) }
}

/// The token columns that reading the tokens of one kind returns, in order.
pub open spec fn stored_texts(table: Seq<TokenRow>, refresh: bool) -> Seq<Seq<u8>>
    decreases table.len(),
{
    if table.len() == 0 {
        seq![]
    } else {
        let rest = stored_texts(table.drop_last(), refresh);
        if table.last().refresh == refresh {
            rest.push(table.last().text)
        } else {
            rest
        }
    }
}

/// What reading a token makes of the token columns it found.
pub enum TokenRead {
    /// The token of the one row found.
    Token(Seq<u8>),
    /// Not exactly one row was found: an `InvalidToken` with this count.
    Count(nat),
    /// The one row found is not hexadecimal text: an `InvalidRow`.
    Malformed,
}

/// Reading a token from the token columns `texts`.
pub open spec fn token_read(texts: Seq<Seq<u8>>) -> TokenRead {
    if texts.len() != 1 {
        TokenRead::Count(texts.len())
    } else if is_hex_text(texts[0]) {
        TokenRead::Token(hex_decode_bytes(texts[0]))
    } else {
        TokenRead::Malformed
    }
}

/// `result` is what `read` says, `malformed` being the text of the
/// `InvalidRow` of a row that is not hexadecimal.
pub open spec fn read_result_is(result: Result<[u8; 32], DbError>, read: TokenRead, malformed: String) -> bool {
    match read {
        TokenRead::Token(t) => result matches Ok(x) && x@ == t,
        TokenRead::Count(n) => result == Err::<[u8; 32], DbError>(DbError::InvalidToken(n as u32)),
        TokenRead::Malformed => result == Err::<[u8; 32], DbError>(DbError::InvalidRow(malformed)),
    }
}

/// The token columns of read rows that all could be read.
pub open spec fn row_texts(rows: Seq<Result<Vec<u8>, String>>) -> Seq<Seq<u8>> {
    rows.map_values(|r: Result<Vec<u8>, String>| r->Ok_0@)
}

/// Reads a token from what the select of one kind of token returned: the
/// token of the one row found; `InvalidToken` with the number of rows when
/// not exactly one; `InvalidRow` when the row's column could not be read
/// (with that error) or is not hexadecimal (with `malformed`);
/// `QueryFailure` when the select failed.
pub fn read_token(fetched: Result<Vec<Result<Vec<u8>, String>>, String>, malformed: String) -> (r:
    Result<[u8; 32], DbError>)
    requires
        fetched matches Ok(rows) ==> (rows@.len() == 1 ==> (rows@[0] matches Ok(b) ==> token_text_well_sized(b@))),
    ensures
        fetched matches Err(e) ==> r == Err::<[u8; 32], DbError>(DbError::QueryFailure(e)),
        fetched matches Ok(rows) ==> (rows@.len() == 1 ==> (rows@[0] matches Err(e) ==> r == Err::<
            [u8; 32],
            DbError,
        >(DbError::InvalidRow(e)))),
        fetched matches Ok(rows) ==> ((forall|i: int| 0 <= i < rows@.len() ==> (#[trigger] rows@[i]) is Ok)
            ==> read_result_is(r, token_read(row_texts(rows@)), malformed)),
        fetched matches Ok(rows) ==> (rows@.len() != 1 ==> r == Err::<[u8; 32], DbError>(
            DbError::InvalidToken(rows@.len() as u32),
        )),
{
    match fetched {
        Err(e) => Err(DbError::QueryFailure(e)),
        Ok(mut rows) => {
            let ghost all = rows@;
            let count = rows.len();
            if count == 1 {
                match rows.remove(0) {
                    Err(e) => Err(DbError::InvalidRow(e)),
                    Ok(bytes) => {
                        assert(row_texts(all)[0] == bytes@);
                        match token_row_to_details(bytes.as_slice()) {
                            Some(token) => Ok(token),
                            None => Err(DbError::InvalidRow(malformed)),
                        }
                    },
                }
            } else {
                Err(DbError::InvalidToken(count as u32))
            }
        },
    }
}

/// Saving appends a row: the texts of its kind gain the row's text at the
/// end, those of the other kind are unchanged.
pub proof fn lemma_saving_appends(table: Seq<TokenRow>, row: TokenRow, refresh: bool)
    ensures
        stored_texts(table.push(row), refresh) == if row.refresh == refresh {
            stored_texts(table, refresh).push(row.text)
        } else {
            stored_texts(table, refresh)
        },
{
    assert(table.push(row).drop_last() =~= table);
}

/// A table without rows of a kind yields no text of that kind.
proof fn lemma_no_rows_of_kind(table: Seq<TokenRow>, refresh: bool)
    requires
        forall|i: int| 0 <= i < table.len() ==> (#[trigger] table[i]).refresh != refresh,
    ensures
        stored_texts(table, refresh).len() == 0,
    decreases table.len(),
{
    if table.len() > 0 {
        lemma_no_rows_of_kind(table.drop_last(), refresh);
    }
}

/// Reading back a refresh token: when the table holds no refresh token,
/// saving `token` as the refresh token makes reading the refresh token give
/// `token`, whatever access tokens the table holds.
pub proof fn lemma_saved_refresh_token_is_read(table: Seq<TokenRow>, token: Seq<u8>)
    requires
        token.len() == 32,
        forall|i: int| 0 <= i < table.len() ==> !(#[trigger] table[i]).refresh,
    ensures
        stored_texts(table.push(saved_token_row(true, token)), true) == seq![
            ascii_bytes(stored_token(token)),
        ],
        token_text_well_sized(ascii_bytes(stored_token(token))),
        token_read(stored_texts(table.push(saved_token_row(true, token)), true)) == TokenRead::Token(
            token,
        ),
        forall|r: Result<[u8; 32], DbError>, m: String|
            #[trigger] read_result_is(r, token_read(stored_texts(table.push(saved_token_row(true, token)), true)), m)
                <==> (r matches Ok(x) && x@ == token),
{
    lemma_no_rows_of_kind(table, true);
    lemma_saving_appends(table, saved_token_row(true, token), true);
    lemma_stored_token_reads_back(token);
    assert(stored_texts(table.push(saved_token_row(true, token)), true) =~= seq![
        ascii_bytes(stored_token(token)),
    ]);
}

/// Saving an access token appends it and replaces none: with `n` access
/// tokens stored before, reading the access token afterwards gives the
/// saved token when `n` is 0, and an `InvalidToken` count of `n + 1`
/// otherwise.
pub proof fn lemma_saved_access_token_appends(table: Seq<TokenRow>, token: Seq<u8>)
    requires
        token.len() == 32,
    ensures
        stored_texts(table.push(saved_token_row(false, token)), false).len() == stored_texts(
            table,
            false,
        ).len() + 1,
        stored_texts(table, false).len() == 0 ==> token_read(
            stored_texts(table.push(saved_token_row(false, token)), false),
        ) == TokenRead::Token(token),
        stored_texts(table, false).len() > 0 ==> token_read(
            stored_texts(table.push(saved_token_row(false, token)), false),
        ) == TokenRead::Count(stored_texts(table, false).len() + 1),
        forall|r: Result<[u8; 32], DbError>, m: String|
            #[trigger] read_result_is(r, token_read(stored_texts(table.push(saved_token_row(false, token)), false)), m)
                <==> if stored_texts(table, false).len() == 0 {
                r matches Ok(x) && x@ == token
            } else {
                r == Err::<[u8; 32], DbError>(DbError::InvalidToken((stored_texts(table, false).len() + 1) as u32))
            },
{
    lemma_saving_appends(table, saved_token_row(false, token), false);
    lemma_stored_token_reads_back(token);
    let after = stored_texts(table.push(saved_token_row(false, token)), false);
    if stored_texts(table, false).len() == 0 {
        assert(after[0] == ascii_bytes(stored_token(token)));
    }
}

} // verus!
