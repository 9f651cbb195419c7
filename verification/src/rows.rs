//! What the database layer makes of what a statement returned: the errors
//! it reports, the rows it keeps, and the values it builds from a row's
//! columns.

use vstd::prelude::*;
use crate::datatypes::{
    AddressDetails, AddressError, AddressTags, CategoryDetails, CongDetails, DbError, GroupDetails,
    MapDetails, MapDisplayDetails, StreetDetails, UserPublicDetails,
};
use crate::encoding::{
    ascii_bytes, hex_decode, hex_decode_bytes, hex_encode_bytes, is_hex_text,
    lemma_hex_round_trip, lemma_hex_text_ascii,
};
use crate::queries::stored_token;

verus! {

/// The values of the rows that converted, in order.
pub open spec fn successful_rows<T, E>(rows: Seq<Result<T, E>>) -> Seq<T>
    decreases rows.len(),
{
    if rows.len() == 0 {
        seq![]
    } else {
        match rows[0] {
            Ok(t) => seq![t] + successful_rows(rows.skip(1)),
            Err(_) => successful_rows(rows.skip(1)),
        }
    }
}

/// The error of the first row that did not convert, if any.
pub open spec fn first_error<T, E>(rows: Seq<Result<T, E>>) -> Option<E>
    decreases rows.len(),
{
    if rows.len() == 0 {
        None
    } else {
        match rows[0] {
            Ok(_) => first_error(rows.skip(1)),
            Err(e) => Some(e),
        }
    }
}

/// A write either ran, or failed with `QueryFailure`.
pub fn execution_result(outcome: Result<(), String>) -> (r: Result<(), DbError>)
    ensures
        outcome is Ok ==> r is Ok,
        outcome matches Err(e) ==> r == Err::<(), DbError>(DbError::QueryFailure(e)),
{
    match outcome {
        Ok(()) => Ok(()),
        Err(e) => Err(DbError::QueryFailure(e)),
    }
}

/// A read that must find exactly one row: the value of that row, or
/// `InvalidRow` if it did not convert; `InvalidToken` with the number of rows
/// when there is not exactly one; `QueryFailure` when the read failed.
pub fn single_row<T>(fetched: Result<Vec<Result<T, String>>, String>) -> (r: Result<T, DbError>)
    ensures
        fetched matches Err(e) ==> r == Err::<T, DbError>(DbError::QueryFailure(e)),
        fetched matches Ok(rows) ==> {
            &&& rows@.len() != 1 ==> r == Err::<T, DbError>(DbError::InvalidToken(rows@.len() as u32))
            &&& rows@.len() == 1 ==> (rows@[0] matches Ok(t) ==> r == Ok::<T, DbError>(t))
            &&& rows@.len() == 1 ==> (rows@[0] matches Err(e) ==> r == Err::<T, DbError>(
                DbError::InvalidRow(e),
            ))
        },
{
    match fetched {
        Err(e) => Err(DbError::QueryFailure(e)),
        Ok(mut rows) => {
            let count = rows.len();
            if count == 1 {
                match rows.remove(0) {
                    Ok(t) => Ok(t),
                    Err(e) => Err(DbError::InvalidRow(e)),
                }
            } else {
                Err(DbError::InvalidToken(count as u32))
            }
        },
    }
}

/// `single_row` for addresses, whose conversion failures are `AddressFailure`.
pub fn single_address_row(
    fetched: Result<Vec<Result<AddressDetails, AddressError>>, String>,
) -> (r: Result<AddressDetails, DbError>)
    ensures
        fetched matches Err(e) ==> r == Err::<AddressDetails, DbError>(DbError::QueryFailure(e)),
        fetched matches Ok(rows) ==> {
            &&& rows@.len() != 1 ==> r == Err::<AddressDetails, DbError>(
                DbError::InvalidToken(rows@.len() as u32),
            )
            &&& rows@.len() == 1 ==> (rows@[0] matches Ok(t) ==> r == Ok::<AddressDetails, DbError>(t))
            &&& rows@.len() == 1 ==> (rows@[0] matches Err(e) ==> r == Err::<AddressDetails, DbError>(
                DbError::AddressFailure(e),
            ))
        },
{
    match fetched {
        Err(e) => Err(DbError::QueryFailure(e)),
        Ok(mut rows) => {
            let count = rows.len();
            if count == 1 {
                match rows.remove(0) {
                    Ok(t) => Ok(t),
                    Err(e) => Err(DbError::AddressFailure(e)),
                }
            } else {
                Err(DbError::InvalidToken(count as u32))
            }
        },
    }
}

/// The values of all rows, or the error of the first that did not convert.
fn collect_all<T, E>(rows: Vec<Result<T, E>>) -> (r: Result<Vec<T>, E>)
    ensures
        first_error(rows@) matches Some(e) ==> r == Err::<Vec<T>, E>(e),
        first_error(rows@) is None ==> (r matches Ok(v) && v@ == successful_rows(rows@)),
{
    let ghost all = rows@;
    let mut rest = rows;
    let mut out: Vec<T> = Vec::new();
    while rest.len() > 0
        invariant
            all == rows@,
            first_error(rest@) == first_error(all),
            out@ + successful_rows(rest@) == successful_rows(all),
        decreases rest.len(),
    {
        let ghost before = rest@;
        let row = rest.remove(0);
        assert(rest@ =~= before.skip(1));
        match row {
            Ok(t) => {
                out.push(t);
                assert(out@ + successful_rows(rest@) =~= successful_rows(all));
            },
            Err(e) => {
                assert(first_error(before) == Some(e));
                return Err(e);
            },
        }
    }
    assert(out@ + successful_rows(rest@) =~= out@);
    Ok(out)
}

/// A read of any number of rows that keeps the rows that convert and drops
/// the others.
pub fn rows_skipping_failures<T, E>(fetched: Result<Vec<Result<T, E>>, String>) -> (r: Result<
    Vec<T>,
    DbError,
>)
    ensures
        fetched matches Err(e) ==> r == Err::<Vec<T>, DbError>(DbError::QueryFailure(e)),
        fetched matches Ok(rows) ==> (r matches Ok(v) && v@ == successful_rows(rows@)),
{
    match fetched {
        Err(e) => Err(DbError::QueryFailure(e)),
        Ok(rows) => {
            let ghost all = rows@;
            let mut rest = rows;
            let mut out: Vec<T> = Vec::new();
            while rest.len() > 0
                invariant
                    out@ + successful_rows(rest@) == successful_rows(all),
                decreases rest.len(),
            {
                let ghost before = rest@;
                let row = rest.remove(0);
                assert(rest@ =~= before.skip(1));
                match row {
                    Ok(t) => {
                        out.push(t);
                        assert(out@ + successful_rows(rest@) =~= successful_rows(all));
                    },
                    Err(_) => {},
                }
            }
            assert(out@ + successful_rows(rest@) =~= out@);
            Ok(out)
        },
    }
}

/// A read of any number of rows that must all convert: the first that does
/// not is an `InvalidRow`.
pub fn all_rows<T>(fetched: Result<Vec<Result<T, String>>, String>) -> (r: Result<Vec<T>, DbError>)
    ensures
        fetched matches Err(e) ==> r == Err::<Vec<T>, DbError>(DbError::QueryFailure(e)),
        fetched matches Ok(rows) ==> (first_error(rows@) matches Some(e) ==> r == Err::<
            Vec<T>,
            DbError,
        >(DbError::InvalidRow(e))),
        fetched matches Ok(rows) ==> (first_error(rows@) is None ==> (r matches Ok(v) && v@
            == successful_rows(rows@))),
{
    match fetched {
        Err(e) => Err(DbError::QueryFailure(e)),
        Ok(rows) => match collect_all(rows) {
            Ok(v) => Ok(v),
            Err(e) => Err(DbError::InvalidRow(e)),
        },
    }
}

/// The addresses of a list of streets, read street by street: the first
/// failed read is a `QueryFailure`, the first address that does not convert
/// an `AddressFailure`; otherwise all addresses, street after street.
pub open spec fn addresses_outcome(
    fetches: Seq<Result<Vec<Result<AddressDetails, AddressError>>, String>>,
) -> Result<Seq<AddressDetails>, DbError>
    decreases fetches.len(),
{
    if fetches.len() == 0 {
        Ok(seq![])
    } else {
        match fetches[0] {
            Err(e) => Err(DbError::QueryFailure(e)),
            Ok(rows) => match first_error(rows@) {
                Some(a) => Err(DbError::AddressFailure(a)),
                None => match addresses_outcome(fetches.skip(1)) {
                    Ok(rest) => Ok(successful_rows(rows@) + rest),
                    Err(e) => Err(e),
                },
            },
        }
    }
}

/// The addresses of the streets whose reads are `fetches`, in street order.
pub fn address_rows(fetches: Vec<Result<Vec<Result<AddressDetails, AddressError>>, String>>) -> (r:
    Result<Vec<AddressDetails>, DbError>)
    ensures
        addresses_outcome(fetches@) matches Ok(a) ==> (r matches Ok(v) && v@ == a),
        addresses_outcome(fetches@) matches Err(e) ==> r == Err::<Vec<AddressDetails>, DbError>(e),
{
    let ghost all = fetches@;
    let mut rest = fetches;
    let mut out: Vec<AddressDetails> = Vec::new();
    while rest.len() > 0
        invariant
            all == fetches@,
            addresses_outcome(all) == (match addresses_outcome(rest@) {
                Ok(tail) => Ok(out@ + tail),
                Err(e) => Err(e),
            }),
        decreases rest.len(),
    {
        let ghost before = rest@;
        let fetch = rest.remove(0);
        assert(rest@ =~= before.skip(1));
        match fetch {
            Err(e) => {
                assert(addresses_outcome(before) == Err::<Seq<AddressDetails>, DbError>(
                    DbError::QueryFailure(e),
                ));
                return Err(DbError::QueryFailure(e));
            },
            Ok(rows) => match collect_all(rows) {
                Err(a) => {
                    assert(addresses_outcome(before) == Err::<Seq<AddressDetails>, DbError>(
                        DbError::AddressFailure(a),
                    ));
                    return Err(DbError::AddressFailure(a));
                },
                Ok(mut v) => {
                    let ghost old_out = out@;
                    let ghost got = v@;
                    out.append(&mut v);
                    assert(out@ == old_out + got);
                    assert forall|tail: Seq<AddressDetails>| old_out + (got + tail) == #[trigger] (
                    out@ + tail) by {
                        assert(old_out + (got + tail) =~= out@ + tail);
                    }
                },
            },
        }
    }
    assert(out@ + seq![] =~= out@);
    Ok(out)
}

/// Rows that all converted yield all their values, in order.
proof fn lemma_all_rows_converted<T, E>(rows: Seq<Result<T, E>>)
    requires
        forall|i: int| 0 <= i < rows.len() ==> (#[trigger] rows[i]) is Ok,
    ensures
        first_error(rows) is None,
        successful_rows(rows) == rows.map_values(|r: Result<T, E>| r->Ok_0),
    decreases rows.len(),
{
    if rows.len() > 0 {
        assert forall|i: int| 0 <= i < rows.skip(1).len() implies (#[trigger] rows.skip(1)[i]) is Ok by {
            assert(rows.skip(1)[i] == rows[i + 1]);
        }
        lemma_all_rows_converted(rows.skip(1));
        assert(rows.map_values(|r: Result<T, E>| r->Ok_0) =~= seq![rows[0]->Ok_0] + rows.skip(1).map_values(
            |r: Result<T, E>| r->Ok_0,
        ));
    }
}

/// When every street's read succeeds and every address converts, the
/// addresses are all of them: every street's addresses, whole and in order,
/// street after street.
pub proof fn lemma_all_addresses_kept(fetches: Seq<Result<Vec<Result<AddressDetails, AddressError>>, String>>)
    requires
        forall|i: int| 0 <= i < fetches.len() ==> (#[trigger] fetches[i]) is Ok,
        forall|i: int, j: int|
            0 <= i < fetches.len() && 0 <= j < fetches[i]->Ok_0@.len() ==> (#[trigger] fetches[i]->Ok_0@[j]) is Ok,
    ensures
        addresses_outcome(fetches) == Ok::<Seq<AddressDetails>, DbError>(
            fetches.map_values(
                |f: Result<Vec<Result<AddressDetails, AddressError>>, String>|
                    f->Ok_0@.map_values(|r: Result<AddressDetails, AddressError>| r->Ok_0),
            ).flatten(),
        ),
    decreases fetches.len(),
{
    let g = |f: Result<Vec<Result<AddressDetails, AddressError>>, String>|
        f->Ok_0@.map_values(|r: Result<AddressDetails, AddressError>| r->Ok_0);
    if fetches.len() == 0 {
        assert(fetches.map_values(g) =~= Seq::<Seq<AddressDetails>>::empty());
    } else {
        let rest = fetches.skip(1);
        assert forall|i: int| 0 <= i < rest.len() implies (#[trigger] rest[i]) is Ok by {
            assert(rest[i] == fetches[i + 1]);
        }
        assert forall|i: int, j: int|
            0 <= i < rest.len() && 0 <= j < rest[i]->Ok_0@.len() implies (#[trigger] rest[i]->Ok_0@[j]) is Ok by {
            assert(rest[i] == fetches[i + 1]);
        }
        lemma_all_addresses_kept(rest);
        let rows = fetches[0]->Ok_0@;
        assert forall|j: int| 0 <= j < rows.len() implies (#[trigger] rows[j]) is Ok by {
            assert(fetches[0]->Ok_0@[j] is Ok);
        }
        lemma_all_rows_converted(rows);
        assert(fetches.map_values(g).drop_first() =~= rest.map_values(g));
        assert(fetches.map_values(g).first() == g(fetches[0]));
    }
}

/// Whether every street of `fetches` was read and every address of it
/// converted.
pub open spec fn all_addresses_read(fetches: Seq<Result<Vec<Result<AddressDetails, AddressError>>, String>>) -> bool {
    &&& forall|i: int| 0 <= i < fetches.len() ==> (#[trigger] fetches[i]) is Ok
    &&& forall|i: int, j: int|
        0 <= i < fetches.len() && 0 <= j < fetches[i]->Ok_0@.len() ==> (#[trigger] fetches[i]->Ok_0@[j]) is Ok
}

/// The first failure wins: when the streets before street `i` were read
/// and all their addresses converted, a failed read of street `i` is a
/// `QueryFailure` with its error, and an address of street `i` that does not
/// convert, after addresses that did, is an `AddressFailure` with its
/// error.
pub proof fn lemma_first_address_failure_wins(
    fetches: Seq<Result<Vec<Result<AddressDetails, AddressError>>, String>>,
    i: int,
)
    requires
        0 <= i < fetches.len(),
        all_addresses_read(fetches.take(i)),
    ensures
        fetches[i] matches Err(e) ==> addresses_outcome(fetches) == Err::<Seq<AddressDetails>, DbError>(
            DbError::QueryFailure(e),
        ),
        fetches[i] matches Ok(rows) ==> forall|k: int|
            #![trigger rows@[k]]
            0 <= k < rows@.len() && (forall|j: int| 0 <= j < k ==> (#[trigger] rows@[j]) is Ok) ==> (
            rows@[k] matches Err(a) ==> addresses_outcome(fetches) == Err::<Seq<AddressDetails>, DbError>(
                DbError::AddressFailure(a),
            )),
    decreases i,
{
    if i == 0 {
        if fetches[0] is Ok {
            let rows = fetches[0]->Ok_0@;
            assert forall|k: int|
                #![trigger rows[k]]
                0 <= k < rows.len() && (forall|j: int| 0 <= j < k ==> (#[trigger] rows[j]) is Ok) implies (
                rows[k] matches Err(a) ==> first_error(rows) == Some(a)) by {
                if rows[k] is Err {
                    lemma_first_error_at(rows, k);
                }
            }
        }
    } else {
        let rest = fetches.skip(1);
        assert(rest.take(i - 1) =~= fetches.take(i).skip(1));
        assert forall|a: int| 0 <= a < rest.take(i - 1).len() implies (#[trigger] rest.take(i - 1)[a]) is Ok by {
            assert(rest.take(i - 1)[a] == fetches.take(i)[a + 1]);
        }
        assert forall|a: int, b: int|
            0 <= a < rest.take(i - 1).len() && 0 <= b < rest.take(i - 1)[a]->Ok_0@.len() implies (
            #[trigger] rest.take(i - 1)[a]->Ok_0@[b]) is Ok by {
            assert(rest.take(i - 1)[a] == fetches.take(i)[a + 1]);
        }
        lemma_first_address_failure_wins(rest, i - 1);
        assert(fetches.take(i)[0] == fetches[0]);
        let rows0 = fetches[0]->Ok_0@;
        assert forall|j: int| 0 <= j < rows0.len() implies (#[trigger] rows0[j]) is Ok by {
            assert(fetches.take(i)[0]->Ok_0@[j] is Ok);
        }
        lemma_all_rows_converted(rows0);
        assert(rest[i - 1] == fetches[i]);
    }
}

/// The first error of rows whose rows before `k` converted and whose row
/// `k` did not is that of row `k`.
proof fn lemma_first_error_at<T, E>(rows: Seq<Result<T, E>>, k: int)
    requires
        0 <= k < rows.len(),
        forall|j: int| 0 <= j < k ==> (#[trigger] rows[j]) is Ok,
        rows[k] is Err,
    ensures
        first_error(rows) == Some(rows[k]->Err_0),
    decreases k,
{
    if k > 0 {
        assert forall|j: int| 0 <= j < k - 1 implies (#[trigger] rows.skip(1)[j]) is Ok by {
            assert(rows.skip(1)[j] == rows[j + 1]);
        }
        lemma_first_error_at(rows.skip(1), k - 1);
    }
}

/// The stored text `encoded` decodes to a token of the right length, or is
/// not hexadecimal at all.
pub open spec fn token_text_well_sized(encoded: Seq<u8>) -> bool {
    is_hex_text(encoded) ==> encoded.len() == 64
}

/// Whether `token_row_to_details` may be given `encoded`.
pub fn token_text_fits(encoded: &[u8]) -> (fits: bool)
    ensures
        fits == token_text_well_sized(encoded@),
{
    encoded.len() == 64 || hex_decode(encoded).is_none()
}

/// The token held by the stored text `encoded`, or `None` when the text is
/// not hexadecimal.
pub fn token_row_to_details(encoded: &[u8]) -> (token: Option<[u8; 32]>)
    requires
        token_text_well_sized(encoded@),
    ensures
        token is Some <==> is_hex_text(encoded@),
        token matches Some(t) ==> t@ == hex_decode_bytes(encoded@),
{
    match hex_decode(encoded) {
        None => None,
        Some(bytes) => {
            let mut token = [0u8; 32];
            let mut i: usize = 0;
            while i < 32
                invariant
                    i <= 32,
                    bytes@.len() == 32,
                    forall|j: int| 0 <= j < i ==> token@[j] == bytes@[j],
                decreases 32 - i,
            {
                token[i] = bytes[i];
                i = i + 1;
            }
            assert(token@ =~= bytes@);
            Some(token)
        },
    }
}

/// Reading back a stored token: the bytes of the text that
/// `save_access_token` or `save_refresh_token` stores for `token` are well
/// sized hexadecimal text, and `token_row_to_details` turns them back into
/// `token`.
pub proof fn lemma_stored_token_reads_back(token: Seq<u8>)
    requires
        token.len() == 32,
    ensures
        token_text_well_sized(ascii_bytes(stored_token(token))),
        is_hex_text(ascii_bytes(stored_token(token))),
        hex_decode_bytes(ascii_bytes(stored_token(token))) == token,
{
    lemma_hex_text_ascii(token);
    lemma_hex_round_trip(token);
    assert(hex_encode_bytes(token).len() == 64);
}

/// A congregation as stored: never marked for removal.
pub fn cong_row_to_details(cong_id: u32, cong_name: String, updated: u32) -> (c: CongDetails)
    ensures
        c == (CongDetails { cong_id, cong_name, remove: false, updated }),
{
    CongDetails { cong_id, cong_name, remove: false, updated }
}

/// A category as stored: never marked for removal.
pub fn category_row_to_details(
    id: u32,
    name: String,
    prefix: String,
    congregation: u32,
    updated: u32,
) -> (c: CategoryDetails)
    ensures
        c == (CategoryDetails { id, name, prefix, congregation, updated, remove: false }),
{
    CategoryDetails { id, name, prefix, congregation, updated, remove: false }
}

/// A service group as stored: neither deletion flag set.
pub fn group_row_to_details(id: u32, name: String, cong: u32, elder: u32, updated: u32) -> (g:
    GroupDetails)
    ensures
        g == (GroupDetails {
            id,
            name,
            cong,
            elder,
            updated,
            group_deleted: false,
            pair_deleted: false,
        }),
{
    GroupDetails { id, name, cong, elder, updated, group_deleted: false, pair_deleted: false }
}

/// A user as stored: not deleted.
pub fn user_row_to_details(id: u32, name: String) -> (u: UserPublicDetails)
    ensures
        u == (UserPublicDetails { id, name, deleted: false }),
{
    UserPublicDetails { id, name, deleted: false }
}

/// A map as stored: the file name is the image name, no image, not deleted.
pub fn map_row_to_details(
    id: u32,
    name: String,
    assignee: u32,
    assigner: u32,
    file_name: String,
    category: u32,
) -> (m: MapDetails)
    ensures
        m == (MapDetails {
            id,
            name,
            image_name: file_name,
            assignee,
            assigner,
            image: None,
            category,
            deleted: false,
        }),
{
    MapDetails {
        id,
        name,
        image_name: file_name,
        assignee,
        assigner,
        image: None,
        category,
        deleted: false,
    }
}

/// A map as listed: its name is the display name.
pub fn map_row_to_display_details(id: u32, name: String, file_name: String, category: u32) -> (m:
    MapDisplayDetails)
    ensures
        m == (MapDisplayDetails { id, display_name: name, file_name, category }),
{
    MapDisplayDetails { id, display_name: name, file_name, category }
}

/// A street as stored: not deleted.
pub fn street_row_to_details(id: u32, map_id: u32, name: String) -> (s: StreetDetails)
    ensures
        s == (StreetDetails { id, map_id, name, deleted: false }),
{
    StreetDetails { id, map_id, name, deleted: false }
}

/// An address as stored, with its decoded tags: not deleted.
pub fn address_row_to_details(
    id: u32,
    street_id: u32,
    number: String,
    tags: Vec<AddressTags>,
    visited: bool,
) -> (a: AddressDetails)
    ensures
        a == (AddressDetails { id, street_id, number, tags, visited, deleted: false }),
{
    AddressDetails { id, street_id, number, tags, visited, deleted: false }
}

} // verus!
