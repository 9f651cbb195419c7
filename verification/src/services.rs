//! The service layer's reading of stored tokens.

use vstd::prelude::*;
use crate::datatypes::DbError;

verus! {

/// The user is logged in when a refresh token could be read; any failure to
/// read one means logged out.
pub fn is_logged_in(stored: Result<[u8; 32], DbError>) -> (token: Option<[u8; 32]>)
    ensures
        stored matches Ok(t) ==> token == Some(t),
        stored is Err ==> token is None,
{
    match stored {
        Ok(token) => Some(token),
        Err(_) => None,
    }
}

/// The access token, when one could be read.
pub fn get_access_token(stored: Result<[u8; 32], DbError>) -> (token: Option<[u8; 32]>)
    ensures
        stored matches Ok(t) ==> token == Some(t),
        stored is Err ==> token is None,
{
    match stored {
        Ok(token) => Some(token),
        Err(_) => None,
    }
}

} // verus!
