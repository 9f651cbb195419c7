//! What the frontend commands make of the answer to their request.

use vstd::prelude::*;
use crate::datatypes::{FrontendReponse, MapDisplayDetails};

verus! {

/// The login command reports success only when the answer confirms a
/// successful login; any other answer, or none, is a failure.
pub fn login_succeeded(response: Option<FrontendReponse>) -> (success: bool)
    ensures
        success == (response matches Some(FrontendReponse::ConfirmLogin { success, .. }) && success),
{
    match response {
        Some(FrontendReponse::ConfirmLogin { success, .. }) => success,
        _ => false,
    }
}

/// Why the maps command could not show maps.
#[derive(Debug, PartialEq, Eq, Structural)]
pub enum MapsRequestError {
    /// The request was not answered.
    NoAnswer,
    /// The answer was not a list of maps.
    UnexpectedAnswer,
}

impl MapsRequestError {
    /// The text of the error.
    pub open spec fn text(self) -> Seq<char> {
        match self {
            MapsRequestError::NoAnswer => "the networking did not answer"@,
            MapsRequestError::UnexpectedAnswer => "Unexpected message from server"@,
        }
    }

    /// The text of the error, as the command reports it.
    pub fn to_message(&self) -> (text: String)
        ensures
            text@ == self.text(),
    {
        match self {
            MapsRequestError::NoAnswer => String::from_str("the networking did not answer"),
            MapsRequestError::UnexpectedAnswer => String::from_str("Unexpected message from server"),
        }
    }
}

/// The maps command shows the maps of a `Maps` answer; no answer, or any
/// other answer, is an error of the command.
pub fn maps_outcome(response: Option<FrontendReponse>) -> (r: Result<Vec<MapDisplayDetails>, MapsRequestError>)
    ensures
        response matches Some(FrontendReponse::Maps(m)) ==> r == Ok::<
            Vec<MapDisplayDetails>,
            MapsRequestError,
        >(m),
        response is None ==> r == Err::<Vec<MapDisplayDetails>, MapsRequestError>(
            MapsRequestError::NoAnswer,
        ),
        (response is Some && !(response matches Some(FrontendReponse::Maps(_)))) ==> r == Err::<
            Vec<MapDisplayDetails>,
            MapsRequestError,
        >(MapsRequestError::UnexpectedAnswer),
{
    match response {
        Some(FrontendReponse::Maps(maps)) => Ok(maps),
        Some(_) => Err(MapsRequestError::UnexpectedAnswer),
        None => Err(MapsRequestError::NoAnswer),
    }
}

} // verus!
