//! Errors of building a request.

use vstd::prelude::*;

verus! {

#[verifier::external_type_specification]
#[verifier::external_body]
pub struct ExReqwestError(reqwest::Error);

/// Why a request could not be built or sent.
#[derive(Debug)]
pub enum RequestError {
    MissingAuthToken,
    MissingLocationName,
    MissingFromAndToId,
    MissingFromId,
    MissingToId,
    UnknownRequestType,
    EventsRequestTypeNotImplemented,
    InvalidNumberResults(u32),
    UnknownPersonalMode(String),
    ReqwestError(reqwest::Error),
    InvalidLocalDateTime(chrono::NaiveDateTime),
}

} // verus!
