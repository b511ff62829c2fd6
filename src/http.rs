//! The transport handle, the outgoing request in plain values, and the
//! error kinds that a fetch can end in.
use vstd::prelude::*;
use crate::auth::{AuthHeader, AuthHeaderModel};

verus! {

#[verifier::external_type_specification]
#[verifier::external_body]
pub struct ExClient(reqwest::Client);

#[verifier::external_type_specification]
#[verifier::external_body]
pub struct ExReqwestError(reqwest::Error);

/// Why a fetch failed.
#[derive(Debug, Clone, PartialEq, Eq)]
pub enum FetchError {
    /// The server answered with a status outside [200, 300).
    RequestFailed { status: u16 },
    /// The body could not be decoded into the expected result.
    DecodeFailed,
    /// No response was received (connection, DNS, TLS), or the transport
    /// could not be set up; the transport's own description.
    TransportError(String),
    /// Writing a result to local storage failed.
    IoError(String),
    /// A query parameter was refused before anything was sent.
    InvalidQuery,
}

/// An outgoing GET request: its full URL and the credential header, if any.
#[derive(Debug, Clone)]
pub struct HttpRequest {
    pub url: String,
    pub auth_header: Option<AuthHeader>,
}

/// HTTP's success class.
pub open spec fn is_success_status(status: u16) -> bool {
    200 <= status < 300
}

/// True for a status in the success class [200, 300).
pub fn is_success(status: u16) -> (r: bool)
    ensures
        r == is_success_status(status),
{
    200 <= status && status < 300
}

/// The error that a response status gives before any body is read: none in
/// the success class, else `RequestFailed` with the status.
pub fn status_error(status: u16) -> (r: Option<FetchError>)
    ensures
        is_success_status(status) ==> r is None,
        !is_success_status(status) ==> r == Some(FetchError::RequestFailed { status }),
{
    if is_success(status) {
        None
    } else {
        Some(FetchError::RequestFailed { status })
    }
}

/// The model of an optional credential header.
pub open spec fn header_view(h: Option<AuthHeader>) -> Option<AuthHeaderModel> {
    match h {
        Some(x) => Some(x@),
        None => None,
    }
}

/// Relies on reqwest's `ClientBuilder::user_agent` and `build`: a client
/// that sends `agent` as its User-Agent, or the error of an invalid agent
/// or of a transport that cannot be initialised.
#[verifier::external_body]
pub(crate) fn build_transport(agent: &str) -> (r: Result<reqwest::Client, reqwest::Error>) {
    reqwest::Client::builder().user_agent(agent.to_string()).build()
}

/// Relies on `Display` of `reqwest::Error`: its description.
#[verifier::external_body]
fn describe_error(e: &reqwest::Error) -> (r: String) {
    e.to_string()
}

/// The transport handle, given the outcome of building it: the handle
/// itself where it was built, else `TransportError`.
pub fn transport_from_build(built: Result<reqwest::Client, reqwest::Error>) -> (r: Result<
    reqwest::Client,
    FetchError,
>)
    ensures
        built is Ok <==> r is Ok,
        built is Ok ==> r->Ok_0 == built->Ok_0,
        r is Err ==> r->Err_0 is TransportError,
{
    match built {
        Ok(c) => Ok(c),
        Err(e) => Err(FetchError::TransportError(describe_error(&e))),
    }
}

} // verus!
