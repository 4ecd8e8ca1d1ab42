//! Sending a finished request and checking the status of its response.
use vstd::prelude::*;
use crate::error::{Error, ErrorView};
use crate::request::RequestDescription;

verus! {

/// A response as the transport hands it back.
#[derive(Clone, Debug)]
pub struct RawResponse {
    pub status: u16,
    pub headers: Vec<(String, String)>,
    pub body: String,
}

/// The HTTP round trip, supplied by the caller: one request out, one response
/// or a connection failure back.
pub trait Transport {
    fn send(&self, request: &RequestDescription) -> Result<RawResponse, String>;
}

/// Passes the response on where its status is accepted; otherwise fails with
/// the status and the body text.
pub fn check_status(response: RawResponse, accepted: &Vec<u16>) -> (r: Result<RawResponse, Error>)
    ensures
        accepted@.contains(response.status) ==> r == Ok::<RawResponse, Error>(response),
        !accepted@.contains(response.status) ==> (r matches Err(e) && e@
            == (ErrorView::UnexpectedStatus { status: response.status, body: response.body@ })),
{
    let mut i: usize = 0;
    while i < accepted.len()
        invariant
            i <= accepted@.len(),
            forall|j: int| 0 <= j < i ==> accepted@[j] != response.status,
        decreases accepted@.len() - i,
    {
        if accepted[i] == response.status {
            assert(accepted@[i as int] == response.status);
            return Ok(response);
        }
        i = i + 1;
    }
    Err(Error::UnexpectedStatus { status: response.status, body: response.body })
}

/// Sends the request once, with no retry, and checks the status of what
/// comes back.
pub fn execute_request<T: Transport>(
    transport: &T,
    request: &RequestDescription,
    accepted: &Vec<u16>,
) -> (r: Result<RawResponse, Error>)
    ensures
        r matches Ok(resp) ==> accepted@.contains(resp.status),
        r matches Err(e) ==> (e is Transport || (e matches Error::UnexpectedStatus { status, .. }
            && !accepted@.contains(status))),
{
    match transport.send(request) {
        Ok(response) => check_status(response, accepted),
        Err(message) => Err(Error::Transport(message)),
    }
}

} // verus!
