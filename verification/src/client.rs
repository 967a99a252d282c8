//! What an upstream transaction came to. The transaction itself, an HTTPS
//! POST of the wire buffer, is the caller's; this module reads its outcome.

use vstd::prelude::*;

verus! {

/// The HTTP status of a successful transaction.
pub const HTTP_OK: u16 = 200;

/// The media type of the request body, and the one accepted in return.
pub const DNS_MESSAGE_MEDIA_TYPE: &'static str = "application/dns-message";

/// The answer of the upstream to one request.
#[derive(Debug)]
pub enum DOHResponse {
    /// The upstream answered, but not with a message.
    HTTPRequestError,
    /// The upstream answered with these bytes.
    HTTPRequestSuccess(Vec<u8>),
}

/// Reads an HTTP answer: status 200 with a body that is not empty is a
/// success and carries the body; anything else is an error.
pub fn classify_http_response(status: u16, body: Vec<u8>) -> (r: DOHResponse)
    ensures
        status == HTTP_OK && body@.len() > 0 ==> r == DOHResponse::HTTPRequestSuccess(body),
        !(status == HTTP_OK && body@.len() > 0) ==> r == DOHResponse::HTTPRequestError,
{
    if status == HTTP_OK && body.len() > 0 {
        DOHResponse::HTTPRequestSuccess(body)
    } else {
        DOHResponse::HTTPRequestError
    }
}

} // verus!
