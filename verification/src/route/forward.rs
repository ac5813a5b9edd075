use vstd::prelude::*;

verus! {

use vstd::string::StringExecFns;

use crate::header_list;
use crate::http_client::error::Error;
use crate::http_client::request::{Request, RequestError, RequestHeaders, RequestMethod};
use crate::http_client::response::Response;
use crate::select_server_service::select_server_service_error::SelectServerServiceError;

/// Smallest HTTP status code that is valid on the wire.
pub const MIN_HTTP_STATUS: u16 = 100;

/// Largest HTTP status code that is valid on the wire.
pub const MAX_HTTP_STATUS: u16 = 599;

/// An upstream status is forwarded verbatim when it is a valid HTTP
/// status; anything else falls back to 200.
pub fn sanitize_status(status: u16) -> (r: u16)
    ensures
        MIN_HTTP_STATUS <= status <= MAX_HTTP_STATUS ==> r == status,
        !(MIN_HTTP_STATUS <= status <= MAX_HTTP_STATUS) ==> r == 200,
{
    if MIN_HTTP_STATUS <= status && status <= MAX_HTTP_STATUS {
        status
    } else {
        200
    }
}

/// Status answered for each way an upstream call can fail: a timeout is a
/// gateway timeout, a network failure a bad gateway, and a request the
/// upstream could not be asked at all a bad request.
pub fn error_status(e: &Error) -> (s: u16)
    ensures
        e is Timeout ==> s == 504,
        e is Network ==> s == 502,
        e is InvalidRequest ==> s == 400,
{
    match e {
        Error::Timeout => 504,
        Error::Network(_) => 502,
        Error::InvalidRequest(_) => 400,
    }
}

/// Body answered alongside [`error_status`].
pub fn error_body(e: &Error) -> (b: &'static str)
    ensures
        e is Timeout ==> b@ == "Timeout"@,
        e is Network ==> b@ == "Network error"@,
        e is InvalidRequest ==> b@ == "Invalid request"@,
{
    match e {
        Error::Timeout => "Timeout",
        Error::Network(_) => "Network error",
        Error::InvalidRequest(_) => "Invalid request",
    }
}

/// Status answered when no target could be selected: an empty healthy set
/// is service unavailable; corrupted selector state is an internal error.
pub fn selection_error_status(e: &SelectServerServiceError) -> (s: u16)
    ensures
        e == SelectServerServiceError::NoOneIsAlive ==> s == 503,
        e == SelectServerServiceError::PoisonedRead ==> s == 500,
{
    match e {
        SelectServerServiceError::NoOneIsAlive => 503,
        SelectServerServiceError::PoisonedRead => 500,
    }
}

/// Status answered for the outcome of a forwarded call whose body is
/// returned verbatim: success passes through, any failure is a bad
/// gateway.
pub fn forward_status(succeeded: bool) -> (s: u16)
    ensures
        succeeded ==> s == 200,
        !succeeded ==> s == 502,
{
    if succeeded {
        200
    } else {
        502
    }
}

/// The upstream URL for one inbound request: the selected target's base
/// URL with the inbound path (and query) appended verbatim.
pub fn compose_upstream_url(target: &str, path_and_query: &str) -> (u: String)
    ensures
        u@ == target@ + path_and_query@,
{
    target.to_owned().concat(path_and_query)
}

/// Builds the outbound request for one inbound request: the method must be
/// one of the five supported ones, the URL is the target with the inbound
/// path appended, the inbound headers are kept with the correlation header
/// set to `request_id`, and the body is passed through untouched. An
/// unsupported method is rejected before any upstream work.
pub fn build_forward_request(
    target: &str,
    path_and_query: &str,
    method_name: &str,
    headers: RequestHeaders,
    body: Vec<u8>,
    request_id: String,
) -> (r: Result<Request, RequestError>)
    ensures
        r is Ok <==> (method_name@ == "GET"@ || method_name@ == "POST"@ || method_name@
            == "PUT"@ || method_name@ == "DELETE"@ || method_name@ == "PATCH"@),
        r matches Ok(req) ==> {
            &&& req.method.name_spec() == method_name@
            &&& req.url@ == target@ + path_and_query@
            &&& header_list::lookup_spec(req.headers@, "x-request-id"@) == Some(request_id@)
            &&& forall|k: Seq<char>|
                k != "x-request-id"@ ==> header_list::lookup_spec(req.headers@, k)
                    == header_list::lookup_spec(headers@, k)
            &&& req.body@ == body@
        },
        r matches Err(RequestError::UnsupportedMethod(m)) ==> m@ == method_name@,
{
    let method = match RequestMethod::from_name(method_name) {
        Ok(m) => m,
        Err(e) => {
            return Err(e);
        },
    };
    let mut headers = headers;
    headers.insert(crate::request_id::x_request_id().to_owned(), request_id);
    Ok(
        Request {
            method,
            url: compose_upstream_url(target, path_and_query),
            headers,
            body,
        },
    )
}

/// The response answered for a successful upstream call: the status is
/// forwarded verbatim when valid (200 otherwise, see [`sanitize_status`]),
/// and headers and body pass through untouched.
pub fn upstream_response(status: u16, headers: RequestHeaders, body: Vec<u8>) -> (r: Response)
    ensures
        MIN_HTTP_STATUS <= status <= MAX_HTTP_STATUS ==> r.status == status,
        !(MIN_HTTP_STATUS <= status <= MAX_HTTP_STATUS) ==> r.status == 200,
        r.headers@ == headers@,
        r.body@ == body@,
{
    Response { status: sanitize_status(status), headers, body }
}

} // verus!
