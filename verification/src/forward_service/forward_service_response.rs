use vstd::prelude::*;

verus! {

use crate::forward_service::forward_service_error::ForwardServiceErrorChecker;
use crate::forward_service::forward_service_request::ForwardServiceRequestHeaders;

/// An upstream HTTP response, fully read into memory.
#[derive(Debug, Clone)]
pub struct ForwardServiceResponse {
    pub status: u16,
    pub headers: ForwardServiceRequestHeaders,
    pub body: Vec<u8>,
}

/// Failure of a forwarded upstream call.
#[derive(Debug)]
pub enum ForwardServiceError {
    Network(String),
    InvalidRequest(String),
    Timeout,
    ServerError { status: u16 },
}

/// Maps transport findings onto the error taxonomy: a timeout wins over
/// everything, then a connect or request failure counts as a network error,
/// and anything else is an invalid request.
pub fn classify_error(
    timeout: bool,
    connect: bool,
    request: bool,
    message: String,
) -> (e: ForwardServiceError)
    ensures
        timeout ==> e is Timeout,
        !timeout && (connect || request) ==> (e matches ForwardServiceError::Network(m) && m@
            == message@),
        !timeout && !connect && !request ==> (e matches ForwardServiceError::InvalidRequest(m)
            && m@ == message@),
{
    if timeout {
        ForwardServiceError::Timeout
    } else if connect || request {
        ForwardServiceError::Network(message)
    } else {
        ForwardServiceError::InvalidRequest(message)
    }
}

impl ForwardServiceError {
    /// Gathers a checker's answers and classifies them; which variant comes
    /// back for which answers is specified and proved on [`classify_error`].
    pub fn from_checker<T: ForwardServiceErrorChecker>(err: &T) -> ForwardServiceError {
        classify_error(err.is_timeout(), err.is_connect(), err.is_request(), err.error_string())
    }
}

} // verus!
