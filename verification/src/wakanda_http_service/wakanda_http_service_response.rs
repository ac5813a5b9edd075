use vstd::prelude::*;

verus! {

use crate::wakanda_http_service::wakanda_http_service_error::WakandaHttpServiceErrorChecker;
use crate::wakanda_http_service::wakanda_http_service_request::WakandaHttpServiceHeaders;

/// An upstream HTTP response, fully read into memory.
#[derive(Debug, Clone)]
pub struct WakandaHttpServiceResponse {
    pub status: u16,
    pub headers: WakandaHttpServiceHeaders,
    pub body: Vec<u8>,
}

/// Failure of a proxied upstream call.
#[derive(Debug)]
pub enum WakandaHttpServiceError {
    Network(String),
    InvalidRequest(String),
    Timeout,
}

/// Maps transport findings onto the error taxonomy: a timeout wins over
/// everything, then a connect or request failure counts as a network error,
/// and anything else is an invalid request.
pub fn classify_error(
    timeout: bool,
    connect: bool,
    request: bool,
    message: String,
) -> (e: WakandaHttpServiceError)
    ensures
        timeout ==> e is Timeout,
        !timeout && (connect || request) ==> (e matches WakandaHttpServiceError::Network(m) && m@
            == message@),
        !timeout && !connect && !request ==> (e matches WakandaHttpServiceError::InvalidRequest(m)
            && m@ == message@),
{
    if timeout {
        WakandaHttpServiceError::Timeout
    } else if connect || request {
        WakandaHttpServiceError::Network(message)
    } else {
        WakandaHttpServiceError::InvalidRequest(message)
    }
}

impl WakandaHttpServiceError {
    /// Gathers a checker's answers and classifies them; which variant comes
    /// back for which answers is specified and proved on [`classify_error`].
    pub fn from_checker<T: WakandaHttpServiceErrorChecker>(err: &T) -> WakandaHttpServiceError {
        classify_error(err.is_timeout(), err.is_connect(), err.is_request(), err.error_string())
    }
}

} // verus!
