use vstd::prelude::*;

verus! {

/// Transport-level failure of an upstream call, the only error kinds that
/// exist at this layer.
#[derive(Debug)]
pub enum Error {
    Network(String),
    InvalidRequest(String),
    Timeout,
}

/// Introspection over a transport error, implemented by the adapter that
/// talks to the HTTP library; it mirrors the predicates that library errors
/// answer about themselves.
pub trait HttpClientErrorChecker {
    fn is_timeout(&self) -> bool;

    fn is_connect(&self) -> bool;

    fn is_request(&self) -> bool;

    fn error_string(&self) -> String;
}

/// Maps transport findings onto the error taxonomy: a timeout wins over
/// everything, then a connect or request failure counts as a network error,
/// and anything else is an invalid request.
pub fn classify_error(timeout: bool, connect: bool, request: bool, message: String) -> (e: Error)
    ensures
        timeout ==> e is Timeout,
        !timeout && (connect || request) ==> (e matches Error::Network(m) && m@ == message@),
        !timeout && !connect && !request ==> (e matches Error::InvalidRequest(m) && m@
            == message@),
{
    if timeout {
        Error::Timeout
    } else if connect || request {
        Error::Network(message)
    } else {
        Error::InvalidRequest(message)
    }
}

impl Error {
    /// Gathers a checker's answers and classifies them; which variant comes
    /// back for which answers is specified and proved on [`classify_error`].
    pub fn from_checker<T: HttpClientErrorChecker>(err: &T) -> Error {
        classify_error(err.is_timeout(), err.is_connect(), err.is_request(), err.error_string())
    }
}

} // verus!
