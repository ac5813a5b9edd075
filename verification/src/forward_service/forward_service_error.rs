use vstd::prelude::*;

verus! {

/// Introspection over a transport error, implemented by the adapter that
/// talks to the HTTP library; it mirrors the predicates that library errors
/// answer about themselves.
pub trait ForwardServiceErrorChecker {
    fn is_timeout(&self) -> bool;

    fn is_connect(&self) -> bool;

    fn is_request(&self) -> bool;

    fn error_string(&self) -> String;
}

} // verus!
