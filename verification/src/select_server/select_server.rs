use vstd::prelude::*;

verus! {

use crate::select_server::error::Error;
use crate::select_server::request::Request;
use crate::select_server::response::Response;

/// A selection policy over the shared healthy set.
pub trait SelectServer {
    /// The configured target list the policy draws from.
    spec fn configured(&self) -> Seq<Seq<char>>;

    /// Selects one live target. A successful selection always names one of
    /// the configured targets — it was drawn from a snapshot of the healthy
    /// set — and the only failure is an empty healthy set at the moment the
    /// snapshot was taken.
    fn execute(&self, request: Request) -> (r: Result<Response, Error>)
        ensures
            r matches Ok(resp) ==> self.configured().contains(resp.server@),
            r matches Err(e) ==> e == Error::NoOneIsAlive,
    ;
}

} // verus!
