use vstd::prelude::*;

verus! {

use crate::select_server_service::select_server_service_error::SelectServerServiceError;
use crate::select_server_service::select_server_service_request::SelectServerServiceRequest;
use crate::select_server_service::select_server_service_response::SelectServerServiceResponse;

/// A selection policy over the shared healthy set.
pub trait SelectServerService {
    /// The configured target list the policy draws from.
    spec fn configured(&self) -> Seq<Seq<char>>;

    /// Selects one live target. A successful selection always names one of
    /// the configured targets — it was drawn from a snapshot of the healthy
    /// set — and the only failure is an empty healthy set at the moment the
    /// snapshot was taken.
    fn execute(&self, request: SelectServerServiceRequest) -> (r: Result<
        SelectServerServiceResponse,
        SelectServerServiceError,
    >)
        ensures
            r matches Ok(resp) ==> self.configured().contains(resp.server@),
            r matches Err(e) ==> e == SelectServerServiceError::NoOneIsAlive,
    ;
}

} // verus!
