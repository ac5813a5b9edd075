use vstd::prelude::*;

verus! {

use crate::http_client::request::RequestHeaders;

/// An upstream HTTP response, fully read into memory.
#[derive(Debug, Clone)]
pub struct Response {
    pub status: u16,
    pub headers: RequestHeaders,
    pub body: Vec<u8>,
}

} // verus!
