use vstd::prelude::*;

verus! {

/// Name of the correlation header the balancer reads, propagates and
/// synthesizes; the only header it ever invents.
pub fn x_request_id() -> (r: &'static str)
    ensures
        r@ == "x-request-id"@,
{
    "x-request-id"
}

/// A lowercase hexadecimal digit.
pub open spec fn is_lower_hex_digit(c: char) -> bool {
    ('0' <= c && c <= '9') || ('a' <= c && c <= 'f')
}

/// The canonical hyphenated UUID text form: exactly 36 characters, with a
/// hyphen at positions 8, 13, 18 and 23 and a lowercase hexadecimal digit
/// everywhere else.
pub open spec fn is_hyphenated_uuid(s: Seq<char>) -> bool {
    &&& s.len() == 36
    &&& s[8] == '-' && s[13] == '-' && s[18] == '-' && s[23] == '-'
    &&& forall|i: int|
        0 <= i < 36 && i != 8 && i != 13 && i != 18 && i != 23 ==> is_lower_hex_digit(
            #[trigger] s[i],
        )
}

/// Relies on uuid::Uuid::new_v4 and Uuid's Display form: a fresh random
/// version-4 identifier rendered hyphenated in lowercase — 36 characters,
/// hyphens at positions 8, 13, 18 and 23, hexadecimal digits elsewhere.
#[verifier::external_body]
fn fresh_uuid_string() -> (r: String)
    ensures
        r@.len() == 36,
        is_hyphenated_uuid(r@),
{
    uuid::Uuid::new_v4().to_string()
}

/// A request-id source: it synthesizes a fresh UUIDv4 string for every
/// request that arrives without one.
#[derive(Debug, Clone)]
pub struct LoadBalancerRequestId {}

impl LoadBalancerRequestId {
    /// A fresh UUIDv4 identifier in canonical hyphenated form.
    pub fn make_request_id(&self) -> (id: String)
        ensures
            id@.len() == 36,
            is_hyphenated_uuid(id@),
    {
        fresh_uuid_string()
    }
}

impl Default for LoadBalancerRequestId {
    /// The request-id source carries no state.
    fn default() -> (r: Self)
        ensures
            r == (LoadBalancerRequestId {  }),
    {
        LoadBalancerRequestId {  }
    }
}

/// Resolves the request id of one inbound request: an id the request
/// already carries is preserved verbatim; otherwise a fresh UUIDv4 string
/// in canonical hyphenated form is synthesized.
pub fn resolve_request_id(inbound: Option<String>) -> (id: String)
    ensures
        inbound matches Some(v) ==> id@ == v@,
        inbound is None ==> id@.len() == 36 && is_hyphenated_uuid(id@),
{
    match inbound {
        Some(v) => v,
        None => fresh_uuid_string(),
    }
}

} // verus!
