use vstd::prelude::*;

verus! {

use crate::header_list;
use crate::text::str_eq;

/// Header names and values of a proxied request, as an ordered pair list.
/// Lookup resolves a name to the first pair carrying it; insertion
/// overwrites that pair, so names stay unique when every pair enters
/// through [`WakandaHttpServiceHeaders::insert`].
#[derive(Debug, Clone)]
pub struct WakandaHttpServiceHeaders(pub Vec<(String, String)>);

impl View for WakandaHttpServiceHeaders {
    type V = Seq<(Seq<char>, Seq<char>)>;

    open spec fn view(&self) -> Seq<(Seq<char>, Seq<char>)> {
        self.0.deep_view()
    }
}

impl WakandaHttpServiceHeaders {
    /// The value of the first header named `key`, if any.
    pub fn get<'a>(&'a self, key: &str) -> (r: Option<&'a String>)
        ensures
            match r {
                Some(v) => header_list::lookup_spec(self@, key@) == Some(v@),
                None => header_list::lookup_spec(self@, key@) is None,
            },
    {
        header_list::lookup(&self.0, key)
    }

    /// Sets `key` to `value`, overwriting the first header of that name or
    /// appending a new pair; every other name keeps its value, and names
    /// that were unique stay unique.
    pub fn insert(&mut self, key: String, value: String)
        ensures
            header_list::lookup_spec(final(self)@, key@) == Some(value@),
            forall|k: Seq<char>|
                k != key@ ==> header_list::lookup_spec(final(self)@, k)
                    == header_list::lookup_spec(old(self)@, k),
            final(self)@.len() <= old(self)@.len() + 1,
            header_list::unique_names(old(self)@) ==> header_list::unique_names(final(self)@),
    {
        header_list::upsert(&mut self.0, key, value)
    }

    /// Collects a pair list; for a name that occurs several times the last
    /// pair wins, as repeated map insertion would resolve it. The result's
    /// names are unique, so it holds at most as many pairs as `src`.
    pub fn from_pairs(src: &Vec<(String, String)>) -> (r: Self)
        ensures
            forall|k: Seq<char>| #[trigger]
                header_list::lookup_spec(r@, k) == header_list::last_match_spec(
                    src.deep_view(),
                    k,
                ),
            header_list::unique_names(r@),
            r@.len() <= src.deep_view().len(),
    {
        WakandaHttpServiceHeaders(header_list::collect_pairs(src))
    }

    /// Number of stored headers.
    pub fn len(&self) -> (n: usize)
        ensures
            n == self@.len(),
    {
        self.0.len()
    }
}

impl Default for WakandaHttpServiceHeaders {
    /// An empty header list.
    fn default() -> (r: Self)
        ensures
            r@ == Seq::<(Seq<char>, Seq<char>)>::empty(),
    {
        WakandaHttpServiceHeaders(Vec::new())
    }
}

/// The HTTP methods the balancer forwards; every other method is rejected.
#[derive(Debug, Clone, PartialEq, Eq, Structural)]
pub enum WakandaHttpServiceRequestHttpMethod {
    Get,
    Post,
    Put,
    Delete,
    Patch,
}

impl WakandaHttpServiceRequestHttpMethod {
    /// The method's canonical upper-case wire name.
    pub open spec fn name_spec(self) -> Seq<char> {
        match self {
            WakandaHttpServiceRequestHttpMethod::Get => "GET"@,
            WakandaHttpServiceRequestHttpMethod::Post => "POST"@,
            WakandaHttpServiceRequestHttpMethod::Put => "PUT"@,
            WakandaHttpServiceRequestHttpMethod::Delete => "DELETE"@,
            WakandaHttpServiceRequestHttpMethod::Patch => "PATCH"@,
        }
    }

    /// The wire name of the method.
    pub fn as_str(&self) -> (r: &'static str)
        ensures
            r@ == self.name_spec(),
    {
        match self {
            WakandaHttpServiceRequestHttpMethod::Get => "GET",
            WakandaHttpServiceRequestHttpMethod::Post => "POST",
            WakandaHttpServiceRequestHttpMethod::Put => "PUT",
            WakandaHttpServiceRequestHttpMethod::Delete => "DELETE",
            WakandaHttpServiceRequestHttpMethod::Patch => "PATCH",
        }
    }

    /// Parses a wire name; exactly the five supported upper-case names are
    /// accepted, anything else is an unsupported method.
    pub fn from_name(name: &str) -> (r: Result<WakandaHttpServiceRequestHttpMethod, WakandaHttpServiceRequestError>)
        ensures
            r is Ok <==> (name@ == "GET"@ || name@ == "POST"@ || name@ == "PUT"@
                || name@ == "DELETE"@ || name@ == "PATCH"@),
            name@ == "GET"@ ==> r == Ok::<WakandaHttpServiceRequestHttpMethod, WakandaHttpServiceRequestError>(WakandaHttpServiceRequestHttpMethod::Get),
            name@ == "POST"@ ==> r == Ok::<WakandaHttpServiceRequestHttpMethod, WakandaHttpServiceRequestError>(WakandaHttpServiceRequestHttpMethod::Post),
            name@ == "PUT"@ ==> r == Ok::<WakandaHttpServiceRequestHttpMethod, WakandaHttpServiceRequestError>(WakandaHttpServiceRequestHttpMethod::Put),
            name@ == "DELETE"@ ==> r == Ok::<WakandaHttpServiceRequestHttpMethod, WakandaHttpServiceRequestError>(WakandaHttpServiceRequestHttpMethod::Delete),
            name@ == "PATCH"@ ==> r == Ok::<WakandaHttpServiceRequestHttpMethod, WakandaHttpServiceRequestError>(WakandaHttpServiceRequestHttpMethod::Patch),
            r matches Ok(m) ==> m.name_spec() == name@,
            r matches Err(WakandaHttpServiceRequestError::UnsupportedMethod(m)) ==> m@ == name@,
    {
        proof {
            reveal_strlit("GET");
            reveal_strlit("POST");
            reveal_strlit("PUT");
            reveal_strlit("DELETE");
            reveal_strlit("PATCH");
            assert("GET"@.len() == 3 && "POST"@.len() == 4 && "PUT"@.len() == 3
                && "DELETE"@.len() == 6 && "PATCH"@.len() == 5);
            assert("GET"@[0] == 'G' && "PUT"@[0] == 'P');
        }
        if str_eq(name, "GET") {
            Ok(WakandaHttpServiceRequestHttpMethod::Get)
        } else if str_eq(name, "POST") {
            Ok(WakandaHttpServiceRequestHttpMethod::Post)
        } else if str_eq(name, "PUT") {
            Ok(WakandaHttpServiceRequestHttpMethod::Put)
        } else if str_eq(name, "DELETE") {
            Ok(WakandaHttpServiceRequestHttpMethod::Delete)
        } else if str_eq(name, "PATCH") {
            Ok(WakandaHttpServiceRequestHttpMethod::Patch)
        } else {
            Err(WakandaHttpServiceRequestError::UnsupportedMethod(name.to_owned()))
        }
    }
}

/// Rejection of an inbound request before any upstream call is made.
#[derive(Debug)]
pub enum WakandaHttpServiceRequestError {
    UnsupportedMethod(String),
}

impl WakandaHttpServiceRequestError {
    /// The balancer answers an unsupported method as an internal error.
    pub fn status_code(&self) -> (s: u16)
        ensures
            s == 500u16,
    {
        500
    }
}

/// An outbound HTTP request, ready for the wire.
#[derive(Debug, Clone)]
pub struct WakandaHttpServiceRequest {
    pub method: WakandaHttpServiceRequestHttpMethod,
    pub url: String,
    pub headers: WakandaHttpServiceHeaders,
    pub body: Vec<u8>,
}

} // verus!
