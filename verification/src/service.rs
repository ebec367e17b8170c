//! The presentation layer's handle on the auth operations: it records the
//! endpoint the host process serves them under. The transport itself
//! (issuing HTTP requests and decoding their bodies) is the presentation
//! adapter's plumbing and stays outside the library.

use vstd::prelude::*;

verus! {

/// A client handle configured with the host's service endpoint.
#[derive(Clone)]
pub struct AuthService {
    base_url: String,
}

impl AuthService {
    /// The endpoint the handle was configured with.
    pub closed spec fn endpoint_view(&self) -> Seq<char> {
        self.base_url@
    }

    /// A handle on the local host's default service endpoint.
    pub fn new() -> (s: Self)
        ensures
            s.endpoint_view() == "http://127.0.0.1:8080/api"@,
    {
        AuthService { base_url: "http://127.0.0.1:8080/api".to_owned() }
    }

    /// The configured endpoint, for the transport to address requests to.
    pub fn endpoint(&self) -> (r: &str)
        ensures
            r@ == self.endpoint_view(),
    {
        self.base_url.as_str()
    }
}

} // verus!
