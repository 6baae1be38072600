//! The endpoint of a suspending HTTP client.
use vstd::prelude::*;
use crate::client::HttpMethod;

verus! {

/// A URL and the method that requests are sent with.
#[derive(Debug, Clone)]
pub struct Client {
    url: String,
    method: HttpMethod,
}

impl Client {
    /// The URL requests go to.
    pub closed spec fn url_view(&self) -> Seq<char> {
        self.url@
    }

    /// The HTTP method requests use.
    pub closed spec fn method_spec(&self) -> HttpMethod {
        self.method
    }

    /// An endpoint at `url`, sending with `method`.
    pub fn new(url: &str, method: HttpMethod) -> (r: Self)
        ensures
            r.url_view() == url@,
            r.method_spec() == method,
    {
        Client { url: url.to_owned(), method }
    }

    /// The URL requests go to.
    pub fn url(&self) -> (r: &str)
        ensures
            r@ == self.url_view(),
    {
        self.url.as_str()
    }

    /// The HTTP method requests use.
    pub fn method(&self) -> (r: HttpMethod)
        ensures
            r == self.method_spec(),
    {
        self.method
    }
}

} // verus!
