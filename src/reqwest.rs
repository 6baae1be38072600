//! The endpoint of an HTTP client that posts every request.
use vstd::prelude::*;
use crate::client::HttpMethod;

verus! {

/// A URL that requests are posted to.
#[derive(Debug, Clone)]
pub struct Client {
    url: String,
}

impl Client {
    /// The URL requests go to.
    pub closed spec fn url_view(&self) -> Seq<char> {
        self.url@
    }

    /// An endpoint at `url`.
    pub fn new(url: &str) -> (r: Self)
        ensures
            r.url_view() == url@,
    {
        Client { url: url.to_owned() }
    }

    /// The URL requests go to.
    pub fn url(&self) -> (r: &str)
        ensures
            r@ == self.url_view(),
    {
        self.url.as_str()
    }

    /// Requests are always posted.
    pub fn method(&self) -> (r: HttpMethod)
        ensures
            r == HttpMethod::Post,
    {
        HttpMethod::Post
    }
}

} // verus!
