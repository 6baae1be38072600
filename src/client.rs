//! Endpoints of HTTP transports. They describe where and how requests are posted;
//! the exchange itself is left to the program that owns the connection.
use vstd::prelude::*;

pub mod reqwest;
pub mod reqwest_blocking;

verus! {

/// An HTTP request method.
#[derive(Debug, Clone, Copy, PartialEq, Eq)]
pub enum HttpMethod {
    Get,
    Post,
    Put,
    Patch,
    Delete,
}

impl HttpMethod {
    /// The method's name as it appears on the request line.
    pub fn as_str(&self) -> (r: &'static str)
        ensures
            r@ == match self {
                HttpMethod::Get => "GET"@,
                HttpMethod::Post => "POST"@,
                HttpMethod::Put => "PUT"@,
                HttpMethod::Patch => "PATCH"@,
                HttpMethod::Delete => "DELETE"@,
            },
    {
        match self {
            HttpMethod::Get => "GET",
            HttpMethod::Post => "POST",
            HttpMethod::Put => "PUT",
            HttpMethod::Patch => "PATCH",
            HttpMethod::Delete => "DELETE",
        }
    }
}

} // verus!
