//! JSON as the browser's own parser reads and writes it.
use vstd::prelude::*;

verus! {

/// JSON, encoded and decoded by the host browser.
#[derive(Debug, Clone, Copy)]
pub struct BrowserJson;

impl BrowserJson {
    /// The HTTP content type of the encoding.
    pub fn content_type(&self) -> (r: &'static str)
        ensures
            r@ == "application/json"@,
    {
        "application/json"
    }
}

} // verus!
