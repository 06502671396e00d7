//! Handlers that show a whole body as one literal block of text: Finger,
//! and the fallback for protocols with no markup of their own.
use vstd::prelude::*;
use crate::text::{lossy_string, utf8_lossy};

verus! {

/// A Finger page: the whole body as text.
pub struct Finger {
    pub current_page_contents: String,
}

/// A page shown as literal text.
pub struct Plaintext {
    pub current_page_contents: String,
}

impl Finger {
    pub fn new() -> (r: Finger)
        ensures
            r.current_page_contents@.len() == 0,
    {
        Finger { current_page_contents: String::new() }
    }

    /// Replaces the page with the response body; the plaintext flag changes
    /// nothing here.
    pub fn parse_content(&mut self, response: &[u8], plaintext: bool)
        ensures
            final(self).current_page_contents@ == utf8_lossy(response@),
    {
        self.current_page_contents = lossy_string(response);
    }
}

impl Plaintext {
    pub fn new() -> (r: Plaintext)
        ensures
            r.current_page_contents@.len() == 0,
    {
        Plaintext { current_page_contents: String::new() }
    }

    /// Replaces the page with the response body.
    pub fn parse_content(&mut self, response: &[u8], plaintext: bool)
        ensures
            final(self).current_page_contents@ == utf8_lossy(response@),
    {
        self.current_page_contents = lossy_string(response);
    }
}

} // verus!
