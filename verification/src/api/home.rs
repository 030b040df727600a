//! The home page, which offers the form.

use vstd::prelude::*;

use crate::api::form_request;

verus! {

/// Where the home page is served.
pub const PATH: &'static str = "/";

/// The path of the home page. No part of it varies.
#[derive(Clone, Copy, Debug, PartialEq, Eq, Structural)]
pub struct Path {}

impl Path {
    /// The path as text.
    pub fn to_string(&self) -> (out: String)
        ensures
            out@ == PATH@,
    {
        PATH.to_owned()
    }
}

/// The content of the home page: where its form is sent.
pub struct Home<'input> {
    pub endpoint: &'input str,
}

/// The home page. Its form is sent to the form endpoint.
pub fn handler() -> (page: Home<'static>)
    ensures
        page.endpoint@ == form_request::PATH@,
{
    Home { endpoint: form_request::PATH }
}

} // verus!
