//! What the service answers to each kind of request.
//!
//! The functions here take a request's content as plain values and return
//! the content of the answer; receiving the one and sending the other is left
//! to the transport.

pub mod form_request;
pub mod generate_key;
pub mod home;
pub mod validate_key;

use vstd::prelude::*;

use crate::env_vars::EnvVars;
use crate::models::Store;

verus! {

/// What the services work on: the key table and the configuration.
pub struct AppData {
    pub db: Store,
    pub env: EnvVars,
}

/// The status of an answer that carries no content.
#[derive(Clone, Copy, Debug, PartialEq, Eq, Structural)]
pub enum StatusCode {
    /// The request could not be served because the key table failed.
    InternalServerError,
}

impl StatusCode {
    /// The status as a number.
    pub fn as_u16(&self) -> (code: u16)
        ensures
            code == 500,
    {
        500
    }
}

} // verus!
