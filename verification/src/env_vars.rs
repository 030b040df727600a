//! The configuration the process is started with.

use vstd::prelude::*;

use crate::services::{Credentials, GenerateKey};

verus! {

/// The settings read once at start-up. Nothing changes them afterwards.
pub struct EnvVars {
    pub host: String,
    pub port: u16,
    pub log_level: String,
    pub database_url: String,
    pub username: String,
    pub password: String,
}

impl EnvVars {
    /// The one credential pair for which keys are issued.
    pub open spec fn expected(&self) -> Credentials {
        Credentials { username: self.username@, password: self.password@ }
    }

    /// The expected credential pair, in the form a request has.
    pub fn credentials(&self) -> (pair: GenerateKey<'_>)
        ensures
            pair@ == self.expected(),
    {
        GenerateKey { username: self.username.as_str(), password: self.password.as_str() }
    }
}

} // verus!
