//! Issuing a key to a caller that sends its credentials as data.

use vstd::prelude::*;

use crate::api::{AppData, StatusCode};
use crate::errors::{E, R};
use crate::services::{issue_outcome, Credentials, GenerateKey, Service};

verus! {

/// Where keys are issued.
pub const PATH: &'static str = "/generate-key";

/// The path of the endpoint that issues keys. No part of it varies.
#[derive(Clone, Copy, Debug, PartialEq, Eq, Structural)]
pub struct Path {}

impl Path {
    /// The path as text.
    pub fn to_string(&self) -> (out: String)
        ensures
            out@ == PATH@,
    {
        PATH.to_owned()
    }
}

/// The credentials a caller sends.
pub struct Input {
    pub username: String,
    pub password: String,
}

impl View for Input {
    type V = Credentials;

    open spec fn view(&self) -> Credentials {
        Credentials { username: self.username@, password: self.password@ }
    }
}

/// The answer: the key issued, or nothing where the credentials were wrong.
#[derive(Clone, Copy, Debug, PartialEq, Eq, Structural)]
pub struct Output {
    pub key: Option<u128>,
}

/// The service result that an answer stands for.
pub open spec fn result_of(answer: Result<Output, StatusCode>) -> R<Option<u128>> {
    match answer {
        Ok(output) => Ok(output.key),
        Err(_) => Err(E::StoreUnavailable),
    }
}

/// Turns the service's result into the answer: a failure of the table
/// becomes an internal server error, anything else is passed on.
pub fn respond(result: R<Option<u128>>) -> (answer: Result<Output, StatusCode>)
    ensures
        answer == match result {
            Ok(key) => Ok::<Output, StatusCode>(Output { key }),
            Err(_) => Err::<Output, StatusCode>(StatusCode::InternalServerError),
        },
        result_of(answer) == result,
{
    proof {
        if let Err(e) = result {
            assert(e == E::StoreUnavailable);
        }
    }
    match result {
        Ok(key) => Ok(Output { key }),
        Err(_) => Err(StatusCode::InternalServerError),
    }
}

/// Answers a request for a key.
///
/// Wrong credentials are answered with no key and leave the table untouched;
/// the configured ones with a fresh key that is outstanding from then on, or
/// with an internal server error where the table failed.
pub fn handler(data: &mut AppData, input: Input) -> (answer: Result<Output, StatusCode>)
    requires
        old(data).db.wf(),
    ensures
        final(data).db.wf(),
        final(data).env == old(data).env,
        issue_outcome(input@, *old(data), result_of(answer), *final(data)),
{
    let service = GenerateKey {
        username: input.username.as_str(),
        password: input.password.as_str(),
    };
    respond(service.run(data))
}

} // verus!
