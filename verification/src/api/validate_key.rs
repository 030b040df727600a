//! Redeeming a key named in the request's path.

use vstd::prelude::*;
use vstd::string::*;

use crate::api::{AppData, StatusCode};
use crate::errors::R;
use crate::key;
use crate::services::{Service, ValidateKey};
use crate::text::{join, joined};

verus! {

/// What stands before the key in the path of a redemption.
pub const PREFIX: &'static str = "/validate-key/";

/// The path of a redemption: the key to redeem.
#[derive(Clone, Copy, Debug, PartialEq, Eq, Structural)]
pub struct Path {
    pub key: u128,
}

impl Path {
    /// Reads the key from the last segment of a path; `None` where the
    /// segment denotes no key.
    pub fn from_segment(segment: &str) -> (out: Option<Path>)
        ensures
            out == match key::parsed(segment@) {
                Some(k) => Some(Path { key: k }),
                None => None,
            },
    {
        match key::read(segment) {
            Some(k) => Some(Path { key: k }),
            None => None,
        }
    }

    /// The path as text: the prefix, then the key. Its last segment is read
    /// back as this path.
    pub fn to_string(&self) -> (out: String)
        ensures
            out@ == PREFIX@ + key::text(self.key),
            key::parsed(key::text(self.key)) == Some(self.key),
    {
        let key = key::write(self.key);
        let mut parts: Vec<&str> = Vec::new();
        parts.push(PREFIX);
        parts.push(key.as_str());
        proof {
            let first = parts@.drop_last();
            assert(first.drop_last() =~= Seq::<&str>::empty());
            assert(joined(first.drop_last()) =~= Seq::<char>::empty());
            assert(joined(first) =~= PREFIX@);
        }
        join(&parts)
    }
}

/// The answer: whether the key was redeemed by this request.
#[derive(Clone, Copy, Debug, PartialEq, Eq, Structural)]
pub struct Output {
    pub is_valid: bool,
}

/// Turns the service's result into the answer: a failure of the table
/// becomes an internal server error, anything else is passed on.
pub fn respond(result: R<bool>) -> (answer: Result<Output, StatusCode>)
    ensures
        answer == match result {
            Ok(is_valid) => Ok::<Output, StatusCode>(Output { is_valid }),
            Err(_) => Err::<Output, StatusCode>(StatusCode::InternalServerError),
        },
{
    match result {
        Ok(is_valid) => Ok(Output { is_valid }),
        Err(_) => Err(StatusCode::InternalServerError),
    }
}

/// Answers a redemption: the key is valid exactly if it was outstanding, and
/// it is not outstanding afterwards.
pub fn handler(path: Path, data: &mut AppData) -> (answer: Result<Output, StatusCode>)
    requires
        old(data).db.wf(),
    ensures
        final(data).db.wf(),
        final(data).env == old(data).env,
        answer == Ok::<Output, StatusCode>(Output { is_valid: old(data).db@.holds(path.key) }),
        final(data).db@ == old(data).db@.without(path.key),
{
    let service = ValidateKey { key: path.key };
    respond(service.run(data))
}

/// Answers a redemption whose key arrives as text.
///
/// Text that denotes no key is answered like a key that is not outstanding:
/// not valid, and the table is untouched.
pub fn handler_for_segment(segment: &str, data: &mut AppData) -> (answer: Result<
    Output,
    StatusCode,
>)
    requires
        old(data).db.wf(),
    ensures
        final(data).db.wf(),
        final(data).env == old(data).env,
        match key::parsed(segment@) {
            Some(k) => answer == Ok::<Output, StatusCode>(
                Output { is_valid: old(data).db@.holds(k) },
            ) && final(data).db@ == old(data).db@.without(k),
            None => answer == Ok::<Output, StatusCode>(Output { is_valid: false })
                && final(data).db@ == old(data).db@,
        },
{
    match Path::from_segment(segment) {
        Some(path) => handler(path, data),
        None => Ok(Output { is_valid: false }),
    }
}

} // verus!
