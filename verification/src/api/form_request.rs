//! Issuing a key to a caller that fills in the form.

use vstd::prelude::*;
use vstd::string::*;

use crate::api::AppData;
use crate::errors::{E, R};
use crate::key;
use crate::services::{issue_outcome, Credentials, GenerateKey, Service};

verus! {

/// Where the form is sent.
pub const PATH: &'static str = "/form-request";

/// The path of the form endpoint. No part of it varies.
#[derive(Clone, Copy, Debug, PartialEq, Eq, Structural)]
pub struct Path {}

impl Path {
    /// The path as text.
    pub fn to_string(&self) -> (out: String)
        ensures
            out@ == PATH@,
    {
        PATH.to_owned()
    }
}

/// What the page says where the credentials were wrong.
pub const INVALID_CREDENTIALS: &'static str = "invalid credentials";

/// What the page says where the key table failed.
pub const SERVER_ERROR: &'static str = "server error";

/// The fields of the form.
pub struct Input {
    pub username: String,
    pub password: String,
}

impl View for Input {
    type V = Credentials;

    open spec fn view(&self) -> Credentials {
        Credentials { username: self.username@, password: self.password@ }
    }
}

/// The content of the page that shows an issued key.
pub struct KeySuccess<'input> {
    pub key: &'input str,
}

/// The content of the page that says why no key was issued.
pub struct KeyFailure<'input> {
    pub message: &'input str,
}

/// The page that answers a form: one of the two, with its content.
pub enum Page {
    KeySuccess { key: String },
    KeyFailure { message: &'static str },
}

impl Page {
    /// Whether this is the page for the given service result: the key as
    /// text, or the message for wrong credentials or for a failed table.
    pub open spec fn shows(self, result: R<Option<u128>>) -> bool {
        match result {
            Ok(Some(k)) => self matches Page::KeySuccess { key: shown } && shown@ == key::text(k)
                && key::parsed(shown@) == Some(k),
            Ok(None) => self matches Page::KeyFailure { message } && message@
                == INVALID_CREDENTIALS@,
            Err(_) => self matches Page::KeyFailure { message } && message@ == SERVER_ERROR@,
        }
    }

    /// The service result that the page stands for.
    pub open spec fn result(self) -> R<Option<u128>> {
        match self {
            Page::KeySuccess { key: shown } => match key::parsed(shown@) {
                Some(k) => Ok(Some(k)),
                None => Err(E::StoreUnavailable),
            },
            Page::KeyFailure { message } => if message@ == INVALID_CREDENTIALS@ {
                Ok(None)
            } else {
                Err(E::StoreUnavailable)
            },
        }
    }

    /// The content of the success page, if this is one.
    pub fn key_success(&self) -> (out: Option<KeySuccess<'_>>)
        ensures
            match *self {
                Page::KeySuccess { key: shown } => out matches Some(page) && page.key@ == shown@,
                Page::KeyFailure { .. } => out is None,
            },
    {
        match self {
            Page::KeySuccess { key } => Some(KeySuccess { key: key.as_str() }),
            Page::KeyFailure { .. } => None,
        }
    }

    /// The content of the failure page, if this is one.
    pub fn key_failure(&self) -> (out: Option<KeyFailure<'_>>)
        ensures
            match *self {
                Page::KeySuccess { .. } => out is None,
                Page::KeyFailure { message } => out matches Some(page) && page.message@
                    == message@,
            },
    {
        match self {
            Page::KeySuccess { .. } => None,
            Page::KeyFailure { message } => Some(KeyFailure { message: *message }),
        }
    }
}

/// The two messages differ, so a failure page tells which failure it was.
pub proof fn lemma_messages_differ()
    ensures
        INVALID_CREDENTIALS@ != SERVER_ERROR@,
{
    reveal_strlit("invalid credentials");
    reveal_strlit("server error");
    assert(INVALID_CREDENTIALS@.len() != SERVER_ERROR@.len());
}

/// Chooses the page for a service result.
pub fn page(result: R<Option<u128>>) -> (page: Page)
    ensures
        page.shows(result),
        page.result() == result,
{
    proof {
        lemma_messages_differ();
        if let Err(e) = result {
            assert(e == E::StoreUnavailable);
        }
    }
    match result {
        Ok(Some(k)) => Page::KeySuccess { key: key::write(k) },
        Ok(None) => Page::KeyFailure { message: INVALID_CREDENTIALS },
        Err(_) => Page::KeyFailure { message: SERVER_ERROR },
    }
}

/// Answers a form.
///
/// Wrong credentials get the failure page for invalid credentials and leave
/// the table untouched; the configured ones get the page with a fresh key
/// that is outstanding from then on, or the failure page for a server error
/// where the table failed.
pub fn handler(data: &mut AppData, form_data: Input) -> (page: Page)
    requires
        old(data).db.wf(),
    ensures
        final(data).db.wf(),
        final(data).env == old(data).env,
        page.shows(page.result()),
        issue_outcome(form_data@, *old(data), page.result(), *final(data)),
{
    let service = GenerateKey {
        username: form_data.username.as_str(),
        password: form_data.password.as_str(),
    };
    self::page(service.run(data))
}

} // verus!
