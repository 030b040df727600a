//! The two services: issuing a key to a caller with the right credentials,
//! and redeeming a key once.

use vstd::prelude::*;
use vstd::string::*;

use crate::api::AppData;
use crate::errors::{E, R};
use crate::key;
use crate::models::Ad;

verus! {

/// An operation that runs against the application's data.
pub trait Service: Sized {
    /// What a successful run returns.
    type O;

    /// Whether a run on `before` may return `out` and leave `after` behind.
    spec fn outcome(self, before: AppData, out: R<Self::O>, after: AppData) -> bool;

    /// Runs the operation.
    fn run(self, data: &mut AppData) -> (out: R<Self::O>)
        requires
            old(data).db.wf(),
        ensures
            final(data).db.wf(),
            final(data).env == old(data).env,
            self.outcome(*old(data), out, *final(data)),
    ;
}

/// Whether two texts are the same, decided over all of their bytes: the
/// comparison does not stop at the first difference.
pub fn same_text(a: &str, b: &str) -> (same: bool)
    ensures
        same == (a@ == b@),
{
    broadcast use {vstd::utf8::encode_utf8_decode_utf8, vstd::utf8::encode_utf8_valid_utf8};

    let x = a.as_bytes();
    let y = b.as_bytes();
    if x.len() != y.len() {
        return false;
    }
    let mut same = true;
    let mut i: usize = 0;
    assert(x@.subrange(0, 0) =~= y@.subrange(0, 0));
    while i < x.len()
        invariant
            i <= x.len(),
            x.len() == y.len(),
            same == (x@.subrange(0, i as int) == y@.subrange(0, i as int)),
        decreases x.len() - i,
    {
        if x[i] != y[i] {
            same = false;
        }
        proof {
            let n = i as int;
            if x@.subrange(0, n + 1) == y@.subrange(0, n + 1) {
                assert(x@.subrange(0, n + 1)[n] == y@.subrange(0, n + 1)[n]);
                assert(x@.subrange(0, n) =~= x@.subrange(0, n + 1).subrange(0, n));
                assert(y@.subrange(0, n) =~= y@.subrange(0, n + 1).subrange(0, n));
            }
            if x@.subrange(0, n) == y@.subrange(0, n) && x@[n] == y@[n] {
                assert(x@.subrange(0, n + 1) =~= x@.subrange(0, n).push(x@[n]));
                assert(y@.subrange(0, n + 1) =~= y@.subrange(0, n).push(y@[n]));
            }
        }
        i += 1;
    }
    proof {
        assert(x@.subrange(0, x@.len() as int) =~= x@);
        assert(y@.subrange(0, y@.len() as int) =~= y@);
        assert(vstd::utf8::decode_utf8(a.spec_bytes()) == a@);
        assert(vstd::utf8::decode_utf8(b.spec_bytes()) == b@);
    }
    same
}

/// A credential pair as plain text.
pub struct Credentials {
    pub username: Seq<char>,
    pub password: Seq<char>,
}

/// A request for a key: the credential pair the caller presents.
pub struct GenerateKey<'input> {
    pub username: &'input str,
    pub password: &'input str,
}

impl<'input> View for GenerateKey<'input> {
    type V = Credentials;

    open spec fn view(&self) -> Credentials {
        Credentials { username: self.username@, password: self.password@ }
    }
}

impl<'input> GenerateKey<'input> {
    /// Checks the presented pair against the expected one: both fields must
    /// be equal as whole values.
    pub fn verify(&self, expected: &GenerateKey<'_>) -> (ok: bool)
        ensures
            ok == (self@ == expected@),
    {
        let user = same_text(self.username, expected.username);
        let pass = same_text(self.password, expected.password);
        user && pass
    }

    /// Decides what to ask of the table: nothing, where the presented pair
    /// is not the expected one; else to add a row for the freshly drawn
    /// random key that is returned.
    pub fn plan(&self, expected: &GenerateKey<'_>) -> (fresh: Option<u128>)
        ensures
            fresh is Some <==> self@ == expected@,
            fresh matches Some(k) ==> key::is_random(k),
    {
        if self.verify(expected) {
            Some(key::random())
        } else {
            None
        }
    }

    /// Turns the table's answer to an insertion into the service's result:
    /// the key of the new row, or the table's failure.
    pub fn issued(reply: R<Ad>) -> (out: R<Option<u128>>)
        ensures
            out == match reply {
                Ok(ad) => Ok::<Option<u128>, E>(Some(ad.key)),
                Err(e) => Err::<Option<u128>, E>(e),
            },
    {
        match reply {
            Ok(ad) => Ok(Some(ad.key)),
            Err(e) => Err(e),
        }
    }
}

/// What a request for a key with the `presented` credentials may return and
/// leave behind.
///
/// A pair other than the configured one gets no key and leaves the table
/// untouched. The configured pair gets a random key that was not outstanding
/// and now is, or the table's failure with nothing changed; on a vacant table
/// it always gets a key.
pub open spec fn issue_outcome(
    presented: Credentials,
    before: AppData,
    out: R<Option<u128>>,
    after: AppData,
) -> bool {
    if presented != before.env.expected() {
        out == Ok::<Option<u128>, E>(None) && after.db@ == before.db@
    } else {
        match out {
            Ok(Some(k)) => key::is_random(k) && before.db@.accepts(k) && after.db@
                == before.db@.with(k),
            Ok(None) => false,
            Err(e) => after.db@ == before.db@ && !before.db@.vacant(),
        }
    }
}

impl<'input> Service for GenerateKey<'input> {
    type O = Option<u128>;

    open spec fn outcome(self, before: AppData, out: R<Option<u128>>, after: AppData) -> bool {
        issue_outcome(self@, before, out, after)
    }

    fn run(self, data: &mut AppData) -> (out: R<Option<u128>>) {
        match self.plan(&data.env.credentials()) {
            Some(fresh) => GenerateKey::issued(data.db.insert(fresh)),
            None => Ok(None),
        }
    }
}

/// A request to redeem a key.
pub struct ValidateKey {
    pub key: u128,
}

impl ValidateKey {
    /// Turns the table's answer to a removal into the service's result:
    /// whether a row was removed, or the table's failure.
    pub fn redeemed(reply: R<Option<Ad>>) -> (out: R<bool>)
        ensures
            out == match reply {
                Ok(row) => Ok::<bool, E>(row is Some),
                Err(e) => Err::<bool, E>(e),
            },
    {
        match reply {
            Ok(Some(_)) => Ok(true),
            Ok(None) => Ok(false),
            Err(e) => Err(e),
        }
    }
}

impl Service for ValidateKey {
    type O = bool;

    /// The result says whether the key was outstanding; afterwards it is not.
    /// Redeeming never fails on this table.
    open spec fn outcome(self, before: AppData, out: R<bool>, after: AppData) -> bool {
        out == Ok::<bool, E>(before.db@.holds(self.key)) && after.db@ == before.db@.without(
            self.key,
        )
    }

    fn run(self, data: &mut AppData) -> (out: R<bool>) {
        ValidateKey::redeemed(Ok(data.db.take(self.key)))
    }
}

} // verus!
