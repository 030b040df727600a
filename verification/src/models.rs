//! The table of outstanding keys.
//!
//! A row exists exactly while its key is issued and not yet redeemed. The
//! table is described by [`Table`], a mathematical map from key to row
//! identity together with the next identity to hand out; [`Store`] is an
//! executable table whose every statement is specified over that description.

use std::collections::HashMap;
use vstd::prelude::*;

use crate::errors::{E, R};
use crate::key;

verus! {

/// One outstanding key: the identity the table assigned, and the key itself.
#[derive(Clone, Copy, Debug, PartialEq, Eq, Structural)]
pub struct Ad {
    pub id: i32,
    pub key: u128,
}

impl Ad {
    /// Issues a key: draws a random key and adds its row to `db`.
    ///
    /// Fails, leaving `db` as it was, when the key drawn is already
    /// outstanding or no identity is left; a colliding key is never replaced.
    /// On a vacant table it always succeeds.
    pub fn create(db: &mut Store) -> (out: R<Ad>)
        requires
            old(db).wf(),
        ensures
            final(db).wf(),
            match out {
                Ok(ad) => key::is_random(ad.key) && old(db)@.accepts(ad.key)
                    && ad.id == old(db)@.next && final(db)@ == old(db)@.with(ad.key),
                Err(e) => e == E::StoreUnavailable && final(db)@ == old(db)@,
            },
            old(db)@.vacant() ==> out is Ok,
    {
        let key = key::random();
        db.insert(key)
    }

    /// Looks `key` up in `db`, which is not changed.
    pub fn get_by_key(key: u128, db: &Store) -> (out: R<Option<Ad>>)
        requires
            db.wf(),
        ensures
            out == Ok::<Option<Ad>, E>(db@.row(key)),
    {
        Ok(db.get_by_key(key))
    }

    /// Removes from `db` the row with this row's identity and returns it.
    ///
    /// Fails, leaving `db` as it was, when no row has that identity.
    pub fn delete(&self, db: &mut Store) -> (out: R<Ad>)
        requires
            old(db).wf(),
        ensures
            final(db).wf(),
            final(db)@ == old(db)@.without_id(self.id),
            out == match old(db)@.row_by_id(self.id) {
                Some(ad) => Ok::<Ad, E>(ad),
                None => Err::<Ad, E>(E::StoreUnavailable),
            },
    {
        match db.delete(self.id) {
            Some(ad) => Ok(ad),
            None => Err(E::StoreUnavailable),
        }
    }
}

/// The first identity a table hands out.
pub const FIRST_ID: i32 = 1;

/// The contents of a key table: which keys are outstanding, under which
/// identity, and which identity the next row gets.
pub struct Table {
    pub rows: Map<u128, i32>,
    pub next: int,
}

impl Table {
    /// The table before anything was issued.
    pub open spec fn empty() -> Table {
        Table { rows: Map::empty(), next: FIRST_ID as int }
    }

    /// No identity is shared by two keys, and every identity in use was
    /// handed out before `next`.
    pub open spec fn valid(self) -> bool {
        &&& FIRST_ID <= self.next <= i32::MAX
        &&& forall|k: u128| #[trigger]
            self.rows.contains_key(k) ==> FIRST_ID <= self.rows[k] < self.next
        &&& forall|j: u128, k: u128|
            #![trigger self.rows[j], self.rows[k]]
            self.rows.contains_key(j) && self.rows.contains_key(k) && self.rows[j] == self.rows[k]
                ==> j == k
    }

    /// Whether `key` is outstanding.
    pub open spec fn holds(self, key: u128) -> bool {
        self.rows.contains_key(key)
    }

    /// The row of `key`, if it is outstanding.
    pub open spec fn row(self, key: u128) -> Option<Ad> {
        if self.rows.contains_key(key) {
            Some(Ad { id: self.rows[key], key })
        } else {
            None
        }
    }

    /// Whether some row carries the identity `id`.
    pub open spec fn has_id(self, id: i32) -> bool {
        exists|k: u128| #[trigger] self.rows.contains_key(k) && self.rows[k] == id
    }

    /// The row with identity `id`, if there is one.
    pub open spec fn row_by_id(self, id: i32) -> Option<Ad> {
        if self.has_id(id) {
            Some(Ad { id, key: choose|k: u128| #[trigger] self.rows.contains_key(k) && self.rows[k] == id })
        } else {
            None
        }
    }

    /// Whether a row for `key` can be added: the key is not outstanding and
    /// an identity is left.
    pub open spec fn accepts(self, key: u128) -> bool {
        !self.rows.contains_key(key) && self.next < i32::MAX
    }

    /// Whether the table accepts every key: it holds no row and an identity
    /// is left.
    pub open spec fn vacant(self) -> bool {
        self.rows == Map::<u128, i32>::empty() && self.next < i32::MAX
    }

    /// The table after a row for `key` was added under the next identity.
    pub open spec fn with(self, key: u128) -> Table {
        Table { rows: self.rows.insert(key, self.next as i32), next: self.next + 1 }
    }

    /// The table after the row of `key`, if any, was removed.
    pub open spec fn without(self, key: u128) -> Table {
        Table { rows: self.rows.remove(key), next: self.next }
    }

    /// The table after the row with identity `id`, if any, was removed.
    pub open spec fn without_id(self, id: i32) -> Table {
        match self.row_by_id(id) {
            Some(ad) => self.without(ad.key),
            None => self,
        }
    }
}

/// One statement against the table. Each is carried out as a whole: no other
/// statement sees a table in which it is half done.
#[derive(Clone, Copy, Debug, PartialEq, Eq, Structural)]
pub enum Statement {
    /// Add a row for the key, unless the key is outstanding.
    Issue(u128),
    /// Remove the row of the key, if the key is outstanding.
    Redeem(u128),
}

impl Table {
    /// Whether the statement takes effect on this table: an issue adds its
    /// row, a redemption finds its row.
    pub open spec fn answer(self, statement: Statement) -> bool {
        match statement {
            Statement::Issue(key) => self.accepts(key),
            Statement::Redeem(key) => self.holds(key),
        }
    }

    /// The table after the statement.
    pub open spec fn run(self, statement: Statement) -> Table {
        match statement {
            Statement::Issue(key) => if self.accepts(key) {
                self.with(key)
            } else {
                self
            },
            Statement::Redeem(key) => self.without(key),
        }
    }

    /// The table after all statements of `schedule`, in their order.
    pub open spec fn run_all(self, schedule: Seq<Statement>) -> Table
        decreases schedule.len(),
    {
        if schedule.len() == 0 {
            self
        } else {
            self.run(schedule[0]).run_all(schedule.drop_first())
        }
    }

    /// How many statements of `schedule` redeem `key` and find its row.
    pub open spec fn redemptions(self, schedule: Seq<Statement>, key: u128) -> nat
        decreases schedule.len(),
    {
        if schedule.len() == 0 {
            0
        } else {
            let here: nat = if schedule[0] == Statement::Redeem(key) && self.holds(key) {
                1
            } else {
                0
            };
            here + self.run(schedule[0]).redemptions(schedule.drop_first(), key)
        }
    }
}

/// An executable key table.
///
/// It keeps one index by key and one by identity, as a relational table with
/// a primary key and a unique column does.
pub struct Store {
    by_key: HashMap<u128, i32>,
    by_id: HashMap<i32, u128>,
    next_id: i32,
}

impl View for Store {
    type V = Table;

    closed spec fn view(&self) -> Table {
        Table { rows: self.by_key@, next: self.next_id as int }
    }
}

impl Store {
    /// The two indexes describe the same rows, and the contents are valid.
    pub closed spec fn wf(&self) -> bool {
        &&& self@.valid()
        &&& forall|k: u128| #[trigger]
            self.by_key@.contains_key(k) ==> self.by_id@.contains_key(self.by_key@[k])
                && self.by_id@[self.by_key@[k]] == k
        &&& forall|i: i32| #[trigger]
            self.by_id@.contains_key(i) ==> self.by_key@.contains_key(self.by_id@[i])
                && self.by_key@[self.by_id@[i]] == i
    }

    /// A well-formed store has valid contents.
    pub proof fn lemma_wf_valid(&self)
        requires
            self.wf(),
        ensures
            self@.valid(),
    {
    }

    /// An empty table.
    pub fn new() -> (store: Store)
        ensures
            store.wf(),
            store@ == Table::empty(),
    {
        Store { by_key: HashMap::new(), by_id: HashMap::new(), next_id: FIRST_ID }
    }

    /// How many keys are outstanding.
    pub fn len(&self) -> (n: usize)
        ensures
            n == self@.rows.len(),
    {
        self.by_key.len()
    }

    /// Adds a row for `key` under the next identity and returns it.
    ///
    /// Fails, leaving the table as it was, when `key` is already outstanding
    /// or no identity is left.
    pub fn insert(&mut self, key: u128) -> (out: R<Ad>)
        requires
            old(self).wf(),
        ensures
            final(self).wf(),
            out is Ok <==> old(self)@.accepts(key),
            out is Ok ==> out == Ok::<Ad, E>(Ad { id: old(self)@.next as i32, key }) && final(self)@
                == old(self)@.with(key),
            out is Err ==> out == Err::<Ad, E>(E::StoreUnavailable) && final(self)@ == old(self)@,
    {
        if self.by_key.contains_key(&key) || self.next_id == i32::MAX {
            return Err(E::StoreUnavailable);
        }
        let id: i32 = self.next_id;
        proof {
            // Every identity in use is below `id`, so `id` is in neither index.
            assert(self@.rows == self.by_key@);
            assert(!self.by_id@.contains_key(id)) by {
                if self.by_id@.contains_key(id) {
                    assert(self.by_key@.contains_key(self.by_id@[id]));
                }
            }
        }
        self.by_key.insert(key, id);
        self.by_id.insert(id, key);
        self.next_id = id + 1;
        proof {
            let before = old(self).by_key@;
            let rows = self.by_key@;
            assert forall|k: u128| #[trigger] rows.contains_key(k) implies FIRST_ID <= rows[k]
                < self.next_id by {
                if k != key {
                    assert(before.contains_key(k));
                }
            }
            assert forall|j: u128, k: u128|
                #![trigger rows[j], rows[k]]
                rows.contains_key(j) && rows.contains_key(k) && rows[j] == rows[k] implies j
                == k by {
                if j != key {
                    assert(before.contains_key(j));
                }
                if k != key {
                    assert(before.contains_key(k));
                }
            }
            assert forall|k: u128| #[trigger] rows.contains_key(k) implies self.by_id@.contains_key(
                rows[k],
            ) && self.by_id@[rows[k]] == k by {
                if k != key {
                    assert(before.contains_key(k));
                }
            }
            assert forall|i: i32| #[trigger] self.by_id@.contains_key(i) implies rows.contains_key(
                self.by_id@[i],
            ) && rows[self.by_id@[i]] == i by {
                if i != id {
                    assert(old(self).by_id@.contains_key(i));
                }
            }
        }
        Ok(Ad { id, key })
    }

    /// Carries out one statement and says whether it took effect.
    pub fn apply(&mut self, statement: Statement) -> (done: bool)
        requires
            old(self).wf(),
        ensures
            final(self).wf(),
            done == old(self)@.answer(statement),
            final(self)@ == old(self)@.run(statement),
    {
        match statement {
            Statement::Issue(key) => self.insert(key).is_ok(),
            Statement::Redeem(key) => self.take(key).is_some(),
        }
    }

    /// The row of `key`, if it is outstanding. The table is not changed.
    pub fn get_by_key(&self, key: u128) -> (out: Option<Ad>)
        requires
            self.wf(),
        ensures
            out == self@.row(key),
    {
        match self.by_key.get(&key) {
            Some(id) => Some(Ad { id: *id, key }),
            None => None,
        }
    }

    /// Removes the row with identity `id` and returns it; `None`, with the
    /// table unchanged, when no row has that identity.
    pub fn delete(&mut self, id: i32) -> (out: Option<Ad>)
        requires
            old(self).wf(),
        ensures
            final(self).wf(),
            out == old(self)@.row_by_id(id),
            final(self)@ == old(self)@.without_id(id),
    {
        match self.by_id.remove(&id) {
            Some(key) => {
                self.by_key.remove(&key);
                Some(Ad { id, key })
            },
            None => None,
        }
    }

    /// Removes the row of `key` and returns it, in one step; `None`, with the
    /// table unchanged, when `key` is not outstanding.
    pub fn take(&mut self, key: u128) -> (out: Option<Ad>)
        requires
            old(self).wf(),
        ensures
            final(self).wf(),
            out == old(self)@.row(key),
            final(self)@ == old(self)@.without(key),
    {
        match self.by_key.remove(&key) {
            Some(id) => {
                self.by_id.remove(&id);
                Some(Ad { id, key })
            },
            None => None,
        }
    }
}

} // verus!
