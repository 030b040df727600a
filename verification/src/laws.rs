//! What holds of the key lifecycle as a whole.
//!
//! Each law is stated over the table's contents and proved from the
//! definitions the operations are specified with. A schedule stands for any
//! interleaving of callers: whatever the callers do at once, the table
//! carries their statements out one at a time, in some order.

use vstd::prelude::*;

use crate::api::AppData;
use crate::errors::{E, R};
use crate::models::{Ad, Statement, Table, FIRST_ID};
use crate::services::{GenerateKey, Service, ValidateKey};

verus! {

/// Whether no statement of `schedule` issues `key`.
pub open spec fn never_issues(schedule: Seq<Statement>, key: u128) -> bool {
    forall|i: int| 0 <= i < schedule.len() ==> schedule[i] != Statement::Issue(key)
}

/// Whether every key of `keys` in turn is accepted by the table that the
/// earlier ones left behind.
pub open spec fn all_accepted(table: Table, keys: Seq<u128>) -> bool
    decreases keys.len(),
{
    keys.len() == 0 || (table.accepts(keys[0]) && all_accepted(
        table.with(keys[0]),
        keys.drop_first(),
    ))
}

/// A caller whose credentials differ from the configured pair gets no key,
/// and the table is as it was.
pub proof fn law_wrong_credentials_get_no_key(
    request: GenerateKey<'_>,
    before: AppData,
    out: R<Option<u128>>,
    after: AppData,
)
    requires
        request@ != before.env.expected(),
        request.outcome(before, out, after),
    ensures
        out == Ok::<Option<u128>, E>(None),
        after.db@ == before.db@,
{
}

/// A caller with the configured credentials is never told that no key was
/// issued: it gets a key that is outstanding from then on, or a failure.
pub proof fn law_right_credentials_get_a_key(
    request: GenerateKey<'_>,
    before: AppData,
    out: R<Option<u128>>,
    after: AppData,
)
    requires
        request@ == before.env.expected(),
        request.outcome(before, out, after),
    ensures
        out != Ok::<Option<u128>, E>(None),
        out matches Ok(Some(k)) ==> !before.db@.holds(k) && after.db@.holds(k),
        out is Err ==> after.db@ == before.db@,
        before.db@.vacant() ==> out is Ok,
{
}

/// Every statement leaves a valid table valid.
pub proof fn law_statements_keep_validity(table: Table, statement: Statement)
    requires
        table.valid(),
    ensures
        table.run(statement).valid(),
{
    let after = table.run(statement);
    assert forall|k: u128| #[trigger] after.rows.contains_key(k) implies FIRST_ID <= after.rows[k]
        < after.next by {
        if table.rows.contains_key(k) {
        }
    }
    assert forall|j: u128, k: u128|
        #![trigger after.rows[j], after.rows[k]]
        after.rows.contains_key(j) && after.rows.contains_key(k) && after.rows[j]
            == after.rows[k] implies j == k by {
        if table.rows.contains_key(j) {
        }
        if table.rows.contains_key(k) {
        }
    }
}

/// The identity given to a new row is carried by no row of the table, and no
/// later row gets it again.
pub proof fn law_identities_are_not_reused(table: Table, key: u128)
    requires
        table.valid(),
        table.accepts(key),
    ensures
        !table.has_id(table.next as i32),
        table.with(key).row(key) == Some(Ad { id: table.next as i32, key }),
        table.with(key).next > table.next,
{
    if table.has_id(table.next as i32) {
        let k = choose|k: u128| #[trigger]
            table.rows.contains_key(k) && table.rows[k] == table.next as i32;
        assert(table.rows.contains_key(k));
    }
}

/// Keys issued one after another, with no redemption in between, are
/// pairwise distinct, and none of them was outstanding before.
pub proof fn law_issued_keys_are_distinct(table: Table, keys: Seq<u128>)
    requires
        all_accepted(table, keys),
    ensures
        keys.no_duplicates(),
        forall|i: int| 0 <= i < keys.len() ==> !table.holds(#[trigger] keys[i]),
    decreases keys.len(),
{
    if keys.len() > 0 {
        let rest = keys.drop_first();
        law_issued_keys_are_distinct(table.with(keys[0]), rest);
        assert forall|i: int| 0 <= i < keys.len() implies !table.holds(#[trigger] keys[i]) by {
            if i > 0 {
                assert(keys[i] == rest[i - 1]);
                assert(!table.with(keys[0]).holds(rest[i - 1]));
            }
        }
        assert forall|i: int, j: int| 0 <= i < keys.len() && 0 <= j < keys.len() && i != j implies keys[i]
            != keys[j] by {
            if i > 0 {
                assert(keys[i] == rest[i - 1]);
                assert(!table.with(keys[0]).holds(rest[i - 1]));
            }
            if j > 0 {
                assert(keys[j] == rest[j - 1]);
                assert(!table.with(keys[0]).holds(rest[j - 1]));
            }
        }
    }
}

/// Redeeming an outstanding key succeeds, and the key is gone afterwards: a
/// second redemption right after the first finds nothing.
pub proof fn law_first_redemption_consumes(table: Table, key: u128)
    requires
        table.holds(key),
    ensures
        table.answer(Statement::Redeem(key)),
        !table.run(Statement::Redeem(key)).answer(Statement::Redeem(key)),
{
}

/// A key that is not outstanding, and that no statement of the schedule
/// issues, is redeemed by none of them, and is not outstanding at the end.
/// This covers a key that was never issued as well as one already redeemed.
pub proof fn law_absent_key_is_never_redeemed(table: Table, schedule: Seq<Statement>, key: u128)
    requires
        !table.holds(key),
        never_issues(schedule, key),
    ensures
        table.redemptions(schedule, key) == 0,
        !table.run_all(schedule).holds(key),
    decreases schedule.len(),
{
    if schedule.len() > 0 {
        let rest = schedule.drop_first();
        assert(schedule[0] != Statement::Issue(key));
        assert forall|i: int| 0 <= i < rest.len() implies rest[i] != Statement::Issue(key) by {
            assert(rest[i] == schedule[i + 1]);
        }
        law_absent_key_is_never_redeemed(table.run(schedule[0]), rest, key);
    }
}

/// The first redemption of an outstanding key succeeds, and no later one
/// does, whoever asks and whatever else is asked in between, as long as the
/// key is not issued again.
pub proof fn law_redeemed_key_stays_redeemed(table: Table, key: u128, later: Seq<Statement>)
    requires
        table.holds(key),
        never_issues(later, key),
    ensures
        table.answer(Statement::Redeem(key)),
        table.run(Statement::Redeem(key)).redemptions(later, key) == 0,
        !table.run(Statement::Redeem(key)).run_all(later).holds(key),
{
    law_absent_key_is_never_redeemed(table.run(Statement::Redeem(key)), later, key);
}

/// Redeeming a key that is not outstanding changes nothing.
pub proof fn law_missed_redemption_changes_nothing(table: Table, key: u128)
    requires
        !table.holds(key),
    ensures
        !table.answer(Statement::Redeem(key)),
        table.run(Statement::Redeem(key)) == table,
{
    assert(table.rows.remove(key) =~= table.rows);
}

/// Of the redemptions of one outstanding key in a schedule that does not
/// issue it again, at most one succeeds, in whatever order the table takes
/// them; exactly one succeeds as soon as the schedule holds one at all.
pub proof fn law_exactly_one_redemption(table: Table, schedule: Seq<Statement>, key: u128)
    requires
        table.holds(key),
        never_issues(schedule, key),
    ensures
        table.redemptions(schedule, key) == if schedule.contains(Statement::Redeem(key)) {
            1nat
        } else {
            0nat
        },
    decreases schedule.len(),
{
    let redeem = Statement::Redeem(key);
    if schedule.len() > 0 {
        let rest = schedule.drop_first();
        assert(schedule[0] != Statement::Issue(key));
        assert forall|i: int| 0 <= i < rest.len() implies rest[i] != Statement::Issue(key) by {
            assert(rest[i] == schedule[i + 1]);
        }
        if schedule[0] == redeem {
            law_absent_key_is_never_redeemed(table.run(schedule[0]), rest, key);
        } else {
            law_exactly_one_redemption(table.run(schedule[0]), rest, key);
            if schedule.contains(redeem) {
                let i = choose|i: int| 0 <= i < schedule.len() && schedule[i] == redeem;
                assert(rest[i - 1] == redeem);
            }
            if rest.contains(redeem) {
                let i = choose|i: int| 0 <= i < rest.len() && rest[i] == redeem;
                assert(schedule[i + 1] == redeem);
            }
        }
    } else {
        assert(!schedule.contains(redeem));
    }
}

/// Removing a key's row in one step leaves the same table as looking the key
/// up and then deleting the row found by its identity, when no other
/// statement comes between the two.
pub proof fn law_take_is_lookup_then_delete(table: Table, key: u128)
    requires
        table.valid(),
    ensures
        table.without(key) == match table.row(key) {
            Some(ad) => table.without_id(ad.id),
            None => table,
        },
{
    match table.row(key) {
        Some(ad) => {
            assert(table.rows.contains_key(key) && table.rows[key] == ad.id);
            assert(table.has_id(ad.id));
            let found = table.row_by_id(ad.id).unwrap();
            assert(table.rows.contains_key(found.key) && table.rows[found.key] == table.rows[key]);
        },
        None => {
            assert(table.rows.remove(key) =~= table.rows);
        },
    }
}

/// What redeeming reports depends on nothing but whether the key is
/// outstanding: a key never issued and a key already redeemed get the same
/// answer.
pub proof fn law_redeeming_tells_only_presence(
    request: ValidateKey,
    before: AppData,
    out: R<bool>,
    after: AppData,
)
    requires
        request.outcome(before, out, after),
    ensures
        out == Ok::<bool, E>(before.db@.holds(request.key)),
        !after.db@.holds(request.key),
        forall|k: u128| k != request.key ==> after.db@.row(k) == before.db@.row(k),
{
}

} // verus!
