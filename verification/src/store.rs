//! A model of a destination table, to state what repeated delivery of the
//! same rows leaves behind.

use vstd::prelude::*;
use crate::row::{Bound, Row};

verus! {

/// A destination table: for each key the row that is stored under it.
pub type Table = Map<Bound, Seq<Bound>>;

/// The key of a row as it is bound: its first value.
pub open spec fn key_of(row: Seq<Bound>) -> Bound {
    row[0]
}

/// The table after the rows have been upserted in order: each row is
/// stored under its key, in place of the row that was stored there.
pub open spec fn upserted(table: Table, rows: Seq<Seq<Bound>>) -> Table
    decreases rows.len(),
{
    if rows.len() == 0 {
        table
    } else {
        upserted(table, rows.drop_last()).insert(key_of(rows.last()), rows.last())
    }
}

/// The last of the rows with the given key, where there is one.
pub open spec fn latest(rows: Seq<Seq<Bound>>, key: Bound) -> Option<Seq<Bound>>
    decreases rows.len(),
{
    if rows.len() == 0 {
        None
    } else if key_of(rows.last()) == key {
        Some(rows.last())
    } else {
        latest(rows.drop_last(), key)
    }
}

/// After an upsert a key holds the last row that was delivered for it;
/// a key for which none was delivered holds what it held before.
pub proof fn upsert_keeps_latest(table: Table, rows: Seq<Seq<Bound>>, key: Bound)
    ensures
        upserted(table, rows).dom().contains(key) <==> table.dom().contains(key) || latest(
            rows,
            key,
        ) is Some,
        latest(rows, key) is Some ==> upserted(table, rows)[key] == latest(rows, key)->0,
        latest(rows, key) is None ==> upserted(table, rows)[key] == table[key],
    decreases rows.len(),
{
    if rows.len() > 0 {
        upsert_keeps_latest(table, rows.drop_last(), key);
    }
}

/// Delivering the same rows a second time changes nothing: the table
/// after two upserts of the rows is the table after one.
pub proof fn upsert_is_idempotent(table: Table, rows: Seq<Seq<Bound>>)
    ensures
        upserted(upserted(table, rows), rows) == upserted(table, rows),
{
    let once = upserted(table, rows);
    let twice = upserted(once, rows);
    assert forall|key: Bound| twice.dom().contains(key) == once.dom().contains(key) by {
        upsert_keeps_latest(table, rows, key);
        upsert_keeps_latest(once, rows, key);
    }
    assert forall|key: Bound| once.dom().contains(key) implies twice[key] == once[key] by {
        upsert_keeps_latest(table, rows, key);
        upsert_keeps_latest(once, rows, key);
    }
    assert(twice =~= once);
}

/// The rows as they are delivered to the store: each row's own columns
/// followed by the key of the call that the rows came from.
pub open spec fn delivered<R: Row>(rows: Seq<R>, update: i32) -> Seq<Seq<Bound>> {
    Seq::new(rows.len(), |i: int| rows[i].columns().push(Bound::Int(update)))
}

/// Writing the same rows under the same call a second time leaves the
/// table as the first writing left it.
pub proof fn redelivery_changes_nothing<R: Row>(table: Table, rows: Seq<R>, update: i32)
    ensures
        upserted(upserted(table, delivered(rows, update)), delivered(rows, update)) == upserted(
            table,
            delivered(rows, update),
        ),
{
    upsert_is_idempotent(table, delivered(rows, update));
}

} // verus!
