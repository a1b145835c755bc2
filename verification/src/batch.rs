//! The batch upsert: how a run of rows is cut into chunks that fit the
//! parameter limit, and when a statement has to be prepared anew.

use vstd::prelude::*;
use crate::error::{Error, ErrorView};
use crate::sql::{upsert_into, upsert_text};
use crate::text::views;

verus! {

/// One step of a batch upsert.
#[derive(Clone, Debug, PartialEq, Eq)]
pub enum Step {
    /// Prepare the statement for chunks of `rows` rows; it replaces the
    /// one prepared before.
    Prepare { rows: usize, text: String },
    /// Execute the statement prepared last with the `len` rows from
    /// `start` on.
    Execute { start: usize, len: usize },
}

/// What a step holds.
pub enum StepView {
    Prepare { rows: nat, text: Seq<char> },
    Execute { start: nat, len: nat },
}

impl View for Step {
    type V = StepView;

    open spec fn view(&self) -> StepView {
        match *self {
            Step::Prepare { rows, text } => StepView::Prepare { rows: rows as nat, text: text@ },
            Step::Execute { start, len } => StepView::Execute {
                start: start as nat,
                len: len as nat,
            },
        }
    }
}

/// The views of a sequence of steps.
pub open spec fn step_views(steps: Seq<Step>) -> Seq<StepView> {
    Seq::new(steps.len(), |i: int| steps[i]@)
}

/// The table that a batch writes to: its name, its columns in order, and
/// the column that identifies a row.
pub struct TableView {
    pub table: Seq<char>,
    pub columns: Seq<Seq<char>>,
    pub unique: Seq<char>,
}

/// The number of rows that one statement may carry: as many as fit the
/// parameter limit.
pub open spec fn chunk_rows(max_parameters: nat, columns: nat) -> nat {
    if columns == 0 {
        0
    } else {
        max_parameters / columns
    }
}

/// The sizes of the chunks of `rows` rows: chunks of `size` rows, and a
/// smaller last one for what is left.
pub open spec fn chunk_lens(rows: nat, size: nat) -> Seq<nat>
    decreases rows,
{
    if rows == 0 || size == 0 {
        Seq::empty()
    } else if rows <= size {
        seq![rows]
    } else {
        seq![size] + chunk_lens((rows - size) as nat, size)
    }
}

/// The steps that write the `rows` rows from `start` on, in chunks of at
/// most `size` rows, where `cached` is the size that the statement at hand
/// was prepared for. A chunk of another size has a statement prepared
/// first; a chunk of the same size reuses the statement at hand.
pub open spec fn steps_from(
    target: TableView,
    start: nat,
    rows: nat,
    size: nat,
    cached: Option<nat>,
) -> Seq<StepView>
    decreases rows,
{
    if rows == 0 || size == 0 {
        Seq::empty()
    } else {
        let len = if rows <= size {
            rows
        } else {
            size
        };
        let prepare = if cached == Some(len) {
            Seq::empty()
        } else {
            seq![
                StepView::Prepare {
                    rows: len,
                    text: upsert_text(target.table, target.columns, len, target.unique),
                },
            ]
        };
        prepare + seq![StepView::Execute { start: start, len: len }] + steps_from(
            target,
            start + len,
            (rows - len) as nat,
            size,
            Some(len),
        )
    }
}

/// The steps of a whole batch: nothing is prepared at its start.
pub open spec fn batch_steps(target: TableView, rows: nat, size: nat) -> Seq<StepView> {
    steps_from(target, 0, rows, size, None)
}

/// How many statements a sequence of steps prepares.
pub open spec fn prepared(steps: Seq<StepView>) -> nat
    decreases steps.len(),
{
    if steps.len() == 0 {
        0
    } else if steps.first() is Prepare {
        prepared(steps.drop_first()) + 1
    } else {
        prepared(steps.drop_first())
    }
}

/// The sizes of the chunks that a sequence of steps executes, in order.
pub open spec fn executed(steps: Seq<StepView>) -> Seq<nat>
    decreases steps.len(),
{
    if steps.len() == 0 {
        Seq::empty()
    } else if steps.first() is Execute {
        seq![steps.first()->len] + executed(steps.drop_first())
    } else {
        executed(steps.drop_first())
    }
}

/// The sum of a sequence of sizes.
pub open spec fn total(lens: Seq<nat>) -> nat
    decreases lens.len(),
{
    if lens.len() == 0 {
        0
    } else {
        lens.first() + total(lens.drop_first())
    }
}

/// The number of rows that one statement may carry under a limit of
/// `max_parameters` bound parameters, for rows of `columns` columns.
pub fn chunk_size(max_parameters: usize, columns: usize) -> (r: usize)
    requires
        columns > 0,
    ensures
        r == chunk_rows(max_parameters as nat, columns as nat),
        r * columns <= max_parameters,
{
    let r: usize = max_parameters / columns;
    proof {
        vstd::arithmetic::div_mod::lemma_fundamental_div_mod(
            max_parameters as int,
            columns as int,
        );
        assert(r * columns == columns * r) by (nonlinear_arith);
    }
    r
}

/// Plans the upsert of `rows` rows into `table`: the rows are cut into
/// consecutive chunks of as many rows as fit `max_parameters`, the last
/// chunk taking what is left, and a statement is prepared only where the
/// size of the chunk differs from that of the chunk before. No rows give no
/// steps. The plan fails where not even one row fits the limit.
pub fn plan(
    table: &str,
    columns: &[&str],
    unique: &str,
    rows: usize,
    max_parameters: usize,
) -> (r: Result<Vec<Step>, Error>)
    ensures
        r is Ok <==> chunk_rows(max_parameters as nat, columns@.len()) > 0,
        r is Ok ==> step_views(r->Ok_0@) == batch_steps(
            (TableView { table: table@, columns: views(columns@), unique: unique@ }),
            rows as nat,
            chunk_rows(max_parameters as nat, columns@.len()),
        ),
        r is Err ==> r->Err_0@ == ErrorView::Error(too_wide_message()),
{
    if columns.len() == 0 || max_parameters / columns.len() == 0 {
        return Err(Error::new(String::from_str("no row fits the parameter limit")));
    }
    let size: usize = chunk_size(max_parameters, columns.len());
    let ghost target = TableView { table: table@, columns: views(columns@), unique: unique@ };
    let mut steps: Vec<Step> = Vec::new();
    let mut start: usize = 0;
    let mut cached: Option<usize> = None;
    while start < rows
        invariant
            start <= rows,
            size > 0,
            size * columns@.len() <= max_parameters,
            target == (TableView { table: table@, columns: views(columns@), unique: unique@ }),
            step_views(steps@) + steps_from(
                target,
                start as nat,
                (rows - start) as nat,
                size as nat,
                cached_view(cached),
            ) == batch_steps(target, rows as nat, size as nat),
        decreases rows - start,
    {
        let left: usize = rows - start;
        let len: usize = if left <= size {
            left
        } else {
            size
        };
        let ghost before = step_views(steps@);
        let ghost rest = steps_from(
            target,
            (start + len) as nat,
            (left - len) as nat,
            size as nat,
            Some(len as nat),
        );
        let fresh: bool = match cached {
            Some(n) => n != len,
            None => true,
        };
        if fresh {
            proof {
                assert(columns@.len() * len <= max_parameters) by (nonlinear_arith)
                    requires
                        len <= size,
                        size * columns@.len() <= max_parameters,
                ;
            }
            match upsert_into(table, columns, len, unique) {
                Some(text) => {
                    steps.push(Step::Prepare { rows: len, text: text });
                },
                None => {
                    assert(false);
                },
            }
        }
        let ghost middle = step_views(steps@);
        steps.push(Step::Execute { start: start, len: len });
        proof {
            let execute = StepView::Execute { start: start as nat, len: len as nat };
            assert(step_views(steps@) =~= middle.push(execute));
            if fresh {
                let prepare = StepView::Prepare {
                    rows: len as nat,
                    text: upsert_text(target.table, target.columns, len as nat, target.unique),
                };
                assert(middle =~= before.push(prepare));
                assert(before + (seq![prepare] + seq![execute] + rest) =~= middle.push(execute)
                    + rest);
            } else {
                assert(middle =~= before);
                assert(before + (Seq::<StepView>::empty() + seq![execute] + rest)
                    =~= middle.push(execute) + rest);
            }
        }
        cached = Some(len);
        start = start + len;
    }
    proof {
        assert(step_views(steps@) + Seq::<StepView>::empty() =~= step_views(steps@));
    }
    Ok(steps)
}

/// The size that a statement was prepared for, as a number.
pub open spec fn cached_view(cached: Option<usize>) -> Option<nat> {
    match cached {
        Some(n) => Some(n as nat),
        None => None,
    }
}

/// The message of the failure for rows wider than the parameter limit.
pub open spec fn too_wide_message() -> Seq<char> {
    "no row fits the parameter limit"@
}

/// The chunks of a run of rows hold all its rows: their sizes add up to
/// the number of rows, none is empty, none is larger than the chunk size,
/// and only the last may be smaller.
pub proof fn chunks_cover(rows: nat, size: nat)
    requires
        size > 0,
    ensures
        total(chunk_lens(rows, size)) == rows,
        forall|i: int|
            0 <= i < chunk_lens(rows, size).len() ==> 1 <= #[trigger] chunk_lens(rows, size)[i]
                <= size,
        forall|i: int|
            0 <= i < chunk_lens(rows, size).len() - 1 ==> #[trigger] chunk_lens(rows, size)[i]
                == size,
    decreases rows,
{
    let lens = chunk_lens(rows, size);
    if rows == 0 {
    } else if rows <= size {
        assert(lens.drop_first() =~= Seq::<nat>::empty());
        assert(total(lens) == lens.first() + total(lens.drop_first()));
    } else {
        let rest = chunk_lens((rows - size) as nat, size);
        chunks_cover((rows - size) as nat, size);
        assert(lens.drop_first() =~= rest);
        assert(total(lens) == lens.first() + total(lens.drop_first()));
        assert(rest.len() > 0);
        assert forall|i: int| 0 <= i < lens.len() implies 1 <= #[trigger] lens[i] <= size by {
            if i > 0 {
                assert(lens[i] == rest[i - 1]);
            }
        }
        assert forall|i: int| 0 <= i < lens.len() - 1 implies #[trigger] lens[i] == size by {
            if i > 0 {
                assert(lens[i] == rest[i - 1]);
            }
        }
    }
}

/// Whatever statement is at hand, the steps execute the chunks of the
/// rows, one after another.
pub proof fn steps_execute_chunks(
    target: TableView,
    start: nat,
    rows: nat,
    size: nat,
    cached: Option<nat>,
)
    ensures
        executed(steps_from(target, start, rows, size, cached)) == chunk_lens(rows, size),
    decreases rows,
{
    if rows == 0 || size == 0 {
    } else {
        let len = if rows <= size {
            rows
        } else {
            size
        };
        let execute = StepView::Execute { start: start, len: len };
        let rest = steps_from(target, start + len, (rows - len) as nat, size, Some(len));
        let steps = steps_from(target, start, rows, size, cached);
        steps_execute_chunks(target, start + len, (rows - len) as nat, size, Some(len));
        let tail = seq![execute] + rest;
        assert(tail.drop_first() =~= rest);
        assert(executed(tail) == seq![len] + chunk_lens((rows - len) as nat, size));
        if cached == Some(len) {
            assert(steps =~= tail);
        } else {
            assert(steps.drop_first() =~= tail);
        }
        if rows <= size {
            assert(chunk_lens(0, size) =~= Seq::<nat>::empty());
            assert(seq![len] + chunk_lens(0, size) =~= seq![rows]);
        }
    }
}

/// With a statement for full chunks at hand, one more statement is
/// prepared where a smaller last chunk is left, and none otherwise.
pub proof fn steps_prepare_for_remainder(target: TableView, start: nat, rows: nat, size: nat)
    requires
        size > 0,
    ensures
        prepared(steps_from(target, start, rows, size, Some(size))) == (if rows % size == 0 {
            0nat
        } else {
            1nat
        }),
    decreases rows,
{
    if rows == 0 {
    } else {
        let len = if rows <= size {
            rows
        } else {
            size
        };
        let execute = StepView::Execute { start: start, len: len };
        let rest = steps_from(target, start + len, (rows - len) as nat, size, Some(len));
        let steps = steps_from(target, start, rows, size, Some(size));
        let tail = seq![execute] + rest;
        assert(tail.drop_first() =~= rest);
        assert(prepared(tail) == prepared(rest));
        if len == size {
            steps_prepare_for_remainder(target, start + len, (rows - len) as nat, size);
            assert(steps =~= tail);
            assert((rows - size) % (size as int) == rows % size) by {
                vstd::arithmetic::div_mod::lemma_mod_sub_multiples_vanish(
                    rows as int,
                    size as int,
                );
            }
        } else {
            assert(rest =~= Seq::<StepView>::empty());
            assert(steps.drop_first() =~= tail);
            assert(steps.first() is Prepare);
            assert(prepared(steps) == prepared(tail) + 1);
            assert(rows % size == rows) by {
                vstd::arithmetic::div_mod::lemma_small_mod(rows, size);
            }
        }
    }
}

/// A batch prepares a statement only where the size of the chunk
/// changes: none for no rows, one where all chunks have one size, and two
/// where a smaller chunk follows full ones. It executes the chunks of the
/// rows in order.
pub proof fn batch_prepares_on_change(target: TableView, rows: nat, size: nat)
    requires
        size > 0,
    ensures
        executed(batch_steps(target, rows, size)) == chunk_lens(rows, size),
        prepared(batch_steps(target, rows, size)) == (if rows == 0 {
            0nat
        } else if rows <= size || rows % size == 0 {
            1nat
        } else {
            2nat
        }),
{
    steps_execute_chunks(target, 0, rows, size, None);
    if rows > 0 {
        let len = if rows <= size {
            rows
        } else {
            size
        };
        let execute = StepView::Execute { start: 0, len: len };
        let rest = steps_from(target, len, (rows - len) as nat, size, Some(len));
        let steps = batch_steps(target, rows, size);
        let tail = seq![execute] + rest;
        assert(tail.drop_first() =~= rest);
        assert(steps.drop_first() =~= tail);
        assert(prepared(tail) == prepared(rest));
        assert(steps.first() is Prepare);
        assert(prepared(steps) == prepared(tail) + 1);
        if rows <= size {
            assert(rest =~= Seq::<StepView>::empty());
        } else {
            steps_prepare_for_remainder(target, len, (rows - len) as nat, size);
            assert((rows - size) % (size as int) == rows % size) by {
                vstd::arithmetic::div_mod::lemma_mod_sub_multiples_vanish(
                    rows as int,
                    size as int,
                );
            }
        }
    }
}

} // verus!
