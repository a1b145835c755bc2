//! Builder of parameterised `INSERT` and `INSERT .. ON CONFLICT .. DO UPDATE`
//! statements whose size follows the number of rows they carry.

use vstd::prelude::*;
use crate::text::{
    decimal, decimal_string, join, join_strings, join_strs, lemma_decimal_injective, same_text,
    string_views, views,
};

verus! {

/// The largest number of bound parameters that one statement may carry.
pub const MAX_PARAMS: usize = 32_767;

/// An instant: seconds since the start of 1970 in universal time, and the
/// nanoseconds into that second.
#[derive(Clone, Copy, Debug, PartialEq, Eq, Structural)]
pub struct Timestamp {
    pub seconds: i64,
    pub nanos: u32,
}

/// The number of the placeholder in column `col` of row `row`, for rows of
/// `columns` columns: counted from 1 and running on from row to row.
pub open spec fn placeholder_index(columns: nat, row: nat, col: nat) -> nat {
    row * columns + col + 1
}

/// The text of a placeholder: a dollar sign and the number.
pub open spec fn placeholder(index: nat) -> Seq<char> {
    "$"@ + decimal(index)
}

/// The placeholders of one row, in column order.
pub open spec fn tuple_placeholders(columns: nat, row: nat) -> Seq<Seq<char>> {
    Seq::new(columns, |col: int| placeholder(placeholder_index(columns, row, col as nat)))
}

/// One value tuple: the row's placeholders in parentheses.
pub open spec fn value_tuple(columns: nat, row: nat) -> Seq<char> {
    "("@ + join(tuple_placeholders(columns, row), ", "@) + ")"@
}

/// The value tuples of a statement of `rows` rows.
pub open spec fn value_tuples(columns: nat, rows: nat) -> Seq<Seq<char>> {
    Seq::new(rows, |row: int| value_tuple(columns, row as nat))
}

/// The text of an insert of `rows` rows into `table`.
pub open spec fn insert_text(table: Seq<char>, fields: Seq<Seq<char>>, rows: nat) -> Seq<char> {
    "INSERT INTO "@ + table + " ("@ + join(fields, ", "@) + ") VALUES "@ + join(
        value_tuples(fields.len(), rows),
        ", "@,
    )
}

/// The assignment that overwrites one column with the value that was
/// proposed for insertion.
pub open spec fn assignment(field: Seq<char>) -> Seq<char> {
    field + " = excluded."@ + field
}

/// The assignments of an upsert: one for each column other than the unique
/// one, in column order.
pub open spec fn assignments(fields: Seq<Seq<char>>, unique: Seq<char>) -> Seq<Seq<char>>
    decreases fields.len(),
{
    if fields.len() == 0 {
        Seq::empty()
    } else if fields.last() == unique {
        assignments(fields.drop_last(), unique)
    } else {
        assignments(fields.drop_last(), unique).push(assignment(fields.last()))
    }
}

/// The text of an upsert of `rows` rows into `table`, keyed by `unique`.
pub open spec fn upsert_text(
    table: Seq<char>,
    fields: Seq<Seq<char>>,
    rows: nat,
    unique: Seq<char>,
) -> Seq<char> {
    insert_text(table, fields, rows) + " ON CONFLICT ("@ + unique + ") DO UPDATE SET "@ + join(
        assignments(fields, unique),
        ", "@,
    )
}

/// Whether a statement of `rows` rows of `columns` columns can be built:
/// it carries at least one row, and its last placeholder number fits the
/// machine word.
pub open spec fn buildable(columns: nat, rows: nat) -> bool {
    rows >= 1 && columns * rows <= usize::MAX
}

/// How often `unique` stands among `fields`.
pub open spec fn occurrences(fields: Seq<Seq<char>>, unique: Seq<char>) -> nat
    decreases fields.len(),
{
    if fields.len() == 0 {
        0
    } else if fields.last() == unique {
        occurrences(fields.drop_last(), unique) + 1
    } else {
        occurrences(fields.drop_last(), unique)
    }
}

proof fn lemma_row_bound(columns: nat, rows: nat, row: nat, col: nat)
    requires
        row < rows,
        col < columns,
    ensures
        placeholder_index(columns, row, col) <= columns * rows,
        row * columns + columns <= columns * rows,
{
    assert(row * columns + columns == columns * (row + 1)) by (nonlinear_arith);
    assert(columns * (row + 1) <= columns * rows) by (nonlinear_arith)
        requires
            row + 1 <= rows,
    ;
}

fn tuple_string(columns: usize, row: usize, Ghost(rows): Ghost<nat>) -> (r: String)
    requires
        row < rows,
        columns * rows <= usize::MAX,
    ensures
        r@ == value_tuple(columns as nat, row as nat),
{
    let mut cols: Vec<String> = Vec::new();
    let mut col: usize = 0;
    while col < columns
        invariant
            col <= columns,
            row < rows,
            columns * rows <= usize::MAX,
            string_views(cols@) == tuple_placeholders(columns as nat, row as nat).take(col as int),
        decreases columns - col,
    {
        proof {
            lemma_row_bound(columns as nat, rows, row as nat, col as nat);
            assert(row * columns == columns * row) by (nonlinear_arith);
        }
        let index: usize = columns * row + col + 1;
        let mut text: String = String::from_str("$");
        let digits: String = decimal_string(index as u64);
        text.append(digits.as_str());
        let ghost before = cols@;
        cols.push(text);
        proof {
            assert(text@ == placeholder(placeholder_index(columns as nat, row as nat, col as nat)));
            assert(string_views(cols@) =~= string_views(before).push(text@));
            assert(string_views(cols@) =~= tuple_placeholders(columns as nat, row as nat).take(
                col + 1,
            ));
        }
        col = col + 1;
    }
    proof {
        assert(tuple_placeholders(columns as nat, row as nat).take(columns as int)
            =~= tuple_placeholders(columns as nat, row as nat));
    }
    let inner: String = join_strings(&cols, ", ");
    let mut out: String = String::from_str("(");
    out.append(inner.as_str());
    out.append(")");
    out
}

fn values_string(columns: usize, rows: usize) -> (r: String)
    requires
        columns * rows <= usize::MAX,
    ensures
        r@ == join(value_tuples(columns as nat, rows as nat), ", "@),
{
    let mut tuples: Vec<String> = Vec::new();
    let mut row: usize = 0;
    while row < rows
        invariant
            row <= rows,
            columns * rows <= usize::MAX,
            string_views(tuples@) == value_tuples(columns as nat, rows as nat).take(row as int),
        decreases rows - row,
    {
        let tuple: String = tuple_string(columns, row, Ghost(rows as nat));
        let ghost before = tuples@;
        tuples.push(tuple);
        proof {
            assert(string_views(tuples@) =~= string_views(before).push(tuple@));
            assert(string_views(tuples@) =~= value_tuples(columns as nat, rows as nat).take(
                row + 1,
            ));
        }
        row = row + 1;
    }
    proof {
        assert(value_tuples(columns as nat, rows as nat).take(rows as int) =~= value_tuples(
            columns as nat,
            rows as nat,
        ));
    }
    join_strings(&tuples, ", ")
}

fn assignments_string(fields: &[&str], unique: &str) -> (r: String)
    ensures
        r@ == join(assignments(views(fields@), unique@), ", "@),
{
    let mut parts: Vec<String> = Vec::new();
    let mut i: usize = 0;
    while i < fields.len()
        invariant
            i <= fields.len(),
            string_views(parts@) == assignments(views(fields@).take(i as int), unique@),
        decreases fields.len() - i,
    {
        let ghost upto = views(fields@).take(i + 1);
        let ghost before = parts@;
        proof {
            assert(upto.drop_last() =~= views(fields@).take(i as int));
            assert(upto.last() == fields@[i as int]@);
        }
        if !same_text(fields[i], unique) {
            let mut part: String = String::from_str(fields[i]);
            part.append(" = excluded.");
            part.append(fields[i]);
            parts.push(part);
            proof {
                assert(part@ == assignment(fields@[i as int]@));
                assert(string_views(parts@) =~= string_views(before).push(part@));
            }
        }
        i = i + 1;
    }
    proof {
        assert(views(fields@).take(fields@.len() as int) =~= views(fields@));
    }
    join_strings(&parts, ", ")
}

/// Builds an insert of `rows` rows into `table`: the column list, then one
/// value tuple per row, with placeholders numbered from 1 onwards through
/// the whole statement. No statement is built for zero rows, nor where the
/// last placeholder number would not fit the machine word.
pub fn insert_into(table: &str, fields: &[&str], rows: usize) -> (r: Option<String>)
    ensures
        r is Some <==> buildable(fields@.len(), rows as nat),
        r is Some ==> r->0@ == insert_text(table@, views(fields@), rows as nat),
{
    if rows == 0 {
        return None;
    }
    match fields.len().checked_mul(rows) {
        None => None,
        Some(_) => {
            let columns: String = join_strs(fields, ", ");
            let values: String = values_string(fields.len(), rows);
            let mut out: String = String::from_str("INSERT INTO ");
            out.append(table);
            out.append(" (");
            out.append(columns.as_str());
            out.append(") VALUES ");
            out.append(values.as_str());
            Some(out)
        },
    }
}

/// Builds an upsert of `rows` rows into `table`: the insert, then the
/// conflict clause on `unique` with one assignment for every other column.
/// No statement is built for zero rows, nor where the last placeholder
/// number would not fit the machine word.
pub fn upsert_into(table: &str, fields: &[&str], rows: usize, unique: &str) -> (r: Option<String>)
    ensures
        r is Some <==> buildable(fields@.len(), rows as nat),
        r is Some ==> r->0@ == upsert_text(table@, views(fields@), rows as nat, unique@),
{
    match insert_into(table, fields, rows) {
        None => None,
        Some(insert) => {
            let excluded: String = assignments_string(fields, unique);
            let mut out: String = insert;
            out.append(" ON CONFLICT (");
            out.append(unique);
            out.append(") DO UPDATE SET ");
            out.append(excluded.as_str());
            Some(out)
        },
    }
}

/// A statement of `rows` rows holds `rows` value tuples of `columns`
/// placeholders each. Read row by row and column by column, the placeholder
/// numbers increase strictly, and they lie between 1 and `rows * columns`.
pub proof fn placeholders_increase(columns: nat, rows: nat)
    ensures
        value_tuples(columns, rows).len() == rows,
        forall|row: nat| #[trigger] tuple_placeholders(columns, row).len() == columns,
        forall|r1: nat, c1: nat, r2: nat, c2: nat|
            c1 < columns && c2 < columns && (r1 < r2 || (r1 == r2 && c1 < c2))
                ==> #[trigger] placeholder_index(columns, r1, c1) < #[trigger] placeholder_index(
                columns,
                r2,
                c2,
            ),
        forall|row: nat, col: nat|
            row < rows && col < columns ==> 1 <= #[trigger] placeholder_index(columns, row, col)
                <= rows * columns,
{
    assert forall|r1: nat, c1: nat, r2: nat, c2: nat|
        c1 < columns && c2 < columns && (r1 < r2 || (r1 == r2 && c1 < c2))
        implies #[trigger] placeholder_index(columns, r1, c1) < #[trigger] placeholder_index(
        columns,
        r2,
        c2,
    ) by {
        if r1 < r2 {
            assert(r1 * columns + columns <= r2 * columns) by (nonlinear_arith)
                requires
                    r1 + 1 <= r2,
            ;
        }
    }
    assert forall|row: nat, col: nat| row < rows && col < columns implies 1
        <= #[trigger] placeholder_index(columns, row, col) <= rows * columns by {
        lemma_row_bound(columns, rows, row, col);
        assert(columns * rows == rows * columns) by (nonlinear_arith);
    }
}

/// Every number from 1 to `rows * columns` is the number of exactly one
/// placeholder of the statement: none is left out and none is used twice.
pub proof fn placeholders_are_contiguous(columns: nat, rows: nat, index: nat)
    requires
        1 <= index <= rows * columns,
    ensures
        columns > 0,
        ((index - 1) / (columns as int)) < rows,
        placeholder_index(
            columns,
            ((index - 1) / (columns as int)) as nat,
            ((index - 1) % (columns as int)) as nat,
        ) == index,
        forall|row: nat, col: nat|
            col < columns && #[trigger] placeholder_index(columns, row, col) == index ==> row == (
            index - 1) / (columns as int) && col == (index - 1) % (columns as int),
{
    if columns == 0 {
        assert(rows * columns == 0) by (nonlinear_arith)
            requires
                columns == 0,
        ;
    }
    let c = columns as int;
    let n = index - 1;
    vstd::arithmetic::div_mod::lemma_fundamental_div_mod(n, c);
    vstd::arithmetic::div_mod::lemma_div_pos_is_pos(n, c);
    vstd::arithmetic::div_mod::lemma_mod_bound(n, c);
    assert(c * (n / c) == (n / c) * c) by (nonlinear_arith);
    if n / c >= rows {
        assert((n / c) * c >= rows * c) by (nonlinear_arith)
            requires
                n / c >= rows,
                c > 0,
        ;
    }
    assert forall|row: nat, col: nat|
        col < columns && #[trigger] placeholder_index(columns, row, col) == index implies row == n
        / c && col == n % c by {
        vstd::arithmetic::div_mod::lemma_fundamental_div_mod_converse(
            n,
            c,
            row as int,
            col as int,
        );
    }
}

/// Placeholders with different numbers have different texts.
pub proof fn placeholder_texts_differ(a: nat, b: nat)
    requires
        a != b,
    ensures
        placeholder(a) != placeholder(b),
{
    if placeholder(a) == placeholder(b) {
        assert(placeholder(a).subrange(1, placeholder(a).len() as int) =~= decimal(a)) by {
            reveal_strlit("$");
        }
        assert(placeholder(b).subrange(1, placeholder(b).len() as int) =~= decimal(b)) by {
            reveal_strlit("$");
        }
        lemma_decimal_injective(a, b);
    }
}

/// An upsert assigns every column but the unique one: the assignments and
/// the occurrences of the unique column add up to the columns, so a column
/// list that names the unique column once yields one assignment fewer than
/// it has columns.
pub proof fn assignments_skip_unique(fields: Seq<Seq<char>>, unique: Seq<char>)
    ensures
        assignments(fields, unique).len() + occurrences(fields, unique) == fields.len(),
        occurrences(fields, unique) == 1 ==> assignments(fields, unique).len() == fields.len() - 1,
    decreases fields.len(),
{
    if fields.len() > 0 {
        assignments_skip_unique(fields.drop_last(), unique);
    }
}

} // verus!
