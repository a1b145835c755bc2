//! The values that a statement is executed with: what one row binds, and
//! how the rows of a chunk are laid out behind one another.

use vstd::prelude::*;
use crate::cmc::enums::{MetalUnit, TrackingStatus};
use crate::sql::Timestamp;

verus! {

/// A value bound to one placeholder.
#[derive(Clone, Copy, Debug, PartialEq, Eq)]
pub enum SqlValue<'a> {
    Int(i32),
    Bool(bool),
    Text(&'a str),
    OptText(Option<&'a str>),
    Status(&'a TrackingStatus),
    Unit(Option<MetalUnit>),
    Time(Option<Timestamp>),
}

/// The values of one execution, in placeholder order.
pub type SqlVals<'a> = Vec<SqlValue<'a>>;

/// What a bound value holds.
pub enum Bound {
    Int(i32),
    Bool(bool),
    Text(Seq<char>),
    OptText(Option<Seq<char>>),
    Status(Seq<char>),
    Unit(Option<MetalUnit>),
    Time(Option<Timestamp>),
}

impl<'a> View for SqlValue<'a> {
    type V = Bound;

    open spec fn view(&self) -> Bound {
        match *self {
            SqlValue::Int(n) => Bound::Int(n),
            SqlValue::Bool(b) => Bound::Bool(b),
            SqlValue::Text(t) => Bound::Text(t@),
            SqlValue::OptText(t) => Bound::OptText(
                match t {
                    Some(s) => Some(s@),
                    None => None,
                },
            ),
            SqlValue::Status(s) => Bound::Status(s@),
            SqlValue::Unit(u) => Bound::Unit(u),
            SqlValue::Time(t) => Bound::Time(t),
        }
    }
}

/// What a sequence of bound values holds.
pub open spec fn bound_views(vals: Seq<SqlValue<'_>>) -> Seq<Bound> {
    Seq::new(vals.len(), |i: int| vals[i]@)
}

/// A row of a destination table.
pub trait Row {
    /// What the row binds for its own columns, in column order.
    spec fn columns(&self) -> Seq<Bound>;

    /// The values that the row binds for its own columns, in column
    /// order.
    fn sql_vals(&self) -> (r: SqlVals<'_>)
        ensures
            bound_views(r@) == self.columns(),
    ;
}

/// What a run of rows binds: for each row in turn its own columns, then
/// the key of the call that the row came from.
pub open spec fn bound_rows<R: Row>(rows: Seq<R>, update: i32) -> Seq<Bound>
    decreases rows.len(),
{
    if rows.len() == 0 {
        Seq::empty()
    } else {
        bound_rows(rows.drop_last(), update) + rows.last().columns().push(Bound::Int(update))
    }
}

/// Lays out the values of a chunk: each row's own columns followed by
/// `update`, the key of the call that the rows came from, row after row.
pub fn bind<'a, R: Row>(rows: &'a [R], update: i32) -> (r: SqlVals<'a>)
    ensures
        bound_views(r@) == bound_rows(rows@, update),
{
    let mut vals: Vec<SqlValue<'a>> = Vec::new();
    let mut i: usize = 0;
    while i < rows.len()
        invariant
            i <= rows.len(),
            bound_views(vals@) == bound_rows(rows@.take(i as int), update),
        decreases rows.len() - i,
    {
        let ghost before = vals@;
        let mut own: Vec<SqlValue<'a>> = rows[i].sql_vals();
        let ghost own_views = bound_views(own@);
        vals.append(&mut own);
        vals.push(SqlValue::Int(update));
        proof {
            assert(rows@.take(i + 1).drop_last() =~= rows@.take(i as int));
            assert(rows@.take(i + 1).last() == rows@[i as int]);
            assert(bound_views(vals@) =~= bound_views(before) + own_views.push(
                Bound::Int(update),
            ));
        }
        i = i + 1;
    }
    proof {
        assert(rows@.take(rows@.len() as int) =~= rows@);
    }
    vals
}

/// A run of rows of `width` own columns each binds `width + 1` values
/// per row: as many as a statement of that many rows has placeholders.
pub proof fn bound_rows_len<R: Row>(rows: Seq<R>, update: i32, width: nat)
    requires
        forall|i: int| 0 <= i < rows.len() ==> (#[trigger] rows[i]).columns().len() == width,
    ensures
        bound_rows(rows, update).len() == rows.len() * (width + 1),
    decreases rows.len(),
{
    if rows.len() > 0 {
        bound_rows_len(rows.drop_last(), update, width);
        assert(rows.len() * (width + 1) == (rows.len() - 1) * (width + 1) + (width + 1))
            by (nonlinear_arith);
    } else {
        assert(rows.len() * (width + 1) == 0) by (nonlinear_arith)
            requires
                rows.len() == 0,
        ;
    }
}

} // verus!
