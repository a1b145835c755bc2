//! The map of fiat currencies and precious metals: one feed, two tables.

use vstd::prelude::*;
use crate::cmc::enums::{suffix_trimmed, unit_of_lowered, MetalUnit};
use crate::cmc::{Request, Response, API};
use crate::error::{Error, ErrorView};
use crate::row::{bound_views, Bound, Row, SqlVals, SqlValue};
use crate::batch::{batch_steps, plan, step_views, Step, TableView};
use crate::sql::{buildable, upsert_into, upsert_text, MAX_PARAMS};
use crate::text::{lowercase_of, signed_decimal, signed_decimal_string, views};

verus! {

/// One record of the feed. A fiat currency has a sign; a metal has a code.
#[derive(Clone, Debug, PartialEq, Eq)]
pub struct FiatMetal {
    pub id: i32,
    pub name: String,
    pub symbol: String,
    pub sign: Option<String>,
    pub code: Option<String>,
}

/// A fiat currency as it is stored.
#[derive(Clone, Debug, PartialEq, Eq)]
pub struct Fiat {
    pub id: i32,
    pub name: String,
    pub sign: String,
    pub symbol: String,
}

/// A precious metal as it is stored: its name without the unit, and the
/// unit, where the name ended with one.
#[derive(Clone, Debug, PartialEq, Eq)]
pub struct Metal {
    pub id: i32,
    pub name: String,
    pub code: String,
    pub unit: Option<MetalUnit>,
}

/// What a record of the feed holds.
pub struct FiatMetalView {
    pub id: i32,
    pub name: Seq<char>,
    pub symbol: Seq<char>,
    pub sign: Option<Seq<char>>,
    pub code: Option<Seq<char>>,
}

/// What a fiat row holds.
pub struct FiatView {
    pub id: i32,
    pub name: Seq<char>,
    pub sign: Seq<char>,
    pub symbol: Seq<char>,
}

/// What a metal row holds.
pub struct MetalView {
    pub id: i32,
    pub name: Seq<char>,
    pub code: Seq<char>,
    pub unit: Option<MetalUnit>,
}

impl View for FiatMetal {
    type V = FiatMetalView;

    open spec fn view(&self) -> FiatMetalView {
        FiatMetalView {
            id: self.id,
            name: self.name@,
            symbol: self.symbol@,
            sign: match self.sign {
                Some(sign) => Some(sign@),
                None => None,
            },
            code: match self.code {
                Some(code) => Some(code@),
                None => None,
            },
        }
    }
}

impl View for Fiat {
    type V = FiatView;

    open spec fn view(&self) -> FiatView {
        FiatView { id: self.id, name: self.name@, sign: self.sign@, symbol: self.symbol@ }
    }
}

impl View for Metal {
    type V = MetalView;

    open spec fn view(&self) -> MetalView {
        MetalView { id: self.id, name: self.name@, code: self.code@, unit: self.unit }
    }
}

/// The views of a sequence of records.
pub open spec fn record_views(records: Seq<FiatMetal>) -> Seq<FiatMetalView> {
    Seq::new(records.len(), |i: int| records[i]@)
}

/// The views of a sequence of fiat rows.
pub open spec fn fiat_views(rows: Seq<Fiat>) -> Seq<FiatView> {
    Seq::new(rows.len(), |i: int| rows[i]@)
}

/// The views of a sequence of metal rows.
pub open spec fn metal_views(rows: Seq<Metal>) -> Seq<MetalView> {
    Seq::new(rows.len(), |i: int| rows[i]@)
}

impl FiatMetalView {
    /// A record is a fiat currency where it has a sign and no code.
    pub open spec fn is_fiat(self) -> bool {
        self.sign is Some && self.code is None
    }

    /// The fiat row of a record with a sign.
    pub open spec fn as_fiat(self) -> Option<FiatView> {
        match self.sign {
            Some(sign) => Some(
                FiatView { id: self.id, name: self.name, sign: sign, symbol: self.symbol },
            ),
            None => None,
        }
    }

    /// The unit that the record's name ends with.
    pub open spec fn unit(self) -> Option<MetalUnit> {
        unit_of_lowered(lowercase_of(self.name))
    }

    /// The name of the metal: the record's name without its unit.
    pub open spec fn metal_name(self) -> Seq<char> {
        match self.unit() {
            Some(unit) => suffix_trimmed(self.name, unit.label()),
            None => self.name,
        }
    }

    /// The metal row of a record with a code.
    pub open spec fn as_metal(self) -> Option<MetalView> {
        match self.code {
            Some(code) => Some(
                MetalView { id: self.id, name: self.metal_name(), code: code, unit: self.unit() },
            ),
            None => None,
        }
    }
}

/// The fiat rows of a page: one for each record that is a fiat currency,
/// in the order of the page.
pub open spec fn fiats_of(records: Seq<FiatMetalView>) -> Seq<FiatView>
    decreases records.len(),
{
    if records.len() == 0 {
        Seq::empty()
    } else if records.last().is_fiat() {
        fiats_of(records.drop_last()).push(records.last().as_fiat()->0)
    } else {
        fiats_of(records.drop_last())
    }
}

/// The metal rows of a page: one for each record with a code, in the
/// order of the page. A record with neither sign nor code yields no row.
pub open spec fn metals_of(records: Seq<FiatMetalView>) -> Seq<MetalView>
    decreases records.len(),
{
    if records.len() == 0 {
        Seq::empty()
    } else if records.last().code is Some {
        metals_of(records.drop_last()).push(records.last().as_metal()->0)
    } else {
        metals_of(records.drop_last())
    }
}

/// The columns of the table of fiat currencies; the first is its key, the
/// last names the call that a row came from.
pub const FIAT_COLS: [&'static str; 5] = ["id", "name", "sign", "symbol", "last_update"];

/// The columns of the table of metals; the first is its key, the last
/// names the call that a row came from.
pub const METAL_COLS: [&'static str; 5] = ["id", "name", "code", "unit", "last_update"];

/// The column names of the table of fiat currencies.
pub open spec fn fiat_columns() -> Seq<Seq<char>> {
    seq!["id"@, "name"@, "sign"@, "symbol"@, "last_update"@]
}

/// The column names of the table of metals.
pub open spec fn metal_columns() -> Seq<Seq<char>> {
    seq!["id"@, "name"@, "code"@, "unit"@, "last_update"@]
}

/// The table of fiat currencies.
pub open spec fn fiat_table() -> TableView {
    TableView { table: "fiats"@, columns: fiat_columns(), unique: "id"@ }
}

/// The table of metals.
pub open spec fn metal_table() -> TableView {
    TableView { table: "metals"@, columns: metal_columns(), unique: "id"@ }
}

impl FiatMetal {
    /// Whether the record is a fiat currency.
    pub fn is_fiat(&self) -> (r: bool)
        ensures
            r == self@.is_fiat(),
    {
        self.sign.is_some() && self.code.is_none()
    }

    /// The fiat row of the record, where it has a sign.
    pub fn as_fiat(self) -> (r: Option<Fiat>)
        ensures
            r is Some <==> self@.sign is Some,
            r is Some ==> Some(r->0@) == self@.as_fiat(),
    {
        match self.sign {
            Some(sign) => Some(Fiat { id: self.id, name: self.name, sign: sign, symbol: self.symbol }),
            None => None,
        }
    }

    /// The metal row of the record, where it has a code: the unit is read
    /// off the end of the name and taken away from it.
    pub fn as_metal(self) -> (r: Option<Metal>)
        ensures
            r is Some <==> self@.code is Some,
            r is Some ==> Some(r->0@) == self@.as_metal(),
    {
        match self.code {
            Some(code) => {
                let unit: Option<MetalUnit> = MetalUnit::from_suffix(self.name.as_str());
                let name: String = match &unit {
                    Some(unit) => unit.trim_suffix(self.name.as_str()),
                    None => self.name,
                };
                Some(Metal { id: self.id, name: name, code: code, unit: unit })
            },
            None => None,
        }
    }
}

/// Splits a page into its fiat rows and its metal rows. A record with a
/// code is a metal, whether or not it has a sign; one with a sign only is a
/// fiat currency; one with neither is left out.
pub fn classify(records: Vec<FiatMetal>) -> (r: (Vec<Fiat>, Vec<Metal>))
    ensures
        fiat_views(r.0@) == fiats_of(record_views(records@)),
        metal_views(r.1@) == metals_of(record_views(records@)),
{
    let ghost all = record_views(records@);
    let mut fiats: Vec<Fiat> = Vec::new();
    let mut metals: Vec<Metal> = Vec::new();
    for record in it: records.into_iter()
        invariant
            record_views(it.seq()) == all,
            fiat_views(fiats@) == fiats_of(all.take(it.index() as int)),
            metal_views(metals@) == metals_of(all.take(it.index() as int)),
    {
        let ghost upto = all.take(it.index() + 1);
        let ghost fiats_before = fiats@;
        let ghost metals_before = metals@;
        proof {
            assert(upto.drop_last() =~= all.take(it.index() as int));
            assert(upto.last() == record@);
        }
        if record.is_fiat() {
            match record.as_fiat() {
                Some(fiat) => {
                    fiats.push(fiat);
                    proof {
                        assert(fiat_views(fiats@) =~= fiat_views(fiats_before).push(fiat@));
                    }
                },
                None => {},
            }
        } else {
            match record.as_metal() {
                Some(metal) => {
                    metals.push(metal);
                    proof {
                        assert(metal_views(metals@) =~= metal_views(metals_before).push(metal@));
                    }
                },
                None => {},
            }
        }
    }
    proof {
        assert(all.take(all.len() as int) =~= all);
    }
    (fiats, metals)
}

/// The first record of a page that is neither a fiat currency nor a
/// metal, where there is one.
pub open spec fn first_unclassified(records: Seq<FiatMetalView>) -> Option<FiatMetalView>
    decreases records.len(),
{
    if records.len() == 0 {
        None
    } else if records.first().sign is None && records.first().code is None {
        Some(records.first())
    } else {
        first_unclassified(records.drop_first())
    }
}

/// The failure for a record that is neither a fiat currency nor a metal.
pub open spec fn unclassified_failure(record: FiatMetalView) -> ErrorView {
    ErrorView::Error("neither fiat currency nor metal: record "@ + signed_decimal(record.id as int))
}

/// Looks for a record that is neither a fiat currency nor a metal, and
/// fails with the first one found.
pub fn check_shapes(records: &[FiatMetal]) -> (r: Result<(), Error>)
    ensures
        r is Ok <==> first_unclassified(record_views(records@)) is None,
        r is Err ==> r->Err_0@ == unclassified_failure(
            first_unclassified(record_views(records@))->0,
        ),
{
    let ghost all = record_views(records@);
    let mut i: usize = 0;
    proof {
        assert(all.skip(0) =~= all);
    }
    while i < records.len()
        invariant
            i <= records.len(),
            all == record_views(records@),
            first_unclassified(all) == first_unclassified(all.skip(i as int)),
        decreases records.len() - i,
    {
        proof {
            assert(all.skip(i as int).first() == records@[i as int]@);
            assert(all.skip(i as int).drop_first() =~= all.skip(i + 1));
        }
        if records[i].sign.is_none() && records[i].code.is_none() {
            let mut text: String = String::from_str("neither fiat currency nor metal: record ");
            let digits: String = signed_decimal_string(records[i].id);
            text.append(digits.as_str());
            return Err(Error::new(text));
        }
        i = i + 1;
    }
    proof {
        assert(all.skip(all.len() as int) =~= Seq::<FiatMetalView>::empty());
    }
    Ok(())
}

/// Splits a page as `classify` does, but fails where a record is neither
/// a fiat currency nor a metal instead of leaving it out.
pub fn classify_strictly(records: Vec<FiatMetal>) -> (r: Result<(Vec<Fiat>, Vec<Metal>), Error>)
    ensures
        r is Ok <==> first_unclassified(record_views(records@)) is None,
        r is Ok ==> fiat_views(r->Ok_0.0@) == fiats_of(record_views(records@)) && metal_views(
            r->Ok_0.1@,
        ) == metals_of(record_views(records@)),
        r is Err ==> r->Err_0@ == unclassified_failure(
            first_unclassified(record_views(records@))->0,
        ),
{
    match check_shapes(records.as_slice()) {
        Err(error) => Err(error),
        Ok(_) => Ok(classify(records)),
    }
}

/// Every record of a page yields at most one row, so the rows of both
/// tables together are no more than the records; where every record is a
/// fiat currency or a metal, they are as many.
pub proof fn rows_of_a_page(records: Seq<FiatMetalView>)
    ensures
        fiats_of(records).len() + metals_of(records).len() <= records.len(),
        first_unclassified(records) is None ==> fiats_of(records).len() + metals_of(
            records,
        ).len() == records.len(),
    decreases records.len(),
{
    if records.len() > 0 {
        rows_of_a_page(records.drop_last());
        unclassified_in_front(records);
    }
}

proof fn unclassified_in_front(records: Seq<FiatMetalView>)
    requires
        records.len() > 0,
    ensures
        first_unclassified(records) is None <==> first_unclassified(records.drop_last()) is None
            && !(records.last().sign is None && records.last().code is None),
    decreases records.len(),
{
    if records.len() == 1 {
        assert(records.drop_last() =~= Seq::<FiatMetalView>::empty());
        assert(records.drop_first() =~= Seq::<FiatMetalView>::empty());
    } else {
        let rest = records.drop_first();
        unclassified_in_front(rest);
        assert(rest.drop_last() =~= records.drop_last().drop_first());
        assert(rest.last() == records.last());
        assert(records.drop_last().first() == records.first());
    }
}

/// The message of the failure for an answer without data.
pub open spec fn no_data_message() -> Seq<char> {
    "response contains no data"@
}

/// Reads one answer of the feed: fails where the remote reported an
/// error or sent no data, and otherwise splits the records into fiat rows
/// and metal rows.
pub fn sort_response(response: Response<Vec<FiatMetal>>) -> (r: Result<(Vec<Fiat>, Vec<Metal>), Error>)
    ensures
        r is Ok <==> response.status.error_code == 0 && response.data is Some,
        r is Ok ==> fiat_views(r->Ok_0.0@) == fiats_of(record_views(response.data->0@))
            && metal_views(r->Ok_0.1@) == metals_of(record_views(response.data->0@)),
        r is Err && response.status.error_code != 0 ==> r->Err_0@ == response.status.failure(),
        r is Err && response.status.error_code == 0 ==> r->Err_0@ == ErrorView::Error(
            no_data_message(),
        ),
{
    match response.status.check() {
        Err(error) => Err(error),
        Ok(_) => match response.data {
            Some(records) => Ok(classify(records)),
            None => Err(Error::new(String::from_str("response contains no data"))),
        },
    }
}

impl Row for Fiat {
    open spec fn columns(&self) -> Seq<Bound> {
        seq![
            Bound::Int(self.id),
            Bound::Text(self.name@),
            Bound::Text(self.sign@),
            Bound::Text(self.symbol@),
        ]
    }

    fn sql_vals(&self) -> (r: SqlVals<'_>) {
        let mut vals: Vec<SqlValue<'_>> = Vec::new();
        vals.push(SqlValue::Int(self.id));
        vals.push(SqlValue::Text(self.name.as_str()));
        vals.push(SqlValue::Text(self.sign.as_str()));
        vals.push(SqlValue::Text(self.symbol.as_str()));
        proof {
            assert(bound_views(vals@) =~= self.columns());
        }
        vals
    }
}

impl Row for Metal {
    open spec fn columns(&self) -> Seq<Bound> {
        seq![
            Bound::Int(self.id),
            Bound::Text(self.name@),
            Bound::Text(self.code@),
            Bound::Unit(self.unit),
        ]
    }

    fn sql_vals(&self) -> (r: SqlVals<'_>) {
        let mut vals: Vec<SqlValue<'_>> = Vec::new();
        vals.push(SqlValue::Int(self.id));
        vals.push(SqlValue::Text(self.name.as_str()));
        vals.push(SqlValue::Text(self.code.as_str()));
        vals.push(SqlValue::Unit(self.unit));
        proof {
            assert(bound_views(vals@) =~= self.columns());
        }
        vals
    }
}

impl Fiat {
    /// The upsert of `n` fiat rows, keyed by the first column.
    pub fn upsert_into(n: usize) -> (r: Option<String>)
        ensures
            r is Some <==> buildable(5, n as nat),
            r is Some ==> r->0@ == upsert_text("fiats"@, fiat_columns(), n as nat, "id"@),
    {
        let cols: [&'static str; 5] = FIAT_COLS;
        proof {
            assert(views(cols@) =~= fiat_columns());
        }
        upsert_into("fiats", cols.as_slice(), n, cols[0])
    }
}

impl Fiat {
    /// The number of fiat rows that one statement may carry.
    pub fn chunk_size() -> (r: usize)
        ensures
            r == 6553,
            r == MAX_PARAMS / 5,
    {
        MAX_PARAMS / FIAT_COLS.len()
    }

    /// The steps that write `rows` fiat rows.
    pub fn upsert_plan(rows: usize) -> (r: Vec<Step>)
        ensures
            step_views(r@) == batch_steps(fiat_table(), rows as nat, 6553),
    {
        let cols: [&'static str; 5] = FIAT_COLS;
        proof {
            assert(views(cols@) =~= fiat_columns());
        }
        match plan("fiats", cols.as_slice(), cols[0], rows, MAX_PARAMS) {
            Ok(steps) => steps,
            Err(_) => {
                assert(false);
                Vec::new()
            },
        }
    }
}

impl Metal {
    /// The number of metal rows that one statement may carry.
    pub fn chunk_size() -> (r: usize)
        ensures
            r == 6553,
            r == MAX_PARAMS / 5,
    {
        MAX_PARAMS / METAL_COLS.len()
    }

    /// The steps that write `rows` metal rows.
    pub fn upsert_plan(rows: usize) -> (r: Vec<Step>)
        ensures
            step_views(r@) == batch_steps(metal_table(), rows as nat, 6553),
    {
        let cols: [&'static str; 5] = METAL_COLS;
        proof {
            assert(views(cols@) =~= metal_columns());
        }
        match plan("metals", cols.as_slice(), cols[0], rows, MAX_PARAMS) {
            Ok(steps) => steps,
            Err(_) => {
                assert(false);
                Vec::new()
            },
        }
    }

    /// The upsert of `n` metal rows, keyed by the first column.
    pub fn upsert_into(n: usize) -> (r: Option<String>)
        ensures
            r is Some <==> buildable(5, n as nat),
            r is Some ==> r->0@ == upsert_text("metals"@, metal_columns(), n as nat, "id"@),
    {
        let cols: [&'static str; 5] = METAL_COLS;
        proof {
            assert(views(cols@) =~= metal_columns());
        }
        upsert_into("metals", cols.as_slice(), n, cols[0])
    }
}

/// The text of a truth value in a query.
pub open spec fn bool_text(b: bool) -> Seq<char> {
    if b {
        "true"@
    } else {
        "false"@
    }
}

impl API {
    /// The request for the map of fiat currencies, with or without the
    /// precious metals.
    pub fn fiat_map(&self, metals: bool) -> (r: Request)
        ensures
            r.url@ == self@ + "/fiat/map"@,
            crate::cmc::query_views(r.query@) == seq![("include_metals"@, bool_text(metals))],
    {
        let value: &str = if metals {
            "true"
        } else {
            "false"
        };
        let mut query: Vec<(String, String)> = Vec::new();
        query.push((String::from_str("include_metals"), String::from_str(value)));
        proof {
            assert(crate::cmc::query_views(query@) =~= seq![
                ("include_metals"@, bool_text(metals)),
            ]);
        }
        Request { url: self.url("/fiat/map"), query: query }
    }
}

} // verus!
