//! The map of cryptocurrencies: the entries themselves, and the platform
//! that an entry may live on, which is written after the entries.

use vstd::prelude::*;
use crate::batch::{batch_steps, plan, step_views, Step, TableView};
use crate::cmc::enums::TrackingStatus;
use crate::cmc::{query_views, Request, API};
use crate::row::{bound_views, Bound, Row, SqlVals, SqlValue};
use crate::sql::{buildable, upsert_into, upsert_text, Timestamp, MAX_PARAMS};
use crate::text::{decimal, decimal_string, join, join_strs, views};

verus! {

/// One entry of the map.
#[derive(Clone, Debug, PartialEq, Eq)]
pub struct Cryptocurrency {
    pub id: i32,
    pub name: String,
    pub symbol: String,
    pub slug: String,
    pub is_active: bool,
    pub status: TrackingStatus,
    pub first_historical_data: Option<Timestamp>,
    pub last_historical_data: Option<Timestamp>,
    pub platform: Option<Platform>,
}

/// The platform that a token lives on: the entry of the platform's own
/// currency, and the token's address there.
#[derive(Clone, Debug, PartialEq, Eq)]
pub struct Platform {
    pub id: i32,
    pub token_address: String,
}

/// A platform together with the key of the entry that names it.
#[derive(Clone, Copy, Debug, PartialEq, Eq)]
pub struct PlatformRow<'a> {
    pub id: i32,
    pub platform: &'a Platform,
}

/// What a platform row holds.
pub struct PlatformRowView {
    pub id: i32,
    pub platform: i32,
    pub token_address: Seq<char>,
}

impl<'a> View for PlatformRow<'a> {
    type V = PlatformRowView;

    open spec fn view(&self) -> PlatformRowView {
        PlatformRowView {
            id: self.id,
            platform: self.platform.id,
            token_address: self.platform.token_address@,
        }
    }
}

/// The views of a sequence of platform rows.
pub open spec fn platform_views(rows: Seq<PlatformRow<'_>>) -> Seq<PlatformRowView> {
    Seq::new(rows.len(), |i: int| rows[i]@)
}

/// The platform rows of a page: one for each entry that names a
/// platform, under the key of that entry, in the order of the page.
pub open spec fn platforms_of(page: Seq<Cryptocurrency>) -> Seq<PlatformRowView>
    decreases page.len(),
{
    if page.len() == 0 {
        Seq::empty()
    } else {
        match page.last().platform {
            Some(platform) => platforms_of(page.drop_last()).push(
                PlatformRowView {
                    id: page.last().id,
                    platform: platform.id,
                    token_address: platform.token_address@,
                },
            ),
            None => platforms_of(page.drop_last()),
        }
    }
}

/// The columns of the table of cryptocurrencies; the first is its key,
/// the last names the call that a row came from.
pub const CRYPTOCURRENCY_COLS: [&'static str; 9] = [
    "id",
    "name",
    "symbol",
    "slug",
    "is_active",
    "status",
    "first_historical_data",
    "last_historical_data",
    "last_update",
];

/// The columns of the table of platforms; the first is its key, the last
/// names the call that a row came from.
pub const PLATFORM_COLS: [&'static str; 4] = ["id", "platform", "token_address", "last_update"];

/// The column names of the table of cryptocurrencies.
pub open spec fn cryptocurrency_columns() -> Seq<Seq<char>> {
    seq![
        "id"@,
        "name"@,
        "symbol"@,
        "slug"@,
        "is_active"@,
        "status"@,
        "first_historical_data"@,
        "last_historical_data"@,
        "last_update"@,
    ]
}

/// The column names of the table of platforms.
pub open spec fn platform_columns() -> Seq<Seq<char>> {
    seq!["id"@, "platform"@, "token_address"@, "last_update"@]
}

/// The table of cryptocurrencies.
pub open spec fn cryptocurrency_table() -> TableView {
    TableView { table: "cryptocurrencies"@, columns: cryptocurrency_columns(), unique: "id"@ }
}

/// The table of platforms.
pub open spec fn platform_table() -> TableView {
    TableView { table: "cryptocurrency_platforms"@, columns: platform_columns(), unique: "id"@ }
}

/// Reads a truth value that the feed sends as a number: zero is false,
/// anything else is true.
pub fn parse_bool(value: u32) -> (r: bool)
    ensures
        r == (value != 0),
{
    value != 0
}

/// Picks the platforms out of a page, each under the key of the entry
/// that names it, so that they can be written once the entries are.
pub fn platform_rows<'a>(page: &'a [Cryptocurrency]) -> (r: Vec<PlatformRow<'a>>)
    ensures
        platform_views(r@) == platforms_of(page@),
{
    let mut rows: Vec<PlatformRow<'a>> = Vec::new();
    let mut i: usize = 0;
    while i < page.len()
        invariant
            i <= page.len(),
            platform_views(rows@) == platforms_of(page@.take(i as int)),
        decreases page.len() - i,
    {
        let ghost before = rows@;
        proof {
            assert(page@.take(i + 1).drop_last() =~= page@.take(i as int));
            assert(page@.take(i + 1).last() == page@[i as int]);
        }
        match &page[i].platform {
            Some(platform) => {
                let row = PlatformRow { id: page[i].id, platform: platform };
                rows.push(row);
                proof {
                    assert(platform_views(rows@) =~= platform_views(before).push(row@));
                }
            },
            None => {},
        }
        i = i + 1;
    }
    proof {
        assert(page@.take(page@.len() as int) =~= page@);
    }
    rows
}

impl Row for Cryptocurrency {
    open spec fn columns(&self) -> Seq<Bound> {
        seq![
            Bound::Int(self.id),
            Bound::Text(self.name@),
            Bound::Text(self.symbol@),
            Bound::Text(self.slug@),
            Bound::Bool(self.is_active),
            Bound::Status(self.status@),
            Bound::Time(self.first_historical_data),
            Bound::Time(self.last_historical_data),
        ]
    }

    fn sql_vals(&self) -> (r: SqlVals<'_>) {
        let mut vals: Vec<SqlValue<'_>> = Vec::new();
        vals.push(SqlValue::Int(self.id));
        vals.push(SqlValue::Text(self.name.as_str()));
        vals.push(SqlValue::Text(self.symbol.as_str()));
        vals.push(SqlValue::Text(self.slug.as_str()));
        vals.push(SqlValue::Bool(self.is_active));
        vals.push(SqlValue::Status(&self.status));
        vals.push(SqlValue::Time(self.first_historical_data));
        vals.push(SqlValue::Time(self.last_historical_data));
        proof {
            assert(bound_views(vals@) =~= self.columns());
        }
        vals
    }
}

impl<'a> Row for PlatformRow<'a> {
    open spec fn columns(&self) -> Seq<Bound> {
        seq![
            Bound::Int(self.id),
            Bound::Int(self.platform.id),
            Bound::Text(self.platform.token_address@),
        ]
    }

    fn sql_vals(&self) -> (r: SqlVals<'_>) {
        self.platform.sql_vals(&self.id)
    }
}

impl Cryptocurrency {
    /// The upsert of `n` entries, keyed by the first column.
    pub fn upsert_into(n: usize) -> (r: Option<String>)
        ensures
            r is Some <==> buildable(9, n as nat),
            r is Some ==> r->0@ == upsert_text(
                "cryptocurrencies"@,
                cryptocurrency_columns(),
                n as nat,
                "id"@,
            ),
    {
        let cols: [&'static str; 9] = CRYPTOCURRENCY_COLS;
        proof {
            assert(views(cols@) =~= cryptocurrency_columns());
        }
        upsert_into("cryptocurrencies", cols.as_slice(), n, cols[0])
    }

    /// The number of entries that one statement may carry.
    pub fn chunk_size() -> (r: usize)
        ensures
            r == 3640,
            r == MAX_PARAMS / 9,
    {
        MAX_PARAMS / CRYPTOCURRENCY_COLS.len()
    }

    /// The steps that write `rows` entries.
    pub fn upsert_plan(rows: usize) -> (r: Vec<Step>)
        ensures
            step_views(r@) == batch_steps(cryptocurrency_table(), rows as nat, 3640),
    {
        let cols: [&'static str; 9] = CRYPTOCURRENCY_COLS;
        proof {
            assert(views(cols@) =~= cryptocurrency_columns());
        }
        match plan("cryptocurrencies", cols.as_slice(), cols[0], rows, MAX_PARAMS) {
            Ok(steps) => steps,
            Err(_) => {
                assert(false);
                Vec::new()
            },
        }
    }
}

impl Platform {
    /// The values that the platform binds for its own columns under the
    /// key `id` of the entry that names it.
    pub fn sql_vals<'a>(&'a self, id: &'a i32) -> (r: SqlVals<'a>)
        ensures
            bound_views(r@) == seq![
                Bound::Int(*id),
                Bound::Int(self.id),
                Bound::Text(self.token_address@),
            ],
    {
        let mut vals: Vec<SqlValue<'a>> = Vec::new();
        vals.push(SqlValue::Int(*id));
        vals.push(SqlValue::Int(self.id));
        vals.push(SqlValue::Text(self.token_address.as_str()));
        proof {
            assert(bound_views(vals@) =~= seq![
                Bound::Int(*id),
                Bound::Int(self.id),
                Bound::Text(self.token_address@),
            ]);
        }
        vals
    }

    /// The upsert of `n` platform rows, keyed by the first column.
    pub fn upsert_into(n: usize) -> (r: Option<String>)
        ensures
            r is Some <==> buildable(4, n as nat),
            r is Some ==> r->0@ == upsert_text(
                "cryptocurrency_platforms"@,
                platform_columns(),
                n as nat,
                "id"@,
            ),
    {
        let cols: [&'static str; 4] = PLATFORM_COLS;
        proof {
            assert(views(cols@) =~= platform_columns());
        }
        upsert_into("cryptocurrency_platforms", cols.as_slice(), n, cols[0])
    }

    /// The number of platform rows that one statement may carry.
    pub fn chunk_size() -> (r: usize)
        ensures
            r == 8191,
            r == MAX_PARAMS / 4,
    {
        MAX_PARAMS / PLATFORM_COLS.len()
    }

    /// The steps that write `rows` platform rows.
    pub fn upsert_plan(rows: usize) -> (r: Vec<Step>)
        ensures
            step_views(r@) == batch_steps(platform_table(), rows as nat, 8191),
    {
        let cols: [&'static str; 4] = PLATFORM_COLS;
        proof {
            assert(views(cols@) =~= platform_columns());
        }
        match plan("cryptocurrency_platforms", cols.as_slice(), cols[0], rows, MAX_PARAMS) {
            Ok(steps) => steps,
            Err(_) => {
                assert(false);
                Vec::new()
            },
        }
    }
}

/// The listing states that the map is asked for.
pub open spec fn listing_states() -> Seq<char> {
    join(seq!["active"@, "inactive"@, "untracked"@], ","@)
}

/// The additional fields that the map is asked for.
pub open spec fn auxiliary_fields() -> Seq<char> {
    join(
        seq![
            "platform"@,
            "first_historical_data"@,
            "last_historical_data"@,
            "is_active"@,
            "status"@,
        ],
        ","@,
    )
}

impl API {
    /// The request for the page of the map that begins with entry number
    /// `start`, counted from 1: entries of every listing state, with their
    /// platform, history and status.
    pub fn cryptocurrency_map(&self, start: usize) -> (r: Request)
        ensures
            r.url@ == self@ + "/cryptocurrency/map"@,
            query_views(r.query@) == seq![
                ("listing_status"@, listing_states()),
                ("aux"@, auxiliary_fields()),
                ("start"@, decimal(start as nat)),
            ],
    {
        let states: [&'static str; 3] = ["active", "inactive", "untracked"];
        let fields: [&'static str; 5] = [
            "platform",
            "first_historical_data",
            "last_historical_data",
            "is_active",
            "status",
        ];
        proof {
            assert(views(states@) =~= seq!["active"@, "inactive"@, "untracked"@]);
            assert(views(fields@) =~= seq![
                "platform"@,
                "first_historical_data"@,
                "last_historical_data"@,
                "is_active"@,
                "status"@,
            ]);
        }
        let mut query: Vec<(String, String)> = Vec::new();
        query.push((String::from_str("listing_status"), join_strs(states.as_slice(), ",")));
        query.push((String::from_str("aux"), join_strs(fields.as_slice(), ",")));
        query.push((String::from_str("start"), decimal_string(start as u64)));
        proof {
            assert(query_views(query@) =~= seq![
                ("listing_status"@, listing_states()),
                ("aux"@, auxiliary_fields()),
                ("start"@, decimal(start as nat)),
            ]);
        }
        Request { url: self.url("/cryptocurrency/map"), query: query }
    }
}

} // verus!
