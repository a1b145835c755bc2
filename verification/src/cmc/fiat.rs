//! The map of fiat currencies read record by record: each record becomes
//! one entry of the table of fiat currencies or of the table of metals.

use vstd::prelude::*;
use crate::cmc::enums::MetalUnit;
use crate::cmc::fiats::{FiatMetalView, Metal, MetalView};
use crate::cmc::{query_views, Request, API};
use crate::cmc::fiats::bool_text;
use crate::row::{bound_views, Bound, Row, SqlVals, SqlValue};

verus! {

/// One record of the feed. A metal has a code; any other record is a fiat
/// currency, with or without a sign.
#[derive(Clone, Debug, PartialEq, Eq)]
pub struct Fiat {
    pub id: i32,
    pub name: String,
    pub sign: Option<String>,
    pub symbol: String,
    pub code: Option<String>,
}

/// What is stored for one record.
#[derive(Clone, Debug, PartialEq, Eq)]
pub enum Entry {
    /// An entry of the table of fiat currencies.
    Fiat { id: i32, name: String, sign: Option<String>, symbol: String },
    /// An entry of the table of metals.
    Metal(Metal),
}

/// What an entry holds.
pub enum EntryView {
    Fiat { id: i32, name: Seq<char>, sign: Option<Seq<char>>, symbol: Seq<char> },
    Metal(MetalView),
}

impl View for Fiat {
    type V = FiatMetalView;

    open spec fn view(&self) -> FiatMetalView {
        FiatMetalView {
            id: self.id,
            name: self.name@,
            symbol: self.symbol@,
            sign: match self.sign {
                Some(sign) => Some(sign@),
                None => None,
            },
            code: match self.code {
                Some(code) => Some(code@),
                None => None,
            },
        }
    }
}

impl View for Entry {
    type V = EntryView;

    open spec fn view(&self) -> EntryView {
        match *self {
            Entry::Fiat { id, name, sign, symbol } => EntryView::Fiat {
                id: id,
                name: name@,
                sign: match sign {
                    Some(sign) => Some(sign@),
                    None => None,
                },
                symbol: symbol@,
            },
            Entry::Metal(metal) => EntryView::Metal(metal@),
        }
    }
}

/// The entry of a record: that of a metal where the record has a code,
/// with the unit read off the end of the name and taken away from it; that
/// of a fiat currency otherwise.
pub open spec fn entry_of(record: FiatMetalView) -> EntryView {
    match record.as_metal() {
        Some(metal) => EntryView::Metal(metal),
        None => EntryView::Fiat {
            id: record.id,
            name: record.name,
            sign: record.sign,
            symbol: record.symbol,
        },
    }
}

impl Fiat {
    /// The entry that is stored for the record.
    pub fn entry(self) -> (r: Entry)
        ensures
            r@ == entry_of(self@),
    {
        match self.code {
            Some(code) => Self::metal_entry(self.id, self.name, code),
            None => Entry::Fiat {
                id: self.id,
                name: self.name,
                sign: self.sign,
                symbol: self.symbol,
            },
        }
    }

    fn metal_entry(id: i32, name: String, code: String) -> (r: Entry)
        ensures
            Some(r@) == match (FiatMetalView {
                id: id,
                name: name@,
                symbol: Seq::empty(),
                sign: None,
                code: Some(code@),
            }).as_metal() {
                Some(metal) => Some(EntryView::Metal(metal)),
                None => None,
            },
    {
        let unit: Option<MetalUnit> = MetalUnit::from_suffix(name.as_str());
        let trimmed: String = match &unit {
            Some(unit) => unit.trim_suffix(name.as_str()),
            None => name,
        };
        Entry::Metal(Metal { id: id, name: trimmed, code: code, unit: unit })
    }
}

impl Entry {
    /// The name of the table that the entry belongs to.
    pub open spec fn table_name(self) -> Seq<char> {
        match self {
            Entry::Fiat { .. } => "fiats"@,
            Entry::Metal(_) => "metals"@,
        }
    }

    /// The name of the table that the entry belongs to.
    pub fn table(&self) -> (r: &'static str)
        ensures
            r@ == self.table_name(),
    {
        match self {
            Entry::Fiat { .. } => "fiats",
            Entry::Metal(_) => "metals",
        }
    }
}

impl Row for Entry {
    open spec fn columns(&self) -> Seq<Bound> {
        match *self {
            Entry::Fiat { id, name, sign, symbol } => seq![
                Bound::Int(id),
                Bound::Text(name@),
                Bound::OptText(
                    match sign {
                        Some(sign) => Some(sign@),
                        None => None,
                    },
                ),
                Bound::Text(symbol@),
            ],
            Entry::Metal(metal) => metal.columns(),
        }
    }

    fn sql_vals(&self) -> (r: SqlVals<'_>) {
        match self {
            Entry::Fiat { id, name, sign, symbol } => {
                let shown: Option<&str> = match sign {
                    Some(sign) => Some(sign.as_str()),
                    None => None,
                };
                let mut vals: Vec<SqlValue<'_>> = Vec::new();
                vals.push(SqlValue::Int(*id));
                vals.push(SqlValue::Text(name.as_str()));
                vals.push(SqlValue::OptText(shown));
                vals.push(SqlValue::Text(symbol.as_str()));
                proof {
                    assert(bound_views(vals@) =~= self.columns());
                }
                vals
            },
            Entry::Metal(metal) => metal.sql_vals(),
        }
    }
}

impl API {
    /// The request for the map of fiat currencies in its first version,
    /// with or without the precious metals.
    pub fn fiat_map_v1(&self, metals: bool) -> (r: Request)
        ensures
            r.url@ == self@ + "/v1/fiat/map"@,
            query_views(r.query@) == seq![("include_metals"@, bool_text(metals))],
    {
        let value: &str = if metals {
            "true"
        } else {
            "false"
        };
        let mut query: Vec<(String, String)> = Vec::new();
        query.push((String::from_str("include_metals"), String::from_str(value)));
        proof {
            assert(query_views(query@) =~= seq![("include_metals"@, bool_text(metals))]);
        }
        Request { url: self.url("/v1/fiat/map"), query: query }
    }
}

} // verus!
