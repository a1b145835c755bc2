use trdr::cmc::cryptocurrencies::{parse_bool, platform_rows, Cryptocurrency, Platform, PlatformRow};
use trdr::cmc::enums::{MetalUnit, TrackingStatus, Unit};
use trdr::cmc::fiat;
use trdr::cmc::fiats::{classify, sort_response, Fiat, FiatMetal, Metal};
use trdr::cmc::status::Status;
use trdr::cmc::{Response, API};
use trdr::error::Error;
use trdr::row::{bind, Row, SqlValue};
use trdr::sql::Timestamp;

fn record(id: i32, name: &str, symbol: &str, sign: Option<&str>, code: Option<&str>) -> FiatMetal {
    FiatMetal {
        id,
        name: name.to_string(),
        symbol: symbol.to_string(),
        sign: sign.map(|s| s.to_string()),
        code: code.map(|s| s.to_string()),
    }
}

fn status(code: i32, message: Option<&str>) -> Status {
    Status {
        error_code: code,
        error_message: message.map(|s| s.to_string()),
        credit_count: 1,
        timestamp: Timestamp { seconds: 1_700_000_000, nanos: 5 },
        elapsed: 12,
        notice: None,
    }
}

fn coin(id: i32, platform: Option<Platform>) -> Cryptocurrency {
    Cryptocurrency {
        id,
        name: format!("Coin {}", id),
        symbol: format!("C{}", id),
        slug: format!("coin-{}", id),
        is_active: true,
        status: TrackingStatus::new("Active"),
        first_historical_data: Some(Timestamp { seconds: 10, nanos: 0 }),
        last_historical_data: None,
        platform,
    }
}

#[test]
fn troy_ounce_is_found_before_ounce() {
    let unit = MetalUnit::from_suffix("Gold Troy Ounce").unwrap();
    assert_eq!(unit, MetalUnit(Unit::TroyOunce));
    assert_eq!(unit.as_str(), "troy_ounce");
    assert_eq!(unit.trim_suffix("Gold Troy Ounce"), "Gold");
}

#[test]
fn ounce_alone() {
    let unit = MetalUnit::from_suffix("Gold Ounce").unwrap();
    assert_eq!(unit, MetalUnit(Unit::Ounce));
    assert_eq!(unit.as_str(), "ounce");
    assert_eq!(unit.trim_suffix("Gold Ounce"), "Gold");
}

#[test]
fn no_suffix_no_unit() {
    assert_eq!(MetalUnit::from_suffix("Gold"), None);
    assert_eq!(MetalUnit::from_suffix(""), None);
    assert_eq!(MetalUnit::from_suffix("Ounces of gold"), None);
}

#[test]
fn suffix_in_any_case() {
    let unit = MetalUnit::from_suffix("SILVER TROY OUNCE").unwrap();
    assert_eq!(unit, MetalUnit(Unit::TroyOunce));
    assert_eq!(unit.trim_suffix("SILVER TROY OUNCE"), "SILVER");
    let unit = MetalUnit::from_suffix("silver oUnCe").unwrap();
    assert_eq!(unit, MetalUnit(Unit::Ounce));
    assert_eq!(unit.trim_suffix("silver oUnCe"), "silver");
}

#[test]
fn unit_from_a_lowered_name() {
    assert_eq!(MetalUnit::from_lowered("gold troy ounce"), Some(MetalUnit(Unit::TroyOunce)));
    assert_eq!(MetalUnit::from_lowered("gold ounce"), Some(MetalUnit(Unit::Ounce)));
    assert_eq!(MetalUnit::from_lowered("Gold Ounce"), None);
    assert_eq!(MetalUnit::from_lowered("ounce"), Some(MetalUnit(Unit::Ounce)));
}

#[test]
fn trimming_leaves_other_names_alone() {
    let troy = MetalUnit(Unit::TroyOunce);
    let ounce = MetalUnit(Unit::Ounce);
    assert_eq!(troy.trim_suffix("Gold Ounce"), "Gold Ounce");
    assert_eq!(troy.trim_suffix("Gold"), "Gold");
    assert_eq!(ounce.trim_suffix("Gold Troy Ounce"), "Gold Troy");
    assert_eq!(ounce.trim_suffix("ounce"), "");
    assert_eq!(troy.trim_suffix("Gold troy_ounce"), "Gold");
    assert_eq!(ounce.trim_suffix("  Padded   Ounce"), "Padded");
}

#[test]
fn trimming_a_name_with_wide_characters() {
    let ounce = MetalUnit(Unit::Ounce);
    assert_eq!(ounce.trim_suffix("\u{20ac}abcd"), "\u{20ac}abcd");
    assert_eq!(ounce.trim_suffix("\u{20ac}uro Ounce"), "\u{20ac}uro");
    assert_eq!(ounce.trim_suffix("Or \u{e9}unce"), "Or \u{e9}unce");
}

#[test]
fn tracking_status_is_lowered() {
    assert_eq!(TrackingStatus::new("ACTIVE").as_str(), "active");
    assert_eq!(TrackingStatus::new("Untracked").as_str(), "untracked");
    assert_eq!(TrackingStatus::new("inactive").as_str(), "inactive");
}

#[test]
fn fiat_or_metal() {
    assert!(record(1, "Euro", "EUR", Some("\u{20ac}"), None).is_fiat());
    assert!(!record(2, "Gold Troy Ounce", "", None, Some("XAU")).is_fiat());
    assert!(!record(3, "Both", "B", Some("b"), Some("XB")).is_fiat());
    assert!(!record(4, "Neither", "N", None, None).is_fiat());
}

#[test]
fn record_as_fiat() {
    let fiat = record(1, "Euro", "EUR", Some("\u{20ac}"), None).as_fiat();
    assert_eq!(
        fiat,
        Some(Fiat { id: 1, name: "Euro".to_string(), sign: "\u{20ac}".to_string(), symbol: "EUR".to_string() })
    );
    assert_eq!(record(4, "Neither", "N", None, None).as_fiat(), None);
}

#[test]
fn record_as_metal() {
    let metal = record(2, "Gold Troy Ounce", "", None, Some("XAU")).as_metal();
    assert_eq!(
        metal,
        Some(Metal {
            id: 2,
            name: "Gold".to_string(),
            code: "XAU".to_string(),
            unit: Some(MetalUnit(Unit::TroyOunce)),
        })
    );
    let plain = record(5, "Palladium", "", None, Some("XPD")).as_metal();
    assert_eq!(
        plain,
        Some(Metal { id: 5, name: "Palladium".to_string(), code: "XPD".to_string(), unit: None })
    );
    assert_eq!(record(1, "Euro", "EUR", Some("\u{20ac}"), None).as_metal(), None);
}

#[test]
fn page_is_split_in_order() {
    let page = vec![
        record(1, "Euro", "EUR", Some("\u{20ac}"), None),
        record(2, "Gold Troy Ounce", "", None, Some("XAU")),
        record(3, "Nothing", "", None, None),
        record(4, "Dollar", "USD", Some("$"), None),
        record(5, "Silver Ounce", "XS", Some("s"), Some("XAG")),
    ];
    let (fiats, metals) = classify(page);
    assert_eq!(
        fiats,
        vec![
            Fiat { id: 1, name: "Euro".to_string(), sign: "\u{20ac}".to_string(), symbol: "EUR".to_string() },
            Fiat { id: 4, name: "Dollar".to_string(), sign: "$".to_string(), symbol: "USD".to_string() },
        ]
    );
    assert_eq!(
        metals,
        vec![
            Metal { id: 2, name: "Gold".to_string(), code: "XAU".to_string(), unit: Some(MetalUnit(Unit::TroyOunce)) },
            Metal { id: 5, name: "Silver".to_string(), code: "XAG".to_string(), unit: Some(MetalUnit(Unit::Ounce)) },
        ]
    );
}

#[test]
fn empty_page_gives_no_rows() {
    let (fiats, metals) = classify(Vec::new());
    assert!(fiats.is_empty());
    assert!(metals.is_empty());
}

#[test]
fn one_fiat_and_one_metal_under_one_call() {
    let page = vec![
        record(1, "Euro", "EUR", Some("\u{20ac}"), None),
        record(2, "Gold Troy Ounce", "", None, Some("XAU")),
    ];
    let response = Response { status: status(0, None), data: Some(page) };
    let (fiats, metals) = sort_response(response).unwrap();
    assert_eq!(fiats.len(), 1);
    assert_eq!(metals.len(), 1);
    assert_eq!(fiats[0].id, 1);
    assert_eq!(fiats[0].symbol, "EUR");
    assert_eq!(metals[0].id, 2);
    assert_eq!(metals[0].name, "Gold");
    assert_eq!(metals[0].unit.unwrap().as_str(), "troy_ounce");
    assert_eq!(metals[0].code, "XAU");
    let update = 41;
    assert_eq!(
        bind(&fiats, update),
        vec![
            SqlValue::Int(1),
            SqlValue::Text("Euro"),
            SqlValue::Text("\u{20ac}"),
            SqlValue::Text("EUR"),
            SqlValue::Int(41),
        ]
    );
    assert_eq!(
        bind(&metals, update),
        vec![
            SqlValue::Int(2),
            SqlValue::Text("Gold"),
            SqlValue::Text("XAU"),
            SqlValue::Unit(Some(MetalUnit(Unit::TroyOunce))),
            SqlValue::Int(41),
        ]
    );
    assert_eq!(
        Fiat::upsert_into(fiats.len()).unwrap(),
        "INSERT INTO fiats (id, name, sign, symbol, last_update) VALUES ($1, $2, $3, $4, $5) \
         ON CONFLICT (id) DO UPDATE SET name = excluded.name, sign = excluded.sign, \
         symbol = excluded.symbol, last_update = excluded.last_update"
    );
    assert_eq!(
        Metal::upsert_into(metals.len()).unwrap(),
        "INSERT INTO metals (id, name, code, unit, last_update) VALUES ($1, $2, $3, $4, $5) \
         ON CONFLICT (id) DO UPDATE SET name = excluded.name, code = excluded.code, \
         unit = excluded.unit, last_update = excluded.last_update"
    );
}

#[test]
fn answer_with_an_error_is_refused() {
    let page = vec![record(1, "Euro", "EUR", Some("\u{20ac}"), None)];
    let response = Response { status: status(1002, Some("API key missing.")), data: Some(page) };
    assert_eq!(
        sort_response(response),
        Err(Error::Error("API key missing. [code: 1002]".to_string()))
    );
}

#[test]
fn answer_without_data_is_refused() {
    let response: Response<Vec<FiatMetal>> = Response { status: status(0, None), data: None };
    assert_eq!(
        sort_response(response),
        Err(Error::Error("response contains no data".to_string()))
    );
}

#[test]
fn status_check() {
    assert_eq!(status(0, None).check(), Ok(()));
    assert_eq!(status(0, Some("ignored")).check(), Ok(()));
    assert_eq!(status(500, None).check(), Err(Error::Error(" [code: 500]".to_string())));
    assert_eq!(
        status(-3, Some("odd")).check(),
        Err(Error::Error("odd [code: -3]".to_string()))
    );
}

#[test]
fn errors_carry_their_text() {
    assert_eq!(Error::new("plain".to_string()), Error::Error("plain".to_string()));
    assert_eq!(Error::new_with_code("bad", 400), Error::Error("bad [code: 400]".to_string()));
    assert_eq!(Error::new_with_code("bad", 400).message(), "bad [code: 400]");
    assert_eq!(Error::RqError("timeout".to_string()).message(), "timeout");
    assert_eq!(Error::PgError("duplicate".to_string()).message(), "duplicate");
}

#[test]
fn rows_bind_their_columns_then_the_call() {
    let fiats = vec![
        Fiat { id: 1, name: "Euro".to_string(), sign: "\u{20ac}".to_string(), symbol: "EUR".to_string() },
        Fiat { id: 4, name: "Dollar".to_string(), sign: "$".to_string(), symbol: "USD".to_string() },
    ];
    let vals = bind(&fiats, 9);
    assert_eq!(vals.len(), 10);
    assert_eq!(vals[4], SqlValue::Int(9));
    assert_eq!(vals[5], SqlValue::Int(4));
    assert_eq!(vals[9], SqlValue::Int(9));
    let none: Vec<Fiat> = Vec::new();
    assert!(bind(&none, 9).is_empty());
}

#[test]
fn cryptocurrency_columns_in_order() {
    let c = coin(7, None);
    assert_eq!(
        c.sql_vals(),
        vec![
            SqlValue::Int(7),
            SqlValue::Text("Coin 7"),
            SqlValue::Text("C7"),
            SqlValue::Text("coin-7"),
            SqlValue::Bool(true),
            SqlValue::Status(&TrackingStatus::new("active")),
            SqlValue::Time(Some(Timestamp { seconds: 10, nanos: 0 })),
            SqlValue::Time(None),
        ]
    );
}

#[test]
fn platforms_follow_their_parents() {
    let page = vec![
        coin(1, None),
        coin(2, Some(Platform { id: 1, token_address: "0xabc".to_string() })),
        coin(3, None),
        coin(4, Some(Platform { id: 2, token_address: "0xdef".to_string() })),
    ];
    let rows = platform_rows(&page);
    assert_eq!(rows.len(), 2);
    assert_eq!(rows[0], PlatformRow { id: 2, platform: page[1].platform.as_ref().unwrap() });
    assert_eq!(rows[1], PlatformRow { id: 4, platform: page[3].platform.as_ref().unwrap() });
    assert_eq!(
        bind(&rows, 77),
        vec![
            SqlValue::Int(2),
            SqlValue::Int(1),
            SqlValue::Text("0xabc"),
            SqlValue::Int(77),
            SqlValue::Int(4),
            SqlValue::Int(2),
            SqlValue::Text("0xdef"),
            SqlValue::Int(77),
        ]
    );
}

#[test]
fn platform_binds_under_its_parent() {
    let platform = Platform { id: 1027, token_address: "0x1".to_string() };
    let parent = 825;
    assert_eq!(
        platform.sql_vals(&parent),
        vec![SqlValue::Int(825), SqlValue::Int(1027), SqlValue::Text("0x1")]
    );
}

#[test]
fn numbers_as_truth_values() {
    assert!(!parse_bool(0));
    assert!(parse_bool(1));
    assert!(parse_bool(u32::MAX));
}

#[test]
fn requests() {
    let api = API::new("http://127.0.0.1:1100/cmc");
    assert_eq!(api.endpoint(), "http://127.0.0.1:1100/cmc");
    assert_eq!(api.url("/x"), "http://127.0.0.1:1100/cmc/x");
    let map = api.cryptocurrency_map(5001);
    assert_eq!(map.url, "http://127.0.0.1:1100/cmc/cryptocurrency/map");
    assert_eq!(
        map.query,
        vec![
            ("listing_status".to_string(), "active,inactive,untracked".to_string()),
            (
                "aux".to_string(),
                "platform,first_historical_data,last_historical_data,is_active,status".to_string()
            ),
            ("start".to_string(), "5001".to_string()),
        ]
    );
    let fiats = api.fiat_map(true);
    assert_eq!(fiats.url, "http://127.0.0.1:1100/cmc/fiat/map");
    assert_eq!(fiats.query, vec![("include_metals".to_string(), "true".to_string())]);
    let old = api.fiat_map_v1(false);
    assert_eq!(old.url, "http://127.0.0.1:1100/cmc/v1/fiat/map");
    assert_eq!(old.query, vec![("include_metals".to_string(), "false".to_string())]);
}

#[test]
fn record_by_record() {
    let euro = fiat::Fiat {
        id: 1,
        name: "Euro".to_string(),
        sign: Some("\u{20ac}".to_string()),
        symbol: "EUR".to_string(),
        code: None,
    };
    let entry = euro.entry();
    assert_eq!(entry.table(), "fiats");
    assert_eq!(
        entry.sql_vals(),
        vec![
            SqlValue::Int(1),
            SqlValue::Text("Euro"),
            SqlValue::OptText(Some("\u{20ac}")),
            SqlValue::Text("EUR"),
        ]
    );
    let unsigned = fiat::Fiat {
        id: 3,
        name: "Unit".to_string(),
        sign: None,
        symbol: "UNT".to_string(),
        code: None,
    };
    assert_eq!(
        unsigned.entry(),
        fiat::Entry::Fiat { id: 3, name: "Unit".to_string(), sign: None, symbol: "UNT".to_string() }
    );
    let gold = fiat::Fiat {
        id: 2,
        name: "Gold Troy Ounce".to_string(),
        sign: None,
        symbol: "".to_string(),
        code: Some("XAU".to_string()),
    };
    let entry = gold.entry();
    assert_eq!(entry.table(), "metals");
    assert_eq!(
        entry,
        fiat::Entry::Metal(Metal {
            id: 2,
            name: "Gold".to_string(),
            code: "XAU".to_string(),
            unit: Some(MetalUnit(Unit::TroyOunce)),
        })
    );
}

#[test]
fn strict_reading_refuses_a_record_of_no_kind() {
    let page = vec![
        record(1, "Euro", "EUR", Some("\u{20ac}"), None),
        record(-3, "Nothing", "", None, None),
        record(9, "Nothing else", "", None, None),
    ];
    assert_eq!(
        trdr::cmc::fiats::check_shapes(&page),
        Err(Error::Error("neither fiat currency nor metal: record -3".to_string()))
    );
    assert_eq!(
        trdr::cmc::fiats::classify_strictly(page),
        Err(Error::Error("neither fiat currency nor metal: record -3".to_string()))
    );
}

#[test]
fn strict_reading_of_a_clean_page() {
    let page = vec![
        record(1, "Euro", "EUR", Some("\u{20ac}"), None),
        record(2, "Gold Ounce", "", None, Some("XAU")),
    ];
    assert_eq!(trdr::cmc::fiats::check_shapes(&page), Ok(()));
    let (fiats, metals) = trdr::cmc::fiats::classify_strictly(page).unwrap();
    assert_eq!(fiats.len(), 1);
    assert_eq!(metals.len(), 1);
    assert_eq!(metals[0].name, "Gold");
    assert_eq!(metals[0].unit, Some(MetalUnit(Unit::Ounce)));
    assert_eq!(trdr::cmc::fiats::check_shapes(&[]), Ok(()));
}
