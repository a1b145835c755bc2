use std::collections::HashMap;

use trdr::args::Args;
use trdr::batch::{chunk_size, plan, Step};
use trdr::cmc::cryptocurrencies::{Cryptocurrency, Platform};
use trdr::cmc::fiats::{Fiat, Metal};
use trdr::cmc::status::Status;
use trdr::error::Error;
use trdr::pager::{start, step, Action, Event, State};
use trdr::row::{bind, SqlValue};
use trdr::sql::{upsert_into, Timestamp};

fn ok_status() -> Status {
    Status {
        error_code: 0,
        error_message: None,
        credit_count: 1,
        timestamp: Timestamp { seconds: 0, nanos: 0 },
        elapsed: 3,
        notice: None,
    }
}

fn page(len: Option<usize>) -> Event {
    Event::Page { status: ok_status(), len }
}

fn sizes(steps: &[Step]) -> Vec<usize> {
    let mut out = Vec::new();
    for s in steps {
        if let Step::Execute { len, .. } = s {
            out.push(*len);
        }
    }
    out
}

fn prepares(steps: &[Step]) -> usize {
    steps.iter().filter(|s| matches!(s, Step::Prepare { .. })).count()
}

#[test]
fn chunk_size_is_the_floor() {
    assert_eq!(chunk_size(10, 3), 3);
    assert_eq!(chunk_size(32767, 9), 3640);
    assert_eq!(chunk_size(32767, 5), 6553);
    assert_eq!(chunk_size(2, 3), 0);
    assert_eq!(Cryptocurrency::chunk_size(), 3640);
    assert_eq!(Platform::chunk_size(), 8191);
    assert_eq!(Fiat::chunk_size(), 6553);
    assert_eq!(Metal::chunk_size(), 6553);
}

#[test]
fn seven_rows_in_chunks_of_three() {
    let cols = ["id", "name", "last_update"];
    let steps = plan("t", &cols, "id", 7, 10).unwrap();
    assert_eq!(
        steps,
        vec![
            Step::Prepare { rows: 3, text: upsert_into("t", &cols, 3, "id").unwrap() },
            Step::Execute { start: 0, len: 3 },
            Step::Execute { start: 3, len: 3 },
            Step::Prepare { rows: 1, text: upsert_into("t", &cols, 1, "id").unwrap() },
            Step::Execute { start: 6, len: 1 },
        ]
    );
    assert_eq!(sizes(&steps), vec![3, 3, 1]);
    assert_eq!(prepares(&steps), 2);
}

#[test]
fn full_chunks_prepare_once() {
    let cols = ["id", "name", "last_update"];
    let steps = plan("t", &cols, "id", 9, 10).unwrap();
    assert_eq!(sizes(&steps), vec![3, 3, 3]);
    assert_eq!(prepares(&steps), 1);
}

#[test]
fn few_rows_make_one_chunk() {
    let cols = ["id", "name", "last_update"];
    let steps = plan("t", &cols, "id", 2, 10).unwrap();
    assert_eq!(
        steps,
        vec![
            Step::Prepare { rows: 2, text: upsert_into("t", &cols, 2, "id").unwrap() },
            Step::Execute { start: 0, len: 2 },
        ]
    );
}

#[test]
fn no_rows_no_steps() {
    let cols = ["id", "name", "last_update"];
    assert_eq!(plan("t", &cols, "id", 0, 10), Ok(Vec::new()));
    assert!(Fiat::upsert_plan(0).is_empty());
}

#[test]
fn rows_wider_than_the_limit() {
    let cols = ["id", "name", "last_update"];
    assert_eq!(
        plan("t", &cols, "id", 4, 2),
        Err(Error::Error("no row fits the parameter limit".to_string()))
    );
    assert_eq!(
        plan("t", &[], "id", 4, 10),
        Err(Error::Error("no row fits the parameter limit".to_string()))
    );
}

#[test]
fn chunks_cover_every_row_once() {
    for rows in 0..40usize {
        for max in 3..12usize {
            let steps = plan("t", &["a", "b", "c"], "a", rows, max).unwrap();
            let size = max / 3;
            let mut expected_start = 0;
            let mut prepared: Option<usize> = None;
            for s in &steps {
                match s {
                    Step::Prepare { rows: n, .. } => {
                        assert_ne!(prepared, Some(*n));
                        prepared = Some(*n);
                    }
                    Step::Execute { start, len } => {
                        assert_eq!(*start, expected_start);
                        assert!(*len >= 1 && *len <= size);
                        assert_eq!(prepared, Some(*len));
                        expected_start += len;
                    }
                }
            }
            assert_eq!(expected_start, rows);
            assert!(prepares(&steps) <= 2);
        }
    }
}

#[test]
fn table_plans() {
    let steps = Cryptocurrency::upsert_plan(3641);
    assert_eq!(sizes(&steps), vec![3640, 1]);
    assert_eq!(prepares(&steps), 2);
    assert_eq!(
        steps[0],
        Step::Prepare { rows: 3640, text: Cryptocurrency::upsert_into(3640).unwrap() }
    );
    let steps = Platform::upsert_plan(2);
    assert_eq!(
        steps,
        vec![
            Step::Prepare {
                rows: 2,
                text: "INSERT INTO cryptocurrency_platforms (id, platform, token_address, last_update) \
                       VALUES ($1, $2, $3, $4), ($5, $6, $7, $8) ON CONFLICT (id) DO UPDATE SET \
                       platform = excluded.platform, token_address = excluded.token_address, \
                       last_update = excluded.last_update"
                    .to_string(),
            },
            Step::Execute { start: 0, len: 2 },
        ]
    );
    let steps = Metal::upsert_plan(1);
    assert_eq!(steps[0], Step::Prepare { rows: 1, text: Metal::upsert_into(1).unwrap() });
    assert!(Cryptocurrency::upsert_into(1)
        .unwrap()
        .starts_with("INSERT INTO cryptocurrencies (id, name, symbol, slug, is_active, status, first_historical_data, last_historical_data, last_update) VALUES ($1, "));
}

fn deliver<'a>(table: &mut HashMap<i32, Vec<SqlValue<'a>>>, rows: &'a [Fiat]) {
    let vals = bind(rows, 8);
    for row in vals.chunks(5) {
        if let SqlValue::Int(key) = row[0] {
            table.insert(key, row.to_vec());
        }
    }
}

#[test]
fn second_delivery_changes_nothing() {
    let rows = vec![
        Fiat { id: 1, name: "Euro".to_string(), sign: "E".to_string(), symbol: "EUR".to_string() },
        Fiat { id: 2, name: "Dollar".to_string(), sign: "$".to_string(), symbol: "USD".to_string() },
        Fiat { id: 1, name: "Euro again".to_string(), sign: "E".to_string(), symbol: "EUR".to_string() },
    ];
    let mut table: HashMap<i32, Vec<SqlValue>> = HashMap::new();
    table.insert(2, vec![SqlValue::Int(2), SqlValue::Text("old"), SqlValue::Int(1)]);
    table.insert(5, vec![SqlValue::Int(5), SqlValue::Text("kept"), SqlValue::Int(1)]);
    deliver(&mut table, &rows);
    let once = table.clone();
    deliver(&mut table, &rows);
    assert_eq!(table, once);
    assert_eq!(once[&1][1], SqlValue::Text("Euro again"));
    assert_eq!(once[&5][1], SqlValue::Text("kept"));
    assert_eq!(once.len(), 3);
}

#[test]
fn two_pages_and_an_empty_one() {
    let limit = usize::MAX;
    let mut state = start(limit);
    let mut fetch_calls = 0;
    let mut pages = vec![100usize, 100, 0].into_iter();
    let mut action = state.action();
    let mut starts = Vec::new();
    loop {
        match action {
            Action::Fetch { start } => {
                fetch_calls += 1;
                starts.push(start);
                let len = pages.next().unwrap();
                let (s, a) = step(state, page(Some(len)), limit);
                state = s;
                action = a;
            }
            Action::Write { len } => {
                assert_eq!(len, 100);
                let (s, a) = step(state, Event::Written, limit);
                state = s;
                action = a;
            }
            Action::Stop => break,
        }
    }
    assert_eq!(fetch_calls, 3);
    assert_eq!(starts, vec![1, 101, 201]);
    assert_eq!(state, State::Done { total: 200, fetches: 3 });
    assert_eq!(state.finish(), Some(Ok(200)));
}

#[test]
fn first_page_is_asked_at_one() {
    let state = start(10);
    assert_eq!(state, State::Fetching { offset: 1, total: 0, fetches: 1 });
    assert_eq!(state.action(), Action::Fetch { start: 1 });
    assert_eq!(state.finish(), None);
}

#[test]
fn absent_data_ends_the_run() {
    let (state, action) = step(start(10), page(None), 10);
    assert_eq!(state, State::Done { total: 0, fetches: 1 });
    assert_eq!(action, Action::Stop);
}

#[test]
fn remote_error_stops_before_any_write() {
    let (state, _) = step(start(10), page(Some(50)), 10);
    let (state, action) = step(state, Event::Written, 10);
    assert_eq!(action, Action::Fetch { start: 51 });
    let bad = Event::Page {
        status: Status {
            error_code: 1008,
            error_message: Some("Too many requests.".to_string()),
            credit_count: 0,
            timestamp: Timestamp { seconds: 0, nanos: 0 },
            elapsed: 0,
            notice: None,
        },
        len: Some(50),
    };
    let (state, action) = step(state, bad, 10);
    assert_eq!(action, Action::Stop);
    assert_eq!(
        state,
        State::Failed {
            error: Error::Error("Too many requests. [code: 1008]".to_string()),
            total: 50,
            fetches: 2,
        }
    );
    assert_eq!(
        state.finish(),
        Some(Err((Error::Error("Too many requests. [code: 1008]".to_string()), 50)))
    );
}

#[test]
fn transport_failure_stops_the_run() {
    let (state, action) = step(start(10), Event::Failure(Error::RqError("refused".to_string())), 10);
    assert_eq!(action, Action::Stop);
    assert_eq!(
        state,
        State::Failed { error: Error::RqError("refused".to_string()), total: 0, fetches: 1 }
    );
}

#[test]
fn store_failure_keeps_the_earlier_count() {
    let (state, _) = step(start(10), page(Some(30)), 10);
    let (state, _) = step(state, Event::Written, 10);
    let (state, action) = step(state, page(Some(30)), 10);
    assert_eq!(action, Action::Write { len: 30 });
    let (state, action) = step(state, Event::Failure(Error::PgError("deadlock".to_string())), 10);
    assert_eq!(action, Action::Stop);
    assert_eq!(
        state,
        State::Failed { error: Error::PgError("deadlock".to_string()), total: 30, fetches: 2 }
    );
}

#[test]
fn page_limit() {
    let (state, _) = step(start(2), page(Some(5)), 2);
    let (state, action) = step(state, Event::Written, 2);
    assert_eq!(action, Action::Fetch { start: 6 });
    let (state, _) = step(state, page(Some(5)), 2);
    let (state, action) = step(state, Event::Written, 2);
    assert_eq!(action, Action::Stop);
    assert_eq!(
        state,
        State::Failed { error: Error::RqError("page limit reached".to_string()), total: 10, fetches: 2 }
    );
    assert_eq!(
        start(0),
        State::Failed { error: Error::RqError("page limit reached".to_string()), total: 0, fetches: 0 }
    );
}

#[test]
fn count_out_of_range() {
    let state = State::Writing { offset: usize::MAX, total: usize::MAX - 1, fetches: 1, len: 1 };
    let (state, action) = step(state, Event::Written, 10);
    assert_eq!(action, Action::Stop);
    assert_eq!(
        state,
        State::Failed {
            error: Error::Error("record count out of range".to_string()),
            total: usize::MAX - 1,
            fetches: 1,
        }
    );
}

#[test]
fn events_out_of_turn_change_nothing() {
    let (state, action) = step(start(10), Event::Written, 10);
    assert_eq!(state, start(10));
    assert_eq!(action, Action::Fetch { start: 1 });
    let writing = State::Writing { offset: 1, total: 0, fetches: 1, len: 4 };
    let (state, action) = step(writing.clone(), page(Some(9)), 10);
    assert_eq!(state, writing);
    assert_eq!(action, Action::Write { len: 4 });
    let done = State::Done { total: 4, fetches: 2 };
    let (state, action) = step(done.clone(), page(Some(9)), 10);
    assert_eq!(state, done);
    assert_eq!(action, Action::Stop);
}

fn args(user: &str, pass: &str) -> Args {
    Args {
        api: "http://127.0.0.1:1100".to_string(),
        db_host: "/var/run/postgresql".to_string(),
        db_name: "markets".to_string(),
        db_user: user.to_string(),
        db_pass: pass.to_string(),
    }
}

#[test]
fn catalogue_behind_the_proxy() {
    assert_eq!(args("", "").cmc_api().endpoint(), "http://127.0.0.1:1100/cmc");
}

#[test]
fn connection_text() {
    assert_eq!(
        args("trader", "secret").db_config(Some("login")),
        "host=/var/run/postgresql dbname=markets user=trader password=secret"
    );
    assert_eq!(
        args("", "").db_config(Some("login")),
        "host=/var/run/postgresql dbname=markets user=login"
    );
    assert_eq!(args("", "").db_config(None), "host=/var/run/postgresql dbname=markets user=");
    assert_eq!(
        args("", "p ").db_config(None),
        "host=/var/run/postgresql dbname=markets user= password=p"
    );
}
