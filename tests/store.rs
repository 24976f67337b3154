use kalshi_mdp::messages::{Delta, MarketDataSubMessage, Side, Snapshot, Trade};
use kalshi_mdp::store::{
    merge_delta_record, plan_write, read_snapshot_record, snapshot_record, StoreAction, StoreError,
};

fn snapshot_x() -> Snapshot {
    Snapshot {
        market_ticker: "X".to_string(),
        ts: Some(1),
        yes: vec![(50, 10)],
        no: vec![(40, 5)],
    }
}

fn put_record(action: StoreAction) -> (String, Vec<(String, String)>) {
    match action {
        StoreAction::Put { key, record } => (key, record),
        other => panic!("expected a put, got {:?}", other),
    }
}

#[test]
fn record_holds_one_field_per_member() {
    let rec = snapshot_record(&snapshot_x());
    let names: Vec<&str> = rec.iter().map(|(k, _)| k.as_str()).collect();
    assert_eq!(names, vec!["market_ticker", "ts", "yes", "no"]);
    assert_eq!(rec[0].1, "\"X\"");
    assert_eq!(rec[1].1, "1");
    assert_eq!(rec[2].1, "[[50,10]]");
    assert_eq!(rec[3].1, "[[40,5]]");
}

#[test]
fn put_then_get_gives_the_snapshot_stamped_at_the_write() {
    let (key, rec) = put_record(plan_write(MarketDataSubMessage::Snapshot(snapshot_x()), 1234));
    assert_eq!(key, "X");
    let s = read_snapshot_record(&rec).unwrap();
    assert_eq!(s.market_ticker, "X");
    assert_eq!(s.ts, Some(1234));
    assert_eq!(s.yes, vec![(50, 10)]);
    assert_eq!(s.no, vec![(40, 5)]);
}

#[test]
fn empty_record_is_not_found() {
    assert_eq!(read_snapshot_record(&vec![]).unwrap_err(), StoreError::NotFound);
}

#[test]
fn garbage_record_is_malformed() {
    let rec = vec![("market_ticker".to_string(), "not json".to_string())];
    assert_eq!(read_snapshot_record(&rec).unwrap_err(), StoreError::Malformed);
    let rec = vec![("market_ticker".to_string(), "\"X\"".to_string())];
    assert_eq!(read_snapshot_record(&rec).unwrap_err(), StoreError::Malformed);
}

#[test]
fn merge_applies_delta_and_stamps_the_write() {
    let rec = snapshot_record(&snapshot_x());
    let d = Delta { market_ticker: "X".to_string(), ts: None, price: 50, delta: -3, side: Side::YES };
    let (key, out) = merge_delta_record(&rec, d, 99).unwrap();
    assert_eq!(key, "X");
    let s = read_snapshot_record(&out).unwrap();
    assert_eq!(s.yes, vec![(50, 7)]);
    assert_eq!(s.no, vec![(40, 5)]);
    assert_eq!(s.ts, Some(99));
}

#[test]
fn merge_without_snapshot_is_not_found() {
    let d = Delta { market_ticker: "X".to_string(), ts: None, price: 50, delta: 1, side: Side::NO };
    assert_eq!(merge_delta_record(&vec![], d, 1).unwrap_err(), StoreError::NotFound);
}

#[test]
fn merge_past_i32_is_overflow() {
    let s = Snapshot { market_ticker: "X".to_string(), ts: None, yes: vec![(1, i32::MAX)], no: vec![] };
    let rec = snapshot_record(&s);
    let d = Delta { market_ticker: "X".to_string(), ts: None, price: 1, delta: 1, side: Side::YES };
    assert_eq!(merge_delta_record(&rec, d, 1).unwrap_err(), StoreError::Overflow);
}

#[test]
fn delta_and_trade_are_stamped() {
    let d = Delta { market_ticker: "X".to_string(), ts: None, price: 50, delta: 1, side: Side::NO };
    match plan_write(MarketDataSubMessage::Delta(d), 5) {
        StoreAction::Merge(d) => assert_eq!(d.ts, Some(5)),
        other => panic!("expected a merge, got {:?}", other),
    }
    let t = Trade {
        market_ticker: "X".to_string(),
        ts: None,
        yes_price: 36,
        no_price: 64,
        count: 1,
        taker_side: Side::YES,
    };
    match plan_write(MarketDataSubMessage::Trade(t), 6) {
        StoreAction::LogTrade(t) => assert_eq!(t.ts, Some(6)),
        other => panic!("expected a trade log, got {:?}", other),
    }
}
