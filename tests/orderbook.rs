use kalshi_mdp::messages::{Delta, Side, Snapshot};

fn snapshot_x() -> Snapshot {
    Snapshot {
        market_ticker: "X".to_string(),
        ts: Some(1),
        yes: vec![(50, 10)],
        no: vec![(40, 5)],
    }
}

fn delta(price: i32, d: i32, side: Side, ts: u64) -> Delta {
    Delta { market_ticker: "X".to_string(), ts: Some(ts), price, delta: d, side }
}

#[test]
fn existing_price_is_decreased_in_place() {
    let r = snapshot_x().add(delta(50, -3, Side::YES, 9));
    assert_eq!(r.yes, vec![(50, 7)]);
    assert_eq!(r.no, vec![(40, 5)]);
    assert_eq!(r.market_ticker, "X");
    assert_eq!(r.ts, Some(9));
}

#[test]
fn new_price_is_appended_at_the_end() {
    let r = snapshot_x().add(delta(60, 4, Side::YES, 9));
    assert_eq!(r.yes, vec![(50, 10), (60, 4)]);
    assert_eq!(r.no, vec![(40, 5)]);
}

#[test]
fn new_price_is_appended_without_sorting() {
    let s = Snapshot {
        market_ticker: "X".to_string(),
        ts: None,
        yes: vec![(50, 10), (30, 1)],
        no: vec![],
    };
    let r = s.add(delta(40, 100, Side::YES, 2));
    assert_eq!(r.yes, vec![(50, 10), (30, 1), (40, 100)]);
}

#[test]
fn no_side_delta_leaves_yes_side() {
    let r = snapshot_x().add(delta(40, 2, Side::NO, 3));
    assert_eq!(r.yes, vec![(50, 10)]);
    assert_eq!(r.no, vec![(40, 7)]);
}

#[test]
fn listed_price_keeps_length_and_other_entries() {
    let s = Snapshot {
        market_ticker: "X".to_string(),
        ts: None,
        yes: vec![(10, 1), (20, 2), (30, 3)],
        no: vec![(5, 5)],
    };
    let r = s.add(delta(20, 5, Side::YES, 4));
    assert_eq!(r.yes, vec![(10, 1), (20, 7), (30, 3)]);
    assert_eq!(r.no, vec![(5, 5)]);
    assert_eq!(r.ts, Some(4));
}

#[test]
fn zero_delta_keeps_quantity_and_updates_timestamp() {
    let r = snapshot_x().add(delta(50, 0, Side::YES, 77));
    assert_eq!(r.yes, vec![(50, 10)]);
    assert_eq!(r.no, vec![(40, 5)]);
    assert_eq!(r.ts, Some(77));
}

#[test]
fn quantity_netting_to_zero_or_below_stays_listed() {
    let r = snapshot_x().add(delta(50, -10, Side::YES, 2));
    assert_eq!(r.yes, vec![(50, 0)]);
    let r = r.add(delta(50, -4, Side::YES, 3));
    assert_eq!(r.yes, vec![(50, -4)]);
}

#[test]
fn same_price_deltas_add_up() {
    let twice = snapshot_x()
        .add(delta(50, 3, Side::YES, 2))
        .add(delta(50, -7, Side::YES, 3));
    let once = snapshot_x().add(delta(50, -4, Side::YES, 3));
    assert_eq!(twice.yes, once.yes);
    assert_eq!(twice.no, once.no);
    assert_eq!(twice.ts, once.ts);
    let twice_new = snapshot_x()
        .add(delta(70, 3, Side::NO, 2))
        .add(delta(70, 6, Side::NO, 3));
    let once_new = snapshot_x().add(delta(70, 9, Side::NO, 3));
    assert_eq!(twice_new.no, once_new.no);
    assert_eq!(twice_new.no, vec![(40, 5), (70, 9)]);
}

#[test]
fn different_prices_commute_as_sets() {
    let a = snapshot_x().add(delta(60, 1, Side::YES, 2)).add(delta(70, 2, Side::YES, 3));
    let b = snapshot_x().add(delta(70, 2, Side::YES, 3)).add(delta(60, 1, Side::YES, 2));
    let mut ay = a.yes.clone();
    let mut by = b.yes.clone();
    ay.sort();
    by.sort();
    assert_eq!(ay, by);
    assert_eq!(a.no, b.no);
    let c = snapshot_x().add(delta(50, 1, Side::YES, 2)).add(delta(40, 2, Side::NO, 3));
    let d = snapshot_x().add(delta(40, 2, Side::NO, 3)).add(delta(50, 1, Side::YES, 2));
    assert_eq!(c.yes, d.yes);
    assert_eq!(c.no, d.no);
}

#[test]
fn delta_fits_reports_overflow() {
    let s = Snapshot {
        market_ticker: "X".to_string(),
        ts: None,
        yes: vec![(50, i32::MAX)],
        no: vec![],
    };
    assert!(!s.delta_fits(&delta(50, 1, Side::YES, 1)));
    assert!(s.delta_fits(&delta(50, -1, Side::YES, 1)));
    assert!(s.delta_fits(&delta(60, i32::MAX, Side::YES, 1)));
    assert!(s.delta_fits(&delta(50, 1, Side::NO, 1)));
}
