use kalshi_mdp::codec::{decode_command, decode_market_data, decode_payload};
use kalshi_mdp::json::JsonValue;
use kalshi_mdp::messages::{
    KalshiClientMessage, KalshiClientMessageBuilder, KalshiClientSubMessage, MarketDataSubMessage,
    Side, SubscribeSubMessage, UnsubscribeSubMessage, UpdateSubMessage,
};

fn strings(items: &[&str]) -> Vec<String> {
    items.iter().map(|s| s.to_string()).collect()
}

#[test]
fn decodes_snapshot_envelope() {
    let text = r#"{"type":"orderbook_snapshot","sid":2,"seq":1,"msg":{"market_ticker":"X","yes":[[50,10],[60,4]],"no":[[40,5]]}}"#;
    let m = decode_market_data(text).unwrap();
    assert_eq!(m.msg_type, "orderbook_snapshot");
    assert_eq!(m.sid, 2);
    assert_eq!(m.seq, 1);
    match m.msg {
        MarketDataSubMessage::Snapshot(s) => {
            assert_eq!(s.market_ticker, "X");
            assert_eq!(s.ts, None);
            assert_eq!(s.yes, vec![(50, 10), (60, 4)]);
            assert_eq!(s.no, vec![(40, 5)]);
        }
        other => panic!("expected a snapshot, got {:?}", other),
    }
}

#[test]
fn decodes_delta_envelope() {
    let text = r#"{"type":"orderbook_delta","sid":2,"seq":3,"msg":{"market_ticker":"X","price":50,"delta":-3,"side":"yes"}}"#;
    let m = decode_market_data(text).unwrap();
    match m.msg {
        MarketDataSubMessage::Delta(d) => {
            assert_eq!(d.market_ticker, "X");
            assert_eq!(d.price, 50);
            assert_eq!(d.delta, -3);
            assert_eq!(d.side, Side::YES);
            assert_eq!(d.ts, None);
        }
        other => panic!("expected a delta, got {:?}", other),
    }
}

#[test]
fn decodes_trade_envelope() {
    let text = r#"{"type":"trade","sid":5,"seq":9,"msg":{"market_ticker":"X","yes_price":36,"no_price":64,"count":136,"taker_side":"no","ts":1669149841}}"#;
    let m = decode_market_data(text).unwrap();
    match m.msg {
        MarketDataSubMessage::Trade(t) => {
            assert_eq!(t.yes_price, 36);
            assert_eq!(t.no_price, 64);
            assert_eq!(t.count, 136);
            assert_eq!(t.taker_side, Side::NO);
            assert_eq!(t.ts, Some(1669149841));
        }
        other => panic!("expected a trade, got {:?}", other),
    }
}

#[test]
fn snapshot_shape_wins_over_delta_and_trade_fields() {
    let text = r#"{"type":"x","sid":1,"seq":1,"msg":{"market_ticker":"X","yes":[],"no":[[1,2]],"price":5,"delta":1,"side":"yes","yes_price":1,"no_price":2,"count":3,"taker_side":"no"}}"#;
    let m = decode_market_data(text).unwrap();
    assert!(matches!(m.msg, MarketDataSubMessage::Snapshot(_)));
}

#[test]
fn malformed_levels_fall_through_to_delta() {
    let v = JsonValue::Object(vec![
        ("market_ticker".to_string(), JsonValue::Str("X".to_string())),
        ("yes".to_string(), JsonValue::Str("none".to_string())),
        ("no".to_string(), JsonValue::Array(vec![])),
        ("price".to_string(), JsonValue::Number(Some(5))),
        ("delta".to_string(), JsonValue::Number(Some(1))),
        ("side".to_string(), JsonValue::Str("no".to_string())),
    ]);
    assert!(matches!(decode_payload(&v), Some(MarketDataSubMessage::Delta(_))));
}

#[test]
fn control_frame_is_a_decode_error_with_its_text() {
    let text = r#"{"id":1,"type":"subscribed","msg":{"channel":"orderbook_delta","sid":1}}"#;
    let e = decode_market_data(text).unwrap_err();
    assert_eq!(e.text, text);
    let e = decode_market_data("not json").unwrap_err();
    assert_eq!(e.text, "not json");
}

#[test]
fn out_of_range_numbers_are_rejected() {
    let text = r#"{"type":"t","sid":-1,"seq":1,"msg":{"market_ticker":"X","yes":[],"no":[]}}"#;
    assert!(decode_market_data(text).is_err());
    let text = r#"{"type":"t","sid":1,"seq":1,"msg":{"market_ticker":"X","price":3000000000,"delta":1,"side":"yes"}}"#;
    assert!(decode_market_data(text).is_err());
    let text = r#"{"type":"t","sid":1,"seq":1,"msg":{"market_ticker":"X","yes":[[1,2,3]],"no":[]}}"#;
    assert!(decode_market_data(text).is_err());
}

#[test]
fn builder_numbers_commands_from_one() {
    let mut b = KalshiClientMessageBuilder::new();
    let first = b
        .content(KalshiClientSubMessage::SubscribeSubMessage(SubscribeSubMessage::new_deltas(strings(&["A"]))))
        .build();
    let second = b
        .content(KalshiClientSubMessage::SubscribeSubMessage(SubscribeSubMessage::new_trades(strings(&["B"]))))
        .build();
    assert_eq!(first.id, 1);
    assert_eq!(second.id, 2);
    assert_eq!(first.cmd, "subscribe");
    assert_eq!(b.next_id, 3);
    assert!(b.params.is_none());
}

#[test]
fn builder_ignores_non_subscription_content() {
    let mut b = KalshiClientMessageBuilder::new();
    b.content(KalshiClientSubMessage::UnsubscribeSubMessage(UnsubscribeSubMessage { sids: vec![1] }));
    assert!(b.cmd.is_none());
    assert!(b.params.is_none());
    assert_eq!(b.next_id, 1);
}

#[test]
fn canonical_channel_sets() {
    let d = SubscribeSubMessage::new_deltas(strings(&["A", "B"]));
    assert_eq!(d.channels, strings(&["orderbook_delta", "ticker"]));
    assert_eq!(d.market_tickers, strings(&["A", "B"]));
    let t = SubscribeSubMessage::new_trades(strings(&["C"]));
    assert_eq!(t.channels, strings(&["trade", "ticker"]));
    let def = SubscribeSubMessage::new_default(strings(&["A"]));
    assert_eq!(def.channels, strings(&["orderbook_delta", "ticker"]));
    let both = SubscribeSubMessage::new_snapshot_and_trades((strings(&["A"]), strings(&["B"])));
    assert_eq!(both.len(), 2);
    assert_eq!(both[0].channels, strings(&["orderbook_delta", "ticker"]));
    assert_eq!(both[0].market_tickers, strings(&["A"]));
    assert_eq!(both[1].channels, strings(&["trade", "ticker"]));
    assert_eq!(both[1].market_tickers, strings(&["B"]));
}

#[test]
fn subscribe_command_text_has_the_wire_shape() {
    let mut b = KalshiClientMessageBuilder::new();
    let c = b
        .content(KalshiClientSubMessage::SubscribeSubMessage(SubscribeSubMessage::new_deltas(strings(&["INX"]))))
        .build();
    let text = c.to_text();
    let v: serde_json::Value = serde_json::from_str(&text).unwrap();
    assert_eq!(v["id"], 1);
    assert_eq!(v["cmd"], "subscribe");
    assert_eq!(v["params"]["channels"][0], "orderbook_delta");
    assert_eq!(v["params"]["channels"][1], "ticker");
    assert_eq!(v["params"]["market_tickers"][0], "INX");
}

#[test]
fn command_round_trips_through_json() {
    let c = KalshiClientMessage {
        id: 7,
        cmd: "subscribe".to_string(),
        params: KalshiClientSubMessage::SubscribeSubMessage(SubscribeSubMessage::new_trades(strings(&["A", "B"]))),
    };
    let back = decode_command(&c.to_json()).unwrap();
    assert_eq!(back.id, 7);
    assert_eq!(back.cmd, "subscribe");
    match back.params {
        KalshiClientSubMessage::SubscribeSubMessage(s) => {
            assert_eq!(s.channels, strings(&["trade", "ticker"]));
            assert_eq!(s.market_tickers, strings(&["A", "B"]));
        }
        other => panic!("expected a subscription, got {:?}", other),
    }
}

#[test]
fn update_reads_back_as_unsubscription() {
    let c = KalshiClientMessage {
        id: 3,
        cmd: "update_subscription".to_string(),
        params: KalshiClientSubMessage::UpdateSubMessage(UpdateSubMessage {
            sids: vec![4, 5],
            market_tickers: strings(&["A"]),
            action: "add_markets".to_string(),
        }),
    };
    let back = decode_command(&c.to_json()).unwrap();
    match back.params {
        KalshiClientSubMessage::UnsubscribeSubMessage(u) => assert_eq!(u.sids, vec![4, 5]),
        other => panic!("expected an unsubscription, got {:?}", other),
    }
}
