use kalshi_mdp::auth::{decode_login_response, LoginBody};
use kalshi_mdp::messages::{KalshiClientMessageBuilder, MarketDataSubMessage};
use kalshi_mdp::session::{on_frame, on_subscribed, subscription_commands, Frame, SessionAction, SessionState};

#[test]
fn session_runs_through_its_states() {
    let s = on_subscribed(SessionState::Connecting);
    assert_eq!(s, SessionState::Subscribed);
    let (s, a) = on_frame(s, Frame::Binary(vec![1, 2]));
    assert_eq!(s, SessionState::Receiving);
    assert!(matches!(a, SessionAction::Ignore));
    let (s, a) = on_frame(s, Frame::Ping(vec![7, 8]));
    assert_eq!(s, SessionState::Receiving);
    match a {
        SessionAction::SendPong(d) => assert_eq!(d, vec![7, 8]),
        other => panic!("expected a pong, got {:?}", other),
    }
    let (s, a) = on_frame(s, Frame::Pong(vec![]));
    assert!(matches!(a, SessionAction::Ignore));
    let (s, a) = on_frame(s, Frame::Close(Some("bye".to_string())));
    assert_eq!(s, SessionState::Closed);
    match a {
        SessionAction::Stop(r) => assert_eq!(r, Some("bye".to_string())),
        other => panic!("expected a stop, got {:?}", other),
    }
    let (s, a) = on_frame(s, Frame::Text("{}".to_string()));
    assert_eq!(s, SessionState::Closed);
    assert!(matches!(a, SessionAction::Ignore));
}

#[test]
fn text_frames_dispatch_or_skip() {
    let text = r#"{"type":"orderbook_delta","sid":1,"seq":2,"msg":{"market_ticker":"X","price":50,"delta":-3,"side":"yes"}}"#;
    let (_, a) = on_frame(SessionState::Receiving, Frame::Text(text.to_string()));
    assert!(matches!(a, SessionAction::Dispatch(MarketDataSubMessage::Delta(_))));
    let (s, a) = on_frame(SessionState::Receiving, Frame::Text("{\"type\":\"ok\"}".to_string()));
    assert_eq!(s, SessionState::Receiving);
    match a {
        SessionAction::Skip(e) => assert_eq!(e.text, "{\"type\":\"ok\"}"),
        other => panic!("expected a skip, got {:?}", other),
    }
}

#[test]
fn frames_before_subscribing_are_ignored() {
    let (s, a) = on_frame(SessionState::Connecting, Frame::Ping(vec![1]));
    assert_eq!(s, SessionState::Connecting);
    assert!(matches!(a, SessionAction::Ignore));
}

#[test]
fn subscription_commands_are_numbered_in_order() {
    let mut b = KalshiClientMessageBuilder::new();
    let cmds = subscription_commands(&mut b, (vec!["A".to_string()], vec!["B".to_string()]));
    assert_eq!(cmds.len(), 2);
    assert_eq!(cmds[0].id, 1);
    assert_eq!(cmds[1].id, 2);
    assert_eq!(b.next_id, 3);
    let v: serde_json::Value = serde_json::from_str(&cmds[1].to_text()).unwrap();
    assert_eq!(v["params"]["channels"][0], "trade");
    assert_eq!(v["params"]["market_tickers"][0], "B");
}

#[test]
fn login_body_and_response() {
    let body = LoginBody::new("a@b.c".to_string(), "pw".to_string());
    let v: serde_json::Value = serde_json::from_str(&body.to_text()).unwrap();
    assert_eq!(v["email"], "a@b.c");
    assert_eq!(v["password"], "pw");
    let r = decode_login_response(r#"{"member_id":"m1","token":"t1"}"#).unwrap();
    assert_eq!(r.member_id, "m1");
    assert_eq!(r.token, "t1");
    assert!(decode_login_response(r#"{"token":"t1"}"#).is_none());
}
