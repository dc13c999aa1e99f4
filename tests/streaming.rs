use clearstreet::websockets::handshake::{frame_from_quoted, subscribe_frame};
use clearstreet::websockets::payloads::{dispatch_payload_type, PayloadType, SubscribeActivity};
use clearstreet::websockets::session::{
    FeedAction, FeedEvent, FeedSession, Phase, MAX_CONSECUTIVE_DECODE_FAILURES, RECONNECT_DELAY_MS,
};
use clearstreet::{Error, ErrorType};

fn discriminator(frame: &str) -> String {
    let v: serde_json::Value = serde_json::from_str(frame).unwrap();
    v["payload"]["type"].as_str().unwrap().to_string()
}

fn streaming() -> FeedSession {
    FeedSession { phase: Phase::Streaming, account_id: "acc".to_string(), decode_failures: 0 }
}

#[test]
fn heartbeat_frame_decodes_to_heartbeat() {
    let frame = r#"{"timestamp":0,"payload":{"type":"heartbeat"}}"#;
    let t = dispatch_payload_type(&discriminator(frame)).unwrap();
    assert_eq!(t, PayloadType::Heartbeat);
    let mut s = streaming();
    assert!(matches!(s.step(FeedEvent::FrameDecoded), FeedAction::Forward));
    assert_eq!(s.phase, Phase::Streaming);
}

#[test]
fn order_updates_are_forwarded_in_order() {
    let frames = [
        r#"{"timestamp":1,"sequence":5,"payload":{"type":"order-update","data":{}}}"#,
        r#"{"timestamp":2,"sequence":6,"payload":{"type":"order-update","data":{}}}"#,
    ];
    let mut s = streaming();
    let mut seen = Vec::new();
    for f in frames {
        let t = dispatch_payload_type(&discriminator(f)).unwrap();
        assert_eq!(t, PayloadType::OrderUpdate);
        let v: serde_json::Value = serde_json::from_str(f).unwrap();
        if let FeedAction::Forward = s.step(FeedEvent::FrameDecoded) {
            seen.push(v["sequence"].as_i64().unwrap());
        }
    }
    assert_eq!(seen, vec![5, 6]);
}

#[test]
fn unknown_type_is_parse_error_and_connection_stays() {
    let frame = r#"{"timestamp":0,"payload":{"type":"market-open"}}"#;
    let e = dispatch_payload_type(&discriminator(frame)).unwrap_err();
    assert_eq!(e.error_type, ErrorType::ParseError);
    assert_eq!(e.message, "Unknown message type");
    let mut s = streaming();
    match s.step(FeedEvent::FrameRejected(e)) {
        FeedAction::ReportDecodeError(r) => assert_eq!(r.error_type, ErrorType::ParseError),
        _ => panic!("a bad frame must only be reported"),
    }
    assert_eq!(s.phase, Phase::Streaming);
    assert!(matches!(s.step(FeedEvent::FrameDecoded), FeedAction::Forward));
}

#[test]
fn outbound_type_is_not_accepted_inbound() {
    let e = dispatch_payload_type("subscribe-activity").unwrap_err();
    assert_eq!(e.error_type, ErrorType::ParseError);
}

#[test]
fn every_inbound_type_dispatches() {
    let all = [
        ("subscribe-activity-ack", PayloadType::SubscribeActivityAck),
        ("replay-complete", PayloadType::ReplayComplete),
        ("order-update", PayloadType::OrderUpdate),
        ("trade-notice", PayloadType::TradeNotice),
        ("position-update", PayloadType::PositionUpdate),
        ("buying-power-update", PayloadType::BuyingPowerUpdate),
        ("locate-inventory-update", PayloadType::LocateInventoryUpdate),
        ("heartbeat", PayloadType::Heartbeat),
        ("error-notice", PayloadType::ErrorNotice),
    ];
    for (w, t) in all {
        assert_eq!(dispatch_payload_type(w).unwrap(), t);
        assert_eq!(t.as_wire(), w);
    }
}

#[test]
fn repeated_bad_frames_reconnect() {
    let mut s = streaming();
    for _ in 0..MAX_CONSECUTIVE_DECODE_FAILURES - 1 {
        let a = s.step(FeedEvent::FrameRejected(Error::new(ErrorType::ParseError, "bad")));
        assert!(matches!(a, FeedAction::ReportDecodeError(_)));
    }
    let a = s.step(FeedEvent::FrameRejected(Error::new(ErrorType::ParseError, "bad")));
    assert!(matches!(a, FeedAction::Reconnect(d) if d == RECONNECT_DELAY_MS));
    assert_eq!(s.phase, Phase::Disconnected);
    assert_eq!(s.decode_failures, 0);
}

#[test]
fn good_frame_resets_failure_count() {
    let mut s = streaming();
    s.step(FeedEvent::FrameRejected(Error::new(ErrorType::ParseError, "bad")));
    s.step(FeedEvent::FrameRejected(Error::new(ErrorType::ParseError, "bad")));
    s.step(FeedEvent::FrameDecoded);
    assert_eq!(s.decode_failures, 0);
    let a = s.step(FeedEvent::FrameRejected(Error::new(ErrorType::ParseError, "bad")));
    assert!(matches!(a, FeedAction::ReportDecodeError(_)));
}

#[test]
fn consumer_gone_shuts_down_for_good() {
    for phase in [Phase::Disconnected, Phase::Connecting, Phase::Handshaking, Phase::Streaming] {
        let mut s = FeedSession { phase, account_id: "acc".to_string(), decode_failures: 0 };
        assert!(matches!(s.step(FeedEvent::ConsumerGone), FeedAction::Shutdown));
        assert_eq!(s.phase, Phase::Stopped);
        assert!(matches!(s.step(FeedEvent::Start), FeedAction::Shutdown));
        assert!(matches!(s.step(FeedEvent::FrameDecoded), FeedAction::Shutdown));
        assert!(matches!(s.step(FeedEvent::Connected), FeedAction::Shutdown));
        assert_eq!(s.phase, Phase::Stopped);
    }
}

#[test]
fn full_connection_cycle() {
    let mut s = FeedSession::new("ACC-1".to_string());
    assert!(matches!(s.step(FeedEvent::Start), FeedAction::OpenSocket));
    assert_eq!(s.phase, Phase::Connecting);
    assert!(matches!(s.step(FeedEvent::Connected), FeedAction::FetchToken));
    assert_eq!(s.phase, Phase::Handshaking);
    match s.step(FeedEvent::TokenReady("tok".to_string())) {
        FeedAction::SendText(f) => assert_eq!(
            f,
            r#"{"authorization":"tok","payload":{"type":"subscribe-activity","account_id":"ACC-1"}}"#
        ),
        _ => panic!("expected the subscribe frame"),
    }
    assert!(matches!(s.step(FeedEvent::SubscribeSent), FeedAction::Continue));
    assert_eq!(s.phase, Phase::Streaming);
    assert!(matches!(s.step(FeedEvent::PingReceived), FeedAction::Pong));
    assert!(matches!(s.step(FeedEvent::CloseReceived), FeedAction::Reconnect(_)));
    assert_eq!(s.phase, Phase::Disconnected);
    assert!(matches!(s.step(FeedEvent::Start), FeedAction::OpenSocket));
    assert!(matches!(
        s.step(FeedEvent::ConnectFailed(Error::new(ErrorType::IoError, "refused"))),
        FeedAction::Reconnect(_)
    ));
}

#[test]
fn token_failure_during_handshake_reconnects() {
    let mut s = FeedSession { phase: Phase::Handshaking, account_id: "a".to_string(), decode_failures: 0 };
    let a = s.step(FeedEvent::TokenFailed(Error::new(ErrorType::AuthenticationError, "no")));
    assert!(matches!(a, FeedAction::Reconnect(_)));
    assert_eq!(s.phase, Phase::Disconnected);
}

#[test]
fn subscribe_frame_escapes_its_values() {
    let f = subscribe_frame("a\"b", "x\\y").unwrap();
    assert_eq!(
        f,
        r#"{"authorization":"a\"b","payload":{"type":"subscribe-activity","account_id":"x\\y"}}"#
    );
    let v: serde_json::Value = serde_json::from_str(&f).unwrap();
    assert_eq!(v["authorization"], "a\"b");
    assert_eq!(v["payload"]["account_id"], "x\\y");
}

#[test]
fn frame_from_quoted_assembles_verbatim() {
    let f = frame_from_quoted("\"t\"", "\"a\"");
    assert_eq!(f, r#"{"authorization":"t","payload":{"type":"subscribe-activity","account_id":"a"}}"#);
}

#[test]
fn subscribe_message_fields() {
    let m = SubscribeActivity::new("tok", "acc");
    assert_eq!(m.authorization, "tok");
    assert_eq!(m.payload.account_id, "acc");
    assert_eq!(m.payload.payload_type, PayloadType::SubscribeActivity);
}

#[test]
fn subscribe_frame_escapes_control_characters() {
    let f = subscribe_frame("a\nb\tc\u{1}", "\u{8}\u{c}\r\u{1f}").unwrap();
    assert_eq!(
        f,
        "{\"authorization\":\"a\\nb\\tc\\u0001\",\"payload\":{\"type\":\"subscribe-activity\",\"account_id\":\"\\b\\f\\r\\u001f\"}}"
    );
}
