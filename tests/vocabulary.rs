use clearstreet::http::{bearer_value, is_success, status_error, token_endpoint_status};
use clearstreet::orders::strategy::{Destination, Strategy, Urgency};
use clearstreet::orders::{OrderSide, OrderState, OrderStatus, OrderType, SymbolFormat, TimeInForce};
use clearstreet::{ClientOptions, Error, ErrorType};
use std::str::FromStr;

#[test]
fn error_new_keeps_kind_and_message() {
    let e = Error::new(ErrorType::NotFound, "Order not found");
    assert_eq!(e.error_type, ErrorType::NotFound);
    assert_eq!(e.message, "Order not found");
    assert_eq!(e.description(), "Order not found");
    assert_eq!(e.to_display_string(), "NotFound: Order not found");
    assert_eq!(ErrorType::SerializationError.as_name(), "SerializationError");
}

#[test]
fn wire_words_read_back() {
    for v in [OrderState::Open, OrderState::Rejected, OrderState::Closed] {
        assert_eq!(OrderState::from_wire(v.as_wire()).unwrap(), v);
    }
    for v in [OrderSide::Buy, OrderSide::Sell, OrderSide::SellShort] {
        assert_eq!(OrderSide::from_wire(v.as_wire()).unwrap(), v);
    }
    for v in [OrderType::Market, OrderType::Limit, OrderType::Stop, OrderType::StopLimit] {
        assert_eq!(OrderType::from_wire(v.as_wire()).unwrap(), v);
    }
    for v in [TimeInForce::Day, TimeInForce::ImmediateOrCancel, TimeInForce::DayPlus, TimeInForce::AtOpen, TimeInForce::AtClose] {
        assert_eq!(TimeInForce::from_wire(v.as_wire()).unwrap(), v);
    }
    assert_eq!(OrderStatus::AcceptedForBidding.as_wire(), "accepted-for-bidding");
    assert_eq!(Urgency::SuperPassive.as_wire(), "super-passive");
    assert_eq!(SymbolFormat::Cms.as_wire(), "cms");
}

#[test]
fn order_words_parse() {
    assert_eq!(OrderState::from_str("closed").unwrap(), OrderState::Closed);
    assert_eq!(OrderState::from_str("x").unwrap_err().error_type, ErrorType::InternalError);
    assert_eq!(OrderStatus::from_str("partially-filled").unwrap(), OrderStatus::PartiallyFilled);
    assert_eq!(OrderStatus::from_str("done-for-day").unwrap(), OrderStatus::DoneForDay);
    let e = OrderStatus::from_str("gone").unwrap_err();
    assert_eq!(e.error_type, ErrorType::ParseError);
    assert_eq!(e.message, "Invalid OrderStatus: gone");
    assert_eq!(OrderType::from_str("stop-limit").unwrap(), OrderType::StopLimit);
    assert_eq!(OrderType::from_str("Market").unwrap_err().message, "Invalid OrderType: Market");
    assert_eq!(OrderSide::from_str("sell-short").unwrap(), OrderSide::SellShort);
    assert_eq!(TimeInForce::from_str("ioc").unwrap(), TimeInForce::ImmediateOrCancel);
    assert_eq!(SymbolFormat::from_str("osi").unwrap(), SymbolFormat::Osi);
    assert_eq!(SymbolFormat::default(), SymbolFormat::Cms);
    assert_eq!(Urgency::from_str("super-aggressive").unwrap(), Urgency::SuperAggressive);
    assert_eq!(Urgency::from_str("lazy").unwrap_err().message, "Invalid Urgency: lazy");
}

#[test]
fn destination_codes() {
    assert_eq!(Destination::Xnys.as_wire(), "xnys");
    assert_eq!(Destination::from_wire("iexg").unwrap(), Destination::Iexg);
    assert_eq!(Destination::from_wire("XNYS").unwrap_err().error_type, ErrorType::ParseError);
}

#[test]
fn strategy_from_fields() {
    let s = Strategy::from_fields(Some("sor"), Some(1), None, Some(Urgency::Passive), Some(Destination::Arcx));
    assert_eq!(
        s.unwrap(),
        Strategy::SmartOrderRoute { start_at: Some(1), end_at: None, urgency: Some(Urgency::Passive) }
    );
    let d = Strategy::from_fields(Some("dma"), None, None, None, Some(Destination::Edgx)).unwrap();
    assert_eq!(d, Strategy::DirectMarketAccess { destination: Destination::Edgx });
    assert_eq!(d.type_tag(), "dma");
    let e = Strategy::from_fields(Some("dma"), None, None, None, None).unwrap_err();
    assert_eq!(e.message, "missing field `destination`");
    let e = Strategy::from_fields(Some("twap"), None, None, None, None).unwrap_err();
    assert_eq!(e.message, "unsupported strategy type: twap");
    let e = Strategy::from_fields(None, None, None, None, None).unwrap_err();
    assert_eq!(e.message, "missing field `type`");
}

#[test]
fn http_status_decisions() {
    assert!(is_success(200));
    assert!(is_success(299));
    assert!(!is_success(199));
    assert!(!is_success(300));
    assert!(!is_success(404));
    let e = status_error(ErrorType::HttpError, "404 Not Found", "nope");
    assert_eq!(e.error_type, ErrorType::HttpError);
    assert_eq!(e.message, "Error: 404 Not Found - nope");
    assert!(token_endpoint_status(200, "200 OK", "").is_ok());
    let e = token_endpoint_status(401, "401 Unauthorized", "bad client").unwrap_err();
    assert_eq!(e.error_type, ErrorType::AuthenticationError);
    assert_eq!(e.message, "Error: 401 Unauthorized - bad client");
    assert_eq!(bearer_value("abc"), "Bearer abc");
}

#[test]
fn client_urls() {
    let o = ClientOptions { account_id: "A1".to_string(), ..Default::default() };
    assert_eq!(o.api_url, "https://api.clearstreet.io");
    assert_eq!(o.websocket_url, "wss://api.clearstreet.io/studio/v2/ws");
    assert_eq!(o.accounts_url(), "https://api.clearstreet.io/studio/v2/accounts");
    assert_eq!(o.account_url("B2"), "https://api.clearstreet.io/studio/v2/accounts/B2");
    assert_eq!(o.orders_url(), "https://api.clearstreet.io/studio/v2/accounts/A1/orders");
    assert_eq!(o.order_url("o-9"), "https://api.clearstreet.io/studio/v2/accounts/A1/orders/o-9");
    assert_eq!(o.position_url("AAPL"), "https://api.clearstreet.io/studio/v2/accounts/A1/positions/AAPL");
    assert_eq!(o.trade_url("t1"), "https://api.clearstreet.io/studio/v2/accounts/A1/trades/t1");
    assert_eq!(o.instrument_url("MSFT"), "https://api.clearstreet.io/studio/v2/instruments/MSFT");
    assert_eq!(
        o.delete_all_orders_url(Some("aapl")),
        "https://api.clearstreet.io/studio/v2/accounts/A1/orders?symbol=AAPL"
    );
    assert_eq!(o.delete_all_orders_url(None), "https://api.clearstreet.io/studio/v2/accounts/A1/orders");
    assert_eq!(
        o.orders_url_for_symbol(Some("msft")),
        "https://api.clearstreet.io/studio/v2/accounts/A1/orders?symbol=msft"
    );
    assert_eq!(
        o.redacted(),
        "ClientOptions { api_url: https://api.clearstreet.io, websocket_url: wss://api.clearstreet.io/studio/v2/ws, client_id: <your_client_id>, client_secret: **REDACTED** }"
    );
}

#[test]
fn from_str_errors_are_exact() {
    let e = OrderState::from_str("Open").unwrap_err();
    assert_eq!(e.error_type, ErrorType::InternalError);
    assert_eq!(e.message, "invalid OrderState");
    let e = OrderStatus::from_str("bogus").unwrap_err();
    assert_eq!(e.error_type, ErrorType::ParseError);
    assert_eq!(e.message, "Invalid OrderStatus: bogus");
    assert!(OrderStatus::from_str("New").is_err());
    for v in [
        OrderStatus::New, OrderStatus::PartiallyFilled, OrderStatus::Filled, OrderStatus::Canceled,
        OrderStatus::Replaced, OrderStatus::PendingCancel, OrderStatus::Stopped, OrderStatus::Rejected,
        OrderStatus::Suspended, OrderStatus::PendingNew, OrderStatus::Calculated, OrderStatus::Expired,
        OrderStatus::AcceptedForBidding, OrderStatus::PendingReplace, OrderStatus::DoneForDay,
    ] {
        assert_eq!(OrderStatus::from_str(v.as_wire()).unwrap(), v);
    }
}
