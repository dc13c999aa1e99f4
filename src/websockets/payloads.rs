//! The frames of the activity stream: the discriminator values and the
//! shapes of the frames that carry no order or position record.

use vstd::prelude::*;

use crate::error::{Error, ErrorType};
use crate::text::same_text;
use crate::trades::Trade;

verus! {

/// The discriminator of a frame, found at `payload.type`.
#[derive(Debug, Clone, Copy, PartialEq, Eq, Structural)]
pub enum PayloadType {
    SubscribeActivity,
    SubscribeActivityAck,
    ReplayComplete,
    OrderUpdate,
    TradeNotice,
    PositionUpdate,
    BuyingPowerUpdate,
    LocateInventoryUpdate,
    Heartbeat,
    ErrorNotice,
}

impl PayloadType {
    /// The discriminator value on the wire.
    pub open spec fn wire(self) -> Seq<char> {
        match self {
            PayloadType::SubscribeActivity => "subscribe-activity"@,
            PayloadType::SubscribeActivityAck => "subscribe-activity-ack"@,
            PayloadType::ReplayComplete => "replay-complete"@,
            PayloadType::OrderUpdate => "order-update"@,
            PayloadType::TradeNotice => "trade-notice"@,
            PayloadType::PositionUpdate => "position-update"@,
            PayloadType::BuyingPowerUpdate => "buying-power-update"@,
            PayloadType::LocateInventoryUpdate => "locate-inventory-update"@,
            PayloadType::Heartbeat => "heartbeat"@,
            PayloadType::ErrorNotice => "error-notice"@,
        }
    }

    /// Whether frames of this type come from the server.
    pub open spec fn is_inbound(self) -> bool {
        !(self is SubscribeActivity)
    }

    /// The discriminator value on the wire.
    pub fn as_wire(&self) -> (r: &'static str)
        ensures
            r@ == self.wire(),
    {
        match self {
            PayloadType::SubscribeActivity => "subscribe-activity",
            PayloadType::SubscribeActivityAck => "subscribe-activity-ack",
            PayloadType::ReplayComplete => "replay-complete",
            PayloadType::OrderUpdate => "order-update",
            PayloadType::TradeNotice => "trade-notice",
            PayloadType::PositionUpdate => "position-update",
            PayloadType::BuyingPowerUpdate => "buying-power-update",
            PayloadType::LocateInventoryUpdate => "locate-inventory-update",
            PayloadType::Heartbeat => "heartbeat",
            PayloadType::ErrorNotice => "error-notice",
        }
    }

    /// Reads a discriminator value; `None` for a value that names no type.
    pub fn from_wire(s: &str) -> (r: Option<PayloadType>)
        ensures
            match r {
                Some(t) => t.wire() == s@,
                None => forall|t: PayloadType| t.wire() != s@,
            },
    {
        if same_text(s, "subscribe-activity") {
            Some(PayloadType::SubscribeActivity)
        } else if same_text(s, "subscribe-activity-ack") {
            Some(PayloadType::SubscribeActivityAck)
        } else if same_text(s, "replay-complete") {
            Some(PayloadType::ReplayComplete)
        } else if same_text(s, "order-update") {
            Some(PayloadType::OrderUpdate)
        } else if same_text(s, "trade-notice") {
            Some(PayloadType::TradeNotice)
        } else if same_text(s, "position-update") {
            Some(PayloadType::PositionUpdate)
        } else if same_text(s, "buying-power-update") {
            Some(PayloadType::BuyingPowerUpdate)
        } else if same_text(s, "locate-inventory-update") {
            Some(PayloadType::LocateInventoryUpdate)
        } else if same_text(s, "heartbeat") {
            Some(PayloadType::Heartbeat)
        } else if same_text(s, "error-notice") {
            Some(PayloadType::ErrorNotice)
        } else {
            None
        }
    }
}

/// The first phase of decoding a frame: picks the variant to decode the whole
/// frame into from the discriminator alone.
///
/// A value that names an inbound type selects it. Any other value, the
/// outbound subscribe type included, is a `ParseError`; it concerns this
/// frame only.
pub fn dispatch_payload_type(discriminator: &str) -> (r: Result<PayloadType, Error>)
    ensures
        match r {
            Ok(t) => t.wire() == discriminator@ && t.is_inbound(),
            Err(e) => {
                &&& e.error_type == ErrorType::ParseError
                &&& e.message@ == "Unknown message type"@
                &&& (discriminator@ == PayloadType::SubscribeActivity.wire() || forall|t: PayloadType|
                    t.wire() != discriminator@)
            },
        },
{
    match PayloadType::from_wire(discriminator) {
        Some(t) => match t {
            PayloadType::SubscribeActivity => Err(Error::new(ErrorType::ParseError, "Unknown message type")),
            _ => Ok(t),
        },
        None => Err(Error::new(ErrorType::ParseError, "Unknown message type")),
    }
}

/// Keep-alive frame.
#[derive(Debug, Clone)]
pub struct Heartbeat {
    pub timestamp: i64,
    pub payload: HeartbeatPayload,
}

#[derive(Debug, Clone)]
pub struct HeartbeatPayload {
    pub payload_type: PayloadType,
}

/// An error reported by the server on the stream.
#[derive(Debug, Clone)]
pub struct ErrorNotice {
    pub timestamp: i64,
    pub payload: ErrorNoticePayload,
}

#[derive(Debug, Clone)]
pub struct ErrorNoticePayload {
    pub payload_type: PayloadType,
    pub details: String,
}

/// The subscribe handshake, the one frame the client sends.
#[derive(Debug, Clone)]
pub struct SubscribeActivity {
    pub authorization: String,
    pub payload: SubscribeActivityPayload,
}

#[derive(Debug, Clone)]
pub struct SubscribeActivityPayload {
    pub payload_type: PayloadType,
    pub account_id: String,
}

/// The server's answer to the subscribe handshake.
#[derive(Debug, Clone)]
pub struct SubscribeActivityAck {
    pub timestamp: i64,
    pub payload: SubscribeActivityAckPayload,
}

#[derive(Debug, Clone)]
pub struct SubscribeActivityAckPayload {
    pub payload_type: PayloadType,
    pub success: bool,
    pub details: String,
}

/// Marks the end of the replay of past activity.
#[derive(Debug, Clone)]
pub struct ReplayComplete {
    pub timestamp: i64,
    pub payload: ReplayCompletePayload,
}

#[derive(Debug, Clone)]
pub struct ReplayCompletePayload {
    pub payload_type: PayloadType,
}

/// A trade on the account.
#[derive(Debug, Clone)]
pub struct TradeNotice {
    pub timestamp: i64,
    pub sequence: i64,
    pub payload: TradeNoticePayload,
}

#[derive(Debug, Clone)]
pub struct TradeNoticePayload {
    pub payload_type: PayloadType,
    pub data: Trade,
}

/// A change of the account's buying power.
#[derive(Debug, Clone)]
pub struct BuyingPowerUpdate {
    pub timestamp: i64,
    pub sequence: i64,
    pub payload: BuyingPowerUpdatePayload,
}

#[derive(Debug, Clone)]
pub struct BuyingPowerUpdatePayload {
    pub payload_type: PayloadType,
}

/// A change of the account's locate inventory.
#[derive(Debug, Clone)]
pub struct LocateInventoryUpdate {
    pub timestamp: i64,
    pub sequence: i64,
    pub payload: LocateInventoryUpdatePayload,
}

#[derive(Debug, Clone)]
pub struct LocateInventoryUpdatePayload {
    pub payload_type: PayloadType,
}

impl SubscribeActivity {
    /// The handshake that subscribes `account_id` to its activity, presenting
    /// `token`.
    pub fn new(token: &str, account_id: &str) -> (r: SubscribeActivity)
        ensures
            r.authorization@ == token@,
            r.payload.payload_type == PayloadType::SubscribeActivity,
            r.payload.account_id@ == account_id@,
    {
        SubscribeActivity {
            authorization: token.to_owned(),
            payload: SubscribeActivityPayload {
                payload_type: PayloadType::SubscribeActivity,
                account_id: account_id.to_owned(),
            },
        }
    }
}

} // verus!
