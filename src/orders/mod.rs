//! Order vocabulary: the states, statuses, types, sides and time-in-force
//! values that the API exchanges as short lowercase words.

use vstd::prelude::*;

use crate::error::{Error, ErrorType};
use crate::text::{prefixed, same_text};

pub mod create;
pub mod get;
pub mod strategy;
pub mod update;

verus! {

/// Lifecycle state of an order.
#[derive(Debug, Clone, Copy, PartialEq, Eq, Structural)]
pub enum OrderState {
    Open,
    Rejected,
    Closed,
}

impl OrderState {
    /// The word that stands for this state on the wire.
    pub open spec fn wire(self) -> Seq<char> {
        match self {
            OrderState::Open => "open"@,
            OrderState::Rejected => "rejected"@,
            OrderState::Closed => "closed"@,
        }
    }

    /// Reads a state from its wire word; any other text is an `InternalError`.
    pub fn from_wire(s: &str) -> (r: Result<OrderState, Error>)
        ensures
            match r {
                Ok(v) => v.wire() == s@,
                Err(e) => e.error_type == ErrorType::InternalError && e.message@ == "invalid OrderState"@
                    && forall|v: OrderState| v.wire() != s@,
            },
    {
        if same_text(s, "open") {
            Ok(OrderState::Open)
        } else if same_text(s, "rejected") {
            Ok(OrderState::Rejected)
        } else if same_text(s, "closed") {
            Ok(OrderState::Closed)
        } else {
            Error::internal("invalid OrderState")
        }
    }
}

impl std::str::FromStr for OrderState {
    type Err = Error;

    fn from_str(s: &str) -> (r: Result<Self, Self::Err>)
        ensures
            match r {
                Ok(v) => v.wire() == s@,
                Err(e) => e.error_type == ErrorType::InternalError && e.message@ == "invalid OrderState"@
                    && forall|v: OrderState| v.wire() != s@,
            },
    {
        OrderState::from_wire(s)
    }
}

/// Execution status of an order.
#[derive(Debug, Clone, Copy, PartialEq, Eq, Structural)]
pub enum OrderStatus {
    New,
    PartiallyFilled,
    Filled,
    Canceled,
    Replaced,
    PendingCancel,
    Stopped,
    Rejected,
    Suspended,
    PendingNew,
    Calculated,
    Expired,
    AcceptedForBidding,
    PendingReplace,
    DoneForDay,
}

impl OrderStatus {
    /// The word that stands for this status on the wire.
    pub open spec fn wire(self) -> Seq<char> {
        match self {
            OrderStatus::New => "new"@,
            OrderStatus::PartiallyFilled => "partially-filled"@,
            OrderStatus::Filled => "filled"@,
            OrderStatus::Canceled => "canceled"@,
            OrderStatus::Replaced => "replaced"@,
            OrderStatus::PendingCancel => "pending-cancel"@,
            OrderStatus::Stopped => "stopped"@,
            OrderStatus::Rejected => "rejected"@,
            OrderStatus::Suspended => "suspended"@,
            OrderStatus::PendingNew => "pending-new"@,
            OrderStatus::Calculated => "calculated"@,
            OrderStatus::Expired => "expired"@,
            OrderStatus::AcceptedForBidding => "accepted-for-bidding"@,
            OrderStatus::PendingReplace => "pending-replace"@,
            OrderStatus::DoneForDay => "done-for-day"@,
        }
    }

    /// Reads a status from its wire word; any other text is a `ParseError`
    /// naming it.
    pub fn from_wire(s: &str) -> (r: Result<OrderStatus, Error>)
        ensures
            match r {
                Ok(v) => v.wire() == s@,
                Err(e) => e.error_type == ErrorType::ParseError && e.message@ == "Invalid OrderStatus: "@
                    + s@ && forall|v: OrderStatus| v.wire() != s@,
            },
    {
        if same_text(s, "new") {
            Ok(OrderStatus::New)
        } else if same_text(s, "partially-filled") {
            Ok(OrderStatus::PartiallyFilled)
        } else if same_text(s, "filled") {
            Ok(OrderStatus::Filled)
        } else if same_text(s, "canceled") {
            Ok(OrderStatus::Canceled)
        } else if same_text(s, "replaced") {
            Ok(OrderStatus::Replaced)
        } else if same_text(s, "pending-cancel") {
            Ok(OrderStatus::PendingCancel)
        } else if same_text(s, "stopped") {
            Ok(OrderStatus::Stopped)
        } else if same_text(s, "rejected") {
            Ok(OrderStatus::Rejected)
        } else if same_text(s, "suspended") {
            Ok(OrderStatus::Suspended)
        } else if same_text(s, "pending-new") {
            Ok(OrderStatus::PendingNew)
        } else if same_text(s, "calculated") {
            Ok(OrderStatus::Calculated)
        } else if same_text(s, "expired") {
            Ok(OrderStatus::Expired)
        } else if same_text(s, "accepted-for-bidding") {
            Ok(OrderStatus::AcceptedForBidding)
        } else if same_text(s, "pending-replace") {
            Ok(OrderStatus::PendingReplace)
        } else if same_text(s, "done-for-day") {
            Ok(OrderStatus::DoneForDay)
        } else {
            Err(Error { error_type: ErrorType::ParseError, message: prefixed("Invalid OrderStatus: ", s) })
        }
    }
}

impl std::str::FromStr for OrderStatus {
    type Err = Error;

    fn from_str(s: &str) -> (r: Result<Self, Self::Err>)
        ensures
            match r {
                Ok(v) => v.wire() == s@,
                Err(e) => e.error_type == ErrorType::ParseError && e.message@ == "Invalid OrderStatus: "@
                    + s@ && forall|v: OrderStatus| v.wire() != s@,
            },
    {
        OrderStatus::from_wire(s)
    }
}

/// Kind of an order.
#[derive(Debug, Clone, Copy, PartialEq, Eq, Structural)]
pub enum OrderType {
    Market,
    Limit,
    Stop,
    StopLimit,
}

impl OrderType {
    /// The word that stands for this value on the wire.
    pub open spec fn wire(self) -> Seq<char> {
        match self {
            OrderType::Market => "market"@,
            OrderType::Limit => "limit"@,
            OrderType::Stop => "stop"@,
            OrderType::StopLimit => "stop-limit"@,
        }
    }

    /// Reads a value from its wire word; any other text is a `ParseError`
    /// naming it.
    pub fn from_wire(s: &str) -> (r: Result<OrderType, Error>)
        ensures
            match r {
                Ok(v) => v.wire() == s@,
                Err(e) => e.error_type == ErrorType::ParseError && e.message@ == "Invalid OrderType: "@
                    + s@ && forall|v: OrderType| v.wire() != s@,
            },
    {
        if same_text(s, "market") {
            Ok(OrderType::Market)
        } else if same_text(s, "limit") {
            Ok(OrderType::Limit)
        } else if same_text(s, "stop") {
            Ok(OrderType::Stop)
        } else if same_text(s, "stop-limit") {
            Ok(OrderType::StopLimit)
        } else {
            Err(Error { error_type: ErrorType::ParseError, message: prefixed("Invalid OrderType: ", s) })
        }
    }
}

impl std::str::FromStr for OrderType {
    type Err = Error;

    fn from_str(s: &str) -> (r: Result<Self, Self::Err>)
        ensures
            match r {
                Ok(v) => v.wire() == s@,
                Err(e) => e.error_type == ErrorType::ParseError && e.message@ == "Invalid OrderType: "@
                    + s@ && forall|v: OrderType| v.wire() != s@,
            },
    {
        OrderType::from_wire(s)
    }
}

/// Side of an order.
#[derive(Debug, Clone, Copy, PartialEq, Eq, Structural)]
pub enum OrderSide {
    Buy,
    Sell,
    SellShort,
}

impl OrderSide {
    /// The word that stands for this value on the wire.
    pub open spec fn wire(self) -> Seq<char> {
        match self {
            OrderSide::Buy => "buy"@,
            OrderSide::Sell => "sell"@,
            OrderSide::SellShort => "sell-short"@,
        }
    }

    /// Reads a value from its wire word; any other text is a `ParseError`
    /// naming it.
    pub fn from_wire(s: &str) -> (r: Result<OrderSide, Error>)
        ensures
            match r {
                Ok(v) => v.wire() == s@,
                Err(e) => e.error_type == ErrorType::ParseError && e.message@ == "Invalid OrderSide: "@
                    + s@ && forall|v: OrderSide| v.wire() != s@,
            },
    {
        if same_text(s, "buy") {
            Ok(OrderSide::Buy)
        } else if same_text(s, "sell") {
            Ok(OrderSide::Sell)
        } else if same_text(s, "sell-short") {
            Ok(OrderSide::SellShort)
        } else {
            Err(Error { error_type: ErrorType::ParseError, message: prefixed("Invalid OrderSide: ", s) })
        }
    }
}

impl std::str::FromStr for OrderSide {
    type Err = Error;

    fn from_str(s: &str) -> (r: Result<Self, Self::Err>)
        ensures
            match r {
                Ok(v) => v.wire() == s@,
                Err(e) => e.error_type == ErrorType::ParseError && e.message@ == "Invalid OrderSide: "@
                    + s@ && forall|v: OrderSide| v.wire() != s@,
            },
    {
        OrderSide::from_wire(s)
    }
}

/// How long an order stays working.
#[derive(Debug, Clone, Copy, PartialEq, Eq, Structural)]
pub enum TimeInForce {
    Day,
    ImmediateOrCancel,
    DayPlus,
    AtOpen,
    AtClose,
}

impl TimeInForce {
    /// The word that stands for this value on the wire.
    pub open spec fn wire(self) -> Seq<char> {
        match self {
            TimeInForce::Day => "day"@,
            TimeInForce::ImmediateOrCancel => "ioc"@,
            TimeInForce::DayPlus => "day-plus"@,
            TimeInForce::AtOpen => "at-open"@,
            TimeInForce::AtClose => "at-close"@,
        }
    }

    /// Reads a value from its wire word; any other text is a `ParseError`
    /// naming it.
    pub fn from_wire(s: &str) -> (r: Result<TimeInForce, Error>)
        ensures
            match r {
                Ok(v) => v.wire() == s@,
                Err(e) => e.error_type == ErrorType::ParseError && e.message@ == "Invalid TimeInForce: "@
                    + s@ && forall|v: TimeInForce| v.wire() != s@,
            },
    {
        if same_text(s, "day") {
            Ok(TimeInForce::Day)
        } else if same_text(s, "ioc") {
            Ok(TimeInForce::ImmediateOrCancel)
        } else if same_text(s, "day-plus") {
            Ok(TimeInForce::DayPlus)
        } else if same_text(s, "at-open") {
            Ok(TimeInForce::AtOpen)
        } else if same_text(s, "at-close") {
            Ok(TimeInForce::AtClose)
        } else {
            Err(Error { error_type: ErrorType::ParseError, message: prefixed("Invalid TimeInForce: ", s) })
        }
    }
}

impl std::str::FromStr for TimeInForce {
    type Err = Error;

    fn from_str(s: &str) -> (r: Result<Self, Self::Err>)
        ensures
            match r {
                Ok(v) => v.wire() == s@,
                Err(e) => e.error_type == ErrorType::ParseError && e.message@ == "Invalid TimeInForce: "@
                    + s@ && forall|v: TimeInForce| v.wire() != s@,
            },
    {
        TimeInForce::from_wire(s)
    }
}

/// Notation of an instrument symbol.
#[derive(Debug, Clone, Copy, PartialEq, Eq, Structural)]
pub enum SymbolFormat {
    Osi,
    Cms,
}

impl SymbolFormat {
    /// The word that stands for this value on the wire.
    pub open spec fn wire(self) -> Seq<char> {
        match self {
            SymbolFormat::Osi => "osi"@,
            SymbolFormat::Cms => "cms"@,
        }
    }

    /// Reads a value from its wire word; any other text is a `ParseError`
    /// naming it.
    pub fn from_wire(s: &str) -> (r: Result<SymbolFormat, Error>)
        ensures
            match r {
                Ok(v) => v.wire() == s@,
                Err(e) => e.error_type == ErrorType::ParseError && e.message@ == "Invalid SymbolFormat: "@
                    + s@ && forall|v: SymbolFormat| v.wire() != s@,
            },
    {
        if same_text(s, "osi") {
            Ok(SymbolFormat::Osi)
        } else if same_text(s, "cms") {
            Ok(SymbolFormat::Cms)
        } else {
            Err(Error { error_type: ErrorType::ParseError, message: prefixed("Invalid SymbolFormat: ", s) })
        }
    }
}

impl std::str::FromStr for SymbolFormat {
    type Err = Error;

    fn from_str(s: &str) -> (r: Result<Self, Self::Err>)
        ensures
            match r {
                Ok(v) => v.wire() == s@,
                Err(e) => e.error_type == ErrorType::ParseError && e.message@ == "Invalid SymbolFormat: "@
                    + s@ && forall|v: SymbolFormat| v.wire() != s@,
            },
    {
        SymbolFormat::from_wire(s)
    }
}

impl Default for SymbolFormat {
    fn default() -> (r: SymbolFormat)
        ensures
            r == SymbolFormat::Cms,
    {
        SymbolFormat::Cms
    }
}

impl OrderState {
    /// The word that stands for this value on the wire.
    pub fn as_wire(&self) -> (r: &'static str)
        ensures
            r@ == self.wire(),
    {
        match self {
            OrderState::Open => "open",
            OrderState::Rejected => "rejected",
            OrderState::Closed => "closed",
        }
    }
}

impl OrderStatus {
    /// The word that stands for this value on the wire.
    pub fn as_wire(&self) -> (r: &'static str)
        ensures
            r@ == self.wire(),
    {
        match self {
            OrderStatus::New => "new",
            OrderStatus::PartiallyFilled => "partially-filled",
            OrderStatus::Filled => "filled",
            OrderStatus::Canceled => "canceled",
            OrderStatus::Replaced => "replaced",
            OrderStatus::PendingCancel => "pending-cancel",
            OrderStatus::Stopped => "stopped",
            OrderStatus::Rejected => "rejected",
            OrderStatus::Suspended => "suspended",
            OrderStatus::PendingNew => "pending-new",
            OrderStatus::Calculated => "calculated",
            OrderStatus::Expired => "expired",
            OrderStatus::AcceptedForBidding => "accepted-for-bidding",
            OrderStatus::PendingReplace => "pending-replace",
            OrderStatus::DoneForDay => "done-for-day",
        }
    }
}

impl OrderType {
    /// The word that stands for this value on the wire.
    pub fn as_wire(&self) -> (r: &'static str)
        ensures
            r@ == self.wire(),
    {
        match self {
            OrderType::Market => "market",
            OrderType::Limit => "limit",
            OrderType::Stop => "stop",
            OrderType::StopLimit => "stop-limit",
        }
    }
}

impl OrderSide {
    /// The word that stands for this value on the wire.
    pub fn as_wire(&self) -> (r: &'static str)
        ensures
            r@ == self.wire(),
    {
        match self {
            OrderSide::Buy => "buy",
            OrderSide::Sell => "sell",
            OrderSide::SellShort => "sell-short",
        }
    }
}

impl TimeInForce {
    /// The word that stands for this value on the wire.
    pub fn as_wire(&self) -> (r: &'static str)
        ensures
            r@ == self.wire(),
    {
        match self {
            TimeInForce::Day => "day",
            TimeInForce::ImmediateOrCancel => "ioc",
            TimeInForce::DayPlus => "day-plus",
            TimeInForce::AtOpen => "at-open",
            TimeInForce::AtClose => "at-close",
        }
    }
}

impl SymbolFormat {
    /// The word that stands for this value on the wire.
    pub fn as_wire(&self) -> (r: &'static str)
        ensures
            r@ == self.wire(),
    {
        match self {
            SymbolFormat::Osi => "osi",
            SymbolFormat::Cms => "cms",
        }
    }
}

} // verus!
