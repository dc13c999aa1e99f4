//! How an order is worked: routed by the broker's smart router, or sent
//! straight to a named venue.

use vstd::prelude::*;

use crate::error::{Error, ErrorType};
use crate::text::{prefixed, same_text};

verus! {

/// How aggressively a smart order route works an order.
#[derive(Debug, Clone, Copy, PartialEq, Eq, Structural)]
pub enum Urgency {
    SuperPassive,
    Passive,
    Moderate,
    Aggressive,
    SuperAggressive,
}

impl Urgency {
    /// The word that stands for this value on the wire.
    pub open spec fn wire(self) -> Seq<char> {
        match self {
            Urgency::SuperPassive => "super-passive"@,
            Urgency::Passive => "passive"@,
            Urgency::Moderate => "moderate"@,
            Urgency::Aggressive => "aggressive"@,
            Urgency::SuperAggressive => "super-aggressive"@,
        }
    }

    /// Reads a value from its wire word; any other text is a `ParseError`
    /// naming it.
    pub fn from_wire(s: &str) -> (r: Result<Urgency, Error>)
        ensures
            match r {
                Ok(v) => v.wire() == s@,
                Err(e) => e.error_type == ErrorType::ParseError && e.message@ == "Invalid Urgency: "@
                    + s@ && forall|v: Urgency| v.wire() != s@,
            },
    {
        if same_text(s, "super-passive") {
            Ok(Urgency::SuperPassive)
        } else if same_text(s, "passive") {
            Ok(Urgency::Passive)
        } else if same_text(s, "moderate") {
            Ok(Urgency::Moderate)
        } else if same_text(s, "aggressive") {
            Ok(Urgency::Aggressive)
        } else if same_text(s, "super-aggressive") {
            Ok(Urgency::SuperAggressive)
        } else {
            Err(Error { error_type: ErrorType::ParseError, message: prefixed("Invalid Urgency: ", s) })
        }
    }
}

impl std::str::FromStr for Urgency {
    type Err = Error;

    fn from_str(s: &str) -> (r: Result<Self, Self::Err>)
        ensures
            match r {
                Ok(v) => v.wire() == s@,
                Err(e) => e.error_type == ErrorType::ParseError && e.message@ == "Invalid Urgency: "@
                    + s@ && forall|v: Urgency| v.wire() != s@,
            },
    {
        Urgency::from_wire(s)
    }
}

/// Venue an order is sent to directly.
#[derive(Debug, Clone, Copy, PartialEq, Eq, Structural)]
pub enum Destination {
    /// NYSE Arca
    Arcx,
    /// Cboe BZX
    Bats,
    /// Cboe BYX
    Baty,
    /// Cboe EDGA
    Edga,
    /// Cboe EDGX
    Edgx,
    /// MIAX Pearl Equities
    Eprl,
    /// Investors Exchange
    Iexg,
    /// Members Exchange
    Memx,
    /// NYSE American
    Xase,
    /// Nasdaq BX
    Xbos,
    /// NYSE National
    Xcis,
    /// Nasdaq Global Market
    Xnms,
    /// New York Stock Exchange
    Xnys,
}

impl Destination {
    /// The venue code on the wire.
    pub open spec fn wire(self) -> Seq<char> {
        match self {
            Destination::Arcx => "arcx"@,
            Destination::Bats => "bats"@,
            Destination::Baty => "baty"@,
            Destination::Edga => "edga"@,
            Destination::Edgx => "edgx"@,
            Destination::Eprl => "eprl"@,
            Destination::Iexg => "iexg"@,
            Destination::Memx => "memx"@,
            Destination::Xase => "xase"@,
            Destination::Xbos => "xbos"@,
            Destination::Xcis => "xcis"@,
            Destination::Xnms => "xnms"@,
            Destination::Xnys => "xnys"@,
        }
    }

    /// The venue code on the wire.
    pub fn as_wire(&self) -> (r: &'static str)
        ensures
            r@ == self.wire(),
    {
        match self {
            Destination::Arcx => "arcx",
            Destination::Bats => "bats",
            Destination::Baty => "baty",
            Destination::Edga => "edga",
            Destination::Edgx => "edgx",
            Destination::Eprl => "eprl",
            Destination::Iexg => "iexg",
            Destination::Memx => "memx",
            Destination::Xase => "xase",
            Destination::Xbos => "xbos",
            Destination::Xcis => "xcis",
            Destination::Xnms => "xnms",
            Destination::Xnys => "xnys",
        }
    }

    /// Reads a venue from its code; any other text is a `ParseError` naming
    /// it.
    pub fn from_wire(s: &str) -> (r: Result<Destination, Error>)
        ensures
            match r {
                Ok(v) => v.wire() == s@,
                Err(e) => e.error_type == ErrorType::ParseError && e.message@ == "Invalid Destination: "@
                    + s@ && forall|v: Destination| v.wire() != s@,
            },
    {
        if same_text(s, "arcx") {
            Ok(Destination::Arcx)
        } else if same_text(s, "bats") {
            Ok(Destination::Bats)
        } else if same_text(s, "baty") {
            Ok(Destination::Baty)
        } else if same_text(s, "edga") {
            Ok(Destination::Edga)
        } else if same_text(s, "edgx") {
            Ok(Destination::Edgx)
        } else if same_text(s, "eprl") {
            Ok(Destination::Eprl)
        } else if same_text(s, "iexg") {
            Ok(Destination::Iexg)
        } else if same_text(s, "memx") {
            Ok(Destination::Memx)
        } else if same_text(s, "xase") {
            Ok(Destination::Xase)
        } else if same_text(s, "xbos") {
            Ok(Destination::Xbos)
        } else if same_text(s, "xcis") {
            Ok(Destination::Xcis)
        } else if same_text(s, "xnms") {
            Ok(Destination::Xnms)
        } else if same_text(s, "xnys") {
            Ok(Destination::Xnys)
        } else {
            Err(Error { error_type: ErrorType::ParseError, message: prefixed("Invalid Destination: ", s) })
        }
    }
}

/// How an order is worked.
#[derive(Debug, Clone, Copy, PartialEq, Eq, Structural)]
pub enum Strategy {
    SmartOrderRoute { start_at: Option<i64>, end_at: Option<i64>, urgency: Option<Urgency> },
    DirectMarketAccess { destination: Destination },
}

impl Strategy {
    /// The value of the `type` entry that tags the strategy on the wire.
    pub open spec fn tag(self) -> Seq<char> {
        match self {
            Strategy::SmartOrderRoute { .. } => "sor"@,
            Strategy::DirectMarketAccess { .. } => "dma"@,
        }
    }

    /// The value of the `type` entry that tags the strategy on the wire.
    pub fn type_tag(&self) -> (r: &'static str)
        ensures
            r@ == self.tag(),
    {
        match self {
            Strategy::SmartOrderRoute { .. } => "sor",
            Strategy::DirectMarketAccess { .. } => "dma",
        }
    }

    /// Builds a strategy from the entries read off the wire.
    ///
    /// Tag `sor` gives a smart order route with the optional entries as they
    /// are; tag `dma` gives direct market access and needs a destination. A
    /// missing tag, another tag, or `dma` without a destination is a
    /// `ParseError`. Entries that the tag does not use are ignored.
    pub fn from_fields(
        strategy_type: Option<&str>,
        start_at: Option<i64>,
        end_at: Option<i64>,
        urgency: Option<Urgency>,
        destination: Option<Destination>,
    ) -> (r: Result<Strategy, Error>)
        ensures
            match strategy_type {
                None => r is Err && r->Err_0.error_type == ErrorType::ParseError && r->Err_0.message@
                    == "missing field `type`"@,
                Some(t) => if t@ == "sor"@ {
                    r == Ok::<Strategy, Error>(Strategy::SmartOrderRoute { start_at, end_at, urgency })
                } else if t@ == "dma"@ {
                    match destination {
                        Some(d) => r == Ok::<Strategy, Error>(Strategy::DirectMarketAccess { destination: d }),
                        None => r is Err && r->Err_0.error_type == ErrorType::ParseError
                            && r->Err_0.message@ == "missing field `destination`"@,
                    }
                } else {
                    r is Err && r->Err_0.error_type == ErrorType::ParseError && r->Err_0.message@
                        == "unsupported strategy type: "@ + t@
                },
            },
    {
        match strategy_type {
            None => Err(Error::new(ErrorType::ParseError, "missing field `type`")),
            Some(t) => {
                if same_text(t, "sor") {
                    Ok(Strategy::SmartOrderRoute { start_at, end_at, urgency })
                } else if same_text(t, "dma") {
                    match destination {
                        Some(d) => Ok(Strategy::DirectMarketAccess { destination: d }),
                        None => Err(Error::new(ErrorType::ParseError, "missing field `destination`")),
                    }
                } else {
                    Err(Error {
                        error_type: ErrorType::ParseError,
                        message: prefixed("unsupported strategy type: ", t),
                    })
                }
            },
        }
    }
}

impl Urgency {
    /// The word that stands for this value on the wire.
    pub fn as_wire(&self) -> (r: &'static str)
        ensures
            r@ == self.wire(),
    {
        match self {
            Urgency::SuperPassive => "super-passive",
            Urgency::Passive => "passive",
            Urgency::Moderate => "moderate",
            Urgency::Aggressive => "aggressive",
            Urgency::SuperAggressive => "super-aggressive",
        }
    }
}

} // verus!
