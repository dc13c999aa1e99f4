//! Trade records.

use vstd::prelude::*;

use crate::orders::OrderSide;

verus! {

/// One execution against an order.
#[derive(Debug, Clone)]
pub struct Trade {
    pub created_at: i64,
    pub account_id: String,
    pub account_number: String,
    pub trade_id: String,
    pub order_id: String,
    pub symbol: String,
    pub side: OrderSide,
    pub quantity: String,
    pub price: String,
    pub running_position: String,
}

/// A page of trades.
#[derive(Debug, Clone)]
pub struct ListTradesResponse {
    pub data: Vec<Trade>,
    pub next_page_token: Option<String>,
}

} // verus!
