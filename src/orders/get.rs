//! Order lookup and listing.

use vstd::prelude::*;

verus! {

/// Identifies one order of one account.
#[derive(Debug, Clone)]
pub struct GetOrderParams {
    pub account_id: String,
    pub order_id: String,
}

/// A time window and a page of an order listing.
#[derive(Debug, Clone)]
pub struct ListOrdersParams {
    pub from: i64,
    pub to: i64,
    pub page_size: i64,
    pub page_token: String,
}

} // verus!
