//! Order creation.

use vstd::prelude::*;

verus! {

/// The server's answer to an order creation.
#[derive(Debug, Clone)]
pub struct CreateOrderResponse {
    pub order_id: String,
}

} // verus!
