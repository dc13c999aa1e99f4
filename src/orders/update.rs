//! Order amendment.

use vstd::prelude::*;

verus! {

/// The new quantity and prices of a working order.
#[derive(Debug, Clone)]
pub struct UpdateOrderRequestBody {
    pub quantity: String,
    pub price: Option<String>,
    pub stop_price: Option<String>,
}

} // verus!
