//! Accounts.

use vstd::prelude::*;

verus! {

/// A trading account.
#[derive(Debug, Clone)]
pub struct Account {
    pub account_id: String,
    pub account_number: String,
    pub entity_id: String,
    pub name: String,
}

/// The accounts visible to the client.
#[derive(Debug, Clone)]
pub struct GetAccountsResponse {
    pub data: Vec<Account>,
}

} // verus!
