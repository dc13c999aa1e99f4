//! Client configuration and the account-scoped REST paths.

use vstd::prelude::*;

use crate::text::{prefixed, upper_of, uppercase};

verus! {

/// Endpoints and credentials of a client.
#[derive(Clone)]
pub struct ClientOptions {
    pub api_url: String,
    pub websocket_url: String,
    pub client_id: String,
    pub client_secret: String,
    pub account_id: String,
}

impl Default for ClientOptions {
    fn default() -> (r: ClientOptions)
        ensures
            r.api_url@ == "https://api.clearstreet.io"@,
            r.websocket_url@ == "wss://api.clearstreet.io/studio/v2/ws"@,
            r.client_id@ == "<your_client_id>"@,
            r.client_secret@ == "<your_client_secret>"@,
            r.account_id@ == "<your_account_id>"@,
    {
        ClientOptions {
            api_url: "https://api.clearstreet.io".to_owned(),
            websocket_url: "wss://api.clearstreet.io/studio/v2/ws".to_owned(),
            client_id: "<your_client_id>".to_owned(),
            client_secret: "<your_client_secret>".to_owned(),
            account_id: "<your_account_id>".to_owned(),
        }
    }
}

/// `base` followed by `/` and `item`.
pub open spec fn child(base: Seq<char>, item: Seq<char>) -> Seq<char> {
    base + "/"@ + item
}

fn join(base: &str, item: &str) -> (r: String)
    ensures
        r@ == child(base@, item@),
{
    let mut s = base.to_owned();
    s.append("/");
    s.append(item);
    s
}

impl ClientOptions {
    /// The path of the list of accounts.
    pub open spec fn accounts_path(&self) -> Seq<char> {
        self.api_url@ + "/studio/v2/accounts"@
    }

    /// The path of the configured account.
    pub open spec fn own_account_path(&self) -> Seq<char> {
        child(self.accounts_path(), self.account_id@)
    }

    /// A printable description that leaves the secret out.
    pub fn redacted(&self) -> (r: String)
        ensures
            r@ == "ClientOptions { api_url: "@ + self.api_url@ + ", websocket_url: "@ + self.websocket_url@
                + ", client_id: "@ + self.client_id@ + ", client_secret: **REDACTED** }"@,
    {
        let mut s = prefixed("ClientOptions { api_url: ", self.api_url.as_str());
        s.append(", websocket_url: ");
        s.append(self.websocket_url.as_str());
        s.append(", client_id: ");
        s.append(self.client_id.as_str());
        s.append(", client_secret: **REDACTED** }");
        s
    }

    /// The URL of the list of accounts.
    pub fn accounts_url(&self) -> (r: String)
        ensures
            r@ == self.accounts_path(),
    {
        prefixed(self.api_url.as_str(), "/studio/v2/accounts")
    }

    /// The URL of the account `account_id`.
    pub fn account_url(&self, account_id: &str) -> (r: String)
        ensures
            r@ == child(self.accounts_path(), account_id@),
    {
        join(self.accounts_url().as_str(), account_id)
    }

    /// The URL of the orders of the configured account.
    pub fn orders_url(&self) -> (r: String)
        ensures
            r@ == child(self.own_account_path(), "orders"@),
    {
        join(self.account_url(self.account_id.as_str()).as_str(), "orders")
    }

    /// The URL of the orders of the configured account, narrowed to the
    /// symbol `symbol_query` when one is given, taken as it is.
    pub fn orders_url_for_symbol(&self, symbol_query: Option<&str>) -> (r: String)
        ensures
            r@ == child(self.own_account_path(), "orders"@) + match symbol_query {
                Some(s) => "?symbol="@ + s@,
                None => Seq::<char>::empty(),
            },
    {
        let mut u = self.orders_url();
        match symbol_query {
            Some(s) => {
                u.append("?symbol=");
                u.append(s);
            },
            None => {},
        }
        u
    }

    /// The URL that cancels the orders of the configured account: all of
    /// them, or those in `symbol`, written in upper case.
    pub fn delete_all_orders_url(&self, symbol: Option<&str>) -> (r: String)
        ensures
            r@ == child(self.own_account_path(), "orders"@) + match symbol {
                Some(s) => "?symbol="@ + upper_of(s@),
                None => Seq::<char>::empty(),
            },
    {
        match symbol {
            Some(s) => {
                let upper = uppercase(s);
                self.orders_url_for_symbol(Some(upper.as_str()))
            },
            None => self.orders_url_for_symbol(None),
        }
    }

    /// The URL of one order of the configured account.
    pub fn order_url(&self, order_id: &str) -> (r: String)
        ensures
            r@ == child(child(self.own_account_path(), "orders"@), order_id@),
    {
        join(self.orders_url().as_str(), order_id)
    }

    /// The URL of the positions of the configured account.
    pub fn positions_url(&self) -> (r: String)
        ensures
            r@ == child(self.own_account_path(), "positions"@),
    {
        join(self.account_url(self.account_id.as_str()).as_str(), "positions")
    }

    /// The URL of the position in `symbol` of the configured account.
    pub fn position_url(&self, symbol: &str) -> (r: String)
        ensures
            r@ == child(child(self.own_account_path(), "positions"@), symbol@),
    {
        join(self.positions_url().as_str(), symbol)
    }

    /// The URL of the trades of the configured account.
    pub fn trades_url(&self) -> (r: String)
        ensures
            r@ == child(self.own_account_path(), "trades"@),
    {
        join(self.account_url(self.account_id.as_str()).as_str(), "trades")
    }

    /// The URL of one trade of the configured account.
    pub fn trade_url(&self, trade_id: &str) -> (r: String)
        ensures
            r@ == child(child(self.own_account_path(), "trades"@), trade_id@),
    {
        join(self.trades_url().as_str(), trade_id)
    }

    /// The URL of the instrument `symbol`.
    pub fn instrument_url(&self, symbol: &str) -> (r: String)
        ensures
            r@ == self.api_url@ + "/studio/v2/instruments/"@ + symbol@,
    {
        let mut s = prefixed(self.api_url.as_str(), "/studio/v2/instruments/");
        s.append(symbol);
        s
    }
}

} // verus!
