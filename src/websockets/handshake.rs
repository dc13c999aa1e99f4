//! The subscribe handshake: the one text frame the client sends after
//! connecting, `{"authorization": <token>, "payload": {"type":
//! "subscribe-activity", "account_id": <account>}}`.

use vstd::prelude::*;

use crate::error::{Error, ErrorType};
use crate::json::{json_string, quote_json};
use crate::text::prefixed;

verus! {

/// The handshake frame, given the bearer token and the account id already
/// encoded as JSON string literals.
pub open spec fn subscribe_frame_text(quoted_token: Seq<char>, quoted_account: Seq<char>) -> Seq<char> {
    "{\"authorization\":"@ + quoted_token + ",\"payload\":{\"type\":\"subscribe-activity\",\"account_id\":"@
        + quoted_account + "}}"@
}

/// Assembles the handshake frame from the bearer token and the account id
/// already encoded as JSON string literals.
pub fn frame_from_quoted(quoted_token: &str, quoted_account: &str) -> (r: String)
    ensures
        r@ == subscribe_frame_text(quoted_token@, quoted_account@),
{
    let mut f = prefixed("{\"authorization\":", quoted_token);
    f.append(",\"payload\":{\"type\":\"subscribe-activity\",\"account_id\":");
    f.append(quoted_account);
    f.append("}}");
    f
}

/// The handshake frame that subscribes `account_id`, presenting `token`.
///
/// Encoding a text as JSON cannot fail, so the frame is always built; the
/// `Result` keeps the shape of an encoding step, whose failure would be a
/// `SerializationError`.
pub fn subscribe_frame(token: &str, account_id: &str) -> (r: Result<String, Error>)
    ensures
        r is Ok,
        r->Ok_0@ == subscribe_frame_text(json_string(token@), json_string(account_id@)),
{
    let quoted_token = match quote_json(token) {
        Some(q) => q,
        None => {
            return Err(Error::new(ErrorType::SerializationError, "cannot encode the bearer token"));
        },
    };
    let quoted_account = match quote_json(account_id) {
        Some(q) => q,
        None => {
            return Err(Error::new(ErrorType::SerializationError, "cannot encode the account id"));
        },
    };
    Ok(frame_from_quoted(quoted_token.as_str(), quoted_account.as_str()))
}

} // verus!
