//! Client core for a brokerage trading API: a shared access-token cache,
//! a retrying request executor and the streaming activity protocol.

pub mod account;
pub mod authentication;
pub mod client;
pub mod error;
pub mod http;
pub mod instruments;
pub mod json;
pub mod orders;
pub mod retry;
pub mod text;
pub mod trades;
pub mod websockets;

pub use crate::client::ClientOptions;
pub use crate::error::{Error, ErrorType};
