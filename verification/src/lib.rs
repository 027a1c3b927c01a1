//! Core of a notification relay: it turns a request to notify an operator
//! into the one call to the chat provider, and every way that call can end
//! into a text or a classified failure.
//!
//! - `utils`: settings resolved from a snapshot of the environment, and the
//!   address that the server binds;
//! - `telegram`: the request to the chat provider and the classification of
//!   what came back from it;
//! - `responses`: the two classes of failure and the JSON replies;
//! - `status`: the status code of the provider's answer;
//! - `json`: JSON string literals.
//!
//! Nothing here reads the environment or the network: the caller hands in
//! what it read and performs the call.

pub mod json;
pub mod responses;
pub mod status;
pub mod telegram;
pub mod utils;
