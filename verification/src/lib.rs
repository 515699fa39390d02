//! Client library for a streaming blockchain-data API.
//!
//! The heart of the crate is the WebSocket multiplexing layer: a wire codec
//! for framed messages, a registry of open subscriptions, and a session state
//! machine that routes inbound frames and replays subscriptions after a
//! reconnect. All of that logic is verified; the socket itself and the async
//! plumbing around it live outside this crate.

use vstd::prelude::*;

pub mod auth;
pub mod builder;
pub mod chan;
pub mod client;
pub mod error;
pub mod eth;
pub mod format;
pub mod fuel;
pub mod operation;
pub mod query;
pub mod registry;
pub mod requests;
pub mod session;
pub mod status;
pub mod text;
pub mod types;
pub mod uniswap_v2;
pub mod utils;
pub mod wire;

pub use crate::builder::ClientBuilder;
pub use crate::client::Client;
pub use crate::error::{Error, ResponseError};
pub use crate::format::Format;
pub use crate::types::ChainId;

verus! {

/// Identifies one outstanding request or subscription multiplexed over a
/// shared physical connection. Process-unique; the client handle draws a
/// fresh random value per call.
#[derive(Clone, Copy, Debug, PartialEq, Eq, Hash, Structural)]
pub struct MsgId(pub u128);

} // verus!
