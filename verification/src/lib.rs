//! HTTP requests for canisters of the Internet Computer, carried out by proxies that are
//! connected to a canister over a WebSocket.
//!
//! A canister cannot open a connection to the outside itself. It hands each request to one
//! of the proxies connected to it, and the response that the proxy sends back is matched
//! with the request by its id. This crate holds the state of that protocol and its rules,
//! verified with Verus: which proxy a request goes to, how a connection is resolved once
//! and for all by the first response, error or timeout, and what is left of the requests of
//! a proxy that has gone. Sending messages, arming timers and invoking callbacks is left to
//! the canister that uses the crate; the functions here say what is to be done.
//!
//! - [`http_over_ws`]: the protocol between a canister and its proxies.
//! - [`proxy_canister`]: the rules of a canister that offers the protocol to other
//!   canisters.
//! - [`proxy_canister_types`]: the types of that canister's interface.
//! - [`logger`]: a log with the time of each entry.

pub mod http_over_ws;
pub mod logger;
pub mod proxy_canister;
pub mod proxy_canister_types;
