//! The protocol between a canister and the proxies that carry out its HTTP requests.
//!
//! - [`http_connection`]: requests, results and messages, and the connection that a request
//!   is while it waits for its result.
//! - [`client_proxy`]: the connections of one proxy.
//! - [`state`]: the connected proxies and the requests assigned to them.
//! - [`handlers`]: what a canister calls when it makes a request and when the WebSocket
//!   delivers a message.
//! - [`model`]: the mathematical model of the state, over which the contracts are stated.
//! - [`laws`]: what holds of the protocol, proved over the model.
//! - [`ic`]: what is taken on trust of the crates of the Internet Computer.

pub mod client_proxy;
pub mod handlers;
pub mod http_connection;
pub mod ic;
pub mod laws;
pub mod model;
pub mod state;

pub use handlers::{
    disconnect_all_connected_proxies, execute_http_request, get_http_connection,
    get_http_response, handle_http_result, try_disconnect_http_proxy,
    try_handle_http_over_ws_message, ExecuteHttpRequestResult, HandledMessage,
    HttpRequestDispatch,
};
pub use http_connection::{
    GetHttpResponseResult, HttpCallbackWithResult, HttpFailureReason, HttpMethod,
    HttpOverWsError, HttpOverWsMessage, HttpRequest, HttpRequestId, HttpRequestTimeoutMs,
    HttpResult,
};
pub use ic_cdk::api::management_canister::http_request::{HttpHeader, HttpResponse};
pub use state::{http_connection_timeout, State};
