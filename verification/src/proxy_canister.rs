//! The rules of the proxy canister: which requests it accepts from other canisters, what it
//! records of them, and when it calls a canister back.

pub mod constants;
pub mod requests;
pub mod state;

use crate::http_over_ws::handlers::{execute_http_request, HttpRequestDispatch};
use crate::http_over_ws::http_connection::{
    HttpOverWsErrorView, HttpOverWsMessageView, HttpRequestId,
};
use crate::http_over_ws::state::State;
use crate::proxy_canister_types::{
    CanisterCallbackMethodName, CanisterId, HttpRequestEndpointArgs, ProxyCanisterError,
    ProxyCanisterErrorView, RequestState, RequestStateView,
};
use requests::{url_parse_error, validate_incoming_request, validation};
use state::{started_request, with_request_state, ProxyState};
use vstd::prelude::*;

verus! {

/// Takes up the request that a canister makes through the proxy canister. A request that
/// is not valid is turned down, and nothing changes. A valid one is handed on to a proxy,
/// with the callback to invoke once it is resolved, and is recorded as being executed for
/// the canister; handed back is what the caller has to send to the proxy, and the timeout to
/// arm a timer for. Where no proxy is connected, the request is turned down and not
/// recorded.
pub fn http_request<C>(
    http_over_ws_state: &mut State<C>,
    proxy_state: &mut ProxyState,
    canister_id: CanisterId,
    args: HttpRequestEndpointArgs,
    callback: C,
) -> (started: Result<HttpRequestDispatch, ProxyCanisterError>)
    requires
        old(http_over_ws_state).wf(),
        old(http_over_ws_state)@.next_request_id < HttpRequestId::MAX,
    ensures
        final(http_over_ws_state).wf(),
        match validation(
            url_parse_error(args.request.url@),
            args.request.headers@.len(),
            args.timeout_ms,
        ) {
            Err(invalid) => {
                &&& final(http_over_ws_state)@ == old(http_over_ws_state)@
                &&& final(proxy_state)@ == old(proxy_state)@
                &&& started matches Err(error)
                &&& error@ == ProxyCanisterErrorView::InvalidRequest(invalid)
            },
            Ok(()) => {
                &&& final(http_over_ws_state)@ == old(http_over_ws_state)@.assign_connection(
                    args.request@,
                    Some(callback),
                )
                &&& match started {
                    Ok(dispatch) => {
                        &&& old(http_over_ws_state)@.upcoming_proxy() == Some(
                            dispatch.proxy_principal,
                        )
                        &&& dispatch.request_id == old(http_over_ws_state)@.upcoming_request_id()
                        &&& dispatch.message@ == HttpOverWsMessageView::HttpRequest(
                            dispatch.request_id,
                            args.request@,
                        )
                        &&& dispatch.timeout_ms == args.timeout_ms
                        &&& final(proxy_state)@ == if old(proxy_state)@.contains_key(
                            dispatch.request_id,
                        ) {
                            old(proxy_state)@
                        } else {
                            old(proxy_state)@.insert(
                                dispatch.request_id,
                                started_request(canister_id, args.callback_method_name),
                            )
                        }
                    },
                    Err(error) => {
                        &&& old(http_over_ws_state)@.upcoming_proxy() is None
                        &&& final(proxy_state)@ == old(proxy_state)@
                        &&& error@ == ProxyCanisterErrorView::HttpOverWs(
                            HttpOverWsErrorView::NoProxiesConnected,
                        )
                    },
                }
            },
        },
{
    match validate_incoming_request(&args) {
        Ok(()) => {},
        Err(error) => {
            return Err(ProxyCanisterError::InvalidRequest(error));
        },
    }

    let dispatch = match execute_http_request(
        http_over_ws_state,
        args.request,
        Some(callback),
        args.timeout_ms,
    ) {
        Ok(dispatch) => dispatch,
        Err(error) => {
            return Err(ProxyCanisterError::HttpOverWs(error));
        },
    };

    proxy_state.start_request_for_canister(
        canister_id,
        dispatch.request_id,
        args.callback_method_name,
    );

    Ok(dispatch)
}

/// What is to be done once the HTTP request of a canister has been resolved.
pub enum HttpRequestCallback {
    /// No request with this id is recorded.
    RequestNotFound,
    /// The request of this canister had been dealt with before.
    AlreadyExecuted(CanisterId),
    /// The request of this canister asked for no callback: it is now executed.
    Executed(CanisterId),
    /// The callback method of this canister is to be called with the result, and what came
    /// of the call is to be reported with [`http_request_callback_called`].
    CallCanister(CanisterId, CanisterCallbackMethodName),
}

/// The HTTP request with the given id has been resolved: says what is to be done for the
/// canister that made it. A request that is being executed and asked for no callback is
/// marked as executed; nothing else changes.
pub fn http_request_callback(proxy_state: &mut ProxyState, request_id: HttpRequestId) -> (step:
    HttpRequestCallback)
    ensures
        if old(proxy_state)@.contains_key(request_id) {
            let request = old(proxy_state)@[request_id];
            match request.state {
                RequestStateView::Executing(Some(method_name)) => {
                    &&& final(proxy_state)@ == old(proxy_state)@
                    &&& step matches HttpRequestCallback::CallCanister(canister_id, method)
                    &&& canister_id == request.canister_id
                    &&& method@ == method_name
                },
                RequestStateView::Executing(None) => {
                    &&& final(proxy_state)@ == with_request_state(
                        old(proxy_state)@,
                        request_id,
                        RequestStateView::Executed,
                    )
                    &&& step == HttpRequestCallback::Executed(request.canister_id)
                },
                _ => {
                    &&& final(proxy_state)@ == old(proxy_state)@
                    &&& step == HttpRequestCallback::AlreadyExecuted(request.canister_id)
                },
            }
        } else {
            &&& final(proxy_state)@ == old(proxy_state)@
            &&& step == HttpRequestCallback::RequestNotFound
        },
{
    match proxy_state.get_request_state(request_id) {
        Some(request) => match request.state {
            RequestState::Executing(Some(method_name)) => HttpRequestCallback::CallCanister(
                request.canister_id,
                method_name,
            ),
            RequestState::Executing(None) => {
                proxy_state.set_request_executed(request_id);
                HttpRequestCallback::Executed(request.canister_id)
            },
            _ => HttpRequestCallback::AlreadyExecuted(request.canister_id),
        },
        None => HttpRequestCallback::RequestNotFound,
    }
}

/// The callback method of the canister that made the request with the given id has been
/// called: the request is executed where the call went well, and marked with the reason
/// where the call failed.
pub fn http_request_callback_called(
    proxy_state: &mut ProxyState,
    request_id: HttpRequestId,
    called: Result<(), String>,
)
    ensures
        final(proxy_state)@ == with_request_state(
            old(proxy_state)@,
            request_id,
            match called {
                Ok(()) => RequestStateView::Executed,
                Err(reason) => RequestStateView::CallbackFailed(reason@),
            },
        ),
{
    match called {
        Ok(()) => {
            proxy_state.set_request_executed(request_id);
        },
        Err(reason) => {
            proxy_state.set_request_failed(request_id, reason);
        },
    }
}

} // verus!
