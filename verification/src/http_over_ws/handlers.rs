use super::http_connection::{
    response_view, GetHttpResponseResult, HttpCallbackWithResult, HttpFailureReason,
    HttpFailureReasonView, HttpOverWsError, HttpOverWsErrorView, HttpOverWsMessage,
    HttpOverWsMessageView, HttpRequest, HttpRequestId, HttpRequestTimeoutMs, HttpResult,
    HttpResultView,
};
use super::model::StateView;
use super::state::State;
use candid::Principal;
use vstd::prelude::*;

verus! {

/// What is left to do for the caller once a request has been assigned to a proxy: send the
/// message to the proxy, and arm a timer where a timeout was asked for.
#[derive(Debug, PartialEq, Eq)]
pub struct HttpRequestDispatch {
    pub request_id: HttpRequestId,
    pub proxy_principal: Principal,
    /// The message to send to the proxy.
    pub message: HttpOverWsMessage,
    /// The time after which the request is to time out, if any.
    pub timeout_ms: Option<HttpRequestTimeoutMs>,
}

pub type ExecuteHttpRequestResult = Result<HttpRequestDispatch, HttpOverWsError>;

/// What was done with a message that a proxy sent.
pub enum HandledMessage<C> {
    /// The proxy announced itself and is now connected.
    ProxyConnected,
    /// The proxy delivered the outcome of the request with this id. Where the request is
    /// one of the proxy's own, the callback that became due is given, with the result to
    /// invoke it with; else the error that turned the delivery down.
    ConnectionUpdated(HttpRequestId, Result<Option<HttpCallbackWithResult<C>>, HttpOverWsError>),
    /// The proxy reported an error that concerns no request.
    ProxyError(String),
    /// The proxy sent a request, which is not for a proxy to do: nothing was done.
    UnexpectedHttpRequest,
}

impl<C> StateView<C> {
    /// The state after the given proxy has sent the given message.
    pub open spec fn handle_message(self, principal: Principal, message: HttpOverWsMessageView) -> Self {
        match message {
            HttpOverWsMessageView::SetupProxyClient => self.add_proxy(principal),
            HttpOverWsMessageView::HttpResponse(request_id, response) => {
                self.update_connection_state(
                    principal,
                    request_id,
                    HttpResultView::Success(response),
                )
            },
            HttpOverWsMessageView::Error(Some(request_id), message) => {
                self.update_connection_state(
                    principal,
                    request_id,
                    HttpResultView::Failure(HttpFailureReasonView::ProxyError(message)),
                )
            },
            HttpOverWsMessageView::Error(None, _) => self,
            HttpOverWsMessageView::HttpRequest(_, _) => self,
        }
    }

    /// Whether the given report is the one that is due for this message from this proxy.
    pub open spec fn is_handled(
        self,
        principal: Principal,
        message: HttpOverWsMessageView,
        handled: HandledMessage<C>,
    ) -> bool {
        match message {
            HttpOverWsMessageView::SetupProxyClient => handled is ProxyConnected,
            HttpOverWsMessageView::HttpResponse(request_id, response) => {
                &&& handled matches HandledMessage::ConnectionUpdated(id, outcome)
                &&& id == request_id
                &&& self.is_update_outcome(
                    principal,
                    request_id,
                    HttpResultView::Success(response),
                    outcome,
                )
            },
            HttpOverWsMessageView::Error(Some(request_id), message) => {
                &&& handled matches HandledMessage::ConnectionUpdated(id, outcome)
                &&& id == request_id
                &&& self.is_update_outcome(
                    principal,
                    request_id,
                    HttpResultView::Failure(HttpFailureReasonView::ProxyError(message)),
                    outcome,
                )
            },
            HttpOverWsMessageView::Error(None, message) => {
                &&& handled matches HandledMessage::ProxyError(reported)
                &&& reported@ == message
            },
            HttpOverWsMessageView::HttpRequest(_, _) => handled is UnexpectedHttpRequest,
        }
    }
}

/// Handles a message that a client sent over the WebSocket, given as what decoding it as an
/// [HttpOverWsMessage] gave. A message that did not decode is none of this protocol: it is
/// turned down with [`HttpOverWsError::NotHttpOverWsType`], for the caller to treat it as a
/// message of its own. Every other message is handled, and what was done with it is
/// reported.
pub fn try_handle_http_over_ws_message<C>(
    state: &mut State<C>,
    proxy_principal: Principal,
    incoming_msg: Result<HttpOverWsMessage, String>,
) -> (handled: Result<HandledMessage<C>, HttpOverWsError>)
    requires
        old(state).wf(),
    ensures
        final(state).wf(),
        match incoming_msg {
            Ok(message) => {
                &&& final(state)@ == old(state)@.handle_message(proxy_principal, message@)
                &&& handled matches Ok(report)
                &&& old(state)@.is_handled(proxy_principal, message@, report)
            },
            Err(reason) => {
                &&& final(state)@ == old(state)@
                &&& handled matches Err(error)
                &&& error@ == HttpOverWsErrorView::NotHttpOverWsType(reason@)
            },
        },
{
    let incoming_msg = match incoming_msg {
        Ok(message) => message,
        Err(reason) => {
            return Err(HttpOverWsError::NotHttpOverWsType(reason));
        },
    };

    let handled = match incoming_msg {
        HttpOverWsMessage::SetupProxyClient => {
            state.add_proxy(proxy_principal);
            HandledMessage::ProxyConnected
        },
        HttpOverWsMessage::HttpResponse(request_id, response) => {
            handle_http_result(state, proxy_principal, request_id, HttpResult::Success(response))
        },
        HttpOverWsMessage::Error(request_id, err) => {
            if let Some(request_id) = request_id {
                handle_http_result(
                    state,
                    proxy_principal,
                    request_id,
                    HttpResult::Failure(HttpFailureReason::ProxyError(err)),
                )
            } else {
                HandledMessage::ProxyError(err)
            }
        },
        HttpOverWsMessage::HttpRequest(_, _) => HandledMessage::UnexpectedHttpRequest,
    };
    Ok(handled)
}

/// Lets the proxy with the given principal go. Its connections are abandoned, not
/// resolved: those that still wait go on waiting, and no proxy answers for them any more.
pub fn try_disconnect_http_proxy<C>(state: &mut State<C>, proxy_principal: Principal) -> (
    disconnected: Result<(), HttpOverWsError>)
    requires
        old(state).wf(),
    ensures
        final(state).wf(),
        final(state)@ == old(state)@.remove_proxy(proxy_principal),
        match disconnected {
            Ok(()) => super::model::is_connected(old(state)@.connected_proxies, proxy_principal),
            Err(error) => !super::model::is_connected(
                old(state)@.connected_proxies,
                proxy_principal,
            ) && error == HttpOverWsError::ProxyNotFound,
        },
{
    state.remove_proxy(&proxy_principal)
}

/// Delivers the result of a request from a proxy, and reports what came of it.
pub fn handle_http_result<C>(
    state: &mut State<C>,
    proxy_principal: Principal,
    request_id: HttpRequestId,
    http_result: HttpResult,
) -> (handled: HandledMessage<C>)
    requires
        old(state).wf(),
    ensures
        final(state).wf(),
        final(state)@ == old(state)@.update_connection_state(
            proxy_principal,
            request_id,
            http_result@,
        ),
        handled matches HandledMessage::ConnectionUpdated(id, outcome) && id == request_id
            && old(state)@.is_update_outcome(proxy_principal, request_id, http_result@, outcome),
{
    let outcome = state.update_connection_state(proxy_principal, request_id, http_result);
    HandledMessage::ConnectionUpdated(request_id, outcome)
}

/// Takes up a request: it gets the next id and is assigned to the proxy chosen for that id,
/// where it waits for its response. Handed back is what the caller has to send to the
/// proxy, and the timeout to arm a timer for. With no proxy connected the request is turned
/// down; its id is used up all the same.
pub fn execute_http_request<C>(
    state: &mut State<C>,
    req: HttpRequest,
    callback: Option<C>,
    timeout_ms: Option<HttpRequestTimeoutMs>,
) -> (dispatched: ExecuteHttpRequestResult)
    requires
        old(state).wf(),
        old(state)@.next_request_id < HttpRequestId::MAX,
    ensures
        final(state).wf(),
        final(state)@ == old(state)@.assign_connection(req@, callback),
        match dispatched {
            Ok(dispatch) => {
                &&& old(state)@.upcoming_proxy() == Some(dispatch.proxy_principal)
                &&& dispatch.request_id == old(state)@.upcoming_request_id()
                &&& dispatch.message@ == HttpOverWsMessageView::HttpRequest(
                    dispatch.request_id,
                    req@,
                )
                &&& dispatch.timeout_ms == timeout_ms
            },
            Err(error) => {
                &&& old(state)@.upcoming_proxy() is None
                &&& error == HttpOverWsError::NoProxiesConnected
            },
        },
{
    match state.assign_connection(req.clone(), callback) {
        Ok((proxy_principal, request_id)) => Ok(
            HttpRequestDispatch {
                request_id,
                proxy_principal,
                message: HttpOverWsMessage::HttpRequest(request_id, req),
                timeout_ms,
            },
        ),
        Err(error) => Err(error),
    }
}

/// Lets all connected proxies go. Their connections are abandoned: those that still wait
/// go on waiting, and no proxy answers for them any more. Handed back are the principals of
/// the proxies that were connected, in their order.
pub fn disconnect_all_connected_proxies<C>(state: &mut State<C>) -> (proxies: Vec<Principal>)
    requires
        old(state).wf(),
    ensures
        final(state).wf(),
        final(state)@ == old(state)@.remove_all_proxies(),
        proxies@ == old(state)@.principals(),
{
    let proxies = state.get_connected_proxies();
    state.remove_all_proxies();
    proxies
}

/// The request with the given id, if one was assigned under it.
pub fn get_http_connection<C>(state: &State<C>, request_id: HttpRequestId) -> (request: Option<
    HttpRequest,
>)
    ensures
        match request {
            Some(request) => state@.get_http_connection(request_id) == Some(request@),
            None => state@.get_http_connection(request_id) is None,
        },
{
    state.get_http_connection(request_id)
}

/// The response to the request with the given id: the result with which it succeeded; else
/// the reason for which it failed, that it has not been answered yet, or that no request
/// was assigned under the id. This is so whether the proxy of the request is still
/// connected or not.
pub fn get_http_response<C>(state: &State<C>, request_id: HttpRequestId) -> (response:
    GetHttpResponseResult)
    ensures
        response_view(response) == state@.get_http_response(request_id),
{
    state.get_http_response(request_id)
}

} // verus!
