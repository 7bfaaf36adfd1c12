use super::ic::clear_timer;
use ic_cdk::api::management_canister::http_request::{HttpHeader, HttpResponse};
use ic_cdk_timers::TimerId;
use vstd::prelude::*;

verus! {

pub type HttpRequestId = u64;

pub type HttpRequestTimeoutMs = u64;

pub type GetHttpResponseResult = Result<HttpResult, HttpOverWsError>;

/// A callback together with the result it has to be invoked with.
pub type HttpCallbackWithResult<C> = (C, HttpResult);

#[derive(Clone, Copy, Debug, PartialEq, Eq)]
pub enum HttpMethod {
    GET,
    POST,
    PUT,
    HEAD,
    DELETE,
}

#[derive(Debug, PartialEq, Eq)]
pub struct HttpRequest {
    pub url: String,
    pub method: HttpMethod,
    pub headers: Vec<HttpHeader>,
    pub body: Option<Vec<u8>>,
}

pub struct HttpRequestView {
    pub url: Seq<char>,
    pub method: HttpMethod,
    pub headers: Seq<HttpHeader>,
    pub body: Option<Seq<u8>>,
}

impl View for HttpRequest {
    type V = HttpRequestView;

    open spec fn view(&self) -> HttpRequestView {
        HttpRequestView {
            url: self.url@,
            method: self.method,
            headers: self.headers@,
            body: match self.body {
                Some(bytes) => Some(bytes@),
                None => None,
            },
        }
    }
}

impl Clone for HttpRequest {
    fn clone(&self) -> (copy: Self)
        ensures
            copy@ == self@,
    {
        let body = match &self.body {
            Some(bytes) => Some(bytes.clone()),
            None => None,
        };
        HttpRequest {
            url: self.url.clone(),
            method: self.method,
            headers: self.headers.clone(),
            body,
        }
    }
}

impl HttpRequest {
    pub fn new(
        url: &str,
        method: HttpMethod,
        headers: Vec<HttpHeader>,
        body: Option<Vec<u8>>,
    ) -> (request: Self)
        ensures
            request.url@ == url@,
            request.method == method,
            request.headers == headers,
            request.body == body,
    {
        HttpRequest { url: url.to_owned(), method, headers, body }
    }
}

#[derive(Debug, PartialEq, Eq)]
pub enum HttpFailureReason {
    RequestTimeout,
    ProxyError(String),
}

pub enum HttpFailureReasonView {
    RequestTimeout,
    ProxyError(Seq<char>),
}

impl View for HttpFailureReason {
    type V = HttpFailureReasonView;

    open spec fn view(&self) -> HttpFailureReasonView {
        match self {
            HttpFailureReason::RequestTimeout => HttpFailureReasonView::RequestTimeout,
            HttpFailureReason::ProxyError(message) => HttpFailureReasonView::ProxyError(message@),
        }
    }
}

impl Clone for HttpFailureReason {
    fn clone(&self) -> (copy: Self)
        ensures
            copy@ == self@,
    {
        match self {
            HttpFailureReason::RequestTimeout => HttpFailureReason::RequestTimeout,
            HttpFailureReason::ProxyError(message) => HttpFailureReason::ProxyError(
                message.clone(),
            ),
        }
    }
}

#[derive(Debug, PartialEq, Eq)]
pub enum HttpResult {
    Success(HttpResponse),
    Failure(HttpFailureReason),
}

pub enum HttpResultView {
    Success(HttpResponse),
    Failure(HttpFailureReasonView),
}

impl View for HttpResult {
    type V = HttpResultView;

    open spec fn view(&self) -> HttpResultView {
        match self {
            HttpResult::Success(response) => HttpResultView::Success(*response),
            HttpResult::Failure(reason) => HttpResultView::Failure(reason@),
        }
    }
}

impl Clone for HttpResult {
    fn clone(&self) -> (copy: Self)
        ensures
            copy@ == self@,
    {
        match self {
            HttpResult::Success(response) => HttpResult::Success(response.clone()),
            HttpResult::Failure(reason) => HttpResult::Failure(reason.clone()),
        }
    }
}

/// The messages exchanged with a proxy over the WebSocket.
#[derive(Debug, PartialEq, Eq)]
pub enum HttpOverWsMessage {
    SetupProxyClient,
    HttpRequest(HttpRequestId, HttpRequest),
    HttpResponse(HttpRequestId, HttpResponse),
    Error(Option<HttpRequestId>, String),
}

pub enum HttpOverWsMessageView {
    SetupProxyClient,
    HttpRequest(HttpRequestId, HttpRequestView),
    HttpResponse(HttpRequestId, HttpResponse),
    Error(Option<HttpRequestId>, Seq<char>),
}

impl View for HttpOverWsMessage {
    type V = HttpOverWsMessageView;

    open spec fn view(&self) -> HttpOverWsMessageView {
        match self {
            HttpOverWsMessage::SetupProxyClient => HttpOverWsMessageView::SetupProxyClient,
            HttpOverWsMessage::HttpRequest(id, request) => HttpOverWsMessageView::HttpRequest(
                *id,
                request@,
            ),
            HttpOverWsMessage::HttpResponse(id, response) => HttpOverWsMessageView::HttpResponse(
                *id,
                *response,
            ),
            HttpOverWsMessage::Error(id, message) => HttpOverWsMessageView::Error(*id, message@),
        }
    }
}

#[derive(Debug, PartialEq, Eq)]
pub enum HttpOverWsError {
    /// The message is not an HttpOverWsMessage, therefore the on_message callback given to the IC WS cdk
    /// should try to parse it as its own message type.
    NotHttpOverWsType(String),
    /// The message is an HttpOverWsMessage, however it is not what it is expected to be.
    InvalidHttpMessage,
    ProxyNotFound,
    RequestIdNotFound,
    NotYetReceived,
    NoProxiesConnected,
    ConnectionNotAssignedToProxy,
    RequestFailed(HttpFailureReason),
}

pub enum HttpOverWsErrorView {
    NotHttpOverWsType(Seq<char>),
    InvalidHttpMessage,
    ProxyNotFound,
    RequestIdNotFound,
    NotYetReceived,
    NoProxiesConnected,
    ConnectionNotAssignedToProxy,
    RequestFailed(HttpFailureReasonView),
}

impl View for HttpOverWsError {
    type V = HttpOverWsErrorView;

    open spec fn view(&self) -> HttpOverWsErrorView {
        match self {
            HttpOverWsError::NotHttpOverWsType(reason) => HttpOverWsErrorView::NotHttpOverWsType(
                reason@,
            ),
            HttpOverWsError::InvalidHttpMessage => HttpOverWsErrorView::InvalidHttpMessage,
            HttpOverWsError::ProxyNotFound => HttpOverWsErrorView::ProxyNotFound,
            HttpOverWsError::RequestIdNotFound => HttpOverWsErrorView::RequestIdNotFound,
            HttpOverWsError::NotYetReceived => HttpOverWsErrorView::NotYetReceived,
            HttpOverWsError::NoProxiesConnected => HttpOverWsErrorView::NoProxiesConnected,
            HttpOverWsError::ConnectionNotAssignedToProxy => {
                HttpOverWsErrorView::ConnectionNotAssignedToProxy
            },
            HttpOverWsError::RequestFailed(reason) => HttpOverWsErrorView::RequestFailed(reason@),
        }
    }
}

/// What `get_http_response` reports, as a value of the model.
pub type ResponseView = Result<HttpResultView, HttpOverWsErrorView>;

/// The model of a `GetHttpResponseResult`.
pub open spec fn response_view(response: GetHttpResponseResult) -> ResponseView {
    match response {
        Ok(result) => Ok(result@),
        Err(error) => Err(error@),
    }
}

/// The model of the callback that a resolution hands out, with its result.
pub open spec fn callback_view<C>(callback: Option<HttpCallbackWithResult<C>>) -> Option<
    (C, HttpResultView),
> {
    match callback {
        Some((callback, result)) => Some((callback, result@)),
        None => None,
    }
}

/// The lifecycle of a connection: it waits for its response, holding the timer that guards
/// it and the callback to invoke, until it is resolved once and for all.
pub enum HttpConnectionState<C> {
    WaitingForResponse((Option<TimerId>, Option<C>)),
    Failed(HttpFailureReason),
    Success(HttpResponse),
}

pub enum HttpConnectionStateView<C> {
    WaitingForResponse(Option<TimerId>, Option<C>),
    Failed(HttpFailureReasonView),
    Success(HttpResponse),
}

impl<C> View for HttpConnectionState<C> {
    type V = HttpConnectionStateView<C>;

    open spec fn view(&self) -> HttpConnectionStateView<C> {
        match self {
            HttpConnectionState::WaitingForResponse((timer_id, callback)) => {
                HttpConnectionStateView::WaitingForResponse(*timer_id, *callback)
            },
            HttpConnectionState::Failed(reason) => HttpConnectionStateView::Failed(reason@),
            HttpConnectionState::Success(response) => HttpConnectionStateView::Success(*response),
        }
    }
}

impl<C> HttpConnectionState<C> {
    pub fn new(timer_id: Option<TimerId>, callback: Option<C>) -> (state: Self)
        ensures
            state@ == HttpConnectionStateView::WaitingForResponse(timer_id, callback),
    {
        HttpConnectionState::WaitingForResponse((timer_id, callback))
    }
}

impl<C> HttpConnectionStateView<C> {
    /// The terminal state that a result leads to.
    pub open spec fn resolved(result: HttpResultView) -> Self {
        match result {
            HttpResultView::Success(response) => HttpConnectionStateView::Success(response),
            HttpResultView::Failure(reason) => HttpConnectionStateView::Failed(reason),
        }
    }

    /// The state after a result has arrived: a waiting connection is resolved by it, a
    /// resolved one stays as it is.
    pub open spec fn update(self, result: HttpResultView) -> Self {
        match self {
            HttpConnectionStateView::WaitingForResponse(_, _) => Self::resolved(result),
            _ => self,
        }
    }

    /// The callback that the arrival of a result releases, with that result: the one of a
    /// waiting connection, none once the connection is resolved.
    pub open spec fn released_callback(self, result: HttpResultView) -> Option<
        (C, HttpResultView),
    > {
        match self {
            HttpConnectionStateView::WaitingForResponse(_, Some(callback)) => Some(
                (callback, result),
            ),
            _ => None,
        }
    }

    /// The timer that the arrival of a result makes useless: the one that guards a waiting
    /// connection, none once the connection is resolved.
    pub open spec fn released_timer(self) -> Option<TimerId> {
        match self {
            HttpConnectionStateView::WaitingForResponse(timer_id, _) => timer_id,
            _ => None,
        }
    }

    /// The state after a timer has been armed for the connection: a waiting connection
    /// holds the new timer, a resolved one stays as it is.
    pub open spec fn with_timer(self, timer_id: TimerId) -> Self {
        match self {
            HttpConnectionStateView::WaitingForResponse(_, callback) => {
                HttpConnectionStateView::WaitingForResponse(Some(timer_id), callback)
            },
            _ => self,
        }
    }

    /// The timer that arming a new one makes useless: the one it replaces in a waiting
    /// connection, the new one itself where the connection is already resolved.
    pub open spec fn superseded_timer(self, timer_id: TimerId) -> Option<TimerId> {
        match self {
            HttpConnectionStateView::WaitingForResponse(previous, _) => previous,
            _ => Some(timer_id),
        }
    }

    /// What a query for the response reports.
    pub open spec fn response(self) -> ResponseView {
        match self {
            HttpConnectionStateView::WaitingForResponse(_, _) => Err(
                HttpOverWsErrorView::NotYetReceived,
            ),
            HttpConnectionStateView::Failed(reason) => Err(
                HttpOverWsErrorView::RequestFailed(reason),
            ),
            HttpConnectionStateView::Success(response) => Ok(HttpResultView::Success(response)),
        }
    }
}

pub struct HttpConnection<C> {
    id: HttpRequestId,
    request: HttpRequest,
    state: HttpConnectionState<C>,
}

pub struct HttpConnectionView<C> {
    pub id: HttpRequestId,
    pub request: HttpRequestView,
    pub state: HttpConnectionStateView<C>,
}

impl<C> View for HttpConnection<C> {
    type V = HttpConnectionView<C>;

    closed spec fn view(&self) -> HttpConnectionView<C> {
        HttpConnectionView { id: self.id, request: self.request@, state: self.state@ }
    }
}

impl<C> HttpConnectionView<C> {
    pub open spec fn update(self, result: HttpResultView) -> Self {
        HttpConnectionView { state: self.state.update(result), ..self }
    }

    pub open spec fn with_timer(self, timer_id: TimerId) -> Self {
        HttpConnectionView { state: self.state.with_timer(timer_id), ..self }
    }
}

impl<C> HttpConnection<C> {
    pub fn new(
        id: HttpRequestId,
        request: HttpRequest,
        callback: Option<C>,
        timer_id: Option<TimerId>,
    ) -> (connection: Self)
        ensures
            connection@ == (HttpConnectionView {
                id,
                request: request@,
                state: HttpConnectionStateView::WaitingForResponse(timer_id, callback),
            }),
    {
        HttpConnection { id, request, state: HttpConnectionState::new(timer_id, callback) }
    }

    pub fn get_request(&self) -> (request: HttpRequest)
        ensures
            request@ == self@.request,
    {
        self.request.clone()
    }

    pub fn get_response(&self) -> (response: GetHttpResponseResult)
        ensures
            response_view(response) == self@.state.response(),
    {
        match &self.state {
            HttpConnectionState::WaitingForResponse(_) => Err(HttpOverWsError::NotYetReceived),
            HttpConnectionState::Failed(reason) => Err(
                HttpOverWsError::RequestFailed(reason.clone()),
            ),
            HttpConnectionState::Success(response) => Ok(HttpResult::Success(response.clone())),
        }
    }

    /// Resolves the connection with the result, if it is still waiting. Handed out are its
    /// callback with the result, to be invoked, and the timer that guarded it, to be
    /// cleared. A connection that is already resolved keeps its state, and nothing is
    /// handed out.
    pub fn resolve(&mut self, http_result: HttpResult) -> (released: (
        Option<HttpCallbackWithResult<C>>,
        Option<TimerId>,
    ))
        ensures
            final(self)@ == old(self)@.update(http_result@),
            callback_view(released.0) == old(self)@.state.released_callback(http_result@),
            released.1 == old(self)@.state.released_timer(),
    {
        let mut state = HttpConnectionState::Failed(HttpFailureReason::RequestTimeout);
        core::mem::swap(&mut self.state, &mut state);
        match state {
            HttpConnectionState::WaitingForResponse((timer_id, callback)) => {
                let callback_with_result = match callback {
                    Some(callback) => Some((callback, http_result.clone())),
                    None => None,
                };
                self.state = match http_result {
                    HttpResult::Success(response) => HttpConnectionState::Success(response),
                    HttpResult::Failure(reason) => HttpConnectionState::Failed(reason),
                };
                (callback_with_result, timer_id)
            },
            resolved => {
                self.state = resolved;
                (None, None)
            },
        }
    }

    /// Resolves the connection with the result, if it is still waiting: its timer is
    /// cleared, and its callback is handed out with the result, to be invoked by the caller.
    /// A connection that is already resolved keeps its state, and nothing is handed out.
    pub fn update_state(&mut self, http_result: HttpResult) -> (callback_with_result: Option<
        HttpCallbackWithResult<C>,
    >)
        ensures
            final(self)@ == old(self)@.update(http_result@),
            callback_view(callback_with_result) == old(self)@.state.released_callback(
                http_result@,
            ),
    {
        let (callback_with_result, released_timer) = self.resolve(http_result);
        // the connection is resolved, clear the timer if it was set
        if let Some(timer_id) = released_timer {
            clear_timer(timer_id);
        }
        callback_with_result
    }

    /// Records the timer that was armed for the connection. Handed back is the timer that
    /// has thereby become useless, for the caller to clear: the one that was recorded
    /// before, or the new one itself where the connection is already resolved.
    pub fn set_timer(&mut self, timer_id: TimerId) -> (superseded: Option<TimerId>)
        ensures
            final(self)@ == old(self)@.with_timer(timer_id),
            superseded == old(self)@.state.superseded_timer(timer_id),
    {
        let mut state = HttpConnectionState::Failed(HttpFailureReason::RequestTimeout);
        core::mem::swap(&mut self.state, &mut state);
        match state {
            HttpConnectionState::WaitingForResponse((previous, callback)) => {
                self.state = HttpConnectionState::WaitingForResponse((Some(timer_id), callback));
                previous
            },
            resolved => {
                self.state = resolved;
                Some(timer_id)
            },
        }
    }
}

} // verus!
