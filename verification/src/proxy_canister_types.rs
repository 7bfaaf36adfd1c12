use crate::http_over_ws::http_connection::{
    HttpOverWsError, HttpOverWsErrorView, HttpRequest, HttpRequestId, HttpRequestTimeoutMs,
    HttpRequestView,
};
use candid::Principal;
use vstd::prelude::*;

verus! {

pub type CanisterId = Principal;

pub type CanisterCallbackMethodName = String;

#[derive(Debug, PartialEq, Eq)]
pub struct HttpRequestEndpointArgs {
    pub request: HttpRequest,
    pub timeout_ms: Option<HttpRequestTimeoutMs>,
    pub callback_method_name: Option<CanisterCallbackMethodName>,
}

pub type HttpRequestEndpointResult = Result<HttpRequestId, ProxyCanisterError>;

#[derive(Debug, PartialEq, Eq)]
pub enum ProxyCanisterError {
    InvalidRequest(InvalidRequest),
    HttpOverWs(HttpOverWsError),
}

pub enum ProxyCanisterErrorView {
    InvalidRequest(InvalidRequestView),
    HttpOverWs(HttpOverWsErrorView),
}

impl View for ProxyCanisterError {
    type V = ProxyCanisterErrorView;

    open spec fn view(&self) -> ProxyCanisterErrorView {
        match self {
            ProxyCanisterError::InvalidRequest(error) => ProxyCanisterErrorView::InvalidRequest(
                error@,
            ),
            ProxyCanisterError::HttpOverWs(error) => ProxyCanisterErrorView::HttpOverWs(error@),
        }
    }
}

#[derive(Debug, PartialEq, Eq)]
pub enum InvalidRequest {
    InvalidUrl(String),
    TooManyHeaders,
    InvalidTimeout,
}

pub enum InvalidRequestView {
    InvalidUrl(Seq<char>),
    TooManyHeaders,
    InvalidTimeout,
}

impl View for InvalidRequest {
    type V = InvalidRequestView;

    open spec fn view(&self) -> InvalidRequestView {
        match self {
            InvalidRequest::InvalidUrl(reason) => InvalidRequestView::InvalidUrl(reason@),
            InvalidRequest::TooManyHeaders => InvalidRequestView::TooManyHeaders,
            InvalidRequest::InvalidTimeout => InvalidRequestView::InvalidTimeout,
        }
    }
}

#[derive(Debug, PartialEq, Eq)]
pub enum RequestState {
    /// Used to indicate that the request is being executed.
    Executing(Option<CanisterCallbackMethodName>),
    /// Used to indicate that the request has been executed.
    ///
    /// Note: a request that resulted in a failure will still be in this state,
    /// because from the proxy canister perspective, the request has been executed.
    Executed,
    /// Used to indicate that the proxy canister failed to call the callback method
    /// on the user canister.
    CallbackFailed(String),
}

pub enum RequestStateView {
    Executing(Option<Seq<char>>),
    Executed,
    CallbackFailed(Seq<char>),
}

impl View for RequestState {
    type V = RequestStateView;

    open spec fn view(&self) -> RequestStateView {
        match self {
            RequestState::Executing(Some(method_name)) => RequestStateView::Executing(
                Some(method_name@),
            ),
            RequestState::Executing(None) => RequestStateView::Executing(None),
            RequestState::Executed => RequestStateView::Executed,
            RequestState::CallbackFailed(reason) => RequestStateView::CallbackFailed(reason@),
        }
    }
}

impl Clone for RequestState {
    fn clone(&self) -> (copy: Self)
        ensures
            copy@ == self@,
    {
        match self {
            RequestState::Executing(Some(method_name)) => RequestState::Executing(
                Some(method_name.clone()),
            ),
            RequestState::Executing(None) => RequestState::Executing(None),
            RequestState::Executed => RequestState::Executed,
            RequestState::CallbackFailed(reason) => RequestState::CallbackFailed(reason.clone()),
        }
    }
}

#[derive(Debug, PartialEq, Eq)]
pub struct CanisterRequest {
    pub canister_id: CanisterId,
    pub state: RequestState,
}

pub struct CanisterRequestView {
    pub canister_id: CanisterId,
    pub state: RequestStateView,
}

impl View for CanisterRequest {
    type V = CanisterRequestView;

    open spec fn view(&self) -> CanisterRequestView {
        CanisterRequestView { canister_id: self.canister_id, state: self.state@ }
    }
}

impl Clone for CanisterRequest {
    fn clone(&self) -> (copy: Self)
        ensures
            copy@ == self@,
    {
        CanisterRequest { canister_id: self.canister_id, state: self.state.clone() }
    }
}

impl CanisterRequest {
    pub fn new(
        canister_id: CanisterId,
        callback_method_name: Option<CanisterCallbackMethodName>,
    ) -> (request: Self)
        ensures
            request.canister_id == canister_id,
            request.state == RequestState::Executing(callback_method_name),
    {
        Self { canister_id, state: RequestState::Executing(callback_method_name) }
    }

    pub fn set_executed(&mut self)
        ensures
            final(self).canister_id == old(self).canister_id,
            final(self).state == RequestState::Executed,
    {
        self.state = RequestState::Executed;
    }

    pub fn set_failed(&mut self, reason: String)
        ensures
            final(self).canister_id == old(self).canister_id,
            final(self).state == RequestState::CallbackFailed(reason),
    {
        self.state = RequestState::CallbackFailed(reason);
    }
}

} // verus!
