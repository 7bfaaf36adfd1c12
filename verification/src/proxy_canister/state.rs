use crate::http_over_ws::http_connection::HttpRequestId;
use crate::proxy_canister_types::{
    CanisterCallbackMethodName, CanisterId, CanisterRequest, CanisterRequestView,
    RequestStateView,
};
use std::collections::HashMap;
use vstd::prelude::*;

verus! {

/// The requests that canisters have made through the proxy canister, by request id.
pub struct ProxyState {
    requests: HashMap<HttpRequestId, CanisterRequest>,
}

impl View for ProxyState {
    type V = Map<HttpRequestId, CanisterRequestView>;

    closed spec fn view(&self) -> Map<HttpRequestId, CanisterRequestView> {
        self.requests@.map_values(|request: CanisterRequest| request@)
    }
}

/// The record of a request that the given canister has just made, with the callback method
/// to call once it is executed, if any.
pub open spec fn started_request(
    canister_id: CanisterId,
    callback_method_name: Option<CanisterCallbackMethodName>,
) -> CanisterRequestView {
    CanisterRequestView {
        canister_id,
        state: RequestStateView::Executing(
            match callback_method_name {
                Some(method_name) => Some(method_name@),
                None => None,
            },
        ),
    }
}

/// The requests after the one with the given id has been moved to the given state; the same
/// requests where there is none with that id.
pub open spec fn with_request_state(
    requests: Map<HttpRequestId, CanisterRequestView>,
    request_id: HttpRequestId,
    state: RequestStateView,
) -> Map<HttpRequestId, CanisterRequestView> {
    if requests.contains_key(request_id) {
        requests.insert(
            request_id,
            CanisterRequestView { canister_id: requests[request_id].canister_id, state },
        )
    } else {
        requests
    }
}

impl ProxyState {
    pub fn new() -> (state: Self)
        ensures
            state@ == Map::<HttpRequestId, CanisterRequestView>::empty(),
    {
        Self { requests: HashMap::new() }
    }

    /// Records that the canister has made the request with the given id, which is now being
    /// executed. A request that is recorded already stays as it is.
    pub fn start_request_for_canister(
        &mut self,
        canister_id: CanisterId,
        request_id: HttpRequestId,
        callback_method_name: Option<CanisterCallbackMethodName>,
    )
        ensures
            final(self)@ == if old(self)@.contains_key(request_id) {
                old(self)@
            } else {
                old(self)@.insert(request_id, started_request(canister_id, callback_method_name))
            },
    {
        if !self.requests.contains_key(&request_id) {
            let request = CanisterRequest::new(canister_id, callback_method_name);
            self.requests.insert(request_id, request);
        }
    }

    /// The record of the request with the given id, if there is one.
    pub fn get_request_state(&self, request_id: HttpRequestId) -> (request: Option<
        CanisterRequest,
    >)
        ensures
            match request {
                Some(request) => self@.contains_key(request_id) && request@ == self@[request_id],
                None => !self@.contains_key(request_id),
            },
    {
        match self.requests.get(&request_id) {
            Some(request) => Some(request.clone()),
            None => None,
        }
    }

    /// Marks the request with the given id as executed, if it is recorded.
    pub fn set_request_executed(&mut self, request_id: HttpRequestId)
        ensures
            final(self)@ == with_request_state(
                old(self)@,
                request_id,
                RequestStateView::Executed,
            ),
    {
        match self.requests.remove(&request_id) {
            Some(mut request) => {
                request.set_executed();
                self.requests.insert(request_id, request);
            },
            None => {},
        }
    }

    /// Marks the request with the given id, if it is recorded, as one whose callback failed
    /// for the given reason.
    pub fn set_request_failed(&mut self, request_id: HttpRequestId, reason: String)
        ensures
            final(self)@ == with_request_state(
                old(self)@,
                request_id,
                RequestStateView::CallbackFailed(reason@),
            ),
    {
        match self.requests.remove(&request_id) {
            Some(mut request) => {
                request.set_failed(reason);
                self.requests.insert(request_id, request);
            },
            None => {},
        }
    }
}

} // verus!
