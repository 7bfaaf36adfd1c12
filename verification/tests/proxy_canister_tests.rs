use candid::{Nat, Principal};
use ic_http_proxy::http_over_ws::{
    disconnect_all_connected_proxies, http_connection_timeout, try_disconnect_http_proxy,
    try_handle_http_over_ws_message, HandledMessage, HttpFailureReason, HttpHeader, HttpMethod,
    HttpOverWsError, HttpOverWsMessage, HttpRequest, HttpRequestId, HttpResponse, HttpResult,
    State,
};
use ic_http_proxy::logger::{get_logs, log, Logger};
use ic_http_proxy::proxy_canister::state::ProxyState;
use ic_http_proxy::proxy_canister::{
    http_request, http_request_callback, http_request_callback_called, HttpRequestCallback,
};
use ic_http_proxy::proxy_canister_types::{
    CanisterRequest, HttpRequestEndpointArgs, HttpRequestEndpointResult, InvalidRequest,
    ProxyCanisterError, RequestState,
};
use std::collections::HashMap;

const TEST_URL: &str = "https://example.com/";

/// The canister that makes requests through the proxy canister, and is called back.
struct TestUserCanister {
    canister_id: Principal,
    callback_results: HashMap<HttpRequestId, HttpResult>,
}

impl TestUserCanister {
    /// A call of one of the canister's methods with the result of a request.
    fn call(&mut self, method_name: &str, request_id: HttpRequestId, res: HttpResult) -> Result<(), String> {
        match method_name {
            "http_response_callback" => {
                self.callback_results.insert(request_id, res);
                Ok(())
            }
            "http_response_callback_traps" => Err(format!(
                "(CanisterError, \"trapped explicitly: request_id: {}\")",
                request_id
            )),
            "http_response_callback_wrong_args" => {
                Err(String::from("(CanisterError, \"failed to decode call arguments\")"))
            }
            _ => Err(format!(
                "(DestinationInvalid, \"no update method '{}'\")",
                method_name
            )),
        }
    }
}

/// A timer that the proxy canister has armed.
struct ArmedTimer {
    fires_at_ms: u64,
    proxy_principal: Principal,
    request_id: HttpRequestId,
    fired: bool,
}

/// The callback that the proxy canister hands over with every request: once released, the
/// canister that made the request is called back.
#[derive(Debug, PartialEq, Eq)]
struct CallBackCanister;

/// The proxy canister and the canister that uses it, with the WebSocket and the timers that
/// surround them.
struct TestEnv {
    http_over_ws_state: State<CallBackCanister>,
    proxy_state: ProxyState,
    logger: Logger,
    now_ms: u64,
    timers: Vec<ArmedTimer>,
    sent: Vec<(Principal, HttpOverWsMessage)>,
    user_canister: TestUserCanister,
}

impl TestEnv {
    fn new() -> Self {
        TestEnv {
            http_over_ws_state: State::new(),
            proxy_state: ProxyState::new(),
            logger: Logger::new(),
            now_ms: 1_700_000_000_000,
            timers: Vec::new(),
            sent: Vec::new(),
            user_canister: TestUserCanister {
                canister_id: Principal::from_slice(&[7, 7, 7]),
                callback_results: HashMap::new(),
            },
        }
    }

    fn log(&mut self, message: &str) {
        log(&mut self.logger, self.now_ms * 1_000_000, message);
    }

    fn call_http_request_via_proxy(
        &mut self,
        args: HttpRequestEndpointArgs,
    ) -> HttpRequestEndpointResult {
        assert!(self.http_over_ws_state.last_request_id() < u64::MAX);
        let canister_id = self.user_canister.canister_id;
        let started = http_request(
            &mut self.http_over_ws_state,
            &mut self.proxy_state,
            canister_id,
            args,
            CallBackCanister,
        );
        match started {
            Ok(dispatch) => {
                if let Some(timeout_ms) = dispatch.timeout_ms {
                    self.timers.push(ArmedTimer {
                        fires_at_ms: self.now_ms + timeout_ms,
                        proxy_principal: dispatch.proxy_principal,
                        request_id: dispatch.request_id,
                        fired: false,
                    });
                }
                self.sent.push((dispatch.proxy_principal, dispatch.message));
                self.log(&format!(
                    "[http_request]: request_id:{}, started",
                    dispatch.request_id
                ));
                Ok(dispatch.request_id)
            }
            Err(error) => {
                self.log("[http_request]: request turned down");
                Err(error)
            }
        }
    }

    fn run_http_request_callback(&mut self, request_id: HttpRequestId, res: HttpResult) {
        match http_request_callback(&mut self.proxy_state, request_id) {
            HttpRequestCallback::CallCanister(canister_id, method_name) => {
                assert_eq!(canister_id, self.user_canister.canister_id);
                let called = self.user_canister.call(&method_name, request_id, res);
                http_request_callback_called(&mut self.proxy_state, request_id, called);
            }
            HttpRequestCallback::Executed(_)
            | HttpRequestCallback::AlreadyExecuted(_)
            | HttpRequestCallback::RequestNotFound => {}
        }
    }

    fn on_message(&mut self, proxy_principal: Principal, message: HttpOverWsMessage) {
        let handled = try_handle_http_over_ws_message(
            &mut self.http_over_ws_state,
            proxy_principal,
            Ok(message),
        );
        if let Ok(HandledMessage::ConnectionUpdated(request_id, Ok(Some((CallBackCanister, res))))) =
            handled
        {
            self.run_http_request_callback(request_id, res);
        }
    }

    fn advance_canister_time_ms(&mut self, ms: u64) {
        self.now_ms += ms;
        for index in 0..self.timers.len() {
            if !self.timers[index].fired && self.timers[index].fires_at_ms <= self.now_ms {
                self.timers[index].fired = true;
                let proxy_principal = self.timers[index].proxy_principal;
                let request_id = self.timers[index].request_id;
                let released = http_connection_timeout(
                    &mut self.http_over_ws_state,
                    proxy_principal,
                    request_id,
                );
                if let Some((CallBackCanister, res)) = released {
                    self.run_http_request_callback(request_id, res);
                }
            }
        }
    }

    fn call_disconnect_all_proxies(&mut self) {
        for proxy_principal in self.http_over_ws_state.get_connected_proxies() {
            let _ = try_disconnect_http_proxy(&mut self.http_over_ws_state, proxy_principal);
        }
        disconnect_all_connected_proxies(&mut self.http_over_ws_state);
    }

    fn query_get_request_by_id(&self, request_id: HttpRequestId) -> Option<CanisterRequest> {
        self.proxy_state.get_request_state(request_id)
    }

    fn query_get_logs(&self) -> Vec<(String, String)> {
        get_logs(&self.logger)
    }

    fn query_get_callback_results(&self) -> HashMap<HttpRequestId, HttpResult> {
        self.user_canister.callback_results.clone()
    }
}

/// A proxy at the other end of the WebSocket.
struct ProxyClient {
    principal: Principal,
}

impl ProxyClient {
    fn new(id: u8) -> Self {
        ProxyClient {
            principal: Principal::from_slice(&[id, 1]),
        }
    }

    fn setup_proxy(&self, test_env: &mut TestEnv) {
        self.send_http_over_ws_message(test_env, HttpOverWsMessage::SetupProxyClient);
    }

    fn send_http_over_ws_message(&self, test_env: &mut TestEnv, message: HttpOverWsMessage) {
        test_env.on_message(self.principal, message);
    }

    fn get_http_over_ws_messages(&self, test_env: &mut TestEnv) -> Vec<HttpOverWsMessage> {
        let mut messages = Vec::new();
        let mut others = Vec::new();
        for (receiver, message) in test_env.sent.drain(..) {
            if receiver == self.principal {
                messages.push(message);
            } else {
                others.push((receiver, message));
            }
        }
        test_env.sent = others;
        messages
    }

    fn expect_received_http_requests_count(&self, test_env: &mut TestEnv, count: usize) {
        let messages = self.get_http_over_ws_messages(test_env);

        assert_eq!(messages.len(), count);

        for msg in messages {
            assert!(matches!(msg, HttpOverWsMessage::HttpRequest(..)));
        }
    }
}

#[test]
fn test_http_request_invalid() {
    let mut test_env = TestEnv::new();
    let proxy_client = ProxyClient::new(1);

    proxy_client.setup_proxy(&mut test_env);

    // invalid url
    let res = test_env.call_http_request_via_proxy(HttpRequestEndpointArgs {
        request: HttpRequest {
            url: String::from("invalid url"),
            method: HttpMethod::GET,
            headers: vec![],
            body: None,
        },
        timeout_ms: None,
        callback_method_name: None,
    });
    assert_eq!(
        res,
        Err(ProxyCanisterError::InvalidRequest(
            InvalidRequest::InvalidUrl("relative URL without a base".to_string())
        )),
    );
    proxy_client.expect_received_http_requests_count(&mut test_env, 0);

    // too many headers
    let res = test_env.call_http_request_via_proxy(HttpRequestEndpointArgs {
        request: HttpRequest {
            url: TEST_URL.to_string(),
            method: HttpMethod::GET,
            // more headers than the maximum allowed
            headers: (0..60)
                .map(|i| HttpHeader {
                    name: format!("name_{}", i),
                    value: format!("value_{}", i),
                })
                .collect(),
            body: None,
        },
        timeout_ms: None,
        callback_method_name: None,
    });
    assert_eq!(
        res,
        Err(ProxyCanisterError::InvalidRequest(
            InvalidRequest::TooManyHeaders
        ))
    );
    proxy_client.expect_received_http_requests_count(&mut test_env, 0);

    // invalid timeouts
    let res = test_env.call_http_request_via_proxy(HttpRequestEndpointArgs {
        request: HttpRequest {
            url: TEST_URL.to_string(),
            method: HttpMethod::GET,
            headers: vec![],
            body: None,
        },
        timeout_ms: Some(0), // less than the min
        callback_method_name: None,
    });
    assert_eq!(
        res,
        Err(ProxyCanisterError::InvalidRequest(
            InvalidRequest::InvalidTimeout
        )),
    );
    proxy_client.expect_received_http_requests_count(&mut test_env, 0);

    let res = test_env.call_http_request_via_proxy(HttpRequestEndpointArgs {
        request: HttpRequest {
            url: TEST_URL.to_string(),
            method: HttpMethod::GET,
            headers: vec![],
            body: None,
        },
        timeout_ms: Some(70_000), // more than the max
        callback_method_name: None,
    });
    assert_eq!(
        res,
        Err(ProxyCanisterError::InvalidRequest(
            InvalidRequest::InvalidTimeout
        )),
    );
    proxy_client.expect_received_http_requests_count(&mut test_env, 0);
}

fn check_wrong_callback(callback_name: &str, proxy_client: &ProxyClient, test_env: &mut TestEnv) {
    let test_canister_id = test_env.user_canister.canister_id;

    println!("testing callback: {}", callback_name);

    let request_id1 = test_env
        .call_http_request_via_proxy(HttpRequestEndpointArgs {
            request: HttpRequest {
                url: TEST_URL.to_string(),
                method: HttpMethod::GET,
                headers: vec![],
                body: None,
            },
            timeout_ms: None,
            callback_method_name: Some(callback_name.to_string()),
        })
        .unwrap();

    proxy_client.expect_received_http_requests_count(test_env, 1);

    proxy_client.send_http_over_ws_message(
        test_env,
        HttpOverWsMessage::HttpResponse(
            request_id1,
            HttpResponse {
                status: Nat::from(200u16),
                headers: vec![],
                body: vec![1, 2, 3],
            },
        ),
    );

    let req_state1 = test_env.query_get_request_by_id(request_id1).unwrap();
    assert_eq!(req_state1.canister_id, test_canister_id);
    assert!(matches!(req_state1.state, RequestState::CallbackFailed(_)));

    // the proxy canister shouldn't break the ws connection
    // so we try to send another request
    let req_2 = HttpRequest {
        url: TEST_URL.to_string(),
        method: HttpMethod::GET,
        headers: vec![],
        body: None,
    };
    let request_id2 = test_env
        .call_http_request_via_proxy(HttpRequestEndpointArgs {
            request: req_2.clone(),
            timeout_ms: None,
            callback_method_name: Some(callback_name.to_string()),
        })
        .unwrap();

    // we expect to receive the new request
    let proxy_messages = proxy_client.get_http_over_ws_messages(test_env);
    assert_eq!(
        proxy_messages,
        vec![HttpOverWsMessage::HttpRequest(request_id2, req_2,)]
    );
    // send the response expecting that the ws connection still works
    proxy_client.send_http_over_ws_message(
        test_env,
        HttpOverWsMessage::HttpResponse(
            request_id2,
            HttpResponse {
                status: Nat::from(200u16),
                headers: vec![],
                body: vec![1, 2, 3],
            },
        ),
    );

    let req_state2 = test_env.query_get_request_by_id(request_id2).unwrap();
    assert_eq!(req_state2.canister_id, test_canister_id);
    assert!(matches!(req_state2.state, RequestState::CallbackFailed(_)));
}

#[test]
fn test_http_request_wrong_callbacks() {
    let mut test_env = TestEnv::new();
    let proxy_client = ProxyClient::new(1);

    proxy_client.setup_proxy(&mut test_env);

    check_wrong_callback("wrong_callback_method", &proxy_client, &mut test_env);
    check_wrong_callback("http_response_callback_traps", &proxy_client, &mut test_env);
    check_wrong_callback(
        "http_response_callback_wrong_args",
        &proxy_client,
        &mut test_env,
    );
}

#[test]
fn test_http_request() {
    let mut test_env = TestEnv::new();
    let proxy_client = ProxyClient::new(1);
    let test_canister_id = test_env.user_canister.canister_id;

    proxy_client.setup_proxy(&mut test_env);

    let request_id = test_env
        .call_http_request_via_proxy(HttpRequestEndpointArgs {
            request: HttpRequest {
                url: TEST_URL.to_string(),
                method: HttpMethod::GET,
                headers: vec![],
                body: None,
            },
            timeout_ms: None,
            callback_method_name: None,
        })
        .unwrap();

    proxy_client.expect_received_http_requests_count(&mut test_env, 1);

    proxy_client.send_http_over_ws_message(
        &mut test_env,
        HttpOverWsMessage::HttpResponse(
            request_id,
            HttpResponse {
                status: Nat::from(200u16),
                headers: vec![],
                body: vec![1, 2, 3],
            },
        ),
    );

    let req_state = test_env.query_get_request_by_id(request_id).unwrap();
    assert_eq!(req_state.canister_id, test_canister_id);
    assert!(matches!(req_state.state, RequestState::Executed));

    // check that no callback was called
    let cb_responses = test_env.query_get_callback_results();
    assert_eq!(cb_responses.len(), 0);
}

#[test]
fn test_http_request_with_timeout() {
    let mut test_env = TestEnv::new();
    let proxy_client = ProxyClient::new(1);
    let test_canister_id = test_env.user_canister.canister_id;

    proxy_client.setup_proxy(&mut test_env);

    let timeout_ms = 10_000;

    let request_id = test_env
        .call_http_request_via_proxy(HttpRequestEndpointArgs {
            request: HttpRequest {
                url: TEST_URL.to_string(),
                method: HttpMethod::GET,
                headers: vec![],
                body: None,
            },
            timeout_ms: Some(timeout_ms),
            callback_method_name: Some("http_response_callback".to_string()),
        })
        .unwrap();
    proxy_client.expect_received_http_requests_count(&mut test_env, 1);

    // make the request expire
    test_env.advance_canister_time_ms(timeout_ms);

    let req_state = test_env.query_get_request_by_id(request_id).unwrap();
    assert_eq!(req_state.canister_id, test_canister_id);
    assert!(matches!(req_state.state, RequestState::Executed));

    // check that the callback was called
    let cb_responses = test_env.query_get_callback_results();
    assert_eq!(
        cb_responses.get(&request_id).unwrap(),
        &HttpResult::Failure(HttpFailureReason::RequestTimeout)
    );
}

#[test]
fn test_http_request_proxy_error() {
    let mut test_env = TestEnv::new();
    let proxy_client = ProxyClient::new(1);
    let test_canister_id = test_env.user_canister.canister_id;

    proxy_client.setup_proxy(&mut test_env);

    let request_id = test_env
        .call_http_request_via_proxy(HttpRequestEndpointArgs {
            request: HttpRequest {
                url: TEST_URL.to_string(),
                method: HttpMethod::GET,
                headers: vec![],
                body: None,
            },
            timeout_ms: None,
            callback_method_name: Some("http_response_callback".to_string()),
        })
        .unwrap();
    proxy_client.expect_received_http_requests_count(&mut test_env, 1);

    let proxy_error = "Error".to_string();

    proxy_client.send_http_over_ws_message(
        &mut test_env,
        HttpOverWsMessage::Error(Some(request_id), proxy_error.clone()),
    );

    let req_state = test_env.query_get_request_by_id(request_id).unwrap();
    assert_eq!(req_state.canister_id, test_canister_id);
    assert!(matches!(req_state.state, RequestState::Executed));

    // check that the callback was called
    let cb_responses = test_env.query_get_callback_results();
    assert_eq!(
        cb_responses.get(&request_id).unwrap(),
        &HttpResult::Failure(HttpFailureReason::ProxyError(proxy_error))
    );
}

#[test]
fn test_http_request_with_callback() {
    let mut test_env = TestEnv::new();
    let proxy_client = ProxyClient::new(1);
    let test_canister_id = test_env.user_canister.canister_id;

    proxy_client.setup_proxy(&mut test_env);

    let request_id = test_env
        .call_http_request_via_proxy(HttpRequestEndpointArgs {
            request: HttpRequest {
                url: TEST_URL.to_string(),
                method: HttpMethod::GET,
                headers: vec![],
                body: None,
            },
            timeout_ms: None,
            callback_method_name: Some("http_response_callback".to_string()),
        })
        .unwrap();

    proxy_client.expect_received_http_requests_count(&mut test_env, 1);

    let response = HttpResponse {
        status: Nat::from(200u16),
        headers: vec![],
        body: vec![1, 2, 3],
    };

    proxy_client.send_http_over_ws_message(
        &mut test_env,
        HttpOverWsMessage::HttpResponse(request_id, response.clone()),
    );

    let req_state = test_env.query_get_request_by_id(request_id).unwrap();
    assert_eq!(req_state.canister_id, test_canister_id);
    assert!(matches!(req_state.state, RequestState::Executed));

    // check that the callback was called
    let cb_responses = test_env.query_get_callback_results();
    assert_eq!(
        cb_responses.get(&request_id).unwrap(),
        &HttpResult::Success(response)
    );
}

#[test]
fn test_get_logs() {
    let mut test_env = TestEnv::new();

    // execute an http request before to have logs
    let _ = test_env.call_http_request_via_proxy(HttpRequestEndpointArgs {
        request: HttpRequest {
            url: TEST_URL.to_string(),
            method: HttpMethod::GET,
            headers: vec![],
            body: None,
        },
        timeout_ms: None,
        callback_method_name: None,
    });

    let res = test_env.query_get_logs();
    assert!(res.len() > 0);
}

#[test]
fn integration_tests_test_disconnect_all_proxies() {
    let mut test_env = TestEnv::new();
    let proxy_client1 = ProxyClient::new(1);
    let proxy_client2 = ProxyClient::new(2);

    proxy_client1.setup_proxy(&mut test_env);
    proxy_client2.setup_proxy(&mut test_env);

    test_env.call_disconnect_all_proxies();

    let res = test_env.call_http_request_via_proxy(HttpRequestEndpointArgs {
        request: HttpRequest {
            url: TEST_URL.to_string(),
            method: HttpMethod::GET,
            headers: vec![],
            body: None,
        },
        timeout_ms: None,
        callback_method_name: None,
    });

    assert_eq!(
        res,
        HttpRequestEndpointResult::Err(ProxyCanisterError::HttpOverWs(
            HttpOverWsError::NoProxiesConnected
        )),
    );
}
