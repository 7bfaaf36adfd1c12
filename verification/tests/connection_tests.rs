use candid::Nat;
use ic_cdk_timers::TimerId;
use ic_http_proxy::http_over_ws::client_proxy::ClientProxy;
use ic_http_proxy::http_over_ws::http_connection::{HttpConnection, HttpConnectionState};
use ic_http_proxy::http_over_ws::{
    HttpFailureReason, HttpMethod, HttpOverWsError, HttpRequest, HttpResponse, HttpResult,
};
use slotmap::KeyData;

fn timer(id: u64) -> TimerId {
    TimerId::from(KeyData::from_ffi(id))
}

fn request() -> HttpRequest {
    HttpRequest::new("https://example.com/", HttpMethod::PUT, vec![], None)
}

fn response(status: u16) -> HttpResponse {
    HttpResponse {
        status: Nat::from(status),
        headers: vec![],
        body: vec![1, 2, 3],
    }
}

#[test]
fn new_connection_waits_for_its_response() {
    let connection: HttpConnection<&str> =
        HttpConnection::new(5, request(), Some("callback"), Some(timer(1)));
    assert_eq!(connection.get_request(), request());
    assert_eq!(
        connection.get_response(),
        Err(HttpOverWsError::NotYetReceived)
    );
    assert!(matches!(
        HttpConnectionState::new(Some(timer(1)), Some("callback")),
        HttpConnectionState::WaitingForResponse((Some(_), Some("callback")))
    ));
}

#[test]
fn connection_is_resolved_by_the_first_result_only() {
    let mut connection: HttpConnection<&str> =
        HttpConnection::new(5, request(), Some("callback"), Some(timer(1)));

    let released = connection.update_state(HttpResult::Success(response(200)));
    assert_eq!(
        released,
        Some(("callback", HttpResult::Success(response(200))))
    );
    assert_eq!(
        connection.get_response(),
        Ok(HttpResult::Success(response(200)))
    );

    let released = connection.update_state(HttpResult::Failure(HttpFailureReason::RequestTimeout));
    assert_eq!(released, None);
    let released = connection.update_state(HttpResult::Success(response(500)));
    assert_eq!(released, None);
    assert_eq!(
        connection.get_response(),
        Ok(HttpResult::Success(response(200)))
    );
    assert_eq!(connection.get_request(), request());
}

#[test]
fn resolving_hands_out_the_callback_and_the_timer_once() {
    let mut connection: HttpConnection<&str> =
        HttpConnection::new(5, request(), Some("callback"), Some(timer(4)));
    assert_eq!(
        connection.resolve(HttpResult::Failure(HttpFailureReason::RequestTimeout)),
        (
            Some((
                "callback",
                HttpResult::Failure(HttpFailureReason::RequestTimeout)
            )),
            Some(timer(4))
        )
    );
    assert_eq!(
        connection.resolve(HttpResult::Success(response(200))),
        (None, None)
    );
    assert_eq!(
        connection.get_response(),
        Err(HttpOverWsError::RequestFailed(
            HttpFailureReason::RequestTimeout
        ))
    );

    let mut unguarded: HttpConnection<&str> = HttpConnection::new(6, request(), None, None);
    assert_eq!(
        unguarded.resolve(HttpResult::Success(response(200))),
        (None, None)
    );
    assert_eq!(
        unguarded.get_response(),
        Ok(HttpResult::Success(response(200)))
    );
}

#[test]
fn connection_without_callback_releases_none() {
    let mut connection: HttpConnection<&str> = HttpConnection::new(5, request(), None, None);
    let released = connection.update_state(HttpResult::Failure(
        HttpFailureReason::ProxyError(String::from("refused")),
    ));
    assert_eq!(released, None);
    assert_eq!(
        connection.get_response(),
        Err(HttpOverWsError::RequestFailed(
            HttpFailureReason::ProxyError(String::from("refused"))
        ))
    );
    // a failed connection stays failed
    assert_eq!(
        connection.update_state(HttpResult::Success(response(200))),
        None
    );
    assert_eq!(
        connection.get_response(),
        Err(HttpOverWsError::RequestFailed(
            HttpFailureReason::ProxyError(String::from("refused"))
        ))
    );
}

#[test]
fn timer_of_a_connection_is_replaced_while_it_waits() {
    let mut connection: HttpConnection<&str> = HttpConnection::new(5, request(), None, None);
    assert_eq!(connection.set_timer(timer(1)), None);
    assert_eq!(connection.set_timer(timer(2)), Some(timer(1)));
    connection.update_state(HttpResult::Failure(HttpFailureReason::RequestTimeout));
    assert_eq!(connection.set_timer(timer(3)), Some(timer(3)));
    assert_eq!(
        connection.get_response(),
        Err(HttpOverWsError::RequestFailed(
            HttpFailureReason::RequestTimeout
        ))
    );
}

#[test]
fn proxy_keeps_its_connections_by_request_id() {
    let mut proxy: ClientProxy<&str> = ClientProxy::new();
    assert!(proxy.get_connection(1).is_none());

    proxy.assign_connection(1, HttpConnection::new(1, request(), Some("one"), None));
    proxy.assign_connection(2, HttpConnection::new(2, request(), Some("two"), None));
    assert!(proxy.get_connection(1).is_some());
    assert!(proxy.get_connection(3).is_none());

    assert_eq!(
        proxy.update_connection_state(3, HttpResult::Success(response(200))),
        Err(HttpOverWsError::RequestIdNotFound)
    );
    assert_eq!(
        proxy.update_connection_state(2, HttpResult::Success(response(200))),
        Ok(Some(("two", HttpResult::Success(response(200)))))
    );
    assert_eq!(
        proxy.update_connection_state(2, HttpResult::Success(response(404))),
        Ok(None)
    );
    assert_eq!(
        proxy.get_connection(2).unwrap().get_response(),
        Ok(HttpResult::Success(response(200)))
    );
    assert_eq!(
        proxy.get_connection(1).unwrap().get_response(),
        Err(HttpOverWsError::NotYetReceived)
    );

    assert_eq!(proxy.set_connection_timer(1, timer(7)), Ok(None));
    assert_eq!(proxy.set_connection_timer(1, timer(8)), Ok(Some(timer(7))));
    assert_eq!(
        proxy.set_connection_timer(3, timer(9)),
        Err(HttpOverWsError::RequestIdNotFound)
    );

    // a connection assigned under an id that is taken replaces the one that was there
    proxy.assign_connection(2, HttpConnection::new(2, request(), None, None));
    assert_eq!(
        proxy.get_connection(2).unwrap().get_response(),
        Err(HttpOverWsError::NotYetReceived)
    );

    let removed = proxy.remove_connection(1);
    assert!(removed.is_ok());
    assert!(proxy.get_connection(1).is_none());
    assert!(matches!(
        proxy.remove_connection(1),
        Err(HttpOverWsError::ConnectionNotAssignedToProxy)
    ));
}
