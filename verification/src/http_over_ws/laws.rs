use super::http_connection::{
    HttpConnectionStateView, HttpFailureReasonView, HttpOverWsErrorView, HttpRequestId,
    HttpRequestView, HttpResultView,
};
use super::model::{
    connection_of, holder_of, index_of, is_assigned, is_connected, lemma_holder_is_first,
    lemma_holder_of, lemma_index_of, timeout_result, StateView,
};
use candid::Principal;
use ic_cdk_timers::TimerId;
use vstd::prelude::*;

verus! {

/// A request is found under its id at the one proxy it is assigned to: what a query for its
/// response reports is what the state of that connection stands for.
pub proof fn lemma_connection_is_found<C>(
    state: StateView<C>,
    principal: Principal,
    request_id: HttpRequestId,
)
    requires
        state.wf(),
        state.has_connection(principal, request_id),
    ensures
        is_assigned(state.connected_proxies, request_id),
        !is_assigned(state.abandoned, request_id),
        state.known_connection(request_id) == state.connection(principal, request_id),
        state.get_http_response(request_id) == state.connection(
            principal,
            request_id,
        ).state.response(),
        state.get_http_connection(request_id) == Some(
            state.connection(principal, request_id).request,
        ),
{
    let at = index_of(state.connected_proxies, principal);
    assert(state.connected_proxies[at].1.contains_key(request_id));
    lemma_holder_is_first(state.connected_proxies, request_id);
}

/// An abandoned request is found under its id among the abandoned connections, and at no
/// connected proxy: what a query for its response reports is what the state of that
/// connection stands for.
pub proof fn lemma_abandoned_is_found<C>(state: StateView<C>, request_id: HttpRequestId)
    requires
        state.wf(),
        is_assigned(state.abandoned, request_id),
    ensures
        !is_assigned(state.connected_proxies, request_id),
        forall|principal: Principal| !state.has_connection(principal, request_id),
        state.known_connection(request_id) == connection_of(state.abandoned, request_id),
        state.get_http_response(request_id) == connection_of(
            state.abandoned,
            request_id,
        ).state.response(),
{
    lemma_holder_is_first(state.abandoned, request_id);
    assert forall|principal: Principal| !state.has_connection(principal, request_id) by {
        if state.has_connection(principal, request_id) {
            let at = index_of(state.connected_proxies, principal);
            assert(state.connected_proxies[at].1.contains_key(request_id));
        }
    }
}

/// With no proxy connected a request is turned down, and it leaves no connection behind:
/// a query for any id reports what it reported before, and for the id that was used up
/// that it is not found.
pub proof fn lemma_no_proxy_dispatch<C>(
    state: StateView<C>,
    request: HttpRequestView,
    callback: Option<C>,
)
    requires
        state.connected_proxies.len() == 0,
    ensures
        state.upcoming_proxy() is None,
        state.assign_connection(request, callback).connected_proxies == state.connected_proxies,
        state.assign_connection(request, callback).abandoned == state.abandoned,
        forall|request_id: HttpRequestId|
            state.assign_connection(request, callback).get_http_response(request_id)
                == state.get_http_response(request_id),
        state.wf() && state.next_request_id < HttpRequestId::MAX ==> state.assign_connection(
            request,
            callback,
        ).get_http_response(state.upcoming_request_id()) == Err::<
            HttpResultView,
            HttpOverWsErrorView,
        >(HttpOverWsErrorView::RequestIdNotFound),
{
    if state.wf() && state.next_request_id < HttpRequestId::MAX {
        let request_id = state.upcoming_request_id();
        if is_assigned(state.abandoned, request_id) {
            lemma_holder_is_first(state.abandoned, request_id);
        }
    }
}

/// With a proxy connected a request is taken up: it waits at the proxy chosen for its id,
/// and a query for its response reports that none was received yet.
pub proof fn lemma_dispatch_creates_waiting_connection<C>(
    state: StateView<C>,
    request: HttpRequestView,
    callback: Option<C>,
)
    requires
        state.wf(),
        state.connected_proxies.len() > 0,
        state.next_request_id < HttpRequestId::MAX,
    ensures
        state.upcoming_proxy() is Some,
        state.assign_connection(request, callback).wf(),
        state.assign_connection(request, callback).has_connection(
            state.upcoming_proxy().unwrap(),
            state.upcoming_request_id(),
        ),
        state.assign_connection(request, callback).connection(
            state.upcoming_proxy().unwrap(),
            state.upcoming_request_id(),
        ).state == HttpConnectionStateView::WaitingForResponse(None, callback),
        state.assign_connection(request, callback).get_http_response(state.upcoming_request_id())
            == Err::<HttpResultView, HttpOverWsErrorView>(HttpOverWsErrorView::NotYetReceived),
{
    let request_id = state.upcoming_request_id();
    let proxies = state.connected_proxies;
    let at = request_id as int % proxies.len() as int;
    lemma_index_of(proxies, at);
    let next = state.assign_connection(request, callback);
    lemma_index_of(next.connected_proxies, at);
    lemma_connection_is_found(next, state.upcoming_proxy().unwrap(), request_id);
}

/// A request goes to one proxy only: after it has been taken up, no proxy but the one
/// chosen for its id has a connection with that id.
pub proof fn lemma_dispatch_goes_to_one_proxy<C>(
    state: StateView<C>,
    request: HttpRequestView,
    callback: Option<C>,
    other: Principal,
)
    requires
        state.wf(),
        state.connected_proxies.len() > 0,
        state.next_request_id < HttpRequestId::MAX,
        state.upcoming_proxy() != Some(other),
    ensures
        !state.assign_connection(request, callback).has_connection(
            other,
            state.upcoming_request_id(),
        ),
{
    lemma_dispatch_creates_waiting_connection(state, request, callback);
    let next = state.assign_connection(request, callback);
    let chosen = state.upcoming_proxy().unwrap();
    let request_id = state.upcoming_request_id();
    if next.has_connection(other, request_id) {
        let at = index_of(next.connected_proxies, chosen);
        let there = index_of(next.connected_proxies, other);
        assert(next.connected_proxies[at].1.contains_key(request_id));
        assert(next.connected_proxies[there].1.contains_key(request_id));
    }
}

/// A result delivered by a proxy other than the one the request is assigned to changes
/// nothing and releases no callback: a request that was waiting is still reported as not
/// yet answered.
pub proof fn lemma_proxy_affinity<C>(
    state: StateView<C>,
    assigned: Principal,
    other: Principal,
    request_id: HttpRequestId,
    result: HttpResultView,
)
    requires
        state.wf(),
        state.has_connection(assigned, request_id),
        other != assigned,
    ensures
        !state.has_connection(other, request_id),
        state.update_connection_state(other, request_id, result) == state,
        state.released_callback(other, request_id, result) is None,
        state.connection(assigned, request_id).state is WaitingForResponse
            ==> state.update_connection_state(other, request_id, result).get_http_response(
            request_id,
        ) == Err::<HttpResultView, HttpOverWsErrorView>(HttpOverWsErrorView::NotYetReceived),
{
    lemma_connection_is_found(state, assigned, request_id);
    if state.has_connection(other, request_id) {
        let at = index_of(state.connected_proxies, assigned);
        let there = index_of(state.connected_proxies, other);
        assert(state.connected_proxies[at].1.contains_key(request_id));
        assert(state.connected_proxies[there].1.contains_key(request_id));
    }
}

/// The first result delivered for a waiting request resolves it, and releases its callback
/// with that result.
pub proof fn lemma_first_result_resolves<C>(
    state: StateView<C>,
    principal: Principal,
    request_id: HttpRequestId,
    result: HttpResultView,
)
    requires
        state.wf(),
        state.has_connection(principal, request_id),
        state.connection(principal, request_id).state is WaitingForResponse,
    ensures
        state.update_connection_state(principal, request_id, result).wf(),
        state.update_connection_state(principal, request_id, result).has_connection(
            principal,
            request_id,
        ),
        state.update_connection_state(principal, request_id, result).connection(
            principal,
            request_id,
        ).state == HttpConnectionStateView::<C>::resolved(result),
        state.update_connection_state(principal, request_id, result).get_http_response(request_id)
            == HttpConnectionStateView::<C>::resolved(result).response(),
        state.connection(principal, request_id).state matches HttpConnectionStateView::WaitingForResponse(
            _,
            callback,
        ) && state.released_callback(principal, request_id, result) == match callback {
            Some(callback) => Some((callback, result)),
            None => None,
        },
{
    let proxies = state.connected_proxies;
    let at = index_of(proxies, principal);
    lemma_index_of(proxies, at);
    let next = state.update_connection_state(principal, request_id, result);
    lemma_index_of(next.connected_proxies, at);
    lemma_connection_is_found(next, principal, request_id);
}

/// A resolved request stays as it is: a result delivered for it later, by whichever proxy,
/// changes nothing and releases no callback, and neither does its timer.
pub proof fn lemma_resolved_is_final<C>(
    state: StateView<C>,
    principal: Principal,
    request_id: HttpRequestId,
    sender: Principal,
    result: HttpResultView,
)
    requires
        state.wf(),
        state.has_connection(principal, request_id),
        !(state.connection(principal, request_id).state is WaitingForResponse),
    ensures
        state.update_connection_state(sender, request_id, result) == state,
        state.released_callback(sender, request_id, result) is None,
        state.http_connection_timeout(principal, request_id) == state,
        state.timeout_callback(principal, request_id) is None,
{
    let proxies = state.connected_proxies;
    let at = index_of(proxies, principal);
    let connection = state.connection(principal, request_id);
    assert(proxies[at].1.insert(request_id, connection) =~= proxies[at].1);
    assert(state.update_connection_state(principal, request_id, result).connected_proxies
        =~= proxies);
    assert(state.update_connection_state(
        principal,
        request_id,
        timeout_result(),
    ).connected_proxies =~= proxies);
    if sender != principal {
        lemma_proxy_affinity(state, principal, sender, request_id, result);
    }
}

/// Of two results delivered for a waiting request only the first counts: the request is
/// resolved with the first, and the second changes nothing and releases no callback.
pub proof fn lemma_resolution_idempotence<C>(
    state: StateView<C>,
    principal: Principal,
    request_id: HttpRequestId,
    first: HttpResultView,
    second: HttpResultView,
)
    requires
        state.wf(),
        state.has_connection(principal, request_id),
        state.connection(principal, request_id).state is WaitingForResponse,
    ensures
        ({
            let resolved = state.update_connection_state(principal, request_id, first);
            &&& resolved.get_http_response(request_id) == HttpConnectionStateView::<C>::resolved(
                first,
            ).response()
            &&& resolved.update_connection_state(principal, request_id, second) == resolved
            &&& resolved.released_callback(principal, request_id, second) is None
        }),
{
    lemma_first_result_resolves(state, principal, request_id, first);
    let resolved = state.update_connection_state(principal, request_id, first);
    lemma_resolved_is_final(resolved, principal, request_id, principal, second);
}

/// Where the timer fires before any response has arrived, the request has failed with a
/// timeout and its callback is released with that result; a response that arrives later,
/// from whichever proxy, does not change that.
pub proof fn lemma_timeout_precedence<C>(
    state: StateView<C>,
    principal: Principal,
    request_id: HttpRequestId,
    sender: Principal,
    late: HttpResultView,
)
    requires
        state.wf(),
        state.has_connection(principal, request_id),
        state.connection(principal, request_id).state is WaitingForResponse,
    ensures
        ({
            let timed_out = state.http_connection_timeout(principal, request_id);
            &&& timed_out.get_http_response(request_id) == Err::<
                HttpResultView,
                HttpOverWsErrorView,
            >(HttpOverWsErrorView::RequestFailed(HttpFailureReasonView::RequestTimeout))
            &&& state.timeout_callback(principal, request_id) == state.released_callback(
                principal,
                request_id,
                timeout_result(),
            )
            &&& timed_out.update_connection_state(sender, request_id, late) == timed_out
            &&& timed_out.released_callback(sender, request_id, late) is None
        }),
{
    lemma_first_result_resolves(state, principal, request_id, timeout_result());
    let timed_out = state.update_connection_state(principal, request_id, timeout_result());
    lemma_resolved_is_final(timed_out, principal, request_id, sender, late);
}

/// Where the response arrives before the timer fires, the request has succeeded with it
/// and holds no timer any more; should the timer fire all the same, nothing changes and
/// no callback is released a second time.
pub proof fn lemma_timeout_avoidance<C>(
    state: StateView<C>,
    principal: Principal,
    request_id: HttpRequestId,
    response: ic_cdk::api::management_canister::http_request::HttpResponse,
)
    requires
        state.wf(),
        state.has_connection(principal, request_id),
        state.connection(principal, request_id).state is WaitingForResponse,
    ensures
        ({
            let answered = state.update_connection_state(
                principal,
                request_id,
                HttpResultView::Success(response),
            );
            &&& answered.connection(principal, request_id).state
                == HttpConnectionStateView::<C>::Success(response)
            &&& answered.get_http_response(request_id) == Ok::<HttpResultView, HttpOverWsErrorView>(
                HttpResultView::Success(response),
            )
            &&& answered.http_connection_timeout(principal, request_id) == answered
            &&& answered.timeout_callback(principal, request_id) is None
        }),
{
    let result = HttpResultView::Success(response);
    lemma_first_result_resolves(state, principal, request_id, result);
    let answered = state.update_connection_state(principal, request_id, result);
    lemma_resolved_is_final(answered, principal, request_id, principal, result);
}

/// A timer armed for a waiting request is the one that the request holds from then on; one
/// armed for a resolved request leaves it as it is. Either way the request is still found,
/// and what a query for its response reports is not changed.
pub proof fn lemma_timer_is_recorded<C>(
    state: StateView<C>,
    principal: Principal,
    request_id: HttpRequestId,
    timer_id: TimerId,
)
    requires
        state.wf(),
        state.has_connection(principal, request_id),
    ensures
        state.set_connection_timer(principal, request_id, timer_id).wf(),
        state.set_connection_timer(principal, request_id, timer_id).has_connection(
            principal,
            request_id,
        ),
        state.set_connection_timer(principal, request_id, timer_id).connection(
            principal,
            request_id,
        ).state == state.connection(principal, request_id).state.with_timer(timer_id),
        state.set_connection_timer(principal, request_id, timer_id).get_http_response(request_id)
            == state.get_http_response(request_id),
{
    let proxies = state.connected_proxies;
    let at = index_of(proxies, principal);
    lemma_index_of(proxies, at);
    let next = state.set_connection_timer(principal, request_id, timer_id);
    lemma_index_of(next.connected_proxies, at);
    lemma_connection_is_found(next, principal, request_id);
    lemma_connection_is_found(state, principal, request_id);
}

/// Once a proxy is disconnected its requests are abandoned, not resolved: each is kept as
/// it was, and a query for its response reports what it reported before, so that a request
/// that was waiting is still reported as not yet answered.
pub proof fn lemma_proxy_disconnect_abandons<C>(
    state: StateView<C>,
    principal: Principal,
    request_id: HttpRequestId,
)
    requires
        state.wf(),
        state.has_connection(principal, request_id),
    ensures
        ({
            let disconnected = state.remove_proxy(principal);
            &&& disconnected.wf()
            &&& !is_connected(disconnected.connected_proxies, principal)
            &&& is_assigned(disconnected.abandoned, request_id)
            &&& connection_of(disconnected.abandoned, request_id) == state.connection(
                principal,
                request_id,
            )
            &&& disconnected.get_http_response(request_id) == state.get_http_response(request_id)
            &&& state.connection(principal, request_id).state is WaitingForResponse
                ==> disconnected.get_http_response(request_id) == Err::<
                HttpResultView,
                HttpOverWsErrorView,
            >(HttpOverWsErrorView::NotYetReceived)
        }),
{
    lemma_connection_is_found(state, principal, request_id);
    let disconnected = state.remove_proxy(principal);
    let last = state.abandoned.len() as int;
    assert(disconnected.abandoned[last].1.contains_key(request_id));
    lemma_holder_of(disconnected.abandoned, last, request_id);
    lemma_state_stays_wf_without(state, principal);
    lemma_abandoned_is_found(disconnected, request_id);
}

/// The state is as it should be after a proxy has gone.
proof fn lemma_state_stays_wf_without<C>(state: StateView<C>, principal: Principal)
    requires
        state.wf(),
    ensures
        state.remove_proxy(principal).wf(),
        !is_connected(state.remove_proxy(principal).connected_proxies, principal),
{
    if is_connected(state.connected_proxies, principal) {
        let at = index_of(state.connected_proxies, principal);
        let rest = state.remove_proxy(principal).connected_proxies;
        assert forall|i: int| 0 <= i < rest.len() implies (#[trigger] rest[i])
            == state.connected_proxies[if i < at {
            i
        } else {
            i + 1
        }] by {}
    }
}

/// Once all proxies are disconnected their requests are abandoned, not resolved: each is
/// kept as it was, and a query for its response reports what it reported before, so that a
/// request that was waiting is still reported as not yet answered. A new request is turned
/// down for want of a proxy.
pub proof fn lemma_disconnect_abandons<C>(
    state: StateView<C>,
    principal: Principal,
    request_id: HttpRequestId,
)
    requires
        state.wf(),
        state.has_connection(principal, request_id),
    ensures
        ({
            let disconnected = state.remove_all_proxies();
            &&& disconnected.wf()
            &&& disconnected.upcoming_proxy() is None
            &&& is_assigned(disconnected.abandoned, request_id)
            &&& connection_of(disconnected.abandoned, request_id) == state.connection(
                principal,
                request_id,
            )
            &&& disconnected.get_http_response(request_id) == state.get_http_response(request_id)
            &&& state.connection(principal, request_id).state is WaitingForResponse
                ==> disconnected.get_http_response(request_id) == Err::<
                HttpResultView,
                HttpOverWsErrorView,
            >(HttpOverWsErrorView::NotYetReceived)
        }),
{
    lemma_connection_is_found(state, principal, request_id);
    let at = index_of(state.connected_proxies, principal);
    let disconnected = state.remove_all_proxies();
    let there = state.abandoned.len() + at;
    assert(disconnected.abandoned[there] == state.connected_proxies[at]);
    assert forall|j: int| 0 <= j < there implies !(#[trigger] disconnected.abandoned[j]).1.contains_key(
        request_id,
    ) by {
        if j < state.abandoned.len() {
            assert(disconnected.abandoned[j] == state.abandoned[j]);
        } else {
            assert(disconnected.abandoned[j] == state.connected_proxies[j - state.abandoned.len()]);
        }
    }
    lemma_holder_of(disconnected.abandoned, there, request_id);
    assert(disconnected.wf()) by {
        assert forall|i: int| 0 <= i < disconnected.abandoned.len() implies (
        #[trigger] disconnected.abandoned[i]) == if i < state.abandoned.len() {
            state.abandoned[i]
        } else {
            state.connected_proxies[i - state.abandoned.len()]
        } by {}
    }
    lemma_abandoned_is_found(disconnected, request_id);
}

/// An abandoned request is out of the reach of every proxy: a result delivered for it, by
/// whichever proxy, is turned down, changes nothing and releases no callback.
pub proof fn lemma_abandoned_is_out_of_reach<C>(
    state: StateView<C>,
    request_id: HttpRequestId,
    sender: Principal,
    late: HttpResultView,
)
    requires
        state.wf(),
        is_assigned(state.abandoned, request_id),
    ensures
        !state.has_connection(sender, request_id),
        state.update_connection_state(sender, request_id, late) == state,
        state.released_callback(sender, request_id, late) is None,
{
    lemma_abandoned_is_found(state, request_id);
}

/// The timer of an abandoned request that still waits makes it fail: its callback is
/// released with the timeout, and from then on a query for its response reports the
/// timeout. Should the timer fire once more, nothing changes and no callback is released.
pub proof fn lemma_abandoned_times_out<C>(
    state: StateView<C>,
    principal: Principal,
    request_id: HttpRequestId,
)
    requires
        state.wf(),
        is_assigned(state.abandoned, request_id),
        connection_of(state.abandoned, request_id).state is WaitingForResponse,
    ensures
        ({
            let timed_out = state.http_connection_timeout(principal, request_id);
            &&& timed_out.wf()
            &&& connection_of(state.abandoned, request_id).state matches HttpConnectionStateView::WaitingForResponse(
                _,
                callback,
            ) && state.timeout_callback(principal, request_id) == match callback {
                Some(callback) => Some((callback, timeout_result())),
                None => None,
            }
            &&& timed_out.get_http_response(request_id) == Err::<
                HttpResultView,
                HttpOverWsErrorView,
            >(HttpOverWsErrorView::RequestFailed(HttpFailureReasonView::RequestTimeout))
            &&& timed_out.http_connection_timeout(principal, request_id) == timed_out
            &&& timed_out.timeout_callback(principal, request_id) is None
        }),
{
    lemma_abandoned_is_found(state, request_id);
    lemma_holder_is_first(state.abandoned, request_id);
    let at = holder_of(state.abandoned, request_id);
    let timed_out = state.http_connection_timeout(principal, request_id);
    lemma_holder_of(timed_out.abandoned, at, request_id);
    lemma_abandoned_is_found(timed_out, request_id);
    let connection = connection_of(timed_out.abandoned, request_id);
    assert(timed_out.abandoned[at].1.insert(request_id, connection.update(timeout_result()))
        =~= timed_out.abandoned[at].1);
    assert(timed_out.http_connection_timeout(principal, request_id).abandoned
        =~= timed_out.abandoned);
}

/// An abandoned request stays abandoned and as it is, whatever happens but that its own
/// timer fires: be it that a proxy connects or goes, that all proxies go, that a request
/// is made, that a result is delivered by whichever proxy for whichever request, that a
/// timer is armed, that a connection is taken from a proxy, or that the timer of another
/// request fires. So a request that waits when its proxy goes is reported as not yet
/// answered until its timer fires, and for ever if it has none.
pub proof fn lemma_abandoned_stays_abandoned<C>(
    state: StateView<C>,
    request_id: HttpRequestId,
    principal: Principal,
    other_id: HttpRequestId,
    request: HttpRequestView,
    callback: Option<C>,
    result: HttpResultView,
    timer_id: TimerId,
)
    requires
        state.wf(),
        is_assigned(state.abandoned, request_id),
    ensures
        stays_abandoned(state, state.add_proxy(principal), request_id),
        stays_abandoned(state, state.remove_proxy(principal), request_id),
        stays_abandoned(state, state.remove_all_proxies(), request_id),
        stays_abandoned(state, state.assign_connection(request, callback), request_id),
        stays_abandoned(
            state,
            state.update_connection_state(principal, other_id, result),
            request_id,
        ),
        stays_abandoned(
            state,
            state.set_connection_timer(principal, other_id, timer_id),
            request_id,
        ),
        stays_abandoned(
            state,
            state.complete_connection_for_proxy(principal, other_id),
            request_id,
        ),
        other_id != request_id ==> stays_abandoned(
            state,
            state.http_connection_timeout(principal, other_id),
            request_id,
        ),
{
    lemma_holder_is_first(state.abandoned, request_id);
    let at = holder_of(state.abandoned, request_id);
    lemma_holder_of(state.add_proxy(principal).abandoned, at, request_id);
    lemma_holder_of(state.remove_proxy(principal).abandoned, at, request_id);
    lemma_holder_of(state.remove_all_proxies().abandoned, at, request_id);
    if other_id != request_id {
        let timed_out = state.http_connection_timeout(principal, other_id);
        if !state.has_connection(principal, other_id) && is_assigned(state.abandoned, other_id) {
            lemma_holder_is_first(state.abandoned, other_id);
        }
        lemma_holder_of(timed_out.abandoned, at, request_id);
    }
}

/// The request with the given id is abandoned in the later state as it is in the earlier
/// one: it is found among the abandoned connections, and its connection is the same.
pub open spec fn stays_abandoned<C>(
    earlier: StateView<C>,
    later: StateView<C>,
    request_id: HttpRequestId,
) -> bool {
    &&& is_assigned(later.abandoned, request_id)
    &&& connection_of(later.abandoned, request_id) == connection_of(earlier.abandoned, request_id)
}

} // verus!
