use super::client_proxy::ClientProxyView;
use super::http_connection::{
    callback_view, HttpCallbackWithResult, HttpConnectionStateView, HttpConnectionView,
    HttpFailureReasonView, HttpOverWsError, HttpOverWsErrorView, HttpRequestId, HttpRequestView,
    HttpResultView, ResponseView,
};
use candid::Principal;
use ic_cdk_timers::TimerId;
use vstd::prelude::*;

verus! {

/// The model of the connected proxies: each with its connections, in the order in which
/// they connected.
pub type ProxiesView<C> = Seq<(Principal, ClientProxyView<C>)>;

/// Whether a proxy with the given principal is among the connected ones.
pub open spec fn is_connected<C>(proxies: ProxiesView<C>, principal: Principal) -> bool {
    exists|i: int| 0 <= i < proxies.len() && (#[trigger] proxies[i]).0 == principal
}

/// The place of the proxy with the given principal among the connected ones.
pub open spec fn index_of<C>(proxies: ProxiesView<C>, principal: Principal) -> int {
    choose|i: int| 0 <= i < proxies.len() && (#[trigger] proxies[i]).0 == principal
}

/// No principal is connected twice.
pub open spec fn distinct_principals<C>(proxies: ProxiesView<C>) -> bool {
    forall|i: int, j: int|
        0 <= i < j < proxies.len() ==> (#[trigger] proxies[i]).0 != (#[trigger] proxies[j]).0
}

/// The connected proxies after one with the given principal has connected: a new proxy
/// comes last and has no connections; one that was connected already keeps its place and
/// has no connections any more.
pub open spec fn proxies_with<C>(proxies: ProxiesView<C>, principal: Principal) -> ProxiesView<
    C,
> {
    if is_connected(proxies, principal) {
        proxies.update(index_of(proxies, principal), (principal, ClientProxyView::<C>::empty()))
    } else {
        proxies.push((principal, ClientProxyView::<C>::empty()))
    }
}

/// The connected proxies after the one with the given principal has gone.
pub open spec fn proxies_without<C>(proxies: ProxiesView<C>, principal: Principal) -> ProxiesView<
    C,
> {
    if is_connected(proxies, principal) {
        proxies.remove(index_of(proxies, principal))
    } else {
        proxies
    }
}

/// The connected proxies after the connections of the given one have been replaced.
pub open spec fn proxies_updated<C>(
    proxies: ProxiesView<C>,
    principal: Principal,
    connections: ClientProxyView<C>,
) -> ProxiesView<C> {
    proxies.update(index_of(proxies, principal), (principal, connections))
}

/// The connections of the proxy with the given principal.
pub open spec fn connections_of<C>(proxies: ProxiesView<C>, principal: Principal) -> ClientProxyView<
    C,
> {
    proxies[index_of(proxies, principal)].1
}

/// Whether a connection with the given id is assigned to one of the proxies.
pub open spec fn is_assigned<C>(proxies: ProxiesView<C>, request_id: HttpRequestId) -> bool {
    exists|i: int| 0 <= i < proxies.len() && (#[trigger] proxies[i]).1.contains_key(request_id)
}

/// The place of the first of the proxies, in their order, that has a connection with the
/// given id.
pub open spec fn holder_of<C>(proxies: ProxiesView<C>, request_id: HttpRequestId) -> int {
    choose|i: int|
        0 <= i < proxies.len() && (#[trigger] proxies[i]).1.contains_key(request_id) && forall|
            j: int,
        |
            0 <= j < i ==> !(#[trigger] proxies[j]).1.contains_key(request_id)
}

/// The first of the proxies that has a connection with the given id is the one found as
/// its holder.
pub proof fn lemma_holder_of<C>(proxies: ProxiesView<C>, at: int, request_id: HttpRequestId)
    requires
        0 <= at < proxies.len(),
        proxies[at].1.contains_key(request_id),
        forall|j: int| 0 <= j < at ==> !(#[trigger] proxies[j]).1.contains_key(request_id),
    ensures
        is_assigned(proxies, request_id),
        holder_of(proxies, request_id) == at,
{
}

/// Where a connection with the given id is found, its holder is the first of the proxies
/// that has it.
pub proof fn lemma_holder_is_first<C>(proxies: ProxiesView<C>, request_id: HttpRequestId)
    requires
        is_assigned(proxies, request_id),
    ensures
        0 <= holder_of(proxies, request_id) < proxies.len(),
        proxies[holder_of(proxies, request_id)].1.contains_key(request_id),
        forall|j: int|
            0 <= j < holder_of(proxies, request_id) ==> !(#[trigger] proxies[j]).1.contains_key(
                request_id,
            ),
{
    let some = choose|i: int|
        0 <= i < proxies.len() && (#[trigger] proxies[i]).1.contains_key(request_id);
    lemma_first_holder_exists(proxies, request_id, some);
}

/// Below every proxy that has a connection with the given id there is a first that has it.
proof fn lemma_first_holder_exists<C>(proxies: ProxiesView<C>, request_id: HttpRequestId, at: int)
    requires
        0 <= at < proxies.len(),
        proxies[at].1.contains_key(request_id),
    ensures
        exists|i: int|
            0 <= i <= at && (#[trigger] proxies[i]).1.contains_key(request_id) && forall|j: int|
                0 <= j < i ==> !(#[trigger] proxies[j]).1.contains_key(request_id),
    decreases at,
{
    if exists|j: int| 0 <= j < at && (#[trigger] proxies[j]).1.contains_key(request_id) {
        let below = choose|j: int|
            0 <= j < at && (#[trigger] proxies[j]).1.contains_key(request_id);
        lemma_first_holder_exists(proxies, request_id, below);
    }
}

/// The connection with the given id, looked for in the proxies in their order.
pub open spec fn connection_of<C>(
    proxies: ProxiesView<C>,
    request_id: HttpRequestId,
) -> HttpConnectionView<C> {
    proxies[holder_of(proxies, request_id)].1[request_id]
}

/// The proxies after the connection with the given id, at the first of them that has it,
/// has been replaced.
pub open spec fn with_connection_of<C>(
    proxies: ProxiesView<C>,
    request_id: HttpRequestId,
    connection: HttpConnectionView<C>,
) -> ProxiesView<C> {
    let at = holder_of(proxies, request_id);
    proxies.update(at, (proxies[at].0, proxies[at].1.insert(request_id, connection)))
}

/// Every connection of the proxies is kept under its own id, which is one of those given
/// out so far.
pub open spec fn ids_given_out<C>(proxies: ProxiesView<C>, latest: HttpRequestId) -> bool {
    forall|i: int, id: HttpRequestId|
        0 <= i < proxies.len() && (#[trigger] proxies[i].1.contains_key(id)) ==> {
            &&& proxies[i].1[id].id == id
            &&& 1 <= id <= latest
        }
}

/// No id is found at two of the proxies.
pub open spec fn no_id_twice<C>(proxies: ProxiesView<C>) -> bool {
    forall|i: int, j: int, id: HttpRequestId|
        #![trigger proxies[i].1.contains_key(id), proxies[j].1.contains_key(id)]
        0 <= i < proxies.len() && 0 <= j < proxies.len() && i != j && proxies[i].1.contains_key(
            id,
        ) ==> !proxies[j].1.contains_key(id)
}

/// No id is found both at one of the first and at one of the second proxies.
pub open spec fn no_id_in_both<C>(first: ProxiesView<C>, second: ProxiesView<C>) -> bool {
    forall|i: int, j: int, id: HttpRequestId|
        #![trigger first[i].1.contains_key(id), second[j].1.contains_key(id)]
        0 <= i < first.len() && 0 <= j < second.len() && first[i].1.contains_key(id)
            ==> !second[j].1.contains_key(id)
}

/// Where no principal is connected twice, the place of a proxy is the place at which its
/// principal is found.
pub proof fn lemma_index_of<C>(proxies: ProxiesView<C>, i: int)
    requires
        distinct_principals(proxies),
        0 <= i < proxies.len(),
    ensures
        is_connected(proxies, proxies[i].0),
        index_of(proxies, proxies[i].0) == i,
{
}

/// The proxy that a request with the given id goes to: the one whose place among the
/// connected proxies is the id modulo their number. None if no proxy is connected.
pub open spec fn proxy_for_connection<C>(
    proxies: ProxiesView<C>,
    request_id: HttpRequestId,
) -> Option<Principal> {
    if proxies.len() == 0 {
        None
    } else {
        Some(proxies[request_id as int % proxies.len() as int].0)
    }
}

/// The model of the state: the connected proxies with their connections; the proxies that
/// have gone, each with the connections that it left behind, in the order in which they
/// went; and the id that was given to the latest request, 0 before the first.
pub struct StateView<C> {
    pub connected_proxies: ProxiesView<C>,
    pub abandoned: ProxiesView<C>,
    pub next_request_id: HttpRequestId,
}

impl<C> StateView<C> {
    /// No principal is connected twice; every connection, be it of a connected proxy or
    /// abandoned, is kept under its own id, which is one that has been given out; and no
    /// id is found in two places.
    pub open spec fn wf(self) -> bool {
        &&& distinct_principals(self.connected_proxies)
        &&& ids_given_out(self.connected_proxies, self.next_request_id)
        &&& ids_given_out(self.abandoned, self.next_request_id)
        &&& no_id_twice(self.connected_proxies)
        &&& no_id_twice(self.abandoned)
        &&& no_id_in_both(self.connected_proxies, self.abandoned)
    }

    /// The state before any proxy has connected and any request was made.
    pub open spec fn init() -> Self {
        StateView { connected_proxies: Seq::empty(), abandoned: Seq::empty(), next_request_id: 0 }
    }

    /// The id that the next request gets.
    pub open spec fn upcoming_request_id(self) -> HttpRequestId {
        (self.next_request_id + 1) as HttpRequestId
    }

    /// The proxy that the next request goes to, if one is connected.
    pub open spec fn upcoming_proxy(self) -> Option<Principal> {
        proxy_for_connection(self.connected_proxies, self.upcoming_request_id())
    }

    /// The abandoned connections after the proxy with the given principal has given up
    /// the connections it has: they are kept, as those of a proxy that has gone.
    pub open spec fn abandoned_with(self, principal: Principal) -> ProxiesView<C> {
        if is_connected(self.connected_proxies, principal) {
            self.abandoned.push(
                (principal, connections_of(self.connected_proxies, principal)),
            )
        } else {
            self.abandoned
        }
    }

    /// The state after a proxy with the given principal has connected. Where it was
    /// connected already, it starts anew, and the connections it had are abandoned.
    pub open spec fn add_proxy(self, principal: Principal) -> Self {
        StateView {
            connected_proxies: proxies_with(self.connected_proxies, principal),
            abandoned: self.abandoned_with(principal),
            ..self
        }
    }

    /// The state after the proxy with the given principal has gone: its connections are
    /// abandoned.
    pub open spec fn remove_proxy(self, principal: Principal) -> Self {
        StateView {
            connected_proxies: proxies_without(self.connected_proxies, principal),
            abandoned: self.abandoned_with(principal),
            ..self
        }
    }

    /// The state after all proxies have gone: the connections of all of them are abandoned.
    pub open spec fn remove_all_proxies(self) -> Self {
        StateView {
            connected_proxies: Seq::empty(),
            abandoned: self.abandoned + self.connected_proxies,
            ..self
        }
    }

    /// The state after a request has been made: its id is used up; where a proxy is
    /// connected, the request waits at the proxy chosen for it, with its callback and
    /// without a timer.
    pub open spec fn assign_connection(self, request: HttpRequestView, callback: Option<C>) -> Self {
        let request_id = self.upcoming_request_id();
        let used_up = StateView { next_request_id: request_id, ..self };
        match self.upcoming_proxy() {
            Some(principal) => used_up.with_connection(
                principal,
                request_id,
                HttpConnectionView {
                    id: request_id,
                    request,
                    state: HttpConnectionStateView::WaitingForResponse(None, callback),
                },
            ),
            None => used_up,
        }
    }

    /// Whether the given proxy is connected and has a connection with the given id.
    pub open spec fn has_connection(self, principal: Principal, request_id: HttpRequestId) -> bool {
        &&& is_connected(self.connected_proxies, principal)
        &&& connections_of(self.connected_proxies, principal).contains_key(request_id)
    }

    /// The connection with the given id at the given proxy.
    pub open spec fn connection(
        self,
        principal: Principal,
        request_id: HttpRequestId,
    ) -> HttpConnectionView<C> {
        connections_of(self.connected_proxies, principal)[request_id]
    }

    /// The state with the given connection kept under the given id at the given proxy.
    pub open spec fn with_connection(
        self,
        principal: Principal,
        request_id: HttpRequestId,
        connection: HttpConnectionView<C>,
    ) -> Self {
        StateView {
            connected_proxies: proxies_updated(
                self.connected_proxies,
                principal,
                connections_of(self.connected_proxies, principal).insert(request_id, connection),
            ),
            ..self
        }
    }

    /// The error with which a proxy's message about a request is turned down: the proxy is
    /// not connected, or the request is not one of its own.
    pub open spec fn lookup_error(
        self,
        principal: Principal,
        request_id: HttpRequestId,
    ) -> HttpOverWsErrorView {
        if is_connected(self.connected_proxies, principal) {
            HttpOverWsErrorView::RequestIdNotFound
        } else {
            HttpOverWsErrorView::ProxyNotFound
        }
    }

    /// The state after the given proxy has delivered a result for the request with the
    /// given id: the connection is resolved if it is one of that proxy and still waiting;
    /// in all other cases nothing changes.
    pub open spec fn update_connection_state(
        self,
        principal: Principal,
        request_id: HttpRequestId,
        result: HttpResultView,
    ) -> Self {
        if self.has_connection(principal, request_id) {
            self.with_connection(
                principal,
                request_id,
                self.connection(principal, request_id).update(result),
            )
        } else {
            self
        }
    }

    /// The callback that this delivery releases, with the result to invoke it with.
    pub open spec fn released_callback(
        self,
        principal: Principal,
        request_id: HttpRequestId,
        result: HttpResultView,
    ) -> Option<(C, HttpResultView)> {
        if self.has_connection(principal, request_id) {
            self.connection(principal, request_id).state.released_callback(result)
        } else {
            None
        }
    }

    /// Whether the given outcome is the one that this delivery has: the released callback
    /// where the request is one of the proxy's own, else the error that turns it down.
    pub open spec fn is_update_outcome(
        self,
        principal: Principal,
        request_id: HttpRequestId,
        result: HttpResultView,
        outcome: Result<Option<HttpCallbackWithResult<C>>, HttpOverWsError>,
    ) -> bool {
        match outcome {
            Ok(callback_with_result) => {
                &&& self.has_connection(principal, request_id)
                &&& callback_view(callback_with_result) == self.released_callback(
                    principal,
                    request_id,
                    result,
                )
            },
            Err(error) => {
                &&& !self.has_connection(principal, request_id)
                &&& error@ == self.lookup_error(principal, request_id)
            },
        }
    }

    /// The state after a timer has been armed for the request with the given id at the
    /// given proxy.
    pub open spec fn set_connection_timer(
        self,
        principal: Principal,
        request_id: HttpRequestId,
        timer_id: TimerId,
    ) -> Self {
        if self.has_connection(principal, request_id) {
            self.with_connection(
                principal,
                request_id,
                self.connection(principal, request_id).with_timer(timer_id),
            )
        } else {
            self
        }
    }

    /// The state after the connection with the given id has been taken from the given
    /// proxy; the same state where the proxy has no such connection.
    pub open spec fn complete_connection_for_proxy(
        self,
        principal: Principal,
        request_id: HttpRequestId,
    ) -> Self {
        if self.has_connection(principal, request_id) {
            StateView {
                connected_proxies: proxies_updated(
                    self.connected_proxies,
                    principal,
                    connections_of(self.connected_proxies, principal).remove(request_id),
                ),
                ..self
            }
        } else {
            self
        }
    }

    /// Whether a connection with the given id is kept, be it at a connected proxy or
    /// abandoned.
    pub open spec fn is_known(self, request_id: HttpRequestId) -> bool {
        is_assigned(self.connected_proxies, request_id) || is_assigned(self.abandoned, request_id)
    }

    /// The connection with the given id, looked for at the connected proxies first and
    /// among the abandoned ones then.
    pub open spec fn known_connection(self, request_id: HttpRequestId) -> HttpConnectionView<C> {
        if is_assigned(self.connected_proxies, request_id) {
            connection_of(self.connected_proxies, request_id)
        } else {
            connection_of(self.abandoned, request_id)
        }
    }

    /// What a query for the response to the request with the given id reports: what the
    /// state of its connection stands for, whether its proxy is still connected or not;
    /// that the id is not found where no request was assigned under it.
    pub open spec fn get_http_response(self, request_id: HttpRequestId) -> ResponseView {
        if self.is_known(request_id) {
            self.known_connection(request_id).state.response()
        } else {
            Err(HttpOverWsErrorView::RequestIdNotFound)
        }
    }

    /// The request with the given id, if one was assigned under it.
    pub open spec fn get_http_connection(self, request_id: HttpRequestId) -> Option<
        HttpRequestView,
    > {
        if self.is_known(request_id) {
            Some(self.known_connection(request_id).request)
        } else {
            None
        }
    }

    /// The state after the timer of the request with the given id, assigned to the given
    /// proxy, has fired: the connection fails with a timeout if it still waits, whether
    /// the proxy still has it or it is abandoned.
    pub open spec fn http_connection_timeout(
        self,
        principal: Principal,
        request_id: HttpRequestId,
    ) -> Self {
        if self.has_connection(principal, request_id) {
            self.update_connection_state(principal, request_id, timeout_result())
        } else if is_assigned(self.abandoned, request_id) {
            StateView {
                abandoned: with_connection_of(
                    self.abandoned,
                    request_id,
                    connection_of(self.abandoned, request_id).update(timeout_result()),
                ),
                ..self
            }
        } else {
            self
        }
    }

    /// The callback that the firing of that timer releases, with the timeout as its result.
    pub open spec fn timeout_callback(
        self,
        principal: Principal,
        request_id: HttpRequestId,
    ) -> Option<(C, HttpResultView)> {
        if self.has_connection(principal, request_id) {
            self.released_callback(principal, request_id, timeout_result())
        } else if is_assigned(self.abandoned, request_id) {
            connection_of(self.abandoned, request_id).state.released_callback(timeout_result())
        } else {
            None
        }
    }

    /// The principals of the connected proxies, in their order.
    pub open spec fn principals(self) -> Seq<Principal> {
        self.connected_proxies.map_values(|proxy: (Principal, ClientProxyView<C>)| proxy.0)
    }
}

/// The request timed out: the model of the result that the timer delivers.
pub open spec fn timeout_result() -> HttpResultView {
    HttpResultView::Failure(HttpFailureReasonView::RequestTimeout)
}

} // verus!
