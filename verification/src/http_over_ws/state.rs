use super::client_proxy::{ClientProxy, ClientProxyView};
use super::http_connection::{
    callback_view, response_view, GetHttpResponseResult, HttpCallbackWithResult, HttpConnection,
    HttpFailureReason, HttpOverWsError, HttpRequest, HttpRequestId, HttpResult,
};
use super::ic::{clear_timer, same_principal};
use super::model::{
    connection_of, connections_of, distinct_principals, index_of, is_assigned, is_connected,
    lemma_index_of, proxies_updated, proxies_with, proxies_without, proxy_for_connection,
    timeout_result, with_connection_of, ProxiesView, StateView,
};
use candid::Principal;
use ic_cdk_timers::TimerId;
use vstd::prelude::*;

verus! {

/// The model of a list of proxies.
pub open spec fn proxies_view<C>(proxies: Seq<(Principal, ClientProxy<C>)>) -> ProxiesView<C> {
    proxies.map_values(|proxy: (Principal, ClientProxy<C>)| (proxy.0, proxy.1@))
}

/// The connection with the given id, looked for in the proxies in their order.
fn find_connection<C>(proxies: &Vec<(Principal, ClientProxy<C>)>, request_id: HttpRequestId) -> (found:
    Option<&HttpConnection<C>>)
    ensures
        match found {
            Some(connection) => is_assigned(proxies_view(proxies@), request_id) && connection@
                == connection_of(proxies_view(proxies@), request_id),
            None => !is_assigned(proxies_view(proxies@), request_id),
        },
{
    let mut index: usize = 0;
    while index < proxies.len()
        invariant
            index <= proxies.len(),
            forall|i: int|
                0 <= i < index ==> !(#[trigger] proxies_view(proxies@)[i]).1.contains_key(
                    request_id,
                ),
        decreases proxies.len() - index,
    {
        match proxies[index].1.get_connection(request_id) {
            Some(connection) => {
                assert(proxies_view(proxies@)[index as int].1.contains_key(request_id));
                return Some(connection);
            },
            None => {},
        }
        index += 1;
    }
    None
}

/// The proxies connected to the canister, in the order in which they connected.
pub struct ConnectedProxies<C>(Vec<(Principal, ClientProxy<C>)>);

impl<C> View for ConnectedProxies<C> {
    type V = ProxiesView<C>;

    closed spec fn view(&self) -> ProxiesView<C> {
        proxies_view(self.0@)
    }
}

/// The proxies that have gone, each with the connections that it left behind, in the
/// order in which they went. No proxy answers for these connections any more; a timer that
/// was armed for one of them still makes it fail.
pub struct AbandonedProxies<C>(Vec<(Principal, ClientProxy<C>)>);

impl<C> View for AbandonedProxies<C> {
    type V = ProxiesView<C>;

    closed spec fn view(&self) -> ProxiesView<C> {
        proxies_view(self.0@)
    }
}

impl<C> AbandonedProxies<C> {
    fn new() -> (abandoned: Self)
        ensures
            abandoned@ == ProxiesView::<C>::empty(),
    {
        AbandonedProxies(Vec::new())
    }

    /// Takes in the connections of a proxy that has gone.
    fn push(&mut self, proxy_principal: Principal, proxy: ClientProxy<C>)
        ensures
            final(self)@ == old(self)@.push((proxy_principal, proxy@)),
    {
        self.0.push((proxy_principal, proxy));
    }

    /// Takes in the connections of proxies that have gone.
    fn append(&mut self, proxies: Vec<(Principal, ClientProxy<C>)>)
        ensures
            final(self)@ == old(self)@ + proxies_view(proxies@),
    {
        let mut proxies = proxies;
        self.0.append(&mut proxies);
    }

    /// The connection with the given id fails with a timeout if it still waits, and its
    /// callback is handed out with that result.
    fn time_out(&mut self, request_id: HttpRequestId) -> (callback_with_result: Option<
        HttpCallbackWithResult<C>,
    >)
        ensures
            if is_assigned(old(self)@, request_id) {
                &&& final(self)@ == with_connection_of(
                    old(self)@,
                    request_id,
                    connection_of(old(self)@, request_id).update(timeout_result()),
                )
                &&& callback_view(callback_with_result) == connection_of(
                    old(self)@,
                    request_id,
                ).state.released_callback(timeout_result())
            } else {
                &&& final(self)@ == old(self)@
                &&& callback_with_result is None
            },
    {
        let mut index: usize = 0;
        while index < self.0.len()
            invariant
                index <= self.0.len(),
                *self == *old(self),
                forall|i: int| 0 <= i < index ==> !(#[trigger] self@[i]).1.contains_key(request_id),
            decreases self.0.len() - index,
        {
            if self.0[index].1.get_connection(request_id).is_some() {
                assert(self@[index as int].1.contains_key(request_id));
                let (principal, mut proxy) = self.0.remove(index);
                let timed_out = HttpResult::Failure(HttpFailureReason::RequestTimeout);
                let updated = proxy.update_connection_state(request_id, timed_out);
                self.0.insert(index, (principal, proxy));
                assert(self@ =~= with_connection_of(
                    old(self)@,
                    request_id,
                    connection_of(old(self)@, request_id).update(timeout_result()),
                ));
                return match updated {
                    Ok(callback_with_result) => callback_with_result,
                    Err(_) => None,
                };
            }
            index += 1;
        }
        None
    }
}

impl<C> ConnectedProxies<C> {
    /// No principal is connected twice.
    pub open spec fn wf(&self) -> bool {
        distinct_principals(self@)
    }

    fn new() -> (proxies: Self)
        ensures
            proxies@ == ProxiesView::<C>::empty(),
            proxies.wf(),
    {
        ConnectedProxies(Vec::new())
    }

    fn len(&self) -> (count: usize)
        ensures
            count == self@.len(),
    {
        self.0.len()
    }

    /// The principal of the proxy at the given place.
    fn principal_at(&self, index: usize) -> (principal: Principal)
        requires
            index < self@.len(),
        ensures
            principal == self@[index as int].0,
    {
        self.0[index].0
    }

    /// The place of the proxy with the given principal, if it is connected.
    fn find(&self, proxy_principal: &Principal) -> (found: Option<usize>)
        requires
            self.wf(),
        ensures
            match found {
                Some(index) => is_connected(self@, *proxy_principal) && index == index_of(
                    self@,
                    *proxy_principal,
                ) && index < self@.len(),
                None => !is_connected(self@, *proxy_principal),
            },
    {
        let mut index: usize = 0;
        while index < self.0.len()
            invariant
                self.wf(),
                index <= self.0.len(),
                forall|i: int| 0 <= i < index ==> (#[trigger] self@[i]).0 != *proxy_principal,
            decreases self.0.len() - index,
        {
            if same_principal(&self.0[index].0, proxy_principal) {
                proof {
                    lemma_index_of(self@, index as int);
                }
                return Some(index);
            }
            index += 1;
        }
        None
    }

    /// Takes in the proxy with the given principal, without connections. Where it was
    /// connected already, the connections it had are handed back.
    fn add_proxy(&mut self, proxy_principal: Principal) -> (replaced: Option<ClientProxy<C>>)
        requires
            old(self).wf(),
        ensures
            final(self).wf(),
            final(self)@ == proxies_with(old(self)@, proxy_principal),
            match replaced {
                Some(proxy) => is_connected(old(self)@, proxy_principal) && proxy@
                    == connections_of(old(self)@, proxy_principal),
                None => !is_connected(old(self)@, proxy_principal),
            },
    {
        match self.find(&proxy_principal) {
            Some(index) => {
                let (_, replaced) = self.0.remove(index);
                self.0.insert(index, (proxy_principal, ClientProxy::new()));
                assert(self@ =~= proxies_with(old(self)@, proxy_principal));
                Some(replaced)
            },
            None => {
                self.0.push((proxy_principal, ClientProxy::new()));
                assert(self@ =~= proxies_with(old(self)@, proxy_principal));
                None
            },
        }
    }

    fn assign_connection_to_proxy(
        &mut self,
        proxy_principal: &Principal,
        request_id: HttpRequestId,
        connection: HttpConnection<C>,
    ) -> (assigned: Result<(), HttpOverWsError>)
        requires
            old(self).wf(),
        ensures
            final(self).wf(),
            match assigned {
                Ok(()) => {
                    &&& is_connected(old(self)@, *proxy_principal)
                    &&& final(self)@ == proxies_updated(
                        old(self)@,
                        *proxy_principal,
                        connections_of(old(self)@, *proxy_principal).insert(
                            request_id,
                            connection@,
                        ),
                    )
                },
                Err(error) => {
                    &&& !is_connected(old(self)@, *proxy_principal)
                    &&& final(self)@ == old(self)@
                    &&& error == HttpOverWsError::ProxyNotFound
                },
            },
    {
        match self.find(proxy_principal) {
            Some(index) => {
                let (principal, mut proxy) = self.0.remove(index);
                proxy.assign_connection(request_id, connection);
                self.0.insert(index, (principal, proxy));
                assert(self@ =~= proxies_updated(
                    old(self)@,
                    *proxy_principal,
                    connections_of(old(self)@, *proxy_principal).insert(request_id, connection@),
                ));
                Ok(())
            },
            None => Err(HttpOverWsError::ProxyNotFound),
        }
    }

    /// Removes the connection from the proxy.
    fn complete_connection_for_proxy(
        &mut self,
        proxy_principal: &Principal,
        request_id: HttpRequestId,
    ) -> (completed: Result<(), HttpOverWsError>)
        requires
            old(self).wf(),
        ensures
            final(self).wf(),
            match completed {
                Ok(()) => {
                    &&& is_connected(old(self)@, *proxy_principal)
                    &&& connections_of(old(self)@, *proxy_principal).contains_key(request_id)
                    &&& final(self)@ == proxies_updated(
                        old(self)@,
                        *proxy_principal,
                        connections_of(old(self)@, *proxy_principal).remove(request_id),
                    )
                },
                Err(error) => {
                    &&& final(self)@ == old(self)@
                    &&& if is_connected(old(self)@, *proxy_principal) {
                        &&& !connections_of(old(self)@, *proxy_principal).contains_key(request_id)
                        &&& error == HttpOverWsError::ConnectionNotAssignedToProxy
                    } else {
                        error == HttpOverWsError::ProxyNotFound
                    }
                },
            },
    {
        match self.find(proxy_principal) {
            Some(index) => {
                let (principal, mut proxy) = self.0.remove(index);
                let removed = proxy.remove_connection(request_id);
                self.0.insert(index, (principal, proxy));
                match removed {
                    Ok(_) => {
                        assert(self@ =~= proxies_updated(
                            old(self)@,
                            *proxy_principal,
                            connections_of(old(self)@, *proxy_principal).remove(request_id),
                        ));
                        Ok(())
                    },
                    Err(error) => {
                        assert(proxy@ =~= old(self)@[index as int].1);
                        assert(self@ =~= old(self)@);
                        Err(error)
                    },
                }
            },
            None => Err(HttpOverWsError::ProxyNotFound),
        }
    }

    fn update_connection_state(
        &mut self,
        proxy_principal: &Principal,
        request_id: HttpRequestId,
        http_result: HttpResult,
    ) -> (updated: Result<Option<HttpCallbackWithResult<C>>, HttpOverWsError>)
        requires
            old(self).wf(),
        ensures
            final(self).wf(),
            match updated {
                Ok(callback_with_result) => {
                    &&& is_connected(old(self)@, *proxy_principal)
                    &&& connections_of(old(self)@, *proxy_principal).contains_key(request_id)
                    &&& final(self)@ == proxies_updated(
                        old(self)@,
                        *proxy_principal,
                        connections_of(old(self)@, *proxy_principal).insert(
                            request_id,
                            connections_of(old(self)@, *proxy_principal)[request_id].update(
                                http_result@,
                            ),
                        ),
                    )
                    &&& callback_view(callback_with_result) == connections_of(
                        old(self)@,
                        *proxy_principal,
                    )[request_id].state.released_callback(http_result@)
                },
                Err(error) => {
                    &&& final(self)@ == old(self)@
                    &&& if is_connected(old(self)@, *proxy_principal) {
                        &&& !connections_of(old(self)@, *proxy_principal).contains_key(request_id)
                        &&& error == HttpOverWsError::RequestIdNotFound
                    } else {
                        error == HttpOverWsError::ProxyNotFound
                    }
                },
            },
    {
        match self.find(proxy_principal) {
            Some(index) => {
                let (principal, mut proxy) = self.0.remove(index);
                let updated = proxy.update_connection_state(request_id, http_result);
                self.0.insert(index, (principal, proxy));
                match updated {
                    Ok(callback_with_result) => {
                        assert(self@ =~= proxies_updated(
                            old(self)@,
                            *proxy_principal,
                            connections_of(old(self)@, *proxy_principal).insert(
                                request_id,
                                connections_of(old(self)@, *proxy_principal)[request_id].update(
                                    http_result@,
                                ),
                            ),
                        ));
                        Ok(callback_with_result)
                    },
                    Err(error) => {
                        assert(self@ =~= old(self)@);
                        Err(error)
                    },
                }
            },
            None => Err(HttpOverWsError::ProxyNotFound),
        }
    }

    fn set_connection_timer(
        &mut self,
        proxy_principal: &Principal,
        request_id: HttpRequestId,
        timer_id: TimerId,
    ) -> (armed: Result<Option<TimerId>, HttpOverWsError>)
        requires
            old(self).wf(),
        ensures
            final(self).wf(),
            match armed {
                Ok(superseded) => {
                    &&& is_connected(old(self)@, *proxy_principal)
                    &&& connections_of(old(self)@, *proxy_principal).contains_key(request_id)
                    &&& final(self)@ == proxies_updated(
                        old(self)@,
                        *proxy_principal,
                        connections_of(old(self)@, *proxy_principal).insert(
                            request_id,
                            connections_of(old(self)@, *proxy_principal)[request_id].with_timer(
                                timer_id,
                            ),
                        ),
                    )
                    &&& superseded == connections_of(
                        old(self)@,
                        *proxy_principal,
                    )[request_id].state.superseded_timer(timer_id)
                },
                Err(error) => {
                    &&& final(self)@ == old(self)@
                    &&& if is_connected(old(self)@, *proxy_principal) {
                        &&& !connections_of(old(self)@, *proxy_principal).contains_key(request_id)
                        &&& error == HttpOverWsError::RequestIdNotFound
                    } else {
                        error == HttpOverWsError::ProxyNotFound
                    }
                },
            },
    {
        match self.find(proxy_principal) {
            Some(index) => {
                let (principal, mut proxy) = self.0.remove(index);
                let armed = proxy.set_connection_timer(request_id, timer_id);
                self.0.insert(index, (principal, proxy));
                match armed {
                    Ok(superseded) => {
                        assert(self@ =~= proxies_updated(
                            old(self)@,
                            *proxy_principal,
                            connections_of(old(self)@, *proxy_principal).insert(
                                request_id,
                                connections_of(old(self)@, *proxy_principal)[request_id].with_timer(
                                    timer_id,
                                ),
                            ),
                        ));
                        Ok(superseded)
                    },
                    Err(error) => {
                        assert(self@ =~= old(self)@);
                        Err(error)
                    },
                }
            },
            None => Err(HttpOverWsError::ProxyNotFound),
        }
    }

    /// The principals of the proxies, in their order.
    fn principals(&self) -> (principals: Vec<Principal>)
        ensures
            principals@ == self@.map_values(|proxy: (Principal, ClientProxyView<C>)| proxy.0),
    {
        let mut principals: Vec<Principal> = Vec::new();
        let mut index: usize = 0;
        while index < self.0.len()
            invariant
                index <= self.0.len(),
                principals@.len() == index,
                forall|i: int| 0 <= i < index ==> principals@[i] == (#[trigger] self@[i]).0,
            decreases self.0.len() - index,
        {
            principals.push(self.0[index].0);
            index += 1;
        }
        principals
    }

    /// Lets the proxy with the given principal go, and hands back the connections it had.
    fn remove_proxy(&mut self, proxy_principal: &Principal) -> (removed: Result<
        ClientProxy<C>,
        HttpOverWsError,
    >)
        requires
            old(self).wf(),
        ensures
            final(self).wf(),
            final(self)@ == proxies_without(old(self)@, *proxy_principal),
            match removed {
                Ok(proxy) => is_connected(old(self)@, *proxy_principal) && proxy@
                    == connections_of(old(self)@, *proxy_principal),
                Err(error) => !is_connected(old(self)@, *proxy_principal) && error
                    == HttpOverWsError::ProxyNotFound,
            },
    {
        match self.find(proxy_principal) {
            Some(index) => {
                let (_, removed) = self.0.remove(index);
                assert(self@ =~= proxies_without(old(self)@, *proxy_principal));
                Ok(removed)
            },
            None => Err(HttpOverWsError::ProxyNotFound),
        }
    }

    /// Lets all proxies go, and hands them back with the connections they had.
    fn take_all(&mut self) -> (proxies: Vec<(Principal, ClientProxy<C>)>)
        ensures
            final(self).wf(),
            final(self)@ == ProxiesView::<C>::empty(),
            proxies_view(proxies@) == old(self)@,
    {
        let mut proxies: Vec<(Principal, ClientProxy<C>)> = Vec::new();
        core::mem::swap(&mut self.0, &mut proxies);
        proxies
    }
}

/// The state of the canister: the connected proxies with their connections, the
/// connections of the proxies that have gone, and the id that was given to the latest
/// request.
pub struct State<C> {
    connected_proxies: ConnectedProxies<C>,
    abandoned: AbandonedProxies<C>,
    next_request_id: HttpRequestId,
}

impl<C> View for State<C> {
    type V = StateView<C>;

    closed spec fn view(&self) -> StateView<C> {
        StateView {
            connected_proxies: self.connected_proxies@,
            abandoned: self.abandoned@,
            next_request_id: self.next_request_id,
        }
    }
}

impl<C> State<C> {
    /// What holds of every state that was made with [`State::new`] and changed by the
    /// functions of this library alone.
    pub open spec fn wf(&self) -> bool {
        self@.wf()
    }

    /// The state of a canister to which no proxy has connected yet.
    pub fn new() -> (state: Self)
        ensures
            state.wf(),
            state@ == StateView::<C>::init(),
    {
        State {
            connected_proxies: ConnectedProxies::new(),
            abandoned: AbandonedProxies::new(),
            next_request_id: 0,
        }
    }

    /// The id that was given to the latest request, 0 before the first.
    pub fn last_request_id(&self) -> (request_id: HttpRequestId)
        ensures
            request_id == self@.next_request_id,
    {
        self.next_request_id
    }

    /// Takes in the proxy with the given principal, without connections. A proxy that is
    /// connected already keeps its place among the proxies and starts anew: the
    /// connections it had are abandoned.
    pub fn add_proxy(&mut self, proxy_principal: Principal)
        requires
            old(self).wf(),
        ensures
            final(self).wf(),
            final(self)@ == old(self)@.add_proxy(proxy_principal),
    {
        match self.connected_proxies.add_proxy(proxy_principal) {
            Some(replaced) => {
                self.abandoned.push(proxy_principal, replaced);
            },
            None => {},
        }
    }

    /// Lets the proxy with the given principal go. Its connections are abandoned: no
    /// proxy answers for them any more.
    pub fn remove_proxy(&mut self, proxy_principal: &Principal) -> (removed: Result<
        (),
        HttpOverWsError,
    >)
        requires
            old(self).wf(),
        ensures
            final(self).wf(),
            final(self)@ == old(self)@.remove_proxy(*proxy_principal),
            match removed {
                Ok(()) => is_connected(old(self)@.connected_proxies, *proxy_principal),
                Err(error) => !is_connected(old(self)@.connected_proxies, *proxy_principal)
                    && error == HttpOverWsError::ProxyNotFound,
            },
    {
        match self.connected_proxies.remove_proxy(proxy_principal) {
            Ok(removed) => {
                self.abandoned.push(*proxy_principal, removed);
                Ok(())
            },
            Err(error) => Err(error),
        }
    }

    /// Gives the request the next id and assigns it to the proxy chosen for that id, where
    /// it waits for its response. The id is used up also where no proxy is connected.
    pub fn assign_connection(&mut self, request: HttpRequest, callback: Option<C>) -> (assigned:
        Result<(Principal, HttpRequestId), HttpOverWsError>)
        requires
            old(self).wf(),
            old(self)@.next_request_id < HttpRequestId::MAX,
        ensures
            final(self).wf(),
            final(self)@ == old(self)@.assign_connection(request@, callback),
            match assigned {
                Ok((proxy_principal, request_id)) => {
                    &&& old(self)@.upcoming_proxy() == Some(proxy_principal)
                    &&& request_id == old(self)@.upcoming_request_id()
                },
                Err(error) => {
                    &&& old(self)@.upcoming_proxy() is None
                    &&& error == HttpOverWsError::NoProxiesConnected
                },
            },
    {
        let request_id = self.next_request_id();

        let proxy_principal = match self.get_proxy_for_connection(request_id) {
            Some(proxy_principal) => proxy_principal,
            None => {
                return Err(HttpOverWsError::NoProxiesConnected);
            },
        };

        let connection = HttpConnection::new(request_id, request, callback, None);

        let assigned = self.connected_proxies.assign_connection_to_proxy(
            &proxy_principal,
            request_id,
            connection,
        );
        match assigned {
            Ok(()) => Ok((proxy_principal, request_id)),
            Err(error) => Err(error),
        }
    }

    fn next_request_id(&mut self) -> (request_id: HttpRequestId)
        requires
            old(self)@.next_request_id < HttpRequestId::MAX,
        ensures
            request_id == old(self)@.upcoming_request_id(),
            final(self)@ == (StateView { next_request_id: request_id, ..old(self)@ }),
    {
        self.next_request_id += 1;
        self.next_request_id
    }

    /// The proxy that a request with the given id goes to.
    pub fn get_proxy_for_connection(&self, request_id: HttpRequestId) -> (chosen: Option<
        Principal,
    >)
        ensures
            chosen == proxy_for_connection(self@.connected_proxies, request_id),
    {
        let connected_proxies_count = self.connected_proxies.len();
        if connected_proxies_count == 0 {
            return None;
        }
        let chosen_proxy_index = (request_id % (connected_proxies_count as u64)) as usize;
        // chosen_proxy_index is in [0, connected_proxies_count)
        // where connected_proxies_count is the number of proxies currently connected
        Some(self.connected_proxies.principal_at(chosen_proxy_index))
    }

    /// Delivers a result from the given proxy for the request with the given id. The
    /// connection is resolved if it is still waiting; its callback is then handed out with
    /// the result. A connection that is already resolved is left as it is.
    pub fn update_connection_state(
        &mut self,
        proxy_principal: Principal,
        request_id: HttpRequestId,
        http_result: HttpResult,
    ) -> (updated: Result<Option<HttpCallbackWithResult<C>>, HttpOverWsError>)
        requires
            old(self).wf(),
        ensures
            final(self).wf(),
            final(self)@ == old(self)@.update_connection_state(
                proxy_principal,
                request_id,
                http_result@,
            ),
            old(self)@.is_update_outcome(proxy_principal, request_id, http_result@, updated),
    {
        self.connected_proxies.update_connection_state(&proxy_principal, request_id, http_result)
    }

    /// Records the timer that was armed for the request with the given id at the given
    /// proxy. The timer that has thereby become useless is cleared: the one recorded
    /// before; the new one itself where the connection is already resolved, or where the
    /// proxy has no such connection.
    pub fn set_connection_timer(
        &mut self,
        proxy_principal: Principal,
        request_id: HttpRequestId,
        timer_id: TimerId,
    ) -> (armed: Result<(), HttpOverWsError>)
        requires
            old(self).wf(),
        ensures
            final(self).wf(),
            final(self)@ == old(self)@.set_connection_timer(proxy_principal, request_id, timer_id),
            match armed {
                Ok(()) => old(self)@.has_connection(proxy_principal, request_id),
                Err(error) => {
                    &&& !old(self)@.has_connection(proxy_principal, request_id)
                    &&& error@ == old(self)@.lookup_error(proxy_principal, request_id)
                },
            },
    {
        match self.connected_proxies.set_connection_timer(&proxy_principal, request_id, timer_id) {
            Ok(superseded) => {
                if let Some(superseded) = superseded {
                    clear_timer(superseded);
                }
                Ok(())
            },
            Err(error) => {
                clear_timer(timer_id);
                Err(error)
            },
        }
    }

    /// Removes the connection with the given id from the given proxy.
    pub fn complete_connection_for_proxy(
        &mut self,
        proxy_principal: &Principal,
        request_id: HttpRequestId,
    ) -> (completed: Result<(), HttpOverWsError>)
        requires
            old(self).wf(),
        ensures
            final(self).wf(),
            final(self)@ == old(self)@.complete_connection_for_proxy(*proxy_principal, request_id),
            match completed {
                Ok(()) => old(self)@.has_connection(*proxy_principal, request_id),
                Err(error) => {
                    &&& !old(self)@.has_connection(*proxy_principal, request_id)
                    &&& error == if is_connected(old(self)@.connected_proxies, *proxy_principal) {
                        HttpOverWsError::ConnectionNotAssignedToProxy
                    } else {
                        HttpOverWsError::ProxyNotFound
                    }
                },
            },
    {
        self.connected_proxies.complete_connection_for_proxy(proxy_principal, request_id)
    }

    /// The connection with the given id, looked for at the connected proxies first and
    /// among the abandoned connections then.
    fn find_connection(&self, request_id: HttpRequestId) -> (found: Option<&HttpConnection<C>>)
        ensures
            match found {
                Some(connection) => self@.is_known(request_id) && connection@
                    == self@.known_connection(request_id),
                None => !self@.is_known(request_id),
            },
    {
        match find_connection(&self.connected_proxies.0, request_id) {
            Some(connection) => Some(connection),
            None => find_connection(&self.abandoned.0, request_id),
        }
    }

    /// The request with the given id, if one was assigned under it.
    pub fn get_http_connection(&self, request_id: HttpRequestId) -> (request: Option<HttpRequest>)
        ensures
            match request {
                Some(request) => self@.get_http_connection(request_id) == Some(request@),
                None => self@.get_http_connection(request_id) is None,
            },
    {
        match self.find_connection(request_id) {
            Some(connection) => Some(connection.get_request()),
            None => None,
        }
    }

    /// The response to the request with the given id, once it has been received, whether
    /// its proxy is still connected or not.
    pub fn get_http_response(&self, request_id: HttpRequestId) -> (response: GetHttpResponseResult)
        ensures
            response_view(response) == self@.get_http_response(request_id),
    {
        match self.find_connection(request_id) {
            Some(connection) => connection.get_response(),
            None => Err(HttpOverWsError::RequestIdNotFound),
        }
    }

    /// The principals of the connected proxies, in their order.
    pub fn get_connected_proxies(&self) -> (principals: Vec<Principal>)
        ensures
            principals@ == self@.principals(),
    {
        self.connected_proxies.principals()
    }

    /// Lets all proxies go. Their connections are abandoned: no proxy answers for them
    /// any more.
    pub fn remove_all_proxies(&mut self)
        requires
            old(self).wf(),
        ensures
            final(self).wf(),
            final(self)@ == old(self)@.remove_all_proxies(),
    {
        let gone = self.connected_proxies.take_all();
        self.abandoned.append(gone);
    }
}

/// The timer of the request with the given id, which was assigned to the given proxy, has
/// fired: the connection fails with a timeout if it is still waiting, and its callback is
/// handed out with that result. This is so whether the proxy still has the connection or
/// has gone and left it behind. Nothing happens if the connection is resolved already or
/// no such connection is kept.
pub fn http_connection_timeout<C>(
    state: &mut State<C>,
    proxy_principal: Principal,
    request_id: HttpRequestId,
) -> (callback_with_result: Option<HttpCallbackWithResult<C>>)
    requires
        old(state).wf(),
    ensures
        final(state).wf(),
        final(state)@ == old(state)@.http_connection_timeout(proxy_principal, request_id),
        callback_view(callback_with_result) == old(state)@.timeout_callback(
            proxy_principal,
            request_id,
        ),
{
    let timed_out = HttpResult::Failure(HttpFailureReason::RequestTimeout);
    match state.update_connection_state(proxy_principal, request_id, timed_out) {
        Ok(callback_with_result) => callback_with_result,
        Err(_) => state.abandoned.time_out(request_id),
    }
}

} // verus!
