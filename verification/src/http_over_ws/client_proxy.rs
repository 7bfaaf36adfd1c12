use super::http_connection::{
    callback_view, HttpCallbackWithResult, HttpConnection, HttpConnectionView, HttpOverWsError,
    HttpRequestId, HttpResult,
};
use ic_cdk_timers::TimerId;
use std::collections::BTreeMap;
use vstd::prelude::*;

verus! {

/// The connections assigned to one connected proxy, by request id.
pub struct ClientProxy<C> {
    connections: BTreeMap<HttpRequestId, HttpConnection<C>>,
}

/// The model of a proxy: its connections by request id.
pub type ClientProxyView<C> = Map<HttpRequestId, HttpConnectionView<C>>;

impl<C> View for ClientProxy<C> {
    type V = ClientProxyView<C>;

    closed spec fn view(&self) -> ClientProxyView<C> {
        self.connections@.map_values(|connection: HttpConnection<C>| connection@)
    }
}

impl<C> ClientProxy<C> {
    pub fn new() -> (proxy: Self)
        ensures
            proxy@ == ClientProxyView::<C>::empty(),
    {
        ClientProxy { connections: BTreeMap::new() }
    }

    pub fn assign_connection(&mut self, request_id: HttpRequestId, connection: HttpConnection<C>)
        ensures
            final(self)@ == old(self)@.insert(request_id, connection@),
    {
        self.connections.insert(request_id, connection);
    }

    pub fn get_connection(&self, request_id: HttpRequestId) -> (connection: Option<
        &HttpConnection<C>,
    >)
        ensures
            match connection {
                Some(connection) => self@.contains_key(request_id) && connection@
                    == self@[request_id],
                None => !self@.contains_key(request_id),
            },
    {
        self.connections.get(&request_id)
    }

    /// Hands the result to the connection with the given id, which resolves if it is
    /// still waiting.
    pub fn update_connection_state(
        &mut self,
        request_id: HttpRequestId,
        http_result: HttpResult,
    ) -> (updated: Result<Option<HttpCallbackWithResult<C>>, HttpOverWsError>)
        ensures
            match updated {
                Ok(callback_with_result) => {
                    &&& old(self)@.contains_key(request_id)
                    &&& final(self)@ == old(self)@.insert(
                        request_id,
                        old(self)@[request_id].update(http_result@),
                    )
                    &&& callback_view(callback_with_result)
                        == old(self)@[request_id].state.released_callback(http_result@)
                },
                Err(error) => {
                    &&& !old(self)@.contains_key(request_id)
                    &&& final(self)@ == old(self)@
                    &&& error == HttpOverWsError::RequestIdNotFound
                },
            },
    {
        match self.connections.remove(&request_id) {
            Some(mut connection) => {
                let callback_with_result = connection.update_state(http_result);
                self.connections.insert(request_id, connection);
                Ok(callback_with_result)
            },
            None => Err(HttpOverWsError::RequestIdNotFound),
        }
    }

    /// Records the timer armed for the connection with the given id, and hands back the
    /// timer that has thereby become useless.
    pub fn set_connection_timer(&mut self, request_id: HttpRequestId, timer_id: TimerId) -> (armed:
        Result<Option<TimerId>, HttpOverWsError>)
        ensures
            match armed {
                Ok(superseded) => {
                    &&& old(self)@.contains_key(request_id)
                    &&& final(self)@ == old(self)@.insert(
                        request_id,
                        old(self)@[request_id].with_timer(timer_id),
                    )
                    &&& superseded == old(self)@[request_id].state.superseded_timer(timer_id)
                },
                Err(error) => {
                    &&& !old(self)@.contains_key(request_id)
                    &&& final(self)@ == old(self)@
                    &&& error == HttpOverWsError::RequestIdNotFound
                },
            },
    {
        match self.connections.remove(&request_id) {
            Some(mut connection) => {
                let superseded = connection.set_timer(timer_id);
                self.connections.insert(request_id, connection);
                Ok(superseded)
            },
            None => Err(HttpOverWsError::RequestIdNotFound),
        }
    }

    pub fn remove_connection(&mut self, request_id: HttpRequestId) -> (removed: Result<
        HttpConnection<C>,
        HttpOverWsError,
    >)
        ensures
            final(self)@ == old(self)@.remove(request_id),
            match removed {
                Ok(connection) => old(self)@.contains_key(request_id) && connection@
                    == old(self)@[request_id],
                Err(error) => !old(self)@.contains_key(request_id) && error
                    == HttpOverWsError::ConnectionNotAssignedToProxy,
            },
    {
        let removed = self.connections.remove(&request_id);
        match removed {
            Some(connection) => Ok(connection),
            None => Err(HttpOverWsError::ConnectionNotAssignedToProxy),
        }
    }
}

} // verus!
