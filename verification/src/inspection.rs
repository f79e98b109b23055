//! The two inspection operations over the store: list everything, clear
//! everything.

use vstd::prelude::*;
use crate::record::{connection_views, Connection, ConnectionView};
use crate::repository::Repository;

verus! {

/// The answer to a list request: all connections of the store at one moment,
/// and how many they are.
#[derive(Debug)]
pub struct ConnectionsResponse {
    count: usize,
    connections: Vec<Connection>,
}

/// The mathematical value of a [`ConnectionsResponse`].
pub struct ConnectionsResponseView {
    pub count: nat,
    pub connections: Seq<ConnectionView>,
}

impl View for ConnectionsResponse {
    type V = ConnectionsResponseView;

    closed spec fn view(&self) -> ConnectionsResponseView {
        ConnectionsResponseView {
            count: self.count as nat,
            connections: connection_views(self.connections@),
        }
    }
}

/// The answer to a list request on a store that holds `store`.
pub open spec fn listing(store: Seq<ConnectionView>) -> ConnectionsResponseView {
    ConnectionsResponseView { count: store.len(), connections: store }
}

/// What a clear request leaves of a store that holds `store`.
pub open spec fn cleared(store: Seq<ConnectionView>) -> Seq<ConnectionView> {
    Seq::empty()
}

/// The fixed acknowledgement of a clear request.
pub open spec fn clear_acknowledgement() -> Seq<char> {
    "Wiped"@
}

impl ConnectionsResponse {
    /// The answer that lists `connections`.
    pub fn new(connections: Vec<Connection>) -> (r: ConnectionsResponse)
        ensures
            r@ == listing(connection_views(connections@)),
    {
        ConnectionsResponse { count: connections.len(), connections }
    }

    /// How many connections are listed.
    pub fn count(&self) -> (n: usize)
        ensures
            n == self@.count,
    {
        self.count
    }

    /// The connections listed, in the order of the store.
    pub fn connections(&self) -> (r: &Vec<Connection>)
        ensures
            connection_views(r@) == self@.connections,
    {
        &self.connections
    }
}

/// Lists the whole store as it is at this moment.
pub fn list(repository: &Repository) -> (r: ConnectionsResponse)
    ensures
        r@ == listing(repository@),
{
    ConnectionsResponse::new(repository.snapshot())
}

/// Empties the store and acknowledges it.
pub fn clear(repository: &mut Repository) -> (ack: &'static str)
    ensures
        final(repository)@ == cleared(old(repository)@),
        ack@ == clear_acknowledgement(),
{
    repository.clear();
    "Wiped"
}

/// A list request right after a clear request finds nothing, whatever the
/// store held before.
pub proof fn lemma_list_after_clear_is_empty(store: Seq<ConnectionView>)
    ensures
        listing(cleared(store)) == (ConnectionsResponseView {
            count: 0,
            connections: Seq::empty(),
        }),
{
}

/// Clearing twice is clearing once.
pub proof fn lemma_clear_is_idempotent(store: Seq<ConnectionView>)
    ensures
        cleared(cleared(store)) == cleared(store),
{
}

/// What a list request shows is as long as its count says, and a session that
/// completes after a clear request is the only thing that the next list
/// request shows.
pub proof fn lemma_list_counts_the_store(store: Seq<ConnectionView>, late: ConnectionView)
    ensures
        listing(store).count == listing(store).connections.len(),
        listing(cleared(store).push(late)) == (ConnectionsResponseView {
            count: 1,
            connections: seq![late],
        }),
{
}

} // verus!
