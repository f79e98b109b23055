//! The store of completed sessions: an ordered sequence of connections that
//! grows at its end and is emptied only as a whole.

use vstd::prelude::*;
use crate::record::{clone_connections, connection_views, Connection, ConnectionView};
use crate::session::{outcome, Phase, SessionError, SessionView, StreamEnd};

verus! {

/// The connections of the sessions that have completed, in the order in which
/// they completed.
#[derive(Debug)]
pub struct Repository {
    connections: Vec<Connection>,
}

impl View for Repository {
    type V = Seq<ConnectionView>;

    closed spec fn view(&self) -> Seq<ConnectionView> {
        connection_views(self.connections@)
    }
}

/// The store after a session has ended with `result`: a connection is put at
/// the end, a failure leaves the store as it was.
pub open spec fn recorded(
    store: Seq<ConnectionView>,
    result: Result<ConnectionView, SessionError>,
) -> Seq<ConnectionView> {
    match result {
        Ok(connection) => store.push(connection),
        Err(_) => store,
    }
}

/// The store after the connections of `batch` have been appended one by one.
pub open spec fn appended_all(
    store: Seq<ConnectionView>,
    batch: Seq<ConnectionView>,
) -> Seq<ConnectionView>
    decreases batch.len(),
{
    if batch.len() == 0 {
        store
    } else {
        appended_all(store.push(batch[0]), batch.drop_first())
    }
}

impl Repository {
    /// An empty store.
    pub fn new() -> (r: Repository)
        ensures
            r@ == Seq::<ConnectionView>::empty(),
    {
        Repository { connections: Vec::new() }
    }

    /// Puts a connection at the end of the store.
    pub fn append(&mut self, connection: Connection)
        ensures
            final(self)@ == old(self)@.push(connection@),
    {
        self.connections.push(connection);
    }

    /// Stores what a session has left: its connection, or nothing where it
    /// failed. Says whether a connection was stored.
    pub fn record(&mut self, result: Result<Connection, SessionError>) -> (stored: bool)
        ensures
            stored == result is Ok,
            final(self)@ == match result {
                Ok(connection) => old(self)@.push(connection@),
                Err(_) => old(self)@,
            },
    {
        match result {
            Ok(connection) => {
                self.append(connection);
                true
            },
            Err(_) => false,
        }
    }

    /// A copy of all that the store holds, in order.
    pub fn snapshot(&self) -> (copy: Vec<Connection>)
        ensures
            connection_views(copy@) == self@,
    {
        clone_connections(&self.connections)
    }

    /// Empties the store.
    pub fn clear(&mut self)
        ensures
            final(self)@ == Seq::<ConnectionView>::empty(),
    {
        self.connections.clear();
    }

    /// The number of connections in the store.
    pub fn len(&self) -> (n: usize)
        ensures
            n == self@.len(),
    {
        self.connections.len()
    }
}

/// Appending one by one is appending the batch as a whole: what was in the
/// store stays in front, and the batch follows in its own order.
pub proof fn lemma_appended_all_is_concatenation(
    store: Seq<ConnectionView>,
    batch: Seq<ConnectionView>,
)
    ensures
        appended_all(store, batch) == store + batch,
    decreases batch.len(),
{
    if batch.len() > 0 {
        lemma_appended_all_is_concatenation(store.push(batch[0]), batch.drop_first());
    }
}

/// In whatever order a set of sessions completes, once all their connections
/// are appended the store holds what it held before and each of these
/// connections exactly as often as it was handed in: none is lost, none is
/// doubled. `completion` is the order in which the sessions of `sessions`
/// happened to complete.
pub proof fn lemma_every_completed_session_is_stored(
    store: Seq<ConnectionView>,
    sessions: Seq<ConnectionView>,
    completion: Seq<ConnectionView>,
)
    requires
        completion.to_multiset() == sessions.to_multiset(),
    ensures
        appended_all(store, completion).len() == store.len() + sessions.len(),
        appended_all(store, completion).to_multiset() == store.to_multiset().add(
            sessions.to_multiset(),
        ),
        appended_all(Seq::empty(), completion).len() == sessions.len(),
        appended_all(Seq::empty(), completion).to_multiset() == sessions.to_multiset(),
        appended_all(Seq::empty(), completion) == completion,
{
    lemma_appended_all_is_concatenation(store, completion);
    lemma_appended_all_is_concatenation(Seq::empty(), completion);
    vstd::seq_lib::lemma_multiset_commutative(store, completion);
    completion.to_multiset_ensures();
    sessions.to_multiset_ensures();
}

/// A session that is cut off inside the text of a message leaves the store as
/// it was.
pub proof fn lemma_cut_off_session_stores_nothing(
    store: Seq<ConnectionView>,
    s: SessionView,
    end: StreamEnd,
)
    requires
        s.phase == Phase::Data,
    ensures
        recorded(store, outcome(s, end)) == store,
{
}

/// A session that has failed, for whatever reason, leaves the store as it was.
pub proof fn lemma_failure_stores_nothing(store: Seq<ConnectionView>, error: SessionError)
    ensures
        recorded(store, Err(error)) == store,
{
}

} // verus!
