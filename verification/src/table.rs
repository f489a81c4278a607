//! The connection table and per-connection state.
//!
//! A [`Connection`] owns one current readiness interest — read-only or
//! write-only, never both, never neither — and, while flushing, a pending
//! response with a cursor of bytes already written.  The
//! [`ConnectionTable`] is the single authoritative mapping from connection
//! identifier to connection state, mutated only by the event-loop thread.

use std::collections::HashMap;

use vstd::prelude::*;

use crate::error::DuplicateConnectionId;

verus! {

broadcast use vstd::std_specs::hash::group_hash_axioms;

/// The readiness interest registered for a descriptor: reading or writing,
/// exactly one at any instant.
#[derive(Clone, Copy, PartialEq, Eq, Structural, Debug)]
pub enum Interest {
    /// Interested in readable readiness.
    Read,
    /// Interested in writable readiness.
    Write,
}

/// Where a connection stands in its life cycle.  The terminal state is not
/// represented: a closed connection is one that has been removed from the
/// table, atomically with the release of its socket and registration.
#[derive(Clone, Copy, PartialEq, Eq, Structural, Debug)]
pub enum ConnPhase {
    /// Waiting for the peer to send a request; read interest is registered.
    AwaitingRequest,
    /// Holding a pending response; write interest is registered.
    AwaitingFlush,
}

/// The state of one open connection.
pub struct Connection {
    /// The current phase, which fixes the registered interest.
    pub phase: ConnPhase,
    /// The pending response bytes; non-trivial only while flushing.
    pub response: Vec<u8>,
    /// How many bytes of `response` have already been written.
    pub written: usize,
}

/// The abstract value of a [`Connection`].
pub struct ConnectionView {
    /// The current phase.
    pub phase: ConnPhase,
    /// The pending response bytes.
    pub response: Seq<u8>,
    /// How many bytes of the response have already been written.
    pub written: nat,
}

impl View for Connection {
    type V = ConnectionView;

    open spec fn view(&self) -> ConnectionView {
        ConnectionView { phase: self.phase, response: self.response@, written: self.written as nat }
    }
}

impl ConnectionView {
    /// Well-formedness: a pending response exists only between response
    /// construction and completed flush, and its cursor never runs past
    /// its end.
    pub open spec fn wf(self) -> bool {
        match self.phase {
            ConnPhase::AwaitingRequest => self.response.len() == 0 && self.written == 0,
            ConnPhase::AwaitingFlush => self.written <= self.response.len(),
        }
    }

    /// The readiness interest a connection in this state keeps registered:
    /// read while awaiting a request, write while flushing.
    pub open spec fn interest(self) -> Interest {
        match self.phase {
            ConnPhase::AwaitingRequest => Interest::Read,
            ConnPhase::AwaitingFlush => Interest::Write,
        }
    }
}

impl Connection {
    /// A connection fresh from `accept`: awaiting its request, nothing
    /// pending.
    pub fn new_awaiting_request() -> (r: Connection)
        ensures
            r@ == (ConnectionView {
                phase: ConnPhase::AwaitingRequest,
                response: Seq::empty(),
                written: 0,
            }),
    {
        Connection { phase: ConnPhase::AwaitingRequest, response: Vec::new(), written: 0 }
    }

    /// The readiness interest this connection keeps registered.
    pub fn interest(&self) -> (r: Interest)
        ensures
            r == self@.interest(),
    {
        match self.phase {
            ConnPhase::AwaitingRequest => Interest::Read,
            ConnPhase::AwaitingFlush => Interest::Write,
        }
    }
}

/// The single authoritative mapping from connection identifier to live
/// connection state.
pub struct ConnectionTable {
    map: HashMap<u64, Connection>,
}

impl View for ConnectionTable {
    type V = Map<u64, ConnectionView>;

    closed spec fn view(&self) -> Map<u64, ConnectionView> {
        self.map@.map_values(|c: Connection| c@)
    }
}

impl ConnectionTable {
    /// The empty table.
    pub fn new() -> (r: ConnectionTable)
        ensures
            r@ == Map::<u64, ConnectionView>::empty(),
    {
        let r = ConnectionTable { map: HashMap::new() };
        proof {
            assert(r@ =~= Map::<u64, ConnectionView>::empty());
        }
        r
    }

    /// How many connections are open.
    pub fn len(&self) -> (r: usize)
        ensures
            r == self@.len(),
    {
        proof {
            assert(self@.dom() =~= self.map@.dom());
        }
        self.map.len()
    }

    /// Whether `id` maps to a live connection.
    pub fn contains(&self, id: u64) -> (r: bool)
        ensures
            r == self@.contains_key(id),
    {
        self.map.contains_key(&id)
    }

    /// Look up a connection.  Absence is benign: the connection may
    /// already have raced to closure, and every caller treats `None` as a
    /// silent no-op.
    pub fn get(&self, id: u64) -> (r: Option<&Connection>)
        ensures
            match r {
                Some(c) => self@.contains_key(id) && c@ == self@[id],
                None => !self@.contains_key(id),
            },
    {
        self.map.get(&id)
    }

    /// Insert a new connection under `id`.  If `id` is already live this
    /// is an internal invariant violation: the existing entry is kept and
    /// a [`DuplicateConnectionId`] defect signal is returned.
    pub fn insert(&mut self, id: u64, conn: Connection) -> (r: Result<(), DuplicateConnectionId>)
        ensures
            match r {
                Ok(()) => !old(self)@.contains_key(id) && final(self)@ == old(self)@.insert(id, conn@),
                Err(e) => old(self)@.contains_key(id) && final(self)@ == old(self)@ && e.id == id,
            },
    {
        if self.map.contains_key(&id) {
            Err(DuplicateConnectionId { id })
        } else {
            let ghost pre = self.map@;
            self.map.insert(id, conn);
            proof {
                assert(self@ =~= pre.map_values(|c: Connection| c@).insert(id, conn@));
            }
            Ok(())
        }
    }

    /// Replace the state of a live connection.
    pub fn set(&mut self, id: u64, conn: Connection)
        requires
            old(self)@.contains_key(id),
        ensures
            final(self)@ == old(self)@.insert(id, conn@),
    {
        let ghost pre = self.map@;
        self.map.insert(id, conn);
        proof {
            assert(self@ =~= pre.map_values(|c: Connection| c@).insert(id, conn@));
        }
    }

    /// Remove and return the connection under `id`, releasing its slot.
    /// Absence is benign and leaves the table unchanged.
    pub fn take(&mut self, id: u64) -> (r: Option<Connection>)
        ensures
            match r {
                Some(c) => old(self)@.contains_key(id) && c@ == old(self)@[id] && final(self)@
                    == old(self)@.remove(id),
                None => !old(self)@.contains_key(id) && final(self)@ == old(self)@,
            },
    {
        let ghost pre = self.map@;
        let r = self.map.remove(&id);
        proof {
            assert(self@ =~= pre.map_values(|c: Connection| c@).remove(id));
            if !pre.contains_key(id) {
                assert(self@ =~= pre.map_values(|c: Connection| c@));
            }
        }
        r
    }
}

} // verus!
