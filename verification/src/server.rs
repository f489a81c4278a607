//! The server aggregate: the connection table, the identifier counter, and
//! the decisions of the event loop.
//!
//! The unverified shell owns the sockets and the readiness poller.  Each
//! time it learns something from the operating system — a connection was
//! accepted, an accept would block, bytes arrived, bytes were written, an
//! I/O error occurred — it calls one step function here.  The step function
//! updates the server state and returns the action the shell must carry
//! out: register or re-register an interest, fetch a file, close a socket.
//! Per-connection failures are fully contained: no step here can fail, so
//! none can terminate the loop.

use vstd::prelude::*;

use crate::response::{plan_response, spec_get_response, spec_plan, ResponsePlan, ResponsePlanView};
use crate::table::{ConnPhase, Connection, ConnectionTable, ConnectionView, Interest};

verus! {

/// The poll token value reserved for the listening endpoint.  Connection
/// identifiers start at 1, so the reserved value never collides with one.
pub const LISTENER_TOKEN: u64 = 0;

/// What a readiness event is about: the listening endpoint, or one open
/// connection.  A tagged union rather than a bare token, so that the
/// reserved listening value cannot be mistaken for a connection.
#[derive(Clone, Copy, PartialEq, Eq, Structural, Debug)]
pub enum EventSubject {
    /// The listening endpoint is ready: drain the accept queue.
    Listening,
    /// The connection with this identifier is ready.
    Conn(u64),
}

/// Classify a raw poll token: the reserved value names the listening
/// endpoint, every other value names a connection.
pub fn subject_of_token(token: u64) -> (r: EventSubject)
    ensures
        token == LISTENER_TOKEN ==> r == EventSubject::Listening,
        token != LISTENER_TOKEN ==> r == EventSubject::Conn(token),
{
    if token == LISTENER_TOKEN {
        EventSubject::Listening
    } else {
        EventSubject::Conn(token)
    }
}

/// What one `accept` call on the listening endpoint reported.
#[derive(Clone, Copy, PartialEq, Eq, Structural, Debug)]
pub enum AcceptOutcome {
    /// A connection was accepted.
    Accepted,
    /// The accept queue is empty: the call would block.
    WouldBlock,
    /// The accept failed for some other, transient reason.
    Failed,
}

/// The decision after one `accept` call, inside the edge-triggered drain
/// sub-loop.
#[derive(Clone, Copy, PartialEq, Eq, Structural, Debug)]
pub enum AcceptStep {
    /// Register the new connection under this identifier with read
    /// interest, then keep draining.
    Register(u64),
    /// The queue is drained; leave the sub-loop.
    DrainDone,
    /// Log the transient failure and keep draining.
    Retry,
}

/// The abstract state of the server: the open connections and the next
/// identifier to assign.
pub struct WebServerView {
    /// The open connections, by identifier.
    pub connections: Map<u64, ConnectionView>,
    /// The identifier the next accepted connection will receive.
    pub next_connection_id: u64,
}

impl WebServerView {
    /// Well-formedness: identifiers are assigned monotonically from 1, so
    /// every live identifier is positive — it never collides with the
    /// reserved listener token — and below the counter; and every live
    /// connection is itself well-formed.
    pub open spec fn wf(self) -> bool {
        &&& self.next_connection_id >= 1
        &&& forall|id: u64| #[trigger]
            self.connections.contains_key(id) ==> 1 <= id < self.next_connection_id
                && self.connections[id].wf()
    }
}

/// A connection fresh from `accept`, as the table records it.
pub open spec fn fresh_connection() -> ConnectionView {
    ConnectionView { phase: ConnPhase::AwaitingRequest, response: Seq::empty(), written: 0 }
}

/// The state after one accept-drain step: an accepted connection is
/// recorded under the next identifier and the counter advances; a
/// would-block or a transient failure leaves the state unchanged.
pub open spec fn spec_accept_step(v: WebServerView, outcome: AcceptOutcome) -> WebServerView {
    match outcome {
        AcceptOutcome::Accepted => WebServerView {
            connections: v.connections.insert(v.next_connection_id, fresh_connection()),
            next_connection_id: (v.next_connection_id + 1) as u64,
        },
        AcceptOutcome::WouldBlock => v,
        AcceptOutcome::Failed => v,
    }
}

/// The state after draining the accept queue through a sequence of accept
/// outcomes: steps are taken in order until the first would-block, which
/// ends the drain.
pub open spec fn spec_drain(v: WebServerView, outcomes: Seq<AcceptOutcome>) -> WebServerView
    decreases outcomes.len(),
{
    if outcomes.len() == 0 {
        v
    } else if outcomes[0] is WouldBlock {
        v
    } else {
        spec_drain(spec_accept_step(v, outcomes[0]), outcomes.skip(1))
    }
}

/// How many of the outcomes of a drain were accepted connections.
pub open spec fn accepted_count(outcomes: Seq<AcceptOutcome>) -> nat
    decreases outcomes.len(),
{
    if outcomes.len() == 0 {
        0
    } else {
        (if outcomes[0] is Accepted {
            1nat
        } else {
            0nat
        }) + accepted_count(outcomes.skip(1))
    }
}

/// The edge-triggered drain rule: one readiness notification on the
/// listening endpoint accepts every pending connection in that single
/// dispatch cycle.  As long as no accept reports would-block, the drain
/// goes on — a transient accept failure neither stops it nor skips an
/// arrival — and when it ends, every previously open connection is
/// untouched and all `N` accepted arrivals are recorded, each under its
/// own fresh consecutive identifier, awaiting its request with read
/// interest: none is left pending for a later event.
pub proof fn lemma_drain_accepts_all(v: WebServerView, outcomes: Seq<AcceptOutcome>)
    requires
        v.wf(),
        v.next_connection_id + accepted_count(outcomes) <= u64::MAX,
        forall|i: int| 0 <= i < outcomes.len() ==> !((#[trigger] outcomes[i]) is WouldBlock),
    ensures
        spec_drain(v, outcomes).wf(),
        spec_drain(v, outcomes).next_connection_id == v.next_connection_id + accepted_count(
            outcomes,
        ),
        forall|id: u64| #[trigger]
            v.connections.contains_key(id) ==> spec_drain(v, outcomes).connections.contains_key(id)
                && spec_drain(v, outcomes).connections[id] == v.connections[id],
        forall|k: int|
            0 <= k < accepted_count(outcomes) ==> #[trigger] spec_drain(
                v,
                outcomes,
            ).connections.contains_key((v.next_connection_id + k) as u64) && spec_drain(
                v,
                outcomes,
            ).connections[(v.next_connection_id + k) as u64] == fresh_connection(),
        forall|id: u64| #[trigger]
            spec_drain(v, outcomes).connections.contains_key(id) ==> v.connections.contains_key(id)
                || v.next_connection_id <= id < v.next_connection_id + accepted_count(outcomes),
    decreases outcomes.len(),
{
    if outcomes.len() == 0 {
    } else {
        let stepped = spec_accept_step(v, outcomes[0]);
        assert(stepped.wf());
        lemma_drain_accepts_all(stepped, outcomes.skip(1));
        let count = accepted_count(outcomes) as int;
        let done = spec_drain(v, outcomes);
        assert(done == spec_drain(stepped, outcomes.skip(1)));
        assert forall|id: u64| #[trigger]
            v.connections.contains_key(id) implies done.connections.contains_key(id)
            && done.connections[id] == v.connections[id] by {
            assert(stepped.connections.contains_key(id));
            assert(stepped.connections[id] == v.connections[id]);
        }
        assert forall|id: u64| #[trigger]
            done.connections.contains_key(id) implies v.connections.contains_key(id)
            || v.next_connection_id <= id < v.next_connection_id + count by {
            if !stepped.connections.contains_key(id) {
                assert(stepped.next_connection_id <= id < stepped.next_connection_id
                    + accepted_count(outcomes.skip(1)));
            }
        }
        assert forall|k: int| 0 <= k < count implies #[trigger] done.connections.contains_key(
            (v.next_connection_id + k) as u64,
        ) && done.connections[(v.next_connection_id + k) as u64] == fresh_connection() by {
            if outcomes[0] is Accepted {
                if k == 0 {
                    assert(stepped.connections.contains_key(v.next_connection_id));
                } else {
                    assert(done.connections.contains_key(
                        (stepped.next_connection_id + (k - 1)) as u64,
                    ));
                }
            } else {
                assert(done.connections.contains_key(
                    (stepped.next_connection_id + k) as u64,
                ));
            }
        }
    }
}

/// What the shell must do after feeding one readable event into the
/// server.
pub enum ReadStep {
    /// The identifier is unknown or the connection was not awaiting a
    /// request: a benign race, silently ignored.
    NoOp,
    /// The peer half-closed (a zero-byte read): the connection was removed
    /// from the table; release its registration and drop the socket.
    Closed,
    /// A complete response is pending: re-register the connection with
    /// write interest.
    ArmWrite,
    /// A `GET` asked for the file with this raw path: join it to the
    /// webroot, attempt the read, and hand the outcome to
    /// [`WebServer::supply_file`].
    NeedFile(Vec<u8>),
}

/// The abstract value of a [`ReadStep`].
pub enum ReadStepView {
    /// A benign race, silently ignored.
    NoOp,
    /// The connection was removed.
    Closed,
    /// Re-register with write interest.
    ArmWrite,
    /// Fetch the file with this raw path.
    NeedFile(Seq<u8>),
}

impl View for ReadStep {
    type V = ReadStepView;

    open spec fn view(&self) -> ReadStepView {
        match self {
            ReadStep::NoOp => ReadStepView::NoOp,
            ReadStep::Closed => ReadStepView::Closed,
            ReadStep::ArmWrite => ReadStepView::ArmWrite,
            ReadStep::NeedFile(p) => ReadStepView::NeedFile(p@),
        }
    }
}

/// The transition for a readable event on connection `id` that read
/// `data`: an unknown or mis-phased connection is a no-op; a zero-byte
/// read closes; otherwise the request is answered synchronously — a
/// malformed line or a non-`GET` method yields a finished response and
/// the interest flips to write, while a `GET` asks the shell for the
/// file first.
pub open spec fn spec_read_step(v: WebServerView, id: u64, data: Seq<u8>) -> (WebServerView,
    ReadStepView) {
    if !v.connections.contains_key(id) {
        (v, ReadStepView::NoOp)
    } else if !(v.connections[id].phase is AwaitingRequest) {
        (v, ReadStepView::NoOp)
    } else if data.len() == 0 {
        (
            WebServerView {
                connections: v.connections.remove(id),
                next_connection_id: v.next_connection_id,
            },
            ReadStepView::Closed,
        )
    } else {
        match spec_plan(data) {
            ResponsePlanView::Ready(resp) => (
                WebServerView {
                    connections: v.connections.insert(
                        id,
                        ConnectionView { phase: ConnPhase::AwaitingFlush, response: resp, written: 0 },
                    ),
                    next_connection_id: v.next_connection_id,
                },
                ReadStepView::ArmWrite,
            ),
            ResponsePlanView::FetchFile(p) => (v, ReadStepView::NeedFile(p)),
        }
    }
}

/// The transition for the outcome of the file fetch a
/// [`ReadStepView::NeedFile`] asked for: the finished `200` or `404`
/// response becomes the connection's pending response and the interest
/// flips to write.  An unknown or mis-phased connection is a no-op.
pub open spec fn spec_supply_step(v: WebServerView, id: u64, file: Option<Seq<u8>>) -> (
    WebServerView,
    bool,
) {
    if !v.connections.contains_key(id) || !(v.connections[id].phase is AwaitingRequest) {
        (v, false)
    } else {
        (
            WebServerView {
                connections: v.connections.insert(
                    id,
                    ConnectionView {
                        phase: ConnPhase::AwaitingFlush,
                        response: spec_get_response(file),
                        written: 0,
                    },
                ),
                next_connection_id: v.next_connection_id,
            },
            true,
        )
    }
}

/// What the shell must do after feeding one writable event into the
/// server.
#[derive(Clone, Copy, PartialEq, Eq, Structural, Debug)]
pub enum WriteStep {
    /// The identifier is unknown or the connection was not flushing: a
    /// benign race, silently ignored.
    NoOp,
    /// The flush is incomplete: the offset advanced, write interest stays
    /// armed, the connection stays open.
    Pending,
    /// Every byte is out: the connection was removed from the table;
    /// release its registration and drop the socket.
    Done,
}

/// The transition for `wrote` bytes acknowledged on connection `id`: a
/// short write advances the cursor and leaves the connection flushing; a
/// write that reaches the end of the response closes the connection.
/// Completion always closes: there are no persistent connections.
pub open spec fn spec_write_step(v: WebServerView, id: u64, wrote: nat) -> (WebServerView,
    WriteStep) {
    if !v.connections.contains_key(id) || !(v.connections[id].phase is AwaitingFlush) {
        (v, WriteStep::NoOp)
    } else {
        let c = v.connections[id];
        if c.written + wrote == c.response.len() {
            (
                WebServerView {
                    connections: v.connections.remove(id),
                    next_connection_id: v.next_connection_id,
                },
                WriteStep::Done,
            )
        } else {
            (
                WebServerView {
                    connections: v.connections.insert(
                        id,
                        ConnectionView {
                            phase: ConnPhase::AwaitingFlush,
                            response: c.response,
                            written: c.written + wrote,
                        },
                    ),
                    next_connection_id: v.next_connection_id,
                },
                WriteStep::Pending,
            )
        }
    }
}

/// What a connection ends up flushing answers its request: after a
/// non-empty read in `AwaitingRequest` — and, for a `GET`, the file
/// outcome handed back — the connection holds exactly
/// [`crate::response::spec_response`] of the request bytes and the file
/// outcome as its pending response, with write interest and nothing yet
/// written.  So a malformed line flushes the `400` response, a non-`GET`
/// method the `501` response, a `GET` with the file's bytes the `200`
/// response with that exact body, and a `GET` without them the `404`
/// response, whatever the rest of the table holds.
pub proof fn lemma_connection_answers_request(
    v: WebServerView,
    id: u64,
    data: Seq<u8>,
    file: Option<Seq<u8>>,
)
    requires
        v.connections.contains_key(id),
        v.connections[id].phase is AwaitingRequest,
        data.len() > 0,
    ensures
        ({
            let (after_read, step) = spec_read_step(v, id, data);
            let settled = match step {
                ReadStepView::NeedFile(p) => spec_supply_step(after_read, id, file).0,
                _ => after_read,
            };
            &&& step is ArmWrite || step is NeedFile
            &&& step matches ReadStepView::NeedFile(p) ==> spec_plan(data)
                == ResponsePlanView::FetchFile(p)
            &&& settled.connections.contains_key(id)
            &&& settled.connections[id].response == crate::response::spec_response(data, file)
            &&& settled.connections[id].interest() == Interest::Write
            &&& settled.connections[id].written == 0
        }),
{
}

/// The server: the single aggregate the event loop owns.  All mutation
/// happens inside its step functions, serialized by the blocking poll
/// call; nothing here performs I/O.
pub struct WebServer {
    connections: ConnectionTable,
    next_connection_id: u64,
}

impl View for WebServer {
    type V = WebServerView;

    closed spec fn view(&self) -> WebServerView {
        WebServerView {
            connections: self.connections@,
            next_connection_id: self.next_connection_id,
        }
    }
}

impl WebServer {
    /// A server with no connections.  The first accepted connection will
    /// receive identifier 1; the reserved listener token is 0.
    pub fn new() -> (r: WebServer)
        ensures
            r@ == (WebServerView {
                connections: Map::<u64, ConnectionView>::empty(),
                next_connection_id: 1,
            }),
            r@.wf(),
    {
        WebServer { connections: ConnectionTable::new(), next_connection_id: 1 }
    }

    /// The identifier the next accepted connection will receive.  The
    /// counter is monotonic and never wraps: accepting is refused by
    /// contract once it would overflow.
    pub fn next_connection_id(&self) -> (r: u64)
        ensures
            r == self@.next_connection_id,
    {
        self.next_connection_id
    }

    /// How many connections are open.
    pub fn connection_count(&self) -> (r: usize)
        ensures
            r == self@.connections.len(),
    {
        self.connections.len()
    }

    /// The readiness interest currently registered for `id`, when open.
    pub fn connection_interest(&self, id: u64) -> (r: Option<Interest>)
        ensures
            match r {
                Some(interest) => self@.connections.contains_key(id) && interest
                    == self@.connections[id].interest(),
                None => !self@.connections.contains_key(id),
            },
    {
        match self.connections.get(id) {
            Some(conn) => Some(conn.interest()),
            None => None,
        }
    }

    /// One step of the edge-triggered accept-drain sub-loop.  An accepted
    /// connection is recorded under a fresh identifier, which the shell
    /// must register with read interest; a would-block ends the drain —
    /// and nothing else does, so no pending connection is ever left for a
    /// later event; any other failure is transient and the drain goes on.
    pub fn on_accept(&mut self, outcome: AcceptOutcome) -> (r: AcceptStep)
        requires
            old(self)@.wf(),
            old(self)@.next_connection_id < u64::MAX,
        ensures
            final(self)@.wf(),
            final(self)@ == spec_accept_step(old(self)@, outcome),
            r == match outcome {
                AcceptOutcome::Accepted => AcceptStep::Register(old(self)@.next_connection_id),
                AcceptOutcome::WouldBlock => AcceptStep::DrainDone,
                AcceptOutcome::Failed => AcceptStep::Retry,
            },
            r is DrainDone <==> outcome is WouldBlock,
    {
        match outcome {
            AcceptOutcome::Accepted => {
                let id = self.next_connection_id;
                proof {
                    assert(!old(self)@.connections.contains_key(id));
                }
                match self.connections.insert(id, Connection::new_awaiting_request()) {
                    Ok(()) => {},
                    Err(_) => {
                        // Structurally unreachable: the counter is strictly
                        // above every live identifier.
                        vstd::pervasive::unreached::<()>();
                    },
                }
                self.next_connection_id = id + 1;
                proof {
                    assert(self@.connections == old(self)@.connections.insert(
                        id,
                        fresh_connection(),
                    ));
                    assert(self@ == spec_accept_step(old(self)@, AcceptOutcome::Accepted));
                    assert(self@.wf());
                }
                AcceptStep::Register(id)
            },
            AcceptOutcome::WouldBlock => AcceptStep::DrainDone,
            AcceptOutcome::Failed => AcceptStep::Retry,
        }
    }

    /// Feed the bytes of one read on connection `id` into the state
    /// machine; `data` is what a single read returned, empty on a peer
    /// half-close.  A non-empty read is taken to contain the whole request
    /// line: there is no reassembly across reads, so a request split over
    /// several reads is parsed fragment by fragment — a known limitation,
    /// and such a fragment is normally answered with `400`.
    pub fn handle_read(&mut self, id: u64, data: &[u8]) -> (r: ReadStep)
        requires
            old(self)@.wf(),
        ensures
            final(self)@.wf(),
            (final(self)@, r@) == spec_read_step(old(self)@, id, data@),
    {
        let conn_phase = match self.connections.get(id) {
            None => {
                return ReadStep::NoOp;
            },
            Some(conn) => conn.phase,
        };
        proof {
            assert(old(self)@.connections.contains_key(id));
        }
        match conn_phase {
            ConnPhase::AwaitingFlush => ReadStep::NoOp,
            ConnPhase::AwaitingRequest => {
                if data.len() == 0 {
                    self.connections.take(id);
                    proof {
                        assert(self@.wf()) by {
                            assert(forall|k: u64| #[trigger]
                                self@.connections.contains_key(k)
                                    ==> old(self)@.connections.contains_key(k)
                                    && self@.connections[k] == old(self)@.connections[k]);
                        }
                    }
                    ReadStep::Closed
                } else {
                    match plan_response(data) {
                        ResponsePlan::Ready(resp) => {
                            self.connections.set(
                                id,
                                Connection {
                                    phase: ConnPhase::AwaitingFlush,
                                    response: resp,
                                    written: 0,
                                },
                            );
                            proof {
                                assert(self@.wf()) by {
                                    assert(forall|k: u64| #[trigger]
                                        self@.connections.contains_key(k) && k != id
                                            ==> old(self)@.connections.contains_key(k)
                                            && self@.connections[k] == old(self)@.connections[k]);
                                }
                            }
                            ReadStep::ArmWrite
                        },
                        ResponsePlan::FetchFile(path) => ReadStep::NeedFile(path),
                    }
                }
            },
        }
    }

    /// Hand over the outcome of the file fetch a
    /// [`ReadStep::NeedFile`] asked for.  Returns whether a response is
    /// now pending, in which case the shell must re-register the
    /// connection with write interest.
    pub fn supply_file(&mut self, id: u64, file: Option<Vec<u8>>) -> (armed: bool)
        requires
            old(self)@.wf(),
        ensures
            final(self)@.wf(),
            (final(self)@, armed) == spec_supply_step(old(self)@, id, file.deep_view()),
    {
        let awaiting = match self.connections.get(id) {
            None => false,
            Some(conn) => match conn.phase {
                ConnPhase::AwaitingRequest => true,
                ConnPhase::AwaitingFlush => false,
            },
        };
        if !awaiting {
            return false;
        }
        let response = crate::response::finish_get_response(file);
        self.connections.set(
            id,
            Connection { phase: ConnPhase::AwaitingFlush, response, written: 0 },
        );
        true
    }

    /// The bytes connection `id` still has to flush: the pending response
    /// from the current cursor on.  `None` when the connection is unknown
    /// or not flushing.
    pub fn pending_bytes(&self, id: u64) -> (r: Option<Vec<u8>>)
        requires
            self@.wf(),
        ensures
            match r {
                Some(bytes) => self@.connections.contains_key(id)
                    && self@.connections[id].phase is AwaitingFlush && bytes@
                    == self@.connections[id].response.skip(self@.connections[id].written as int),
                None => !self@.connections.contains_key(id) || !(self@.connections[id].phase
                    is AwaitingFlush),
            },
    {
        match self.connections.get(id) {
            None => None,
            Some(conn) => match conn.phase {
                ConnPhase::AwaitingRequest => None,
                ConnPhase::AwaitingFlush => Some(
                    vstd::slice::slice_to_vec(
                        vstd::slice::slice_subrange(
                            conn.response.as_slice(),
                            conn.written,
                            conn.response.len(),
                        ),
                    ),
                ),
            },
        }
    }

    /// Acknowledge that `wrote` bytes of the pending response went out on
    /// connection `id`.  A short write leaves the connection flushing with
    /// its cursor advanced; writing the last byte closes it, and the shell
    /// must release the registration and drop the socket.
    pub fn on_write(&mut self, id: u64, wrote: usize) -> (r: WriteStep)
        requires
            old(self)@.wf(),
            old(self)@.connections.contains_key(id) && old(self)@.connections[id].phase
                is AwaitingFlush ==> old(self)@.connections[id].written + wrote <= old(
                self,
            )@.connections[id].response.len(),
        ensures
            final(self)@.wf(),
            (final(self)@, r) == spec_write_step(old(self)@, id, wrote as nat),
    {
        let flushing = match self.connections.get(id) {
            None => false,
            Some(conn) => match conn.phase {
                ConnPhase::AwaitingRequest => false,
                ConnPhase::AwaitingFlush => true,
            },
        };
        if !flushing {
            return WriteStep::NoOp;
        }
        proof {
            assert(old(self)@.connections.contains_key(id));
        }
        let conn = match self.connections.take(id) {
            Some(conn) => conn,
            None => vstd::pervasive::unreached(),
        };
        proof {
            assert(conn@ == old(self)@.connections[id]);
            assert(conn@.written + wrote <= conn@.response.len());
        }
        let response_len: usize = conn.response.len();
        let new_written: usize = conn.written + wrote;
        if new_written == response_len {
            proof {
                assert(self@.wf()) by {
                    assert(forall|k: u64| #[trigger]
                        self@.connections.contains_key(k) ==> old(
                            self,
                        )@.connections.contains_key(k) && self@.connections[k] == old(
                            self,
                        )@.connections[k]);
                }
            }
            WriteStep::Done
        } else {
            let reinserted = self.connections.insert(
                id,
                Connection {
                    phase: ConnPhase::AwaitingFlush,
                    response: conn.response,
                    written: new_written,
                },
            );
            proof {
                assert(reinserted is Ok);
                assert(self@.connections =~= old(self)@.connections.insert(
                    id,
                    ConnectionView {
                        phase: ConnPhase::AwaitingFlush,
                        response: conn@.response,
                        written: (conn@.written + wrote) as nat,
                    },
                ));
                assert(self@.wf()) by {
                    assert(forall|k: u64| #[trigger]
                        self@.connections.contains_key(k) && k != id ==> old(
                            self,
                        )@.connections.contains_key(k) && self@.connections[k] == old(
                            self,
                        )@.connections[k]);
                }
            }
            WriteStep::Pending
        }
    }

    /// An I/O error on connection `id`, in any state: the connection is
    /// closed, the loop goes on.  The shell must release the registration
    /// and drop the socket; absence is a benign race and a no-op.
    pub fn on_error(&mut self, id: u64)
        requires
            old(self)@.wf(),
        ensures
            final(self)@.wf(),
            final(self)@.connections == old(self)@.connections.remove(id),
            final(self)@.next_connection_id == old(self)@.next_connection_id,
    {
        let ghost pre = self@.connections;
        self.connections.take(id);
        proof {
            if !pre.contains_key(id) {
                assert(self@.connections =~= pre.remove(id));
            }
        }
    }
}

} // verus!
