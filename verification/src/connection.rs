//! The connection pipeline: admission control against a connection ceiling,
//! active-connection accounting with guaranteed cleanup, and the handling of
//! TLS handshake outcomes.
//!
//! Accepting is serial, so the admission and accounting state is stepped by
//! one task; each admitted connection then runs concurrently and hands its
//! release back when it terminates, however it terminates.
use vstd::prelude::*;
use std::sync::Arc;
use witchcraft_metrics::Counter;
use crate::metrics::{counter_dec, counter_inc, new_counter};

verus! {

/// Why a connection was refused or torn down.
#[derive(Clone, Copy, Debug, PartialEq, Eq, Structural)]
pub enum ConnectionError {
    /// The active-connection ceiling was reached; the connection is closed
    /// immediately rather than queued.
    AtCapacity,
    /// The TLS handshake failed; only this connection terminates.
    HandshakeFailed,
    /// The connection sat idle beyond the configured threshold.
    IdleTimeout,
    /// The server no longer accepts connections.
    ShuttingDown,
}

/// Negotiated TLS session attributes exposed to downstream layers.
pub struct TlsSession {
    /// The negotiated protocol.
    pub protocol: String,
    /// The peer identity presented during the handshake, if any.
    pub peer_identity: Option<String>,
}

/// An established transport connection as the pipeline sees it.
pub struct Connection {
    /// Unique identifier for correlation.
    pub id: u64,
    /// The negotiated TLS session, once the handshake layer has run.
    pub tls: Option<TlsSession>,
    /// Creation timestamp, in milliseconds.
    pub created_at_ms: u64,
}

/// Admission control: load-shedding against a configured ceiling.
///
/// A connection arriving when the active count has reached the maximum is
/// rejected outright; nothing is queued.
pub struct ConnectionLimiter {
    active: usize,
    max: usize,
}

impl ConnectionLimiter {
    /// Connections currently admitted and not yet ended.
    pub closed spec fn spec_active(&self) -> usize {
        self.active
    }

    /// The configured ceiling.
    pub closed spec fn spec_max(&self) -> usize {
        self.max
    }

    /// A limiter with nothing admitted yet.
    pub fn new(max: usize) -> (r: ConnectionLimiter)
        ensures
            r.spec_active() == 0,
            r.spec_max() == max,
    {
        ConnectionLimiter { active: 0, max }
    }

    /// Admits a connection unless the ceiling is reached.
    ///
    /// When the active count is at or over the maximum, the connection is
    /// rejected and the count is untouched; otherwise the count grows by
    /// exactly one.
    pub fn try_begin(&mut self) -> (r: Result<(), ConnectionError>)
        ensures
            final(self).spec_max() == old(self).spec_max(),
            old(self).spec_active() >= old(self).spec_max() ==> {
                &&& r matches Err(e) && e is AtCapacity
                &&& final(self).spec_active() == old(self).spec_active()
            },
            old(self).spec_active() < old(self).spec_max() ==> {
                &&& r is Ok
                &&& final(self).spec_active() == old(self).spec_active() + 1
            },
    {
        if self.active >= self.max {
            Err(ConnectionError::AtCapacity)
        } else {
            self.active = self.active + 1;
            Ok(())
        }
    }

    /// Ends one admitted connection, releasing its slot.
    pub fn end(&mut self)
        requires
            old(self).spec_active() >= 1,
        ensures
            final(self).spec_active() == old(self).spec_active() - 1,
            final(self).spec_max() == old(self).spec_max(),
    {
        self.active = self.active - 1;
    }
}

/// Proof that the active-connection counter was incremented for one
/// connection; releasing it is the only way to decrement.
///
/// Every termination path of a connection task releases its guard exactly
/// once, so abrupt drops and post-setup failures cannot leak the counter.
pub struct ConnectionGuard {
    connection_id: u64,
}

impl ConnectionGuard {
    /// The connection this guard accounts for.
    pub closed spec fn spec_connection_id(&self) -> u64 {
        self.connection_id
    }

    /// The connection this guard accounts for.
    pub fn connection_id(&self) -> (r: u64)
        ensures
            r == self.spec_connection_id(),
    {
        self.connection_id
    }
}

/// Active-connection accounting, mirrored to an external metrics counter.
///
/// The count is incremented only when a connection's setup completes, and
/// decremented exactly once when the connection is released, on every exit
/// path.
pub struct ConnectionMetricsLayer {
    active: u64,
    active_connections: Arc<Counter>,
}

impl ConnectionMetricsLayer {
    /// Connections whose setup completed and which are not yet released.
    pub closed spec fn spec_active(&self) -> u64 {
        self.active
    }

    /// Accounting with no connections yet; the mirrored counter starts at
    /// zero.
    pub fn new() -> (r: ConnectionMetricsLayer)
        ensures
            r.spec_active() == 0,
    {
        ConnectionMetricsLayer { active: 0, active_connections: new_counter() }
    }

    /// The shared counter an external metrics registry can read.
    pub fn counter(&self) -> &Arc<Counter> {
        &self.active_connections
    }

    /// Records that a connection's setup completed, returning the guard
    /// whose release will balance this increment.
    pub fn setup_complete(&mut self, connection_id: u64) -> (r: ConnectionGuard)
        requires
            old(self).spec_active() < u64::MAX,
        ensures
            final(self).spec_active() == old(self).spec_active() + 1,
            r.spec_connection_id() == connection_id,
    {
        self.active = self.active + 1;
        counter_inc(&self.active_connections);
        ConnectionGuard { connection_id }
    }

    /// Releases one connection, consuming its guard; runs on every exit
    /// path, normal or abrupt.
    pub fn release(&mut self, guard: ConnectionGuard)
        requires
            old(self).spec_active() >= 1,
        ensures
            final(self).spec_active() == old(self).spec_active() - 1,
    {
        let _ = guard;
        self.active = self.active - 1;
        counter_dec(&self.active_connections);
    }
}

/// One step in a connection's lifecycle, as the accounting sees it:
/// a completed setup, or a release on any exit path.
pub enum ConnectionEvent {
    /// Setup completed; the counter was incremented.
    Opened,
    /// The connection was released: normal completion, abrupt drop, or a
    /// failure after partial setup.
    Closed,
}

/// The active count after applying a lifecycle trace to an initial count.
pub open spec fn net_active(init: int, events: Seq<ConnectionEvent>) -> int
    decreases events.len(),
{
    if events.len() == 0 {
        init
    } else {
        let step: int = match events[0] {
            ConnectionEvent::Opened => init + 1,
            ConnectionEvent::Closed => init - 1,
        };
        net_active(step, events.drop_first())
    }
}

/// How many setups completed in a trace.
pub open spec fn count_opened(events: Seq<ConnectionEvent>) -> int
    decreases events.len(),
{
    if events.len() == 0 {
        0int
    } else {
        (if events[0] is Opened {
            1int
        } else {
            0int
        }) + count_opened(events.drop_first())
    }
}

/// How many releases a trace holds.
pub open spec fn count_closed(events: Seq<ConnectionEvent>) -> int
    decreases events.len(),
{
    if events.len() == 0 {
        0int
    } else {
        (if events[0] is Closed {
            1int
        } else {
            0int
        }) + count_closed(events.drop_first())
    }
}

/// The count after a trace is the initial count plus the opens minus the
/// closes.
pub proof fn lemma_net_active_counts(init: int, events: Seq<ConnectionEvent>)
    ensures
        net_active(init, events) == init + count_opened(events) - count_closed(events),
    decreases events.len(),
{
    if events.len() > 0 {
        let step: int = match events[0] {
            ConnectionEvent::Opened => init + 1,
            ConnectionEvent::Closed => init - 1,
        };
        lemma_net_active_counts(step, events.drop_first());
    }
}

/// Counter-balance law: over any sequence of connection lifecycles —
/// including abrupt drops and handshake failures after partial setup, each
/// of which still releases its guard — once every opened connection has
/// closed, the active-connection counter is back at its starting value.
pub proof fn lemma_counter_balance(init: int, events: Seq<ConnectionEvent>)
    requires
        count_opened(events) == count_closed(events),
    ensures
        net_active(init, events) == init,
{
    lemma_net_active_counts(init, events);
}

/// Applies a TLS handshake outcome to a connection.
///
/// A successful handshake attaches the negotiated session for downstream
/// layers; a failure surfaces as a connection-level error that terminates
/// only this connection.
pub fn complete_handshake(conn: Connection, outcome: Result<TlsSession, ()>) -> (r: Result<
    Connection,
    ConnectionError,
>)
    ensures
        outcome matches Ok(session) ==> {
            &&& r matches Ok(c)
            &&& c.id == conn.id
            &&& c.created_at_ms == conn.created_at_ms
            &&& c.tls matches Some(s) && s == session
        },
        outcome is Err ==> (r matches Err(e) && e is HandshakeFailed),
{
    match outcome {
        Ok(session) => Ok(
            Connection { id: conn.id, tls: Some(session), created_at_ms: conn.created_at_ms },
        ),
        Err(()) => Err(ConnectionError::HandshakeFailed),
    }
}

} // verus!
