//! Idle-connection reaping: a connection with no read or write activity for
//! longer than the configured threshold is proactively closed.
//!
//! The timer is reset only by raw stream activity; a handler that hangs
//! without ever touching the stream can still be reaped. That tradeoff
//! favors resource reclamation, and handler-level timeouts are left to
//! handler implementations.
use vstd::prelude::*;
use crate::connection::ConnectionError;

verus! {

/// Tracks the time since the last byte was read or written on a connection.
pub struct IdleTracker {
    last_activity_ms: u64,
    timeout_ms: u64,
}

impl IdleTracker {
    /// The instant of the last observed read or write.
    pub closed spec fn spec_last_activity_ms(&self) -> u64 {
        self.last_activity_ms
    }

    /// The configured idle threshold.
    pub closed spec fn spec_timeout_ms(&self) -> u64 {
        self.timeout_ms
    }

    /// A tracker for a connection established now.
    pub fn new(now_ms: u64, timeout_ms: u64) -> (r: IdleTracker)
        ensures
            r.spec_last_activity_ms() == now_ms,
            r.spec_timeout_ms() == timeout_ms,
    {
        IdleTracker { last_activity_ms: now_ms, timeout_ms }
    }

    /// Resets the idle timer: some bytes moved on the stream.
    pub fn record_activity(&mut self, now_ms: u64)
        requires
            now_ms >= old(self).spec_last_activity_ms(),
        ensures
            final(self).spec_last_activity_ms() == now_ms,
            final(self).spec_timeout_ms() == old(self).spec_timeout_ms(),
    {
        self.last_activity_ms = now_ms;
    }

    /// Whether the connection has sat idle beyond the threshold and must be
    /// closed to reclaim its resources.
    pub fn is_expired(&self, now_ms: u64) -> (r: bool)
        requires
            now_ms >= self.spec_last_activity_ms(),
        ensures
            r == (now_ms - self.spec_last_activity_ms() > self.spec_timeout_ms()),
    {
        now_ms - self.last_activity_ms > self.timeout_ms
    }

    /// The reaper's decision: the idle-timeout error exactly when the
    /// connection has sat idle beyond the threshold.
    pub fn check(&self, now_ms: u64) -> (r: Result<(), ConnectionError>)
        requires
            now_ms >= self.spec_last_activity_ms(),
        ensures
            r is Ok <==> now_ms - self.spec_last_activity_ms() <= self.spec_timeout_ms(),
            r matches Err(e) ==> e is IdleTimeout,
    {
        if self.is_expired(now_ms) {
            Err(ConnectionError::IdleTimeout)
        } else {
            Ok(())
        }
    }
}

/// The instant of the last activity at or before a probe instant, for a
/// trace of activity instants in ascending order that starts at or before
/// the probe.
pub open spec fn last_activity_at(times: Seq<int>, probe: int) -> int
    decreases times.len(),
{
    if times.len() <= 1 {
        times[0]
    } else if times[1] > probe {
        times[0]
    } else {
        last_activity_at(times.drop_first(), probe)
    }
}

/// A trace of activity instants in ascending order whose consecutive gaps
/// all stay within the idle threshold.
pub open spec fn activity_within_threshold(times: Seq<int>, timeout: int) -> bool {
    &&& times.len() >= 1
    &&& forall|i: int| 0 <= i < times.len() - 1 ==> #[trigger] times[i + 1] - times[i] <= timeout
    &&& forall|i: int| 0 <= i < times.len() - 1 ==> #[trigger] times[i] <= times[i + 1]
}

/// Idle-timeout law, the half that protects live connections: a connection
/// whose activity instants each arrive within the idle threshold of the
/// previous one is never expired at any instant covered by the trace — the
/// idle mechanism closes only connections that really went quiet.
///
/// The other half — no activity for longer than the threshold means the
/// connection is closed — is the contract of [`IdleTracker::is_expired`].
pub proof fn lemma_active_connection_never_reaped(times: Seq<int>, timeout: int, probe: int)
    requires
        timeout >= 0,
        activity_within_threshold(times, timeout),
        times[0] <= probe <= times[times.len() - 1],
    ensures
        probe - last_activity_at(times, probe) <= timeout,
    decreases times.len(),
{
    if times.len() <= 1 {
    } else if times[1] > probe {
        assert(times[1] - times[0] <= timeout);
    } else {
        let rest = times.drop_first();
        assert forall|i: int| 0 <= i < rest.len() - 1 implies #[trigger] rest[i + 1] - rest[i]
            <= timeout && #[trigger] rest[i] <= rest[i + 1] by {
            assert(rest[i + 1] == times[i + 2]);
            assert(rest[i] == times[i + 1]);
            assert(times[i + 2] - times[i + 1] <= timeout);
            assert(times[i + 1] <= times[i + 2]);
        }
        assert(rest[rest.len() - 1] == times[times.len() - 1]);
        lemma_active_connection_never_reaped(rest, timeout, probe);
    }
}

} // verus!
