//! Assembling and running the server core: the per-request pipeline folded
//! from its layers, the connection admission and accounting state, the
//! blocking pool, and the shutdown coordinator, all configured from the
//! install-time settings.
//!
//! The accept loop, the sockets and the tasks that drive connections live
//! with the runtime outside this crate; they call in here for every
//! decision.
use vstd::prelude::*;
use crate::blocking::ThreadPool;
use crate::connection::{
    ConnectionError,
    ConnectionGuard,
    ConnectionLimiter,
    ConnectionMetricsLayer,
};
use crate::pipeline::{pipeline_model, request_pipeline, RequestEnvelopeView, RequestPipeline};
use crate::request::endpoints_view;
use crate::service::Service;
use crate::shutdown::{accepting_connections, ShutdownState};
use crate::witchcraft::Witchcraft;

verus! {

/// The assembled server core.
pub struct Server {
    /// The per-request pipeline over the installed endpoints.
    pub pipeline: RequestPipeline,
    /// Admission control against the connection ceiling.
    pub limiter: ConnectionLimiter,
    /// Active-connection accounting, mirrored to the metrics boundary.
    pub connection_metrics: ConnectionMetricsLayer,
    /// The idle threshold each connection's tracker is configured with.
    pub idle_timeout_ms: u64,
    /// The blocking pool, if a blocking endpoint was installed.
    pub thread_pool: Option<ThreadPool>,
    /// Where the server stands on its way down.
    pub shutdown: ShutdownState,
}

/// Assembles the server core from the initialized context: every component
/// starts empty and configured from the install-time settings, and the
/// pipeline routes over exactly the installed endpoints.
pub fn start(witchcraft: Witchcraft) -> (r: Server)
    ensures
        r.limiter.spec_active() == 0,
        r.limiter.spec_max() == witchcraft.install_config.max_connections,
        r.connection_metrics.spec_active() == 0,
        r.idle_timeout_ms == witchcraft.install_config.idle_timeout_ms,
        r.thread_pool == witchcraft.thread_pool,
        r.shutdown is Running,
        r.pipeline.endpoints@ == witchcraft.endpoints@,
        forall|env: RequestEnvelopeView| #[trigger] r.pipeline.model(env) == pipeline_model(
            endpoints_view(witchcraft.endpoints@),
            env,
        ),
{
    Server {
        pipeline: request_pipeline(witchcraft.endpoints),
        limiter: ConnectionLimiter::new(witchcraft.install_config.max_connections),
        connection_metrics: ConnectionMetricsLayer::new(),
        idle_timeout_ms: witchcraft.install_config.idle_timeout_ms,
        thread_pool: witchcraft.thread_pool,
        shutdown: ShutdownState::Running,
    }
}

impl Server {
    /// The admission decision for one connection the acceptor produced.
    ///
    /// After shutdown has begun nothing is admitted. At or over the
    /// connection ceiling the connection is rejected and closed without
    /// the active-connection counter moving. Otherwise it is admitted:
    /// both the limit count and the counter grow by one, and the returned
    /// guard is what the connection's task must hand back on any exit
    /// path.
    pub fn admit_connection(&mut self, connection_id: u64) -> (r: Result<
        ConnectionGuard,
        ConnectionError,
    >)
        requires
            old(self).connection_metrics.spec_active() < u64::MAX,
        ensures
            final(self).pipeline == old(self).pipeline,
            final(self).idle_timeout_ms == old(self).idle_timeout_ms,
            final(self).thread_pool == old(self).thread_pool,
            final(self).shutdown == old(self).shutdown,
            final(self).limiter.spec_max() == old(self).limiter.spec_max(),
            !accepting_connections(old(self).shutdown) ==> {
                &&& r matches Err(e) && e is ShuttingDown
                &&& final(self).limiter.spec_active() == old(self).limiter.spec_active()
                &&& final(self).connection_metrics.spec_active() == old(
                    self,
                ).connection_metrics.spec_active()
            },
            accepting_connections(old(self).shutdown) && old(self).limiter.spec_active() >= old(
                self,
            ).limiter.spec_max() ==> {
                &&& r matches Err(e) && e is AtCapacity
                &&& final(self).limiter.spec_active() == old(self).limiter.spec_active()
                &&& final(self).connection_metrics.spec_active() == old(
                    self,
                ).connection_metrics.spec_active()
            },
            accepting_connections(old(self).shutdown) && old(self).limiter.spec_active() < old(
                self,
            ).limiter.spec_max() ==> {
                &&& r matches Ok(g) && g.spec_connection_id() == connection_id
                &&& final(self).limiter.spec_active() == old(self).limiter.spec_active() + 1
                &&& final(self).connection_metrics.spec_active() == old(
                    self,
                ).connection_metrics.spec_active() + 1
            },
    {
        match self.shutdown {
            ShutdownState::Running => (),
            _ => {
                return Err(ConnectionError::ShuttingDown);
            },
        }
        match self.limiter.try_begin() {
            Err(e) => Err(e),
            Ok(()) => Ok(self.connection_metrics.setup_complete(connection_id)),
        }
    }

    /// Releases one admitted connection on its task's exit, whatever the
    /// exit was: the limit slot is freed and the counter falls by one.
    pub fn release_connection(&mut self, guard: ConnectionGuard)
        requires
            old(self).limiter.spec_active() >= 1,
            old(self).connection_metrics.spec_active() >= 1,
        ensures
            final(self).pipeline == old(self).pipeline,
            final(self).idle_timeout_ms == old(self).idle_timeout_ms,
            final(self).thread_pool == old(self).thread_pool,
            final(self).shutdown == old(self).shutdown,
            final(self).limiter.spec_max() == old(self).limiter.spec_max(),
            final(self).limiter.spec_active() == old(self).limiter.spec_active() - 1,
            final(self).connection_metrics.spec_active() == old(
                self,
            ).connection_metrics.spec_active() - 1,
    {
        self.limiter.end();
        self.connection_metrics.release(guard);
    }
}

} // verus!
