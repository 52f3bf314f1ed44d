//! Coordinated graceful shutdown: one coordinating task owns the state
//! machine that takes the server from running, through a bounded drain of
//! registered hooks, to termination.
//!
//! A first interrupt or terminate signal stops the acceptance of new
//! connections and starts the drain; a second signal, or the drain
//! deadline, cuts the drain short.
use vstd::prelude::*;

verus! {

/// Where the server stands on its way down.
#[derive(Clone, Copy, Debug, PartialEq, Eq, Structural)]
pub enum ShutdownState {
    /// Serving normally; connections are accepted.
    Running,
    /// A termination signal arrived; no new connections are accepted and
    /// the drain is about to begin.
    SignalReceived,
    /// Registered hooks are being awaited, bounded by the drain deadline.
    Draining,
    /// The drain finished, timed out, or was interrupted; the process
    /// exits.
    Terminated,
}

/// What the coordinating task observes.
#[derive(Clone, Copy, Debug, PartialEq, Eq, Structural)]
pub enum ShutdownEvent {
    /// An interrupt or terminate signal from the process's environment.
    Signal,
    /// The drain of the registered hooks has been started.
    DrainStarted,
    /// Every registered hook has completed.
    HooksCompleted,
    /// The drain deadline passed before the hooks completed.
    TimeoutExpired,
}

/// What the coordinating task must do after a step.
#[derive(Clone, Copy, Debug, PartialEq, Eq, Structural)]
pub enum ShutdownAction {
    /// Nothing; keep waiting.
    Continue,
    /// Stop accepting connections and begin awaiting the hooks.
    BeginDrain,
    /// Abandon the hooks still pending: a second signal cut the drain
    /// short.
    InterruptDrain,
    /// Abandon the hooks still pending: the deadline passed.
    AbandonDrain,
    /// The drain is over; exit the process.
    Exit,
}

/// Whether new connections may be accepted in a state: only while running.
pub open spec fn accepting_connections(s: ShutdownState) -> bool {
    s is Running
}

/// Whether the server is still accepting connections, for external health
/// and readiness checks to observe.
pub fn is_accepting(s: &ShutdownState) -> (r: bool)
    ensures
        r == accepting_connections(*s),
{
    match s {
        ShutdownState::Running => true,
        _ => false,
    }
}

/// The transition relation of the coordinator, one observed event at a
/// time.
pub open spec fn spec_step(s: ShutdownState, e: ShutdownEvent) -> (ShutdownState, ShutdownAction) {
    match (s, e) {
        (ShutdownState::Running, ShutdownEvent::Signal) => (
            ShutdownState::SignalReceived,
            ShutdownAction::BeginDrain,
        ),
        (ShutdownState::SignalReceived, ShutdownEvent::DrainStarted) => (
            ShutdownState::Draining,
            ShutdownAction::Continue,
        ),
        (ShutdownState::Draining, ShutdownEvent::Signal) => (
            ShutdownState::Terminated,
            ShutdownAction::InterruptDrain,
        ),
        (ShutdownState::Draining, ShutdownEvent::HooksCompleted) => (
            ShutdownState::Terminated,
            ShutdownAction::Exit,
        ),
        (ShutdownState::Draining, ShutdownEvent::TimeoutExpired) => (
            ShutdownState::Terminated,
            ShutdownAction::AbandonDrain,
        ),
        _ => (s, ShutdownAction::Continue),
    }
}

/// Steps the coordinator on one observed event.
pub fn step(s: ShutdownState, e: ShutdownEvent) -> (r: (ShutdownState, ShutdownAction))
    ensures
        r == spec_step(s, e),
{
    match (s, e) {
        (ShutdownState::Running, ShutdownEvent::Signal) => (
            ShutdownState::SignalReceived,
            ShutdownAction::BeginDrain,
        ),
        (ShutdownState::SignalReceived, ShutdownEvent::DrainStarted) => (
            ShutdownState::Draining,
            ShutdownAction::Continue,
        ),
        (ShutdownState::Draining, ShutdownEvent::Signal) => (
            ShutdownState::Terminated,
            ShutdownAction::InterruptDrain,
        ),
        (ShutdownState::Draining, ShutdownEvent::HooksCompleted) => (
            ShutdownState::Terminated,
            ShutdownAction::Exit,
        ),
        (ShutdownState::Draining, ShutdownEvent::TimeoutExpired) => (
            ShutdownState::Terminated,
            ShutdownAction::AbandonDrain,
        ),
        (s2, _) => (s2, ShutdownAction::Continue),
    }
}

/// The state after a whole sequence of observed events.
pub open spec fn run_events(s: ShutdownState, events: Seq<ShutdownEvent>) -> ShutdownState
    decreases events.len(),
{
    if events.len() == 0 {
        s
    } else {
        run_events(spec_step(s, events[0]).0, events.drop_first())
    }
}

/// Once the coordinator has left the running state it never returns to it.
pub proof fn lemma_not_running_is_permanent(s: ShutdownState, events: Seq<ShutdownEvent>)
    requires
        !accepting_connections(s),
    ensures
        !accepting_connections(run_events(s, events)),
    decreases events.len(),
{
    if events.len() > 0 {
        lemma_not_running_is_permanent(spec_step(s, events[0]).0, events.drop_first());
    }
}

/// Shutdown law, acceptance half: once a termination signal has been
/// observed, no later state accepts new connections, whatever else the
/// coordinator observes afterwards.
pub proof fn lemma_no_accept_after_signal(
    s: ShutdownState,
    events: Seq<ShutdownEvent>,
    i: int,
    j: int,
)
    requires
        0 <= i < j <= events.len(),
        events[i] is Signal,
    ensures
        !accepting_connections(run_events(s, events.take(j))),
    decreases i,
{
    if i == 0 {
        let s1 = spec_step(s, events[0]).0;
        assert(!accepting_connections(s1));
        lemma_not_running_is_permanent(s1, events.take(j).drop_first());
        assert(events.take(j).drop_first() =~= events.drop_first().take(j - 1));
        assert(run_events(s, events.take(j)) == run_events(s1, events.take(j).drop_first()));
    } else {
        let s1 = spec_step(s, events[0]).0;
        assert(events.drop_first()[i - 1] is Signal);
        lemma_no_accept_after_signal(s1, events.drop_first(), i - 1, j - 1);
        assert(events.take(j).drop_first() =~= events.drop_first().take(j - 1));
        assert(run_events(s, events.take(j)) == run_events(s1, events.drop_first().take(j - 1)));
    }
}

/// Shutdown law, drain half: in the draining state a second signal ends the
/// drain at once, abandoning the pending hooks — the wait is cut short —
/// and the deadline passing forces termination just as surely, so the drain
/// never outlives the configured timeout's expiry by more than the step
/// that observes it.
pub proof fn lemma_drain_is_bounded()
    ensures
        spec_step(ShutdownState::Draining, ShutdownEvent::Signal) == (
            ShutdownState::Terminated,
            ShutdownAction::InterruptDrain,
        ),
        spec_step(ShutdownState::Draining, ShutdownEvent::TimeoutExpired) == (
            ShutdownState::Terminated,
            ShutdownAction::AbandonDrain,
        ),
        spec_step(ShutdownState::Draining, ShutdownEvent::HooksCompleted) == (
            ShutdownState::Terminated,
            ShutdownAction::Exit,
        ),
{
}

/// The drain deadline: the instant the drain began plus the configured
/// timeout.
pub struct DrainDeadline {
    started_at_ms: u64,
    timeout_ms: u64,
}

impl DrainDeadline {
    /// When the drain began.
    pub closed spec fn spec_started_at_ms(&self) -> u64 {
        self.started_at_ms
    }

    /// The configured drain timeout.
    pub closed spec fn spec_timeout_ms(&self) -> u64 {
        self.timeout_ms
    }

    /// Starts the clock on a drain beginning now.
    pub fn new(now_ms: u64, timeout_ms: u64) -> (r: DrainDeadline)
        ensures
            r.spec_started_at_ms() == now_ms,
            r.spec_timeout_ms() == timeout_ms,
    {
        DrainDeadline { started_at_ms: now_ms, timeout_ms }
    }

    /// Whether the deadline has passed: the coordinator must then observe
    /// a timeout event and terminate.
    pub fn is_expired(&self, now_ms: u64) -> (r: bool)
        requires
            now_ms >= self.spec_started_at_ms(),
        ensures
            r == (now_ms - self.spec_started_at_ms() > self.spec_timeout_ms()),
    {
        now_ms - self.started_at_ms > self.timeout_ms
    }
}

/// The registered shutdown hooks: an append-only list that is sealed the
/// moment the drain begins; hooks are then awaited concurrently.
pub struct ShutdownHooks {
    hooks: Vec<u64>,
    sealed: bool,
}

/// Why a hook could not be registered.
#[derive(Clone, Copy, Debug, PartialEq, Eq, Structural)]
pub enum HookError {
    /// The drain has already begun; the hook set is fixed.
    DrainBegun,
}

impl ShutdownHooks {
    /// The registered hooks, in registration order.
    pub closed spec fn spec_hooks(&self) -> Seq<u64> {
        self.hooks@
    }

    /// Whether the drain has begun and the set is fixed.
    pub closed spec fn spec_sealed(&self) -> bool {
        self.sealed
    }

    /// An empty, still-open hook list.
    pub fn new() -> (r: ShutdownHooks)
        ensures
            r.spec_hooks() == Seq::<u64>::empty(),
            !r.spec_sealed(),
    {
        let r = ShutdownHooks { hooks: Vec::new(), sealed: false };
        proof {
            assert(r.spec_hooks() =~= Seq::<u64>::empty());
        }
        r
    }

    /// Registers a hook to run during the drain.
    ///
    /// Succeeds exactly while the drain has not begun; afterwards the set
    /// is fixed and registration is refused.
    pub fn register(&mut self, hook: u64) -> (r: Result<(), HookError>)
        ensures
            !old(self).spec_sealed() ==> {
                &&& r is Ok
                &&& final(self).spec_hooks() == old(self).spec_hooks().push(hook)
                &&& !final(self).spec_sealed()
            },
            old(self).spec_sealed() ==> {
                &&& r matches Err(e) && e is DrainBegun
                &&& *final(self) == *old(self)
            },
    {
        if self.sealed {
            Err(HookError::DrainBegun)
        } else {
            self.hooks.push(hook);
            Ok(())
        }
    }

    /// Seals the list as the drain begins: the hooks to await are fixed
    /// from here on.
    pub fn seal(&mut self) -> (hooks: &Vec<u64>)
        ensures
            final(self).spec_sealed(),
            final(self).spec_hooks() == old(self).spec_hooks(),
            hooks@ == old(self).spec_hooks(),
    {
        self.sealed = true;
        &self.hooks
    }
}

} // verus!
