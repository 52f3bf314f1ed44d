use witchcraft_server::blocking::{PoolError, Submission, ThreadPool, UnitResult};
use witchcraft_server::config::ServerConfig;
use witchcraft_server::connection::{ConnectionError, ConnectionMetricsLayer};
use witchcraft_server::health::{HealthState, MinidumpHealthCheck};
use witchcraft_server::idle::IdleTracker;
use witchcraft_server::metrics::{normalized_micros, per_cpu_micros};
use witchcraft_server::pipeline::{DispatchOutcome, RequestEnvelope};
use witchcraft_server::request::{route, Endpoint, Header, Method, Request, RouteOutcome};
use witchcraft_server::server::start;
use witchcraft_server::service::Service;
use witchcraft_server::shutdown::{
    is_accepting, step, DrainDeadline, ShutdownAction, ShutdownEvent, ShutdownHooks, ShutdownState,
};
use witchcraft_server::witchcraft::{extend_path, Witchcraft};

fn config() -> ServerConfig {
    ServerConfig {
        port: 8443,
        max_connections: 2,
        idle_timeout_ms: 1_000,
        io_threads: 4,
        blocking_pool_size: 8,
        shutdown_timeout_ms: 5_000,
        context_path: "/".to_string(),
    }
}

fn endpoint(method: Method, path: &str, blocking: bool, handler: u64) -> Endpoint {
    Endpoint {
        method,
        path: path.to_string(),
        blocking,
        handler,
    }
}

fn request(method: Method, path: &str, body: &[u8]) -> Request {
    Request {
        method,
        path: path.to_string(),
        headers: Vec::new(),
        body: body.to_vec(),
        request_id: None,
        trace: None,
    }
}

#[test]
fn config_validation() {
    assert!(config().validate().is_ok());
    let mut bad = config();
    bad.max_connections = 0;
    let err = bad.validate().unwrap_err();
    assert_eq!(err.message().as_str(), "max-connections must be positive");
    let mut bad = config();
    bad.blocking_pool_size = 0;
    assert!(bad.validate().is_err());
    let mut bad = config();
    bad.io_threads = 0;
    assert!(bad.validate().is_err());
}

#[test]
fn minidump_health_check() {
    let ok = MinidumpHealthCheck::new(true);
    assert_eq!(ok.type_(), "MINIDUMP");
    assert_eq!(ok.result().state, HealthState::Healthy);
    let bad = MinidumpHealthCheck::new(false);
    assert_eq!(bad.result().state, HealthState::Error);
}

#[test]
fn normalization_never_grows() {
    assert_eq!(per_cpu_micros(1_000_000, 4), 250_000);
    assert_eq!(per_cpu_micros(7, 2), 3);
    let micros = 123_456_789;
    assert!(normalized_micros(micros) <= micros);
}

#[test]
fn routing_matches_first_endpoint() {
    let eps = vec![
        endpoint(Method::Get, "/status", false, 1),
        endpoint(Method::Post, "/echo", true, 2),
    ];
    let got = route(&eps, Method::Post, &"/echo".to_string());
    assert_eq!(
        got,
        RouteOutcome::Matched {
            handler: 2,
            blocking: true
        }
    );
}

#[test]
fn routing_not_found_and_method_not_allowed() {
    let eps = vec![endpoint(Method::Get, "/status", false, 1)];
    assert_eq!(
        route(&eps, Method::Get, &"/missing".to_string()),
        RouteOutcome::NotFound
    );
    assert_eq!(
        route(&eps, Method::Post, &"/status".to_string()),
        RouteOutcome::MethodNotAllowed
    );
    let none: Vec<Endpoint> = Vec::new();
    assert_eq!(
        route(&none, Method::Get, &"/status".to_string()),
        RouteOutcome::NotFound
    );
}

#[test]
fn extend_path_root_context_is_identity() {
    let e = extend_path(endpoint(Method::Get, "/echo", false, 1), "/", None);
    assert_eq!(e.path, "/echo");
}

#[test]
fn extend_path_prepends_context_and_prefix() {
    let e = extend_path(
        endpoint(Method::Get, "/echo", false, 1),
        "/ctx",
        Some("/api"),
    );
    assert_eq!(e.path, "/ctx/api/echo");
    let e = extend_path(endpoint(Method::Get, "/echo", false, 1), "/", Some("/api"));
    assert_eq!(e.path, "/api/echo");
}

#[test]
fn pipeline_composes_layers_around_dispatch() {
    let mut wc = Witchcraft::new(config());
    wc.blocking_api(vec![endpoint(Method::Post, "/echo", true, 9)]);
    let server = start(wc);

    let env = RequestEnvelope {
        request: request(Method::Post, "/api/echo", b"hello"),
        fresh_request_id: 41,
        fresh_trace: "trace-41".to_string(),
    };
    let spanned = server.pipeline.call(env);
    // The span is recorded under the identifier the request-id stage assigned.
    assert_eq!(spanned.span_request_id, Some(41));
    match spanned.inner {
        DispatchOutcome::SubmitBlocking { handler, request } => {
            assert_eq!(handler, 9);
            assert_eq!(request.body, b"hello");
            assert_eq!(request.request_id, Some(41));
            assert_eq!(request.trace.as_deref(), Some("trace-41"));
        }
        _ => panic!("expected blocking dispatch"),
    }
}

#[test]
fn pipeline_keeps_client_supplied_correlation() {
    let mut wc = Witchcraft::new(config());
    wc.app(vec![endpoint(Method::Get, "/status", false, 3)]);
    let server = start(wc);

    let mut req = request(Method::Get, "/status", b"");
    req.request_id = Some(7);
    req.headers.push(Header {
        name: "X-B3-TraceId".to_string(),
        value: "abc123".to_string(),
    });
    let env = RequestEnvelope {
        request: req,
        fresh_request_id: 99,
        fresh_trace: "unused".to_string(),
    };
    let spanned = server.pipeline.call(env);
    assert_eq!(spanned.span_request_id, Some(7));
    match spanned.inner {
        DispatchOutcome::InvokeAsync { handler, request } => {
            assert_eq!(handler, 3);
            assert_eq!(request.request_id, Some(7));
            assert_eq!(request.trace.as_deref(), Some("abc123"));
        }
        _ => panic!("expected inline dispatch"),
    }
}

#[test]
fn pipeline_answers_missed_routes_directly() {
    let mut wc = Witchcraft::new(config());
    wc.app(vec![endpoint(Method::Get, "/status", false, 3)]);
    let server = start(wc);

    let env = RequestEnvelope {
        request: request(Method::Get, "/nope", b""),
        fresh_request_id: 1,
        fresh_trace: "t".to_string(),
    };
    match server.pipeline.call(env).inner {
        DispatchOutcome::Respond(resp) => assert_eq!(resp.status, 404),
        _ => panic!("expected a direct response"),
    }

    let env = RequestEnvelope {
        request: request(Method::Post, "/status", b""),
        fresh_request_id: 2,
        fresh_trace: "t".to_string(),
    };
    match server.pipeline.call(env).inner {
        DispatchOutcome::Respond(resp) => assert_eq!(resp.status, 405),
        _ => panic!("expected a direct response"),
    }
}

#[test]
fn connection_limit_rejects_without_incrementing() {
    let mut server = start(Witchcraft::new(config()));
    let counter = server.connection_metrics.counter().clone();

    let g1 = server.admit_connection(1).unwrap();
    let g2 = server.admit_connection(2).unwrap();
    assert_eq!(counter.count(), 2);

    // The ceiling is 2: the third connection is rejected and the
    // active-connection counter does not move.
    match server.admit_connection(3) {
        Err(ConnectionError::AtCapacity) => {}
        _ => panic!("expected the connection to be shed"),
    }
    assert_eq!(counter.count(), 2);

    server.release_connection(g1);
    let g3 = server.admit_connection(4).unwrap();
    assert_eq!(counter.count(), 2);
    server.release_connection(g2);
    server.release_connection(g3);
    assert_eq!(counter.count(), 0);
}

#[test]
fn connection_counter_balances_over_abrupt_lifecycles() {
    let mut metrics = ConnectionMetricsLayer::new();
    let counter = metrics.counter().clone();
    let before = counter.count();

    // Two connections complete setup; both terminate abruptly, and the
    // guard discipline still releases each exactly once.
    let g1 = metrics.setup_complete(10);
    let g2 = metrics.setup_complete(11);
    assert_eq!(g1.connection_id(), 10);
    metrics.release(g2);
    metrics.release(g1);
    assert_eq!(counter.count(), before);
}

#[test]
fn idle_connection_is_reaped_and_active_one_is_not() {
    let mut tracker = IdleTracker::new(0, 1_000);
    assert!(!tracker.is_expired(1_000));
    assert!(tracker.is_expired(1_001));

    // Activity strictly within each window keeps the connection alive.
    tracker.record_activity(900);
    assert!(!tracker.is_expired(1_500));
    tracker.record_activity(1_800);
    assert!(!tracker.is_expired(2_500));
    // Then it goes quiet for longer than the threshold.
    assert!(tracker.is_expired(2_900));
    assert!(tracker.check(2_800).is_ok());
    match tracker.check(2_900) {
        Err(ConnectionError::IdleTimeout) => {}
        _ => panic!("expected the idle connection to be reaped"),
    }
}

#[test]
fn pool_queues_overload_instead_of_erroring() {
    let mut pool = ThreadPool::new(2);
    assert_eq!(pool.workers(), 2);
    let a = pool.submit().unwrap();
    let b = pool.submit().unwrap();
    let c = pool.submit().unwrap();
    assert!(matches!(a, Submission::Started(0)));
    assert!(matches!(b, Submission::Started(1)));
    // Both workers are busy: the third submission waits, it is not refused.
    assert!(matches!(c, Submission::Queued(2)));
    assert_eq!(pool.in_flight(), 2);
    assert_eq!(pool.queued(), 1);
}

#[test]
fn pool_panic_is_delivered_to_its_caller_alone() {
    let mut pool = ThreadPool::new(2);
    pool.submit().unwrap();
    pool.submit().unwrap();
    pool.submit().unwrap();

    // Unit 0 panics: its caller alone sees the fault, and the queued unit
    // takes the freed worker.
    let idx = pool.find_running(0).unwrap();
    let (outcome, started) = pool.complete(idx, true);
    assert_eq!(outcome, UnitResult::Panicked(0));
    assert_eq!(started, Some(2));
    assert_eq!(pool.in_flight(), 2);
    assert_eq!(pool.queued(), 0);

    // The other units are unaffected and complete normally.
    let idx = pool.find_running(1).unwrap();
    let (outcome, started) = pool.complete(idx, false);
    assert_eq!(outcome, UnitResult::Completed(1));
    assert_eq!(started, None);
    let idx = pool.find_running(2).unwrap();
    let (outcome, _) = pool.complete(idx, false);
    assert_eq!(outcome, UnitResult::Completed(2));
    assert_eq!(pool.in_flight(), 0);
}

#[test]
fn pool_shutdown_drops_only_unstarted_units() {
    let mut pool = ThreadPool::new(1);
    pool.submit().unwrap();
    pool.submit().unwrap();
    let dropped = pool.begin_shutdown();
    assert_eq!(dropped, vec![1]);
    assert_eq!(pool.in_flight(), 1);
    assert!(matches!(pool.submit(), Err(PoolError::ShutDown)));
    let idx = pool.find_running(0).unwrap();
    let (outcome, started) = pool.complete(idx, false);
    assert_eq!(outcome, UnitResult::Completed(0));
    assert_eq!(started, None);
}

#[test]
fn shutdown_signal_stops_accepting() {
    let s = ShutdownState::Running;
    assert!(is_accepting(&s));
    let (s, action) = step(s, ShutdownEvent::Signal);
    assert_eq!(action, ShutdownAction::BeginDrain);
    assert!(!is_accepting(&s));
    let (s, _) = step(s, ShutdownEvent::DrainStarted);
    assert!(!is_accepting(&s));
    let (s, action) = step(s, ShutdownEvent::HooksCompleted);
    assert_eq!(action, ShutdownAction::Exit);
    assert_eq!(s, ShutdownState::Terminated);
}

#[test]
fn second_signal_cuts_the_drain_short() {
    let (s, _) = step(ShutdownState::Running, ShutdownEvent::Signal);
    let (s, _) = step(s, ShutdownEvent::DrainStarted);
    let (s, action) = step(s, ShutdownEvent::Signal);
    assert_eq!(action, ShutdownAction::InterruptDrain);
    assert_eq!(s, ShutdownState::Terminated);
}

#[test]
fn drain_deadline_forces_termination() {
    let deadline = DrainDeadline::new(100, 5_000);
    assert!(!deadline.is_expired(5_100));
    assert!(deadline.is_expired(5_101));
    let (s, _) = step(ShutdownState::Running, ShutdownEvent::Signal);
    let (s, _) = step(s, ShutdownEvent::DrainStarted);
    let (s, action) = step(s, ShutdownEvent::TimeoutExpired);
    assert_eq!(action, ShutdownAction::AbandonDrain);
    assert_eq!(s, ShutdownState::Terminated);
}

#[test]
fn hooks_are_fixed_once_drain_begins() {
    let mut hooks = ShutdownHooks::new();
    hooks.register(1).unwrap();
    hooks.register(2).unwrap();
    let fixed = hooks.seal().clone();
    assert_eq!(fixed, vec![1, 2]);
    assert!(hooks.register(3).is_err());
}

#[test]
fn server_rejects_connections_after_shutdown_begins() {
    let mut server = start(Witchcraft::new(config()));
    let (next, _) = step(server.shutdown, ShutdownEvent::Signal);
    server.shutdown = next;
    match server.admit_connection(1) {
        Err(ConnectionError::ShuttingDown) => {}
        _ => panic!("expected admission to stop"),
    }
    assert_eq!(server.connection_metrics.counter().count(), 0);
}

#[test]
fn echo_scenario_fifty_requests_on_eight_workers() {
    // A synchronous endpoint at /echo returning its input body; 50
    // concurrent requests on a pool of 8 workers all succeed by queuing.
    let mut wc = Witchcraft::new(config());
    wc.blocking_app(vec![endpoint(Method::Post, "/echo", true, 1)]);
    let mut server = start(wc);

    let mut submitted: Vec<(u64, Vec<u8>)> = Vec::new();
    let mut queued = 0;
    for i in 0..50u64 {
        let body = format!("payload-{i}").into_bytes();
        let env = RequestEnvelope {
            request: request(Method::Post, "/echo", &body),
            fresh_request_id: i,
            fresh_trace: format!("trace-{i}"),
        };
        let spanned = server.pipeline.call(env);
        let (handler, request) = match spanned.inner {
            DispatchOutcome::SubmitBlocking { handler, request } => (handler, request),
            _ => panic!("expected blocking dispatch"),
        };
        assert_eq!(handler, 1);
        let pool = server.thread_pool.as_mut().unwrap();
        match pool.submit().unwrap() {
            Submission::Started(id) | Submission::Queued(id) => {
                if matches!(
                    pool.find_running(id),
                    None
                ) {
                    queued += 1;
                }
                submitted.push((id, request.body));
            }
        }
    }
    let pool = server.thread_pool.as_mut().unwrap();
    assert_eq!(pool.in_flight(), 8);
    assert_eq!(pool.queued(), 42);
    assert_eq!(queued, 42);

    // Drive the pool to completion; each unit's handler echoes its body.
    let mut responses: Vec<(u64, Vec<u8>)> = Vec::new();
    while pool.in_flight() > 0 {
        let id = submitted[responses.len()].0;
        let idx = pool.find_running(id).unwrap();
        let (outcome, _) = pool.complete(idx, false);
        assert_eq!(outcome, UnitResult::Completed(id));
        let body = submitted.iter().find(|(u, _)| *u == id).unwrap().1.clone();
        responses.push((id, body));
    }
    assert_eq!(responses.len(), 50);
    for (i, (id, body)) in responses.iter().enumerate() {
        assert_eq!(*id, i as u64);
        assert_eq!(body, &format!("payload-{i}").into_bytes());
    }
}
