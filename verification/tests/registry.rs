use witchcraft_server::config::ServerConfig;
use witchcraft_server::connection::{
    complete_handshake, Connection, ConnectionError, ConnectionLimiter, TlsSession,
};
use witchcraft_server::request::{route, Endpoint, Method, RouteOutcome};
use witchcraft_server::witchcraft::Witchcraft;

fn config(context_path: &str) -> ServerConfig {
    ServerConfig {
        port: 8443,
        max_connections: 4,
        idle_timeout_ms: 1_000,
        io_threads: 2,
        blocking_pool_size: 3,
        shutdown_timeout_ms: 1_000,
        context_path: context_path.to_string(),
    }
}

fn endpoint(method: Method, path: &str, handler: u64) -> Endpoint {
    Endpoint {
        method,
        path: path.to_string(),
        blocking: false,
        handler,
    }
}

#[test]
fn api_prefix_is_prepended() {
    let mut wc = Witchcraft::new(config("/"));
    wc.api(vec![endpoint(Method::Get, "/status", 5)]);
    assert_eq!(wc.endpoints.len(), 1);
    assert_eq!(wc.endpoints[0].path, "/api/status");
    assert!(!wc.endpoints[0].blocking);
}

#[test]
fn context_path_is_prepended_before_prefix() {
    let mut wc = Witchcraft::new(config("/service"));
    wc.api(vec![endpoint(Method::Get, "/status", 5)]);
    wc.app(vec![endpoint(Method::Get, "/root", 6)]);
    assert_eq!(wc.endpoints[0].path, "/service/api/status");
    assert_eq!(wc.endpoints[1].path, "/service/root");
}

#[test]
fn installation_order_is_kept_and_blocking_flag_set() {
    let mut wc = Witchcraft::new(config("/"));
    wc.app(vec![
        endpoint(Method::Get, "/a", 1),
        endpoint(Method::Get, "/b", 2),
    ]);
    assert!(wc.thread_pool.is_none());
    wc.blocking_app(vec![endpoint(Method::Post, "/c", 3)]);
    assert_eq!(wc.endpoints.len(), 3);
    assert_eq!(wc.endpoints[0].handler, 1);
    assert_eq!(wc.endpoints[1].handler, 2);
    assert_eq!(wc.endpoints[2].handler, 3);
    assert!(wc.endpoints[2].blocking);
    let pool = wc.thread_pool.as_ref().unwrap();
    assert_eq!(pool.workers(), 3);
    // A second blocking installation reuses the pool.
    wc.blocking_api(vec![endpoint(Method::Post, "/d", 4)]);
    assert_eq!(wc.endpoints[3].path, "/api/d");
    assert_eq!(wc.thread_pool.as_ref().unwrap().workers(), 3);
}

#[test]
fn routing_first_registration_wins() {
    let eps = vec![
        Endpoint {
            method: Method::Get,
            path: "/dup".to_string(),
            blocking: false,
            handler: 1,
        },
        Endpoint {
            method: Method::Get,
            path: "/dup".to_string(),
            blocking: true,
            handler: 2,
        },
    ];
    assert_eq!(
        route(&eps, Method::Get, &"/dup".to_string()),
        RouteOutcome::Matched {
            handler: 1,
            blocking: false
        }
    );
}

#[test]
fn limiter_sheds_at_capacity_and_recovers() {
    let mut limiter = ConnectionLimiter::new(1);
    limiter.try_begin().unwrap();
    assert_eq!(limiter.try_begin().unwrap_err(), ConnectionError::AtCapacity);
    limiter.end();
    limiter.try_begin().unwrap();
}

#[test]
fn limiter_with_zero_ceiling_admits_nothing() {
    let mut limiter = ConnectionLimiter::new(0);
    assert_eq!(limiter.try_begin().unwrap_err(), ConnectionError::AtCapacity);
}

#[test]
fn handshake_outcome_attaches_session_or_fails_connection() {
    let conn = Connection {
        id: 12,
        tls: None,
        created_at_ms: 77,
    };
    let session = TlsSession {
        protocol: "h2".to_string(),
        peer_identity: Some("client-a".to_string()),
    };
    let secured = complete_handshake(conn, Ok(session)).unwrap();
    assert_eq!(secured.id, 12);
    assert_eq!(secured.created_at_ms, 77);
    let tls = secured.tls.unwrap();
    assert_eq!(tls.protocol, "h2");
    assert_eq!(tls.peer_identity.as_deref(), Some("client-a"));

    let conn = Connection {
        id: 13,
        tls: None,
        created_at_ms: 78,
    };
    match complete_handshake(conn, Err(())) {
        Err(ConnectionError::HandshakeFailed) => {}
        _ => panic!("expected the handshake failure to surface"),
    }
}
