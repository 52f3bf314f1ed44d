//! Core of an embedded application server: the composable service/layer
//! pipeline, connection admission and accounting, idle-connection reaping,
//! the bounded blocking-work pool, and coordinated graceful shutdown.
//!
//! The modules here hold the decision logic of the server as verified
//! functions over plain values; the asynchronous runtime, sockets and
//! signal handling that drive them live outside this crate.
pub mod blocking;
pub mod config;
pub mod health;
pub mod idle;
pub mod connection;
pub mod metrics;
pub mod pipeline;
pub mod request;
pub mod server;
pub mod service;
pub mod shutdown;
pub mod witchcraft;
