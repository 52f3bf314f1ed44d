//! Install-time server configuration and its validation.
//!
//! The values here are fixed at server startup: the bind port, the
//! connection ceiling, the idle-connection timeout, the I/O thread count,
//! the blocking-pool size and the shutdown drain timeout.
use vstd::prelude::*;

verus! {

/// A validation error returned by config structs.
pub struct ConfigError {
    message: String,
}

impl ConfigError {
    /// The description carried by the error, as a sequence of characters.
    pub closed spec fn spec_message(&self) -> Seq<char> {
        self.message@
    }

    /// Creates an error carrying a description of the invalid setting.
    pub fn new(message: String) -> (r: ConfigError)
        ensures
            r.spec_message() == message@,
    {
        ConfigError { message }
    }

    /// The description of the invalid setting.
    pub fn message(&self) -> (r: &String)
        ensures
            r@ == self.spec_message(),
    {
        &self.message
    }
}

/// The install-time settings that shape the server core.
pub struct ServerConfig {
    /// Port the listener binds to.
    pub port: u16,
    /// Ceiling on concurrently active connections; admission control
    /// rejects connections at or over this count.
    pub max_connections: usize,
    /// Milliseconds of read/write inactivity after which a connection is
    /// reaped.
    pub idle_timeout_ms: u64,
    /// Worker threads of the asynchronous reactor.
    pub io_threads: usize,
    /// Worker threads of the blocking-handler pool.
    pub blocking_pool_size: usize,
    /// Milliseconds the drain phase of shutdown may take before it is
    /// abandoned.
    pub shutdown_timeout_ms: u64,
    /// Path prefix under which every endpoint of this server is installed.
    pub context_path: String,
}

impl ServerConfig {
    /// All settings that bound a resource are positive.
    pub open spec fn wf(&self) -> bool {
        self.max_connections >= 1 && self.io_threads >= 1 && self.blocking_pool_size >= 1
    }

    /// Validates the settings, returning an error exactly when a resource
    /// bound is zero.
    pub fn validate(&self) -> (r: Result<(), ConfigError>)
        ensures
            r is Ok <==> self.wf(),
    {
        if self.max_connections < 1 {
            Err(ConfigError::new("max-connections must be positive".to_string()))
        } else if self.io_threads < 1 {
            Err(ConfigError::new("io-threads must be positive".to_string()))
        } else if self.blocking_pool_size < 1 {
            Err(ConfigError::new("blocking-pool size must be positive".to_string()))
        } else {
            Ok(())
        }
    }
}

} // verus!
