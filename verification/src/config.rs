//! Process configuration: connection-pool settings and the server bind
//! address, each field optional with a documented default.

use vstd::prelude::*;

verus! {

/// Default size of the connection pool when none is configured.
pub const DEFAULT_MAX_POOL_SIZE: u32 = 10;

/// Default port the server binds to when none is configured.
pub const DEFAULT_PORT: i16 = 8080;

/// Connection settings for the backing store.
pub struct DbInfo {
    pub url: Option<String>,
    pub max_size: Option<u32>,
}

impl DbInfo {
    /// The connection URL to use: the configured one, or empty when none was given.
    pub fn effective_url(&self) -> (r: String)
        ensures
            match self.url {
                Some(u) => r@ == u@,
                None => r@.len() == 0,
            },
    {
        match &self.url {
            Some(u) => u.clone(),
            None => String::new(),
        }
    }

    /// The pool bound to use: the configured one, or the default.
    pub fn effective_max_size(&self) -> (r: u32)
        ensures
            match self.max_size {
                Some(m) => r == m,
                None => r == DEFAULT_MAX_POOL_SIZE,
            },
    {
        match self.max_size {
            Some(m) => m,
            None => DEFAULT_MAX_POOL_SIZE,
        }
    }
}

/// Bind address settings for the server.
pub struct ServerInfo {
    pub host: Option<String>,
    pub port: Option<i16>,
}

impl ServerInfo {
    /// The host to bind: the configured one, or the loopback default.
    pub fn effective_host(&self) -> (r: String)
        ensures
            match self.host {
                Some(h) => r@ == h@,
                None => r@ == "127.0.0.1"@,
            },
    {
        match &self.host {
            Some(h) => h.clone(),
            None => String::from_str("127.0.0.1"),
        }
    }

    /// The port to bind: the configured one, or the default.
    pub fn effective_port(&self) -> (r: i16)
        ensures
            match self.port {
                Some(p) => r == p,
                None => r == DEFAULT_PORT,
            },
    {
        match self.port {
            Some(p) => p,
            None => DEFAULT_PORT,
        }
    }
}

} // verus!
