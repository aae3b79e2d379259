//! The shape of the server configuration and its defaults.

use vstd::prelude::*;

verus! {

/// Database configuration data
#[derive(Clone, Debug, PartialEq, Eq)]
pub struct DBConfig {
    pub host: String,
    pub connections: Connections,
    pub timeout: Timeouts,
    pub extensions: Option<Vec<String>>,
}

/// Database connection bounds data
#[derive(Clone, Debug, PartialEq, Eq)]
pub struct Connections {
    pub min: Option<u32>,
    pub max: usize,
}

impl Default for Connections {
    fn default() -> (connections: Self)
        ensures
            connections.min.is_none(),
            connections.max == 1024,
    {
        Self { min: min_connections(), max: max_connections() }
    }
}

/// Database connection timeout data
#[derive(Clone, Debug, PartialEq, Eq)]
pub struct Timeouts {
    pub connect: u64,
    pub idle: Option<u64>,
}

impl Default for Timeouts {
    fn default() -> (timeouts: Self)
        ensures
            timeouts.connect == 3,
            timeouts.idle.is_none(),
    {
        Self { connect: connect_timeout(), idle: idle_timeout() }
    }
}

/// The least number of connections that a pool keeps open, when none is configured.
pub fn min_connections() -> (min: Option<u32>)
    ensures
        min.is_none(),
{
    None
}

/// The most connections that a pool opens, when none is configured.
pub fn max_connections() -> (max: usize)
    ensures
        max == 1024,
{
    1024
}

/// The seconds to wait for a connection, when none are configured.
pub fn connect_timeout() -> (seconds: u64)
    ensures
        seconds == 3,
{
    3
}

/// The seconds after which an idle connection is closed, when none are configured.
pub fn idle_timeout() -> (seconds: Option<u64>)
    ensures
        seconds.is_none(),
{
    None
}

/// The database extensions to load, when none are configured.
pub fn extensions() -> (names: Option<Vec<String>>)
    ensures
        names.is_none(),
{
    None
}

/// Server configuration data
#[derive(Clone, Debug, PartialEq, Eq)]
pub struct ServerConfig {
    pub blog: DBConfig,
    pub users: DBConfig,
    pub secret: String,
}

} // verus!
