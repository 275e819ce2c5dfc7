//! Connection settings of one pool.
use vstd::prelude::*;

verus! {

/// How to reach one database and size its pool.
pub struct DbConfig {
    pub host: String,
    pub port: u16,
    pub database: String,
    pub schema: Option<String>,
    pub username: String,
    pub password: String,
    pub max_connections: u32,
    pub min_connections: u32,
    /// Seconds; 30 when not given.
    pub acquire_timeout: Option<i16>,
    /// Seconds; 10 when not given.
    pub idle_timeout: Option<i16>,
}

/// Seconds of a timeout setting: the default when absent; a negative setting
/// wraps as a two's-complement `u64`, which waits for practically ever.
pub open spec fn timeout_secs(t: Option<i16>, default: u64) -> u64 {
    match t {
        Some(v) => if v < 0 {
            (v + 0x1_0000_0000_0000_0000) as u64
        } else {
            v as u64
        },
        None => default,
    }
}

fn secs_of(t: Option<i16>, default: u64) -> (r: u64)
    ensures
        r == timeout_secs(t, default),
{
    match t {
        Some(v) => if v < 0 {
            u64::MAX - ((-(v as i32)) as u64 - 1)
        } else {
            v as u64
        },
        None => default,
    }
}

impl DbConfig {
    /// The search path: the configured schema, else `public`.
    pub fn schema_or_default(&self) -> (r: &str)
        ensures
            r@ == match self.schema {
                Some(s) => s@,
                None => "public"@,
            },
    {
        match &self.schema {
            Some(s) => s.as_str(),
            None => "public",
        }
    }

    pub fn acquire_timeout_secs(&self) -> (r: u64)
        ensures
            r == timeout_secs(self.acquire_timeout, 30),
    {
        secs_of(self.acquire_timeout, 30)
    }

    pub fn idle_timeout_secs(&self) -> (r: u64)
        ensures
            r == timeout_secs(self.idle_timeout, 10),
    {
        secs_of(self.idle_timeout, 10)
    }
}

} // verus!
