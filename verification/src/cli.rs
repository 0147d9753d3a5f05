//! The command-line surface as a plain record. Argument parsing is an
//! external collaborator; it fills this record, and `into_config`
//! turns it into the server's configuration, field for field.

use vstd::prelude::*;
use crate::server::ServerConfig;

verus! {

/// The command-line arguments, with the defaults of the external
/// parser: `127.0.0.1:1080`, anonymous access off, no credentials, a
/// ten-thousand-entry five-minute DNS cache, 1024 connections, and an
/// empty whitelist.
#[derive(Debug, Clone)]
pub struct CliArgs {
    pub address: String,
    pub port: u16,
    pub allow_anonymous: bool,
    pub username: Option<String>,
    pub password: Option<String>,
    pub dns_cache_capacity: u64,
    pub dns_cache_ttl_secs: u64,
    pub max_connections: usize,
    pub ip_whitelist: Vec<String>,
}

impl CliArgs {
    /// The server configuration is the arguments, unchanged.
    pub fn into_config(self) -> (c: ServerConfig)
        ensures
            c.address@ == self.address@,
            c.port == self.port,
            c.allow_anonymous == self.allow_anonymous,
            c.username matches Some(u) <==> self.username matches Some(su),
            c.username matches Some(u) ==> self.username matches Some(su) && u@ == su@,
            c.password matches Some(p) <==> self.password matches Some(sp),
            c.password matches Some(p) ==> self.password matches Some(sp) && p@ == sp@,
            c.dns_cache_capacity == self.dns_cache_capacity,
            c.dns_cache_ttl_secs == self.dns_cache_ttl_secs,
            c.max_connections == self.max_connections,
            c.ip_whitelist@.len() == self.ip_whitelist@.len(),
            forall|i: int|
                0 <= i < c.ip_whitelist@.len() ==> (#[trigger] c.ip_whitelist@[i])@
                    == self.ip_whitelist@[i]@,
    {
        ServerConfig {
            address: self.address,
            port: self.port,
            allow_anonymous: self.allow_anonymous,
            username: self.username,
            password: self.password,
            dns_cache_capacity: self.dns_cache_capacity,
            dns_cache_ttl_secs: self.dns_cache_ttl_secs,
            max_connections: self.max_connections,
            ip_whitelist: self.ip_whitelist,
        }
    }
}

} // verus!
