//! A SOCKS version 5 proxy library: the protocol state machine, the
//! source-address whitelist, the DNS resolution cache, and the
//! admission-control rules, each with a verified contract.

pub mod cli;
pub mod dns_cache;
pub mod errors;
pub mod handlers;
pub mod ip_filter;
pub mod numfmt;
pub mod server;
