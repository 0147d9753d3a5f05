//! The server's configuration record and the acceptor's admission
//! rules: the source-address whitelist gate followed by a non-blocking
//! concurrency cap. The accept loop itself lives outside the library;
//! it consults `admit` for every accepted connection.

use vstd::prelude::*;
use crate::ip_filter::{HostAddr, IpFilter};

verus! {

/// Immutable configuration, shared by all connection handlers.
#[derive(Debug, Clone)]
pub struct ServerConfig {
    pub address: String,
    pub port: u16,
    pub allow_anonymous: bool,
    pub username: Option<String>,
    pub password: Option<String>,
    pub dns_cache_capacity: u64,
    pub dns_cache_ttl_secs: u64,
    pub max_connections: usize,
    pub ip_whitelist: Vec<String>,
}

/// The concurrency cap: a counter of live handler tasks, bounded by
/// `max_connections`. Acquisition is non-blocking; a full budget
/// rejects the connection instead of queueing it.
pub struct ConnectionBudget {
    active: usize,
    max: usize,
}

impl ConnectionBudget {
    /// How many connections are live.
    pub closed spec fn active(self) -> int {
        self.active as int
    }

    /// The cap the budget was built with.
    pub closed spec fn max(self) -> int {
        self.max as int
    }

    /// The budget never counts more live connections than its cap.
    pub closed spec fn wf(self) -> bool {
        self.active <= self.max
    }

    pub fn new(max_connections: usize) -> (r: Self)
        ensures
            r.wf(),
            r.active() == 0,
            r.max() == max_connections,
    {
        ConnectionBudget { active: 0, max: max_connections }
    }

    /// Takes one permit if one is free; never blocks.
    pub fn try_acquire(&mut self) -> (ok: bool)
        requires
            old(self).wf(),
        ensures
            final(self).wf(),
            final(self).max() == old(self).max(),
            ok == (old(self).active() < old(self).max()),
            ok ==> final(self).active() == old(self).active() + 1,
            !ok ==> final(self).active() == old(self).active(),
    {
        if self.active < self.max {
            self.active = self.active + 1;
            true
        } else {
            false
        }
    }

    /// Returns the permit of a handler task that ended.
    pub fn release(&mut self)
        requires
            old(self).wf(),
            old(self).active() > 0,
        ensures
            final(self).wf(),
            final(self).max() == old(self).max(),
            final(self).active() == old(self).active() - 1,
    {
        self.active = self.active - 1;
    }

    /// The number of live connections, for callers outside the library.
    pub fn active_count(&self) -> (n: usize)
        ensures
            n == self.active(),
    {
        self.active
    }
}

/// The number of live handler tasks never exceeds the configured cap.
pub proof fn lemma_admission_cap(b: ConnectionBudget)
    requires
        b.wf(),
    ensures
        b.active() <= b.max(),
{
}

/// The acceptor's verdict on one accepted connection.
#[derive(Debug, PartialEq, Eq, Structural)]
pub enum AdmitDecision {
    /// Spawn a handler; one permit is now held for its lifetime.
    Admit,
    /// The source address is not whitelisted: drop without writing bytes.
    RejectNotWhitelisted,
    /// The concurrency cap is reached: drop without writing bytes.
    RejectAtCapacity,
}

/// The admission gates, in order: whitelist first, then the
/// non-blocking permit. Only an admitted connection consumes a permit.
pub fn check_admission(filter: &IpFilter, budget: &mut ConnectionBudget, peer: &HostAddr) -> (d:
    AdmitDecision)
    requires
        filter.wf(),
        old(budget).wf(),
    ensures
        final(budget).wf(),
        final(budget).max() == old(budget).max(),
        !filter.allows_spec(*peer) ==> d == AdmitDecision::RejectNotWhitelisted && final(budget).active()
            == old(budget).active(),
        filter.allows_spec(*peer) && old(budget).active() < old(budget).max() ==> d
            == AdmitDecision::Admit && final(budget).active() == old(budget).active() + 1,
        filter.allows_spec(*peer) && old(budget).active() >= old(budget).max() ==> d
            == AdmitDecision::RejectAtCapacity && final(budget).active() == old(budget).active(),
{
    if !filter.allows(peer) {
        AdmitDecision::RejectNotWhitelisted
    } else if budget.try_acquire() {
        AdmitDecision::Admit
    } else {
        AdmitDecision::RejectAtCapacity
    }
}

} // verus!
