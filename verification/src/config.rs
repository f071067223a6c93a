//! Pool configuration.

use vstd::prelude::*;

use crate::duration::Duration;

verus! {

/// Tunable limits and lifecycle policy for a [`Pool`](crate::Pool).
///
/// Every field is public, so a configuration can be assembled directly as well
/// as through [`Pool::builder`](crate::Pool::builder). Validation happens when
/// the pool is built; see [`Builder::build`](crate::Builder::build).
#[derive(Debug, Clone, Copy, PartialEq, Eq, Structural)]
pub struct PoolConfig {
    /// Hard upper bound on the number of resources the pool owns at once: idle
    /// plus checked out. Must be at least 1.
    pub max_size: usize,
    /// Number of resources created up front when the pool is built. Must not
    /// exceed `max_size`.
    pub min_idle: usize,
    /// How long [`Pool::get`](crate::Pool::get) waits for a resource when the
    /// pool is saturated. `None` waits indefinitely.
    pub create_timeout: Option<Duration>,
    /// Discard an idle resource that has gone unused for at least this long,
    /// checked the next time it is borrowed or reaped. `None` disables idle
    /// expiry.
    pub idle_timeout: Option<Duration>,
    /// Discard a resource older than this, regardless of use, checked the next
    /// time it is borrowed or reaped. `None` disables lifetime expiry.
    pub max_lifetime: Option<Duration>,
    /// How often a background reaper should prune expired idle resources.
    /// `None` runs no reaper; expiry is then applied lazily, on borrow.
    pub reap_interval: Option<Duration>,
}

impl PoolConfig {
    /// Whether a pool may be built with this configuration: at least one
    /// resource allowed, and no more pre-created than allowed.
    pub open spec fn is_valid(&self) -> bool {
        self.max_size >= 1 && self.min_idle <= self.max_size
    }

    /// Whether idle resources can expire under this configuration at all.
    pub open spec fn has_expiry(&self) -> bool {
        self.idle_timeout is Some || self.max_lifetime is Some
    }

    /// The default configuration: up to ten resources, none created up front,
    /// a thirty-second wait for a free resource, no expiry and no reaper.
    pub open spec fn spec_default() -> PoolConfig {
        PoolConfig {
            max_size: 10,
            min_idle: 0,
            create_timeout: Some(Duration::spec_from_secs(30)),
            idle_timeout: None,
            max_lifetime: None,
            reap_interval: None,
        }
    }
}

impl Default for PoolConfig {
    /// A pool of up to ten resources, created on demand, that waits up to
    /// thirty seconds for a free resource, never expires idle or aged
    /// resources, and runs no background reaper.
    fn default() -> (cfg: Self)
        ensures
            cfg == PoolConfig::spec_default(),
    {
        PoolConfig {
            max_size: 10,
            min_idle: 0,
            create_timeout: Some(Duration::from_secs(30)),
            idle_timeout: None,
            max_lifetime: None,
            reap_interval: None,
        }
    }
}

} // verus!
