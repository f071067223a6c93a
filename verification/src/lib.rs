//! Generic object and connection pooling.
//!
//! A [`Pool`] lends out reusable resources built by a [`Manager`]: it reuses
//! idle resources (after expiry and validation checks), grows on demand up to
//! `max_size`, waits with a timeout when saturated, and takes resources back
//! through [`Pooled::release`].
//!
//! The bookkeeping behind the pool's lock is [`state::PoolState`]; each of its
//! operations is specified exactly over [`state::PoolModel`], and [`laws`]
//! proves properties of that bookkeeping model that span several operations.
//! The pool's own operations drive the bookkeeping through step functions
//! with exact contracts, one lock at a time. Each operation states what its
//! locks found and did: closing, pruning and returning hand back the
//! bookkeeping before and after, and a checkout is explained by a
//! [`trace::Run`], round by round. What a shared pool's state is between two
//! calls is not stated, since other threads may change it.

pub mod config;
pub mod duration;
pub mod error;
pub mod laws;
pub mod manager;
pub mod pool;
pub mod reaper;
pub mod state;
pub mod status;
pub mod trace;

mod clock;
mod sync;

pub use crate::config::PoolConfig;
pub use crate::duration::Duration;
pub use crate::error::Error;
pub use crate::manager::Manager;
pub use crate::pool::{Builder, Pool, Pooled};
pub use crate::reaper::{reaper_next, ReaperAction};
pub use crate::status::Status;
