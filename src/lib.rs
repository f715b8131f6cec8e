//! Verified core of the Monochrome player's native bridge.
//!
//! - `session`: the steps of the three-phase download lifecycle (begin, write,
//!   finish) against the platform's download collection, as plain decisions.
//! - `gate`: the platform capability check made before provider calls.
//! - `dispatch`: the one-shot, bounded-wait response channel between a caller
//!   and the thread that owns the native environment.
//! - `provider`, `handle`, `manager`: a deterministic in-memory content
//!   provider and the download sessions run against it.
//! - `source_url`, `presence`: the rules for the configured source address,
//!   external links and the "now playing" activity.
use vstd::prelude::*;

pub mod dispatch;
pub mod error;
pub mod gate;
pub mod handle;
pub mod manager;
pub mod presence;
pub mod provider;
pub mod session;
pub mod source_url;

verus! {

} // verus!
