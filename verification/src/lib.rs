//! Relay core for a single-leader recording coordinator.
//!
//! One leader browser session and any number of follower recording clients
//! connect over a bidirectional channel; the library holds the registry of
//! live sessions, decides how inbound frames are relayed and which leader
//! commands they trigger, plans segment-file writes for uploaded media
//! chunks, and gates the leader-only entry page by network origin.
//! Transport, file and dialog I/O live outside the library and hand plain
//! values in and out.

pub mod json;
pub mod registry;
pub mod relay;
pub mod routes;
pub mod segments;

use vstd::prelude::*;

verus! {

/// Port the relay listens on.
pub const HTTP_PORT: u64 = 9443;

} // verus!
