//! Supervision of sandboxed Zenoh runtime workers: the registry of declared
//! runtimes, the port pool, the start handshake and the per-worker event loop,
//! all as verified state transitions over plain values.

use vstd::prelude::*;

pub mod error;
pub mod event_loop;
pub mod framing;
pub mod handshake;
pub mod json;
pub mod logs;
pub mod naming;
pub mod protocol;
pub mod registry;
pub mod registry_laws;
pub mod sandbox;
pub mod teardown;
pub mod text;
pub mod ts;
pub mod worker;

verus! {

/// Identifier of a declared runtime, unique for the lifetime of a registry.
pub type RuntimeId = u32;

/// First port handed out to a runtime's remote API endpoint.
pub const BASE_PORT: u16 = 10000;

} // verus!
