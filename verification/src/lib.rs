//! An HTTPS-intercepting proxy workbench: per-proxy lifecycle control,
//! request classification and forwarding, per-host TLS certificate minting,
//! and a project-scoped packet log store.

use vstd::prelude::*;

pub mod config;
pub mod controller;
pub mod forward;
pub mod logs;
pub mod render;
pub mod settings;
pub mod sqlite;
pub mod start_menu;
pub mod tls;

verus! {

/// Identifier of a configured proxy, stable over its lifetime.
pub type ProxyId = usize;

/// Monotonically increasing identifier of a logged request/response pair.
pub type PacketId = usize;

} // verus!
