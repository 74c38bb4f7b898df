//! Verified core of a controller-input bridge.
//!
//! The library decides everything the bridge does: when the native input
//! subsystem may start, what the handle cache for the fixed registry of
//! logical game actions holds, how native per-controller readings become
//! hardware-agnostic snapshots, and which glyph lookups survive. The
//! native SDK calls themselves live in the unverified shell, which hands
//! their results in as plain values; every decision on those values is
//! verified here.

pub mod errors;
pub mod kinds;
pub mod registry;
pub mod session;
pub mod snapshot;
