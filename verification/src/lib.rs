//! Runtime bridge between a host VR driver runtime and a long-lived
//! streaming session object.
//!
//! The host invokes the bridge through a fixed callback surface on
//! arbitrary threads. The bridge guards a single, optionally-absent
//! session object in a shared slot, translates polled session events
//! into imperative host-runtime actions, and clamps or routes the plain
//! data that crosses the boundary. This crate holds the decision logic
//! of that bridge; the thread, lock and foreign-call plumbing around it
//! lives with the embedder.

pub mod event_loop;
pub mod haptics;
pub mod slot;
pub mod vsync;
