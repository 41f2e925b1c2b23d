//! An in-process, type-indexed message bus.
//!
//! Independently spawned services exchange typed messages and share singleton
//! resources through a bus: per message type, a channel is lazily created with
//! a configurable capacity and its two halves are claimed at most once each
//! (with controlled exceptions for cloneable halves); per resource type, a
//! provisioned value is claimed at most once unless the type supports cloning.
//! Every illegal claim is reported through a structured error that names the
//! bus and the message or resource type involved.

pub mod bus;
pub mod channels;
pub mod row;
pub mod errors;
