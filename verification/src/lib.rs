//! Fault-time diagnostic output path of an embedded kernel.
//!
//! When the system hits an unrecoverable error, this library drives a
//! best-effort text report over an already-initialized serial transport,
//! without relying on the normal asynchronous driver stack or scheduler.
//! The hardware collaborators (interrupt controller, transport device,
//! indicator outputs) are modeled as explicit state so that the whole
//! path -- staging, submission, the fault-time interrupt pump, and the
//! report formatting -- is verified.

pub mod completion;
pub mod controller;
pub mod transport;
pub mod board;
pub mod buffer;
pub mod adapter;
pub mod record;
pub mod reporter;
pub mod entry;
