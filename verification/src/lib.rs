//! Reactive control logic for a media pipeline driven by an external engine.
//!
//! The engine owns the pipeline, its clock and its message channel; this
//! library owns only the decisions: how bus events and poll timeouts update
//! the session state (`controller`), and how a dynamically appearing pad is
//! dispatched to a downstream sink by content type (`linker`). The
//! surrounding program performs the engine calls and hands their results
//! back as plain values.

pub mod controller;
pub mod linker;
pub mod trace;
