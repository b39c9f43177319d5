//! Core logic of a health dashboard for a DNS-blocking resolver.
//!
//! The library owns the application state, the action-dispatch rules, the
//! focus state machine, the status aggregation over independent probe
//! signals, and the classification of probe outcomes. Terminal rendering,
//! the async runtime and the network calls themselves live outside the
//! library and talk to it through plain values.

pub mod action;
pub mod api;
pub mod app;
pub mod port_check;
pub mod update;
