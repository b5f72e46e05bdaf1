//! Core logic of a panel applet that fronts the Tailscale command-line
//! client: pure parsers for the tool's output, command-argument builders,
//! the snapshot aggregator with its per-field fallback policy, and the
//! reactive state machine that applies optimistic updates and rolls them
//! back when a confirming background operation fails.

pub mod command;
pub mod config;
pub mod error;
pub mod laws;
pub mod outside;
pub mod parsers;
pub mod snapshot;
pub mod state;
pub mod text;
