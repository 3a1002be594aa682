//! A module host and supervisor library.
//!
//! The host discovers pluggable modules in a directory, classifies each one
//! by file suffix, supervises workers (periodic liveness probes) and runners
//! (on-demand executions whose output may emit key/value records that are
//! persisted), and answers HTTP queries about the resulting state.
//!
//! This crate holds the verified core: discovery classification, the worker
//! and runner state machines, output parsing, the persistence gateway, the
//! state store, and the HTTP decision logic. Process plumbing (threads,
//! sockets, dynamic loading, the bytecode engine) lives outside it and calls
//! into these functions with plain values.

pub mod api;
pub mod discovery;
pub mod health;
pub mod output;
pub mod runner;
pub mod store;
pub mod supervisor;
pub mod persistency;
pub mod text;
pub mod types;
