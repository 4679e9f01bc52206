//! An embedding layer around the QuickJS script engine.
//!
//! The crate owns one engine instance and one execution context per [`Core`],
//! evaluates source text, turns thrown values into host-owned [`Exception`]
//! records, drains promises by cooperative polling, and describes the native
//! modules that scripts may import.
//!
//! The crate is verified with Verus. What it decides by itself is stated in
//! contracts over plain mathematical models: which sources are refused,
//! which evaluation flags a source gets, what an exception record holds,
//! what one round of the promise drainer does, what a script sees of a
//! native module. The calls into the engine binding are collected in
//! [`engine`], where each says what is taken on trust; the functions that
//! make them are verified for whatever the engine answers.

pub mod bridge;
pub mod builtin;
pub mod engine;
pub mod exception;
pub mod name_table;
pub mod promise;
pub mod registry;
pub mod runtime;
pub mod source;

pub use bridge::{HostValue, ScriptValue};
pub use exception::{Error, Exception};
pub use promise::PromiseState;
pub use runtime::Core;
