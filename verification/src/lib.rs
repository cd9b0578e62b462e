//! Hotkey-triggered spell launcher: the decisions behind selection capture,
//! process execution, time-batched streaming and output dispatch.

pub mod batcher;
pub mod dispatch;
pub mod error;
pub mod focus;
pub mod registry;
pub mod runner;
pub mod selection;
pub mod spell;
pub mod stream;
