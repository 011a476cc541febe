//! Hierarchical command events for anonymous usage telemetry.
//!
//! A [`command::CommandEventBuilder`] stands for one command invocation. It
//! stamps every event it tracks with its own id, its command name and the id of
//! the builder it was derived from, redacts sensitive values through a
//! caller-supplied one-way hash, and appends the finished wire events to an
//! outbox that the caller hands on to its publisher.
pub mod command;
pub mod event;
pub mod ids;

pub use command::CommandEventBuilder;
pub use event::{CodePath, Event, EventType, TelemetryCommandEvent};
