//! Events as they are tracked, and as they are handed to the publisher.
use vstd::prelude::*;

verus! {

/// Whether a tracked value may leave the machine as it is.
#[derive(Debug, Clone, Copy, PartialEq, Eq, Structural)]
pub enum EventType {
    /// Replaced by its one-way hash before it is published.
    Sensitive,
    /// Published verbatim.
    NonSensitive,
}

/// One aspect of a command invocation, about to be tracked.
#[derive(Debug, Clone)]
pub struct Event {
    /// What is being recorded (`"command"`, `"binary"`, `"option"`, ...).
    pub key: String,
    /// The raw value for `key`.
    pub value: String,
    pub is_sensitive: EventType,
}

/// Which implementation ran an invocation.
#[derive(Debug, Clone, Copy, PartialEq, Eq, Structural)]
pub enum CodePath {
    Go,
    Rust,
}

/// The text value under which a code path is reported.
pub open spec fn code_path_name(path: CodePath) -> Seq<char> {
    match path {
        CodePath::Go => "go"@,
        CodePath::Rust => "rust"@,
    }
}

/// The text value under which a telemetry setting is reported.
pub open spec fn config_action_name(enabled: bool) -> Seq<char> {
    if enabled {
        "enabled"@
    } else {
        "disabled"@
    }
}

/// A wire event in the "command" category, as it is handed to the publisher.
#[derive(Debug, Clone)]
pub struct TelemetryCommandEvent {
    pub id: String,
    pub command: String,
    pub parent: Option<String>,
    pub key: String,
    pub value: String,
}

/// The content of a [`TelemetryCommandEvent`].
pub struct WireEventView {
    pub id: Seq<char>,
    pub command: Seq<char>,
    pub parent: Option<Seq<char>>,
    pub key: Seq<char>,
    pub value: Seq<char>,
}

/// The text of an optional string.
pub open spec fn opt_view(s: Option<String>) -> Option<Seq<char>> {
    match s {
        Some(t) => Some(t@),
        None => None,
    }
}

impl View for TelemetryCommandEvent {
    type V = WireEventView;

    open spec fn view(&self) -> WireEventView {
        WireEventView {
            id: self.id@,
            command: self.command@,
            parent: opt_view(self.parent),
            key: self.key@,
            value: self.value@,
        }
    }
}

} // verus!
