//! The stream probe: a per-connection test stub for a network filter harness.
//!
//! When a connection context is created the host hands it a fresh
//! [`TestStream`]. The stub's whole observable behaviour is two lifecycle
//! notifications: on a new connection it asks for exactly one log line
//! (`"onNewConnection"`) and signals the host to continue; when the
//! downstream peer disconnects it asks for exactly one log line
//! (`"onDownstreamConnectionClose"`). Handing the log line to the host's
//! logging sink is the embedding program's job; the decisions are made and
//! verified here.

use vstd::prelude::*;

verus! {

/// Severity accepted by the host's logging sink.
#[derive(Debug, Clone, Copy, PartialEq, Eq, Structural)]
pub enum LogLevel {
    Trace,
    Debug,
    Info,
    Warn,
    Error,
    Critical,
}

/// Signal returned to the host after a lifecycle event: either continue
/// processing the stream or pause it.
#[derive(Debug, Clone, Copy, PartialEq, Eq, Structural)]
pub enum Action {
    Continue,
    Pause,
}

/// Which side of the proxied connection closed; the stub ignores it.
#[derive(Debug, Clone, Copy, PartialEq, Eq, Structural)]
pub enum PeerType {
    Unknown,
    Local,
    Remote,
}

/// One request to the host's logging sink: a severity and a message.
#[derive(Debug, Clone, Copy)]
pub struct LogEntry {
    pub level: LogLevel,
    pub message: &'static str,
}

/// The per-connection callback object; it carries only the identifier the
/// host assigned to the connection context, and never mutates it.
#[derive(Debug, Clone, Copy, PartialEq, Eq, Structural)]
pub struct TestStream {
    pub context_id: u32,
}

/// Severity threshold the module installs at startup: everything from
/// `Trace` up is delivered.
pub fn startup_log_level() -> (l: LogLevel)
    ensures
        l == LogLevel::Trace,
{
    LogLevel::Trace
}

/// The context factory registered at module start: builds the callback
/// object for a new connection context. The root context identifier plays
/// no role in this stub.
pub fn new_stream_context(context_id: u32, _root_context_id: u32) -> (s: TestStream)
    ensures
        s.context_id == context_id,
{
    TestStream { context_id }
}

impl TestStream {
    /// Handles the connection being established: requests exactly one log
    /// line, `"onNewConnection"` at trace severity, returns the
    /// continue-execution signal, and leaves the context unchanged.
    pub fn on_new_connection(&mut self) -> (r: (LogEntry, Action))
        ensures
            r.0.level == LogLevel::Trace,
            r.0.message@ == "onNewConnection"@,
            r.1 == Action::Continue,
            *final(self) == *old(self),
    {
        (
            LogEntry { level: LogLevel::Trace, message: "onNewConnection" },
            Action::Continue,
        )
    }

    /// Handles the downstream peer disconnecting: requests exactly one log
    /// line, `"onDownstreamConnectionClose"` at trace severity, and leaves
    /// the context unchanged. The peer type is ignored, and no prior call
    /// of `on_new_connection` is demanded: the stub does not guard its
    /// transitions.
    pub fn on_downstream_close(&mut self, _peer_type: PeerType) -> (r: LogEntry)
        ensures
            r.level == LogLevel::Trace,
            r.message@ == "onDownstreamConnectionClose"@,
            *final(self) == *old(self),
    {
        LogEntry { level: LogLevel::Trace, message: "onDownstreamConnectionClose" }
    }
}

} // verus!
