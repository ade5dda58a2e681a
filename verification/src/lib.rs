//! Minimal WebAssembly test probes for a proxy host runtime.
//!
//! Two independent fixtures exercise a host's ability to load and invoke a
//! compiled module:
//!
//! - the sum probe: a three-argument unsigned 32-bit addition with wraparound,
//!   exported under a stable symbol so the host can call it by name;
//! - the stream probe: a per-connection callback object that asks the host to
//!   log a fixed message when a connection opens and another when the
//!   downstream peer disconnects.
//!
//! The probes' decisions (what to return, what to log) live here and are
//! verified; delivering a log line to the host is the embedding program's job.

pub mod stream_probe;
pub mod sum_probe;
