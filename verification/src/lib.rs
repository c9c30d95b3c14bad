//! A bridge that re-expresses span and event notifications from the
//! `tracing` ecosystem as `fastrace` spans and events.
//!
//! The bridge receives notifications as plain values (span name, declared
//! parentage, call-site data, typed field values), resolves the parent of
//! every new span, converts typed fields into textual properties, and keeps
//! one [`BridgedSpan`](bridge::BridgedSpan) per live host span in a
//! [`SpanTable`](bridge::SpanTable) keyed by the host's span identifier.

use vstd::prelude::*;

pub mod backend;
pub mod bridge;
pub mod fields;
pub mod laws;
pub mod text;

verus! {

/// Configuration of the bridge: three independent toggles, fixed at
/// construction time. Each `with_*` method returns an updated copy.
pub struct FastraceCompatLayer {
    /// Include `code.filepath`, `code.namespace` and `code.lineno`
    /// properties on spans and events. Default `true`.
    pub location: bool,
    /// Include `thread.id` and (when the thread has a name) `thread.name`
    /// properties on spans. Default `true`.
    pub with_threads: bool,
    /// Include a `level` property on spans. Default `false`. Events carry a
    /// baseline `level` property unconditionally, independent of this flag.
    pub with_level: bool,
}

impl FastraceCompatLayer {
    /// Creates a configuration with the default settings: location and
    /// thread properties on, the per-span level property off.
    pub fn new() -> (r: Self)
        ensures
            r.location,
            r.with_threads,
            !r.with_level,
    {
        FastraceCompatLayer { location: true, with_threads: true, with_level: false }
    }

    /// Configures whether source code location information is included.
    pub fn with_location(self, location: bool) -> (r: Self)
        ensures
            r.location == location,
            r.with_threads == self.with_threads,
            r.with_level == self.with_level,
    {
        Self { location, ..self }
    }

    /// Configures whether thread information is included in spans.
    pub fn with_threads(self, threads: bool) -> (r: Self)
        ensures
            r.location == self.location,
            r.with_threads == threads,
            r.with_level == self.with_level,
    {
        Self { with_threads: threads, ..self }
    }

    /// Configures whether the severity level is included in span properties.
    pub fn with_level(self, level: bool) -> (r: Self)
        ensures
            r.location == self.location,
            r.with_threads == self.with_threads,
            r.with_level == level,
    {
        Self { with_level: level, ..self }
    }
}

impl Default for FastraceCompatLayer {
    /// Same as [`FastraceCompatLayer::new`].
    fn default() -> (r: Self)
        ensures
            r.location,
            r.with_threads,
            !r.with_level,
    {
        Self::new()
    }
}

} // verus!
