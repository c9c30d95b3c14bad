//! Trusted boundary to the destination backend (`fastrace`).
//!
//! The bridge keeps its own verified model of every span's accumulated
//! properties and events; the functions here only hand the same data to the
//! backend's opaque span and event objects. None of them states anything
//! the backend's source does not show: a backend span may be a no-op
//! placeholder that discards what it is given, so nothing is promised about
//! the opaque handles.

use vstd::prelude::*;

verus! {

#[verifier::external_type_specification]
#[verifier::external_body]
pub struct ExFastraceSpan(fastrace::Span);

#[verifier::external_type_specification]
#[verifier::external_body]
pub struct ExFastraceEvent(fastrace::Event);

/// Relies on `fastrace::Span::root` and `fastrace::prelude::SpanContext::random`:
/// constructs the root span of a new trace under a freshly generated trace
/// identity.
#[verifier::external_body]
pub(crate) fn new_root_span(name: &String) -> fastrace::Span {
    fastrace::Span::root(name.clone(), fastrace::prelude::SpanContext::random())
}

/// Relies on `fastrace::Span::enter_with_parent`: constructs a child span of
/// the given parent handle.
#[verifier::external_body]
pub(crate) fn new_child_span(name: &String, parent: &fastrace::Span) -> fastrace::Span {
    fastrace::Span::enter_with_parent(name.clone(), parent)
}

/// Relies on `fastrace::Span::enter_with_local_parent`: constructs a child
/// span of the thread's ambient local parent.
#[verifier::external_body]
pub(crate) fn new_local_child_span(name: &String) -> fastrace::Span {
    fastrace::Span::enter_with_local_parent(name.clone())
}

/// Relies on `fastrace::Span::noop`: constructs a placeholder span that
/// never records.
#[verifier::external_body]
pub(crate) fn new_noop_span() -> fastrace::Span {
    fastrace::Span::noop()
}

/// Relies on `fastrace::Span::with_property` (reached through
/// `take_mut::take`, which moves the span through the mutable reference):
/// attaches one textual property to the backend span.
#[verifier::external_body]
pub(crate) fn span_append_property(s: &mut fastrace::Span, k: &String, v: &String) {
    take_mut::take(s, |sp| sp.with_property(|| (k.clone(), v.clone())));
}

/// Relies on `fastrace::Event::new`: constructs a backend event with the
/// given name and no properties.
#[verifier::external_body]
pub(crate) fn new_backend_event(name: &String) -> fastrace::Event {
    fastrace::Event::new(name.clone())
}

/// Relies on `fastrace::Event::with_property`: attaches one textual
/// property to the backend event.
#[verifier::external_body]
pub(crate) fn event_append_property(
    e: fastrace::Event,
    k: &String,
    v: &String,
) -> fastrace::Event {
    e.with_property(|| (k.clone(), v.clone()))
}

/// Relies on `fastrace::Span::add_event`: attaches the event as a child of
/// the backend span.
#[verifier::external_body]
pub(crate) fn span_attach_event(s: &fastrace::Span, e: fastrace::Event) {
    s.add_event(e);
}

} // verus!
