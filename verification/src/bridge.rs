//! The span lifecycle bridge: parent resolution, the per-span side table,
//! and the creation, field-update, and event notifications.
//!
//! The bridge holds one [`BridgedSpan`] per live host span in a
//! [`SpanTable`] keyed by the host's span identifier. A span-creation
//! notification resolves the new span's parent, enriches the record with
//! optional location, thread, and level properties, folds the creation
//! fields in, and stores the record. A field-update notification mutates
//! the record in place; an event notification builds a [`BridgedEvent`] and
//! appends it to the owning record. Notifications for identifiers without a
//! record are silently absorbed.

use vstd::prelude::*;

use crate::FastraceCompatLayer;
use crate::backend::event_append_property;
use crate::backend::new_backend_event;
use crate::backend::new_child_span;
use crate::backend::new_local_child_span;
use crate::backend::new_noop_span;
use crate::backend::new_root_span;
use crate::backend::span_append_property;
use crate::backend::span_attach_event;
use crate::fields::BridgedEvent;
use crate::fields::EventVisitor;
use crate::fields::Field;
use crate::fields::FieldValue;
use crate::fields::resolve_event_name;
use crate::fields::spec_event_fields_props;
use crate::fields::spec_field_props;
use crate::fields::spec_resolved_name;
use crate::fields::spec_span_fields_props;
use crate::text::bool_text;
use crate::text::i64_text;
use crate::text::spec_u64_text;
use crate::text::u64_text;
use vstd::hash_map::HashMapWithView;

verus! {

broadcast use vstd::std_specs::hash::group_hash_axioms;

// ---------------------------------------------------------------------------
// Declared parentage and resolved origin
// ---------------------------------------------------------------------------

/// The declared parentage of a new span or event, as the host framework
/// presents it: an explicit parent identifier, contextual parentage, or an
/// explicitly declared root.
#[derive(PartialEq, Eq, Structural, Clone, Copy, Debug)]
pub enum ParentDecl {
    /// An explicit parent identifier was declared. `live` says whether the
    /// host framework resolves that identifier to a live span visible to
    /// this bridge.
    Explicit { id: u64, live: bool },
    /// No explicit parent: the span attaches to whatever is current on the
    /// calling thread.
    Contextual,
    /// The span opts out of any inherited context.
    Root,
}

/// How a bridged span was created in the destination backend.
#[derive(PartialEq, Eq, Structural, Clone, Copy, Debug)]
pub enum SpanOrigin {
    /// A child of the known span with this host identifier.
    ChildOf(u64),
    /// A child of the thread's ambient backend parent.
    AmbientChild,
    /// A fresh root span under a freshly generated trace identity.
    NewRoot,
    /// A placeholder: the declared parent is live but carries no bridged
    /// record, so the new backend span never records.
    Detached,
}

/// Contextual resolution: a child of the current span when that span
/// carries a bridged record, else a child of the backend's ambient local
/// parent when one is active, else a fresh root.
pub open spec fn spec_resolve_contextual(
    known: Set<u64>,
    current: Option<u64>,
    ambient: bool,
) -> SpanOrigin {
    let current_known = match current {
        Option::Some(c) => known.contains(c),
        Option::None => false,
    };
    if current_known {
        SpanOrigin::ChildOf(current->0)
    } else if ambient {
        SpanOrigin::AmbientChild
    } else {
        SpanOrigin::NewRoot
    }
}

/// Resolves the parent of a new span. `known` is the set of host span
/// identifiers that carry a bridged record, `current` the host's currently
/// active span on the calling thread, and `ambient` whether the backend has
/// a thread-local local parent outside the host framework's bookkeeping.
/// A declared parent that the host cannot resolve to a live span is not an
/// error: the span demotes to contextual resolution, as if it had declared
/// no parent at all.
pub open spec fn spec_resolve_parent(
    known: Set<u64>,
    parent: ParentDecl,
    current: Option<u64>,
    ambient: bool,
) -> SpanOrigin {
    match parent {
        ParentDecl::Explicit { id, live } => {
            if live {
                if known.contains(id) {
                    SpanOrigin::ChildOf(id)
                } else {
                    SpanOrigin::Detached
                }
            } else {
                spec_resolve_contextual(known, current, ambient)
            }
        },
        ParentDecl::Contextual => spec_resolve_contextual(known, current, ambient),
        ParentDecl::Root => SpanOrigin::NewRoot,
    }
}

// ---------------------------------------------------------------------------
// Notification arguments
// ---------------------------------------------------------------------------

/// Static call-site metadata of a span or event. Any subset may be absent;
/// absent parts are omitted, never emitted as empty placeholders.
pub struct CallSite {
    pub file: Option<String>,
    pub module: Option<String>,
    pub line: Option<u32>,
}

/// The calling thread's identity: its numeric identifier and, when the
/// platform reports one, its name.
pub struct ThreadInfo {
    pub id: u64,
    pub name: Option<String>,
}

/// A span-creation record: the declared name and parentage, the host's
/// currently active span, whether the backend reported an ambient local
/// parent on the calling thread at notification time, call-site metadata,
/// severity, thread identity, and the creation fields.
pub struct SpanArgs {
    pub name: String,
    pub parent: ParentDecl,
    pub current: Option<u64>,
    pub ambient: bool,
    pub callsite: CallSite,
    pub level: String,
    pub thread: ThreadInfo,
    pub fields: Vec<Field>,
}

/// An event record: the declared name, severity, target/category, call-site
/// metadata, the explicitly associated parent span (when the host resolves
/// one), the contextual flag, the host's currently active span, and the
/// event fields.
pub struct EventArgs {
    pub declared_name: String,
    pub level: String,
    pub target: String,
    pub callsite: CallSite,
    pub parent: Option<u64>,
    pub contextual: bool,
    pub current: Option<u64>,
    pub fields: Vec<Field>,
}

// ---------------------------------------------------------------------------
// Bridged span records and the side table
// ---------------------------------------------------------------------------

/// The side-table entry for one live host span: the destination backend's
/// span handle, how it was created, and the accumulated properties and
/// child events. Keys in the property list may repeat; every occurrence is
/// preserved.
pub struct BridgedSpan {
    /// The destination backend's span object; opaque, owns its own lifetime.
    pub handle: fastrace::Span,
    pub origin: SpanOrigin,
    pub properties: Vec<(String, String)>,
    pub events: Vec<BridgedEvent>,
}

impl BridgedSpan {
    /// Appends one property to the record and hands it to the backend span.
    fn push_prop(&mut self, k: String, v: String)
        ensures
            final(self).origin == old(self).origin,
            final(self).events == old(self).events,
            final(self).properties.deep_view() == old(self).properties.deep_view().push((k@, v@)),
    {
        span_append_property(&mut self.handle, &k, &v);
        let ghost before = self.properties.deep_view();
        self.properties.push((k, v));
        proof {
            assert(self.properties.deep_view() =~= before.push((k@, v@)));
        }
    }

    /// Appends one child event to the record and attaches it, with all its
    /// properties, to the backend span.
    fn append_event(&mut self, ev: BridgedEvent)
        ensures
            final(self).origin == old(self).origin,
            final(self).properties == old(self).properties,
            final(self).events@ == old(self).events@.push(ev),
    {
        let mut fe = new_backend_event(&ev.name);
        let mut i: usize = 0;
        while i < ev.properties.len()
            invariant
                i <= ev.properties.len(),
            decreases ev.properties.len() - i,
        {
            let p = &ev.properties[i];
            fe = event_append_property(fe, &p.0, &p.1);
            i = i + 1;
        }
        span_attach_event(&self.handle, fe);
        self.events.push(ev);
    }
}

/// The per-span side table: a mapping from host span identifier to the
/// exclusively owned bridged record. The table performs single-entry
/// operations only; synchronization across calls belongs to the embedder.
pub struct SpanTable {
    m: HashMapWithView<u64, BridgedSpan>,
}

impl View for SpanTable {
    type V = Map<u64, BridgedSpan>;

    closed spec fn view(&self) -> Map<u64, BridgedSpan> {
        self.m@
    }
}

impl SpanTable {
    /// An empty side table.
    pub fn new() -> (r: Self)
        ensures
            r@ == Map::<u64, BridgedSpan>::empty(),
    {
        SpanTable { m: HashMapWithView::new() }
    }

    /// Whether an identifier carries a bridged record.
    pub fn contains_key(&self, id: u64) -> (b: bool)
        ensures
            b == self@.contains_key(id),
    {
        self.m.contains_key(&id)
    }

    /// The bridged record of an identifier, if present.
    pub fn get(&self, id: u64) -> (r: Option<&BridgedSpan>)
        ensures
            match r {
                Option::Some(rec) => self@.contains_key(id) && *rec == self@[id],
                Option::None => !self@.contains_key(id),
            },
    {
        self.m.get(&id)
    }

    /// The number of live records.
    pub fn len(&self) -> (n: usize)
        ensures
            n == self@.len(),
    {
        self.m.len()
    }

    fn insert(&mut self, id: u64, rec: BridgedSpan)
        ensures
            final(self)@ == old(self)@.insert(id, rec),
    {
        self.m.insert(id, rec);
    }

    /// Removes and returns the record of an identifier, if present. The
    /// record's lifetime is bound to the host span's own: the embedder
    /// removes it when the host framework discards the span.
    pub fn remove(&mut self, id: u64) -> (r: Option<BridgedSpan>)
        ensures
            match r {
                Option::Some(rec) => old(self)@.contains_key(id) && rec == old(self)@[id]
                    && final(self)@ == old(self)@.remove(id),
                Option::None => !old(self)@.contains_key(id) && final(self)@ == old(self)@,
            },
    {
        self.m.remove(&id)
    }
}

// ---------------------------------------------------------------------------
// Span property accumulator
// ---------------------------------------------------------------------------

/// The consumer of the visitor protocol that folds fields into a bridged
/// span record's property set. No field is skipped: a field named `message`
/// is recorded like any other.
pub struct SpanAttributeVisitor {
    pub fastrace_span: BridgedSpan,
}

impl SpanAttributeVisitor {
    /// Records a boolean field.
    pub fn record_bool(&mut self, field_name: &String, value: bool)
        ensures
            final(self).fastrace_span.origin == old(self).fastrace_span.origin,
            final(self).fastrace_span.events == old(self).fastrace_span.events,
            final(self).fastrace_span.properties.deep_view() == old(
                self,
            ).fastrace_span.properties.deep_view() + spec_field_props(
                field_name@,
                FieldValue::Bool(value),
            ),
    {
        let ghost before = self.fastrace_span.properties.deep_view();
        self.fastrace_span.push_prop(field_name.clone(), bool_text(value));
        proof {
            assert(self.fastrace_span.properties.deep_view() =~= before + spec_field_props(
                field_name@,
                FieldValue::Bool(value),
            ));
        }
    }

    /// Records a float field through its rendered text.
    pub fn record_f64(&mut self, field_name: &String, rendered: &String)
        ensures
            final(self).fastrace_span.origin == old(self).fastrace_span.origin,
            final(self).fastrace_span.events == old(self).fastrace_span.events,
            final(self).fastrace_span.properties.deep_view() == old(
                self,
            ).fastrace_span.properties.deep_view() + spec_field_props(
                field_name@,
                FieldValue::F64Text(*rendered),
            ),
    {
        let ghost before = self.fastrace_span.properties.deep_view();
        self.fastrace_span.push_prop(field_name.clone(), rendered.clone());
        proof {
            assert(self.fastrace_span.properties.deep_view() =~= before + spec_field_props(
                field_name@,
                FieldValue::F64Text(*rendered),
            ));
        }
    }

    /// Records a signed integer field.
    pub fn record_i64(&mut self, field_name: &String, value: i64)
        ensures
            final(self).fastrace_span.origin == old(self).fastrace_span.origin,
            final(self).fastrace_span.events == old(self).fastrace_span.events,
            final(self).fastrace_span.properties.deep_view() == old(
                self,
            ).fastrace_span.properties.deep_view() + spec_field_props(
                field_name@,
                FieldValue::I64(value),
            ),
    {
        let ghost before = self.fastrace_span.properties.deep_view();
        self.fastrace_span.push_prop(field_name.clone(), i64_text(value));
        proof {
            assert(self.fastrace_span.properties.deep_view() =~= before + spec_field_props(
                field_name@,
                FieldValue::I64(value),
            ));
        }
    }

    /// Records a string field.
    pub fn record_str(&mut self, field_name: &String, value: &String)
        ensures
            final(self).fastrace_span.origin == old(self).fastrace_span.origin,
            final(self).fastrace_span.events == old(self).fastrace_span.events,
            final(self).fastrace_span.properties.deep_view() == old(
                self,
            ).fastrace_span.properties.deep_view() + spec_field_props(
                field_name@,
                FieldValue::Str(*value),
            ),
    {
        let ghost before = self.fastrace_span.properties.deep_view();
        self.fastrace_span.push_prop(field_name.clone(), value.clone());
        proof {
            assert(self.fastrace_span.properties.deep_view() =~= before + spec_field_props(
                field_name@,
                FieldValue::Str(*value),
            ));
        }
    }

    /// Records an opaque field through its rendered debug text.
    pub fn record_debug(&mut self, field_name: &String, rendered: &String)
        ensures
            final(self).fastrace_span.origin == old(self).fastrace_span.origin,
            final(self).fastrace_span.events == old(self).fastrace_span.events,
            final(self).fastrace_span.properties.deep_view() == old(
                self,
            ).fastrace_span.properties.deep_view() + spec_field_props(
                field_name@,
                FieldValue::DebugText(*rendered),
            ),
    {
        let ghost before = self.fastrace_span.properties.deep_view();
        self.fastrace_span.push_prop(field_name.clone(), rendered.clone());
        proof {
            assert(self.fastrace_span.properties.deep_view() =~= before + spec_field_props(
                field_name@,
                FieldValue::DebugText(*rendered),
            ));
        }
    }

    /// Records an error field: its display text under the field's own name
    /// and under `exception.message`, then the rendered causal chain under
    /// `<field name>.chain` and under `exception.stacktrace` — four
    /// properties from one field.
    pub fn record_error(&mut self, field_name: &String, message: &String, chain: &Vec<String>)
        ensures
            final(self).fastrace_span.origin == old(self).fastrace_span.origin,
            final(self).fastrace_span.events == old(self).fastrace_span.events,
            final(self).fastrace_span.properties.deep_view() == old(
                self,
            ).fastrace_span.properties.deep_view() + spec_field_props(
                field_name@,
                FieldValue::Error { message: *message, chain: *chain },
            ),
    {
        let ghost before = self.fastrace_span.properties.deep_view();
        let list = crate::fields::render_text_list(chain);
        let mut chain_key = field_name.clone();
        vstd::string::StringExecFns::append(&mut chain_key, ".chain");
        self.fastrace_span.push_prop(field_name.clone(), message.clone());
        self.fastrace_span.push_prop("exception.message".to_owned(), message.clone());
        self.fastrace_span.push_prop(chain_key, list.clone());
        self.fastrace_span.push_prop("exception.stacktrace".to_owned(), list);
        proof {
            assert(self.fastrace_span.properties.deep_view() =~= before + spec_field_props(
                field_name@,
                FieldValue::Error { message: *message, chain: *chain },
            ));
        }
    }

    /// Records one field of any kind.
    pub fn record_field(&mut self, f: &Field)
        ensures
            final(self).fastrace_span.origin == old(self).fastrace_span.origin,
            final(self).fastrace_span.events == old(self).fastrace_span.events,
            final(self).fastrace_span.properties.deep_view() == old(
                self,
            ).fastrace_span.properties.deep_view() + spec_field_props(f.name@, f.value),
    {
        match &f.value {
            FieldValue::Bool(b) => self.record_bool(&f.name, *b),
            FieldValue::F64Text(t) => self.record_f64(&f.name, t),
            FieldValue::I64(i) => self.record_i64(&f.name, *i),
            FieldValue::Str(s) => self.record_str(&f.name, s),
            FieldValue::DebugText(t) => self.record_debug(&f.name, t),
            FieldValue::Error { message, chain } => self.record_error(&f.name, message, chain),
        }
    }

    /// Records a whole field sequence, in presentation order.
    pub fn record_fields(&mut self, fields: &Vec<Field>)
        ensures
            final(self).fastrace_span.origin == old(self).fastrace_span.origin,
            final(self).fastrace_span.events == old(self).fastrace_span.events,
            final(self).fastrace_span.properties.deep_view() == old(
                self,
            ).fastrace_span.properties.deep_view() + spec_span_fields_props(fields@),
    {
        let ghost before = self.fastrace_span.properties.deep_view();
        let mut i: usize = 0;
        while i < fields.len()
            invariant
                i <= fields@.len(),
                self.fastrace_span.origin == old(self).fastrace_span.origin,
                self.fastrace_span.events == old(self).fastrace_span.events,
                self.fastrace_span.properties.deep_view() == before + spec_span_fields_props(
                    fields@.take(i as int),
                ),
            decreases fields@.len() - i,
        {
            self.record_field(&fields[i]);
            proof {
                assert(fields@.take(i + 1).drop_last() =~= fields@.take(i as int));
                assert(fields@.take(i + 1).last() == fields@[i as int]);
                assert(before + spec_span_fields_props(fields@.take(i as int)) + spec_field_props(
                    fields@[i as int].name@,
                    fields@[i as int].value,
                ) =~= before + spec_span_fields_props(fields@.take(i + 1)));
            }
            i = i + 1;
        }
        proof {
            assert(fields@.take(fields@.len() as int) =~= fields@);
        }
    }
}

// ---------------------------------------------------------------------------
// Enrichment properties
// ---------------------------------------------------------------------------

/// The location properties of a call site: `code.filepath`,
/// `code.namespace` and `code.lineno`, each present exactly when the
/// corresponding part of the call-site metadata is.
pub open spec fn spec_location_props(c: CallSite) -> Seq<(Seq<char>, Seq<char>)> {
    (match c.file {
        Option::Some(f) => seq![("code.filepath"@, f@)],
        Option::None => Seq::empty(),
    }) + (match c.module {
        Option::Some(m) => seq![("code.namespace"@, m@)],
        Option::None => Seq::empty(),
    }) + (match c.line {
        Option::Some(l) => seq![("code.lineno"@, spec_u64_text(l as nat))],
        Option::None => Seq::empty(),
    })
}

/// The thread properties: `thread.id` always, `thread.name` when the
/// thread has a name.
pub open spec fn spec_thread_props(t: ThreadInfo) -> Seq<(Seq<char>, Seq<char>)> {
    seq![("thread.id"@, spec_u64_text(t.id as nat))] + (match t.name {
        Option::Some(n) => seq![("thread.name"@, n@)],
        Option::None => Seq::empty(),
    })
}

/// The enrichment properties of a new span under a configuration: location
/// properties when `location` is set, thread properties when `with_threads`
/// is set, and a `level` property when `with_level` is set, in that order.
pub open spec fn spec_enrich_props(
    cfg: FastraceCompatLayer,
    callsite: CallSite,
    thread: ThreadInfo,
    level: Seq<char>,
) -> Seq<(Seq<char>, Seq<char>)> {
    (if cfg.location {
        spec_location_props(callsite)
    } else {
        Seq::empty()
    }) + (if cfg.with_threads {
        spec_thread_props(thread)
    } else {
        Seq::empty()
    }) + (if cfg.with_level {
        seq![("level"@, level)]
    } else {
        Seq::empty()
    })
}

/// The full property list of a newly created span: enrichment first, then
/// the creation fields in presentation order.
pub open spec fn spec_new_span_props(cfg: FastraceCompatLayer, args: SpanArgs) -> Seq<
    (Seq<char>, Seq<char>),
> {
    spec_enrich_props(cfg, args.callsite, args.thread, args.level@) + spec_span_fields_props(
        args.fields@,
    )
}

/// The full property list of a bridged event: the unconditional `level` and
/// `target` baseline, location properties when `location` is set, then the
/// event fields in presentation order.
pub open spec fn spec_event_props(cfg: FastraceCompatLayer, args: EventArgs) -> Seq<
    (Seq<char>, Seq<char>),
> {
    seq![("level"@, args.level@), ("target"@, args.target@)] + (if cfg.location {
        spec_location_props(args.callsite)
    } else {
        Seq::empty()
    }) + spec_event_fields_props(args.fields@)
}

/// The owning span of an event: the explicitly associated parent when the
/// host resolves one, otherwise the currently active span when the event is
/// contextual, otherwise none.
pub open spec fn spec_event_owner(
    parent: Option<u64>,
    contextual: bool,
    current: Option<u64>,
) -> Option<u64> {
    match parent {
        Option::Some(p) => Option::Some(p),
        Option::None => if contextual {
            current
        } else {
            Option::None
        },
    }
}

// ---------------------------------------------------------------------------
// The lifecycle bridge
// ---------------------------------------------------------------------------

impl FastraceCompatLayer {
    /// Contextual resolution against the side table.
    fn resolve_contextual(
        &self,
        table: &SpanTable,
        current: &Option<u64>,
        ambient: bool,
    ) -> (r: SpanOrigin)
        ensures
            r == spec_resolve_contextual(table@.dom(), *current, ambient),
    {
        let current_known = match current {
            Option::Some(c) => table.contains_key(*c),
            Option::None => false,
        };
        if current_known {
            match current {
                Option::Some(c) => SpanOrigin::ChildOf(*c),
                Option::None => vstd::pervasive::unreached(),
            }
        } else if ambient {
            SpanOrigin::AmbientChild
        } else {
            SpanOrigin::NewRoot
        }
    }

    /// Resolves the parent of a new span against the side table. `ambient`
    /// says whether the backend reported an ambient local parent on the
    /// calling thread; the embedder reads it from the backend at
    /// notification time.
    pub fn resolve_parent(
        &self,
        table: &SpanTable,
        parent: &ParentDecl,
        current: &Option<u64>,
        ambient: bool,
    ) -> (r: SpanOrigin)
        ensures
            r == spec_resolve_parent(table@.dom(), *parent, *current, ambient),
    {
        match parent {
            ParentDecl::Explicit { id, live } => {
                if *live {
                    if table.contains_key(*id) {
                        SpanOrigin::ChildOf(*id)
                    } else {
                        SpanOrigin::Detached
                    }
                } else {
                    self.resolve_contextual(table, current, ambient)
                }
            },
            ParentDecl::Contextual => self.resolve_contextual(table, current, ambient),
            ParentDecl::Root => SpanOrigin::NewRoot,
        }
    }

    /// Creates the destination-backend span for a new host span: a child of
    /// the resolved parent record, a child via the backend's ambient local
    /// parent, a fresh root with a new trace identity, or a no-op
    /// placeholder, per parent resolution. The record starts with no
    /// properties and no events.
    pub fn new_fastrace_span(
        &self,
        table: &SpanTable,
        name: &String,
        parent: &ParentDecl,
        current: &Option<u64>,
        ambient: bool,
    ) -> (r: BridgedSpan)
        ensures
            r.origin == spec_resolve_parent(table@.dom(), *parent, *current, ambient),
            r.properties.deep_view() == Seq::<(Seq<char>, Seq<char>)>::empty(),
            r.events@ == Seq::<BridgedEvent>::empty(),
    {
        let origin = self.resolve_parent(table, parent, current, ambient);
        let handle = match origin {
            SpanOrigin::ChildOf(pid) => {
                match table.get(pid) {
                    Some(rec) => new_child_span(name, &rec.handle),
                    None => new_noop_span(),
                }
            },
            SpanOrigin::AmbientChild => new_local_child_span(name),
            SpanOrigin::NewRoot => new_root_span(name),
            SpanOrigin::Detached => new_noop_span(),
        };
        let r = BridgedSpan { handle, origin, properties: Vec::new(), events: Vec::new() };
        proof {
            assert(r.properties.deep_view() =~= Seq::<(Seq<char>, Seq<char>)>::empty());
        }
        r
    }

    /// Handles a span-creation notification: resolves the parent, builds
    /// the backend span, applies the configured enrichment, folds the
    /// creation fields in, and stores the record under the host span's
    /// identifier. Creation happens at most once per identifier; the caller
    /// owes that the identifier holds no record yet.
    pub fn on_new_span(&self, table: &mut SpanTable, id: u64, args: &SpanArgs)
        requires
            !old(table)@.contains_key(id),
        ensures
            final(table)@.contains_key(id),
            final(table)@ == old(table)@.insert(id, final(table)@[id]),
            final(table)@[id].origin == spec_resolve_parent(
                old(table)@.dom(),
                args.parent,
                args.current,
                args.ambient,
            ),
            final(table)@[id].properties.deep_view() == spec_new_span_props(*self, *args),
            final(table)@[id].events@ == Seq::<BridgedEvent>::empty(),
    {
        let rec = self.new_fastrace_span(
            table,
            &args.name,
            &args.parent,
            &args.current,
            args.ambient,
        );
        let mut visitor = SpanAttributeVisitor { fastrace_span: rec };
        if self.location {
            if let Some(f) = &args.callsite.file {
                visitor.fastrace_span.push_prop("code.filepath".to_owned(), f.clone());
            }
            if let Some(m) = &args.callsite.module {
                visitor.fastrace_span.push_prop("code.namespace".to_owned(), m.clone());
            }
            if let Some(l) = &args.callsite.line {
                visitor.fastrace_span.push_prop("code.lineno".to_owned(), u64_text(*l as u64));
            }
            proof {
                assert(visitor.fastrace_span.properties.deep_view() =~= spec_location_props(
                    args.callsite,
                ));
            }
        }
        let ghost after_location = visitor.fastrace_span.properties.deep_view();
        if self.with_threads {
            visitor.fastrace_span.push_prop("thread.id".to_owned(), u64_text(args.thread.id));
            if let Some(n) = &args.thread.name {
                visitor.fastrace_span.push_prop("thread.name".to_owned(), n.clone());
            }
            proof {
                assert(visitor.fastrace_span.properties.deep_view() =~= after_location
                    + spec_thread_props(args.thread));
            }
        }
        let ghost after_threads = visitor.fastrace_span.properties.deep_view();
        if self.with_level {
            visitor.fastrace_span.push_prop("level".to_owned(), args.level.clone());
            proof {
                assert(visitor.fastrace_span.properties.deep_view() =~= after_threads + seq![
                    ("level"@, args.level@),
                ]);
            }
        }
        proof {
            assert(visitor.fastrace_span.properties.deep_view() =~= spec_enrich_props(
                *self,
                args.callsite,
                args.thread,
                args.level@,
            ));
        }
        visitor.record_fields(&args.fields);
        table.insert(id, visitor.fastrace_span);
    }

    /// Handles a field-update notification: folds the re-recorded fields
    /// into the identifier's record, mutating its property list in place.
    /// An identifier without a record is silently absorbed: the table is
    /// unchanged.
    pub fn on_record(&self, table: &mut SpanTable, id: u64, fields: &Vec<Field>)
        ensures
            !old(table)@.contains_key(id) ==> final(table)@ == old(table)@,
            old(table)@.contains_key(id) ==> final(table)@ == old(table)@.insert(
                id,
                final(table)@[id],
            ) && final(table)@.contains_key(id) && final(table)@[id].origin
                == old(table)@[id].origin && final(table)@[id].events == old(table)@[id].events
                && final(table)@[id].properties.deep_view() == old(
                table,
            )@[id].properties.deep_view() + spec_span_fields_props(fields@),
    {
        match table.remove(id) {
            None => {},
            Some(rec) => {
                let mut visitor = SpanAttributeVisitor { fastrace_span: rec };
                visitor.record_fields(fields);
                let ghost updated = visitor.fastrace_span;
                table.insert(id, visitor.fastrace_span);
                proof {
                    assert(old(table)@.remove(id).insert(id, updated) =~= old(table)@.insert(
                        id,
                        updated,
                    ));
                }
            },
        }
    }

    /// Builds the bridged event for one event notification: the name is
    /// resolved from the last `message` field (falling back to the declared
    /// name), the `level` and `target` baseline properties come first and
    /// unconditionally, location properties follow when `location` is set,
    /// and the event fields come last, with `message` fields never turned
    /// into properties.
    pub fn build_event(&self, args: &EventArgs) -> (r: BridgedEvent)
        ensures
            r.name@ == spec_resolved_name(args.fields@, args.declared_name@),
            r.properties.deep_view() == spec_event_props(*self, *args),
    {
        let name = resolve_event_name(&args.fields, &args.declared_name);
        let mut visitor = EventVisitor {
            fastrace_event: BridgedEvent { name, properties: Vec::new() },
        };
        proof {
            assert(visitor.fastrace_event.properties.deep_view() =~= Seq::<
                (Seq<char>, Seq<char>),
            >::empty());
        }
        visitor.push_prop("level".to_owned(), args.level.clone());
        visitor.push_prop("target".to_owned(), args.target.clone());
        let ghost baseline = visitor.fastrace_event.properties.deep_view();
        proof {
            assert(baseline =~= seq![("level"@, args.level@), ("target"@, args.target@)]);
        }
        if self.location {
            if let Some(f) = &args.callsite.file {
                visitor.push_prop("code.filepath".to_owned(), f.clone());
            }
            if let Some(m) = &args.callsite.module {
                visitor.push_prop("code.namespace".to_owned(), m.clone());
            }
            if let Some(l) = &args.callsite.line {
                visitor.push_prop("code.lineno".to_owned(), u64_text(*l as u64));
            }
            proof {
                assert(visitor.fastrace_event.properties.deep_view() =~= baseline
                    + spec_location_props(args.callsite));
            }
        }
        visitor.record_fields(&args.fields);
        proof {
            assert(visitor.fastrace_event.properties.deep_view() =~= spec_event_props(
                *self,
                *args,
            ));
        }
        visitor.fastrace_event
    }

    /// Handles an event notification: the owning span is the explicitly
    /// associated parent when the host resolves one, else the currently
    /// active span when the event is contextual. When an owning span
    /// resolves and carries a record, the bridged event is built and
    /// appended to it; otherwise the event is dropped and the table is
    /// unchanged.
    pub fn on_event(&self, table: &mut SpanTable, args: &EventArgs)
        ensures
            ({
                let owner = spec_event_owner(args.parent, args.contextual, args.current);
                match owner {
                    Option::None => final(table)@ == old(table)@,
                    Option::Some(oid) => {
                        if old(table)@.contains_key(oid) {
                            &&& final(table)@ == old(table)@.insert(oid, final(table)@[oid])
                            &&& final(table)@[oid].origin == old(table)@[oid].origin
                            &&& final(table)@[oid].properties == old(table)@[oid].properties
                            &&& final(table)@[oid].events@ == old(table)@[oid].events@.push(
                                final(table)@[oid].events@.last(),
                            )
                            &&& final(table)@[oid].events@.last().name@ == spec_resolved_name(
                                args.fields@,
                                args.declared_name@,
                            )
                            &&& final(table)@[oid].events@.last().properties.deep_view()
                                == spec_event_props(*self, *args)
                        } else {
                            final(table)@ == old(table)@
                        }
                    },
                }
            }),
    {
        let owner: Option<u64> = match &args.parent {
            Some(p) => Some(*p),
            None => {
                if args.contextual {
                    match &args.current {
                        Some(c) => Some(*c),
                        None => None,
                    }
                } else {
                    None
                }
            },
        };
        match owner {
            None => {},
            Some(oid) => {
                match table.remove(oid) {
                    None => {},
                    Some(mut rec) => {
                        let ev = self.build_event(args);
                        rec.append_event(ev);
                        let ghost updated = rec;
                        table.insert(oid, rec);
                        proof {
                            assert(old(table)@.remove(oid).insert(oid, updated) =~= old(
                                table,
                            )@.insert(oid, updated));
                        }
                    },
                }
            },
        }
    }
}

} // verus!
