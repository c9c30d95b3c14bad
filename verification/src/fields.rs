//! The field visitor protocol: conversion of typed instrumentation fields
//! into textual properties.
//!
//! A field carries one of six value kinds: boolean, 64-bit float, 64-bit
//! signed integer, string, opaque debug value, or an error with a causal
//! chain. Floats and debug values reach the bridge already rendered to text
//! by the embedder, since their rendering belongs to the platform layer;
//! every other kind is serialized here. An error field expands into four
//! properties: its display text under the field's own name and under
//! `exception.message`, and the rendered causal chain under
//! `<field name>.chain` and under `exception.stacktrace`.

use vstd::prelude::*;
use vstd::string::StringExecFns;

use crate::text::{bool_text, i64_text, spec_bool_text, spec_i64_text};

verus! {

/// One typed field value, as presented by the host framework.
pub enum FieldValue {
    /// A boolean value.
    Bool(bool),
    /// A 64-bit float, already rendered to its canonical decimal text by
    /// the embedder.
    F64Text(String),
    /// A 64-bit signed integer.
    I64(i64),
    /// A string value.
    Str(String),
    /// An opaque value, already rendered to its structured debug text by
    /// the embedder.
    DebugText(String),
    /// An error value: its display text and the display texts of the links
    /// of its causal chain, outermost first.
    Error { message: String, chain: Vec<String> },
}

/// One named field of a span-creation, span-update, or event record.
pub struct Field {
    pub name: String,
    pub value: FieldValue,
}

/// The text recorded under the field's own name, for each value kind. For
/// an error value this is the error's display text.
pub open spec fn spec_value_text(v: FieldValue) -> Seq<char> {
    match v {
        FieldValue::Bool(b) => spec_bool_text(b),
        FieldValue::F64Text(t) => t@,
        FieldValue::I64(i) => spec_i64_text(i as int),
        FieldValue::Str(s) => s@,
        FieldValue::DebugText(t) => t@,
        FieldValue::Error { message, .. } => message@,
    }
}

/// The debug-style list rendering of a sequence of texts, as produced by
/// the standard `Debug` formatting of a vector of strings. Its value is a
/// function of the texts alone; it is given a name rather than a
/// definition, and the trusted renderer below is the only place that
/// produces it.
pub uninterp spec fn debug_list_of(items: Seq<Seq<char>>) -> Seq<char>;

/// Relies on the standard `Debug` formatting of `Vec<String>`: the
/// rendered list is a function of the element texts alone.
#[verifier::external_body]
pub fn render_text_list(items: &Vec<String>) -> (r: String)
    ensures
        r@ == debug_list_of(items.deep_view()),
{
    format!("{:?}", items)
}

/// The properties one field contributes to a span record: a single
/// property for every kind but an error, and the four-property expansion
/// for an error.
pub open spec fn spec_field_props(name: Seq<char>, v: FieldValue) -> Seq<(Seq<char>, Seq<char>)> {
    match v {
        FieldValue::Error { message, chain } => {
            let list = debug_list_of(chain.deep_view());
            seq![
                (name, message@),
                ("exception.message"@, message@),
                (name + ".chain"@, list),
                ("exception.stacktrace"@, list),
            ]
        },
        _ => seq![(name, spec_value_text(v))],
    }
}

/// The properties one field contributes to an event: as for a span record,
/// except that a field named `message` contributes none (it is reserved
/// for the event's name).
pub open spec fn spec_event_field_props(name: Seq<char>, v: FieldValue) -> Seq<
    (Seq<char>, Seq<char>),
> {
    if name == "message"@ {
        Seq::empty()
    } else {
        spec_field_props(name, v)
    }
}

/// The properties a whole field sequence contributes to a span record, in
/// presentation order.
pub open spec fn spec_span_fields_props(fields: Seq<Field>) -> Seq<(Seq<char>, Seq<char>)>
    decreases fields.len(),
{
    if fields.len() == 0 {
        Seq::empty()
    } else {
        spec_span_fields_props(fields.drop_last()) + spec_field_props(
            fields.last().name@,
            fields.last().value,
        )
    }
}

/// The properties a whole field sequence contributes to an event, in
/// presentation order.
pub open spec fn spec_event_fields_props(fields: Seq<Field>) -> Seq<(Seq<char>, Seq<char>)>
    decreases fields.len(),
{
    if fields.len() == 0 {
        Seq::empty()
    } else {
        spec_event_fields_props(fields.drop_last()) + spec_event_field_props(
            fields.last().name@,
            fields.last().value,
        )
    }
}

/// The text found for an event's name: the value of the last field named
/// `message`, if any.
pub open spec fn spec_found_name(fields: Seq<Field>) -> Option<Seq<char>>
    decreases fields.len(),
{
    if fields.len() == 0 {
        Option::None
    } else if fields.last().name@ == "message"@ {
        Option::Some(spec_value_text(fields.last().value))
    } else {
        spec_found_name(fields.drop_last())
    }
}

/// An event's resolved name: the value of its last `message` field, or its
/// declared name when no field is named `message`.
pub open spec fn spec_resolved_name(fields: Seq<Field>, declared: Seq<char>) -> Seq<char> {
    match spec_found_name(fields) {
        Option::Some(n) => n,
        Option::None => declared,
    }
}

/// Whether a field name is the reserved sentinel `message`.
pub fn is_message_name(name: &String) -> (b: bool)
    ensures
        b == (name@ == "message"@),
{
    let m: String = "message".to_owned();
    *name == m
}

/// The text recorded under a field's own name, for each value kind.
pub fn value_text(v: &FieldValue) -> (r: String)
    ensures
        r@ == spec_value_text(*v),
{
    match v {
        FieldValue::Bool(b) => bool_text(*b),
        FieldValue::F64Text(t) => t.clone(),
        FieldValue::I64(i) => i64_text(*i),
        FieldValue::Str(s) => s.clone(),
        FieldValue::DebugText(t) => t.clone(),
        FieldValue::Error { message, .. } => message.clone(),
    }
}

// ---------------------------------------------------------------------------
// Name-finder visitor
// ---------------------------------------------------------------------------

/// A lightweight consumer of the visitor protocol that extracts only the
/// value of the field named `message`, without touching any span or event.
/// Each typed handler unconditionally overwrites a previous finding.
pub struct EventNameFinder {
    pub name: Option<String>,
}

/// The finder's observation so far, as a text.
pub open spec fn spec_observed(f: EventNameFinder) -> Option<Seq<char>> {
    match f.name {
        Option::Some(s) => Option::Some(s@),
        Option::None => Option::None,
    }
}

impl EventNameFinder {
    /// A finder that has observed nothing.
    pub fn new() -> (r: Self)
        ensures
            spec_observed(r) is None,
    {
        EventNameFinder { name: None }
    }

    /// Observes a boolean field.
    pub fn record_bool(&mut self, field_name: &String, value: bool)
        ensures
            spec_observed(*final(self)) == (if field_name@ == "message"@ {
                Option::Some(spec_bool_text(value))
            } else {
                spec_observed(*old(self))
            }),
    {
        if is_message_name(field_name) {
            self.name = Some(bool_text(value));
        }
    }

    /// Observes a float field through its rendered text.
    pub fn record_f64(&mut self, field_name: &String, rendered: &String)
        ensures
            spec_observed(*final(self)) == (if field_name@ == "message"@ {
                Option::Some(rendered@)
            } else {
                spec_observed(*old(self))
            }),
    {
        if is_message_name(field_name) {
            self.name = Some(rendered.clone());
        }
    }

    /// Observes a signed integer field.
    pub fn record_i64(&mut self, field_name: &String, value: i64)
        ensures
            spec_observed(*final(self)) == (if field_name@ == "message"@ {
                Option::Some(spec_i64_text(value as int))
            } else {
                spec_observed(*old(self))
            }),
    {
        if is_message_name(field_name) {
            self.name = Some(i64_text(value));
        }
    }

    /// Observes a string field.
    pub fn record_str(&mut self, field_name: &String, value: &String)
        ensures
            spec_observed(*final(self)) == (if field_name@ == "message"@ {
                Option::Some(value@)
            } else {
                spec_observed(*old(self))
            }),
    {
        if is_message_name(field_name) {
            self.name = Some(value.clone());
        }
    }

    /// Observes an opaque field through its rendered debug text.
    pub fn record_debug(&mut self, field_name: &String, rendered: &String)
        ensures
            spec_observed(*final(self)) == (if field_name@ == "message"@ {
                Option::Some(rendered@)
            } else {
                spec_observed(*old(self))
            }),
    {
        if is_message_name(field_name) {
            self.name = Some(rendered.clone());
        }
    }

    /// Observes an error field through its display text.
    pub fn record_error(&mut self, field_name: &String, message: &String)
        ensures
            spec_observed(*final(self)) == (if field_name@ == "message"@ {
                Option::Some(message@)
            } else {
                spec_observed(*old(self))
            }),
    {
        if is_message_name(field_name) {
            self.name = Some(message.clone());
        }
    }

    /// Observes one field of any kind.
    pub fn record_field(&mut self, f: &Field)
        ensures
            spec_observed(*final(self)) == (if f.name@ == "message"@ {
                Option::Some(spec_value_text(f.value))
            } else {
                spec_observed(*old(self))
            }),
    {
        match &f.value {
            FieldValue::Bool(b) => self.record_bool(&f.name, *b),
            FieldValue::F64Text(t) => self.record_f64(&f.name, t),
            FieldValue::I64(i) => self.record_i64(&f.name, *i),
            FieldValue::Str(s) => self.record_str(&f.name, s),
            FieldValue::DebugText(t) => self.record_debug(&f.name, t),
            FieldValue::Error { message, .. } => self.record_error(&f.name, message),
        }
    }
}

/// Scans a field sequence once with a name finder and resolves an event's
/// name: the value of the last field named `message` wins, and the declared
/// name is the fallback.
pub fn resolve_event_name(fields: &Vec<Field>, declared: &String) -> (r: String)
    ensures
        r@ == spec_resolved_name(fields@, declared@),
{
    let mut finder = EventNameFinder::new();
    let mut i: usize = 0;
    while i < fields.len()
        invariant
            i <= fields@.len(),
            spec_observed(finder) == spec_found_name(fields@.take(i as int)),
        decreases fields@.len() - i,
    {
        finder.record_field(&fields[i]);
        proof {
            assert(fields@.take(i + 1).drop_last() =~= fields@.take(i as int));
            assert(fields@.take(i + 1).last() == fields@[i as int]);
        }
        i = i + 1;
    }
    proof {
        assert(fields@.take(fields@.len() as int) =~= fields@);
    }
    match finder.name {
        Some(n) => n,
        None => declared.clone(),
    }
}

// ---------------------------------------------------------------------------
// Event property accumulator
// ---------------------------------------------------------------------------

/// A transient event value: a name and an ordered property list. Keys may
/// repeat; every occurrence is preserved. It is built during a single event
/// notification and then handed to the owning span record.
pub struct BridgedEvent {
    pub name: String,
    pub properties: Vec<(String, String)>,
}

/// The consumer of the visitor protocol that folds fields into an event's
/// property set. A field named `message` is never turned into a property;
/// every other field is serialized as for a span record.
pub struct EventVisitor {
    pub fastrace_event: BridgedEvent,
}

impl EventVisitor {
    pub(crate) fn push_prop(&mut self, k: String, v: String)
        ensures
            final(self).fastrace_event.name == old(self).fastrace_event.name,
            final(self).fastrace_event.properties.deep_view() == old(
                self,
            ).fastrace_event.properties.deep_view().push((k@, v@)),
    {
        let ghost before = self.fastrace_event.properties.deep_view();
        self.fastrace_event.properties.push((k, v));
        proof {
            assert(self.fastrace_event.properties.deep_view() =~= before.push((k@, v@)));
        }
    }

    /// Records a boolean field.
    pub fn record_bool(&mut self, field_name: &String, value: bool)
        ensures
            final(self).fastrace_event.name == old(self).fastrace_event.name,
            final(self).fastrace_event.properties.deep_view() == old(
                self,
            ).fastrace_event.properties.deep_view() + spec_event_field_props(
                field_name@,
                FieldValue::Bool(value),
            ),
    {
        let ghost before = self.fastrace_event.properties.deep_view();
        if is_message_name(field_name) {
            proof {
                assert(before + Seq::<(Seq<char>, Seq<char>)>::empty() =~= before);
            }
            return ;
        }
        self.push_prop(field_name.clone(), bool_text(value));
        proof {
            assert(self.fastrace_event.properties.deep_view() =~= before
                + spec_event_field_props(field_name@, FieldValue::Bool(value)));
        }
    }

    /// Records a float field through its rendered text.
    pub fn record_f64(&mut self, field_name: &String, rendered: &String)
        ensures
            final(self).fastrace_event.name == old(self).fastrace_event.name,
            final(self).fastrace_event.properties.deep_view() == old(
                self,
            ).fastrace_event.properties.deep_view() + spec_event_field_props(
                field_name@,
                FieldValue::F64Text(*rendered),
            ),
    {
        let ghost before = self.fastrace_event.properties.deep_view();
        if is_message_name(field_name) {
            proof {
                assert(before + Seq::<(Seq<char>, Seq<char>)>::empty() =~= before);
            }
            return ;
        }
        self.push_prop(field_name.clone(), rendered.clone());
        proof {
            assert(self.fastrace_event.properties.deep_view() =~= before
                + spec_event_field_props(field_name@, FieldValue::F64Text(*rendered)));
        }
    }

    /// Records a signed integer field.
    pub fn record_i64(&mut self, field_name: &String, value: i64)
        ensures
            final(self).fastrace_event.name == old(self).fastrace_event.name,
            final(self).fastrace_event.properties.deep_view() == old(
                self,
            ).fastrace_event.properties.deep_view() + spec_event_field_props(
                field_name@,
                FieldValue::I64(value),
            ),
    {
        let ghost before = self.fastrace_event.properties.deep_view();
        if is_message_name(field_name) {
            proof {
                assert(before + Seq::<(Seq<char>, Seq<char>)>::empty() =~= before);
            }
            return ;
        }
        self.push_prop(field_name.clone(), i64_text(value));
        proof {
            assert(self.fastrace_event.properties.deep_view() =~= before
                + spec_event_field_props(field_name@, FieldValue::I64(value)));
        }
    }

    /// Records a string field.
    pub fn record_str(&mut self, field_name: &String, value: &String)
        ensures
            final(self).fastrace_event.name == old(self).fastrace_event.name,
            final(self).fastrace_event.properties.deep_view() == old(
                self,
            ).fastrace_event.properties.deep_view() + spec_event_field_props(
                field_name@,
                FieldValue::Str(*value),
            ),
    {
        let ghost before = self.fastrace_event.properties.deep_view();
        if is_message_name(field_name) {
            proof {
                assert(before + Seq::<(Seq<char>, Seq<char>)>::empty() =~= before);
            }
            return ;
        }
        self.push_prop(field_name.clone(), value.clone());
        proof {
            assert(self.fastrace_event.properties.deep_view() =~= before
                + spec_event_field_props(field_name@, FieldValue::Str(*value)));
        }
    }

    /// Records an opaque field through its rendered debug text.
    pub fn record_debug(&mut self, field_name: &String, rendered: &String)
        ensures
            final(self).fastrace_event.name == old(self).fastrace_event.name,
            final(self).fastrace_event.properties.deep_view() == old(
                self,
            ).fastrace_event.properties.deep_view() + spec_event_field_props(
                field_name@,
                FieldValue::DebugText(*rendered),
            ),
    {
        let ghost before = self.fastrace_event.properties.deep_view();
        if is_message_name(field_name) {
            proof {
                assert(before + Seq::<(Seq<char>, Seq<char>)>::empty() =~= before);
            }
            return ;
        }
        self.push_prop(field_name.clone(), rendered.clone());
        proof {
            assert(self.fastrace_event.properties.deep_view() =~= before
                + spec_event_field_props(field_name@, FieldValue::DebugText(*rendered)));
        }
    }

    /// Records an error field: its display text under the field's own name
    /// and under `exception.message`, then the rendered causal chain under
    /// `<field name>.chain` and under `exception.stacktrace`.
    pub fn record_error(&mut self, field_name: &String, message: &String, chain: &Vec<String>)
        ensures
            final(self).fastrace_event.name == old(self).fastrace_event.name,
            final(self).fastrace_event.properties.deep_view() == old(
                self,
            ).fastrace_event.properties.deep_view() + spec_event_field_props(
                field_name@,
                FieldValue::Error { message: *message, chain: *chain },
            ),
    {
        let ghost before = self.fastrace_event.properties.deep_view();
        if is_message_name(field_name) {
            proof {
                assert(before + Seq::<(Seq<char>, Seq<char>)>::empty() =~= before);
            }
            return ;
        }
        let list = render_text_list(chain);
        let mut chain_key = field_name.clone();
        chain_key.append(".chain");
        self.push_prop(field_name.clone(), message.clone());
        self.push_prop("exception.message".to_owned(), message.clone());
        self.push_prop(chain_key, list.clone());
        self.push_prop("exception.stacktrace".to_owned(), list);
        proof {
            assert(self.fastrace_event.properties.deep_view() =~= before + spec_event_field_props(
                field_name@,
                FieldValue::Error { message: *message, chain: *chain },
            ));
        }
    }

    /// Records one field of any kind.
    pub fn record_field(&mut self, f: &Field)
        ensures
            final(self).fastrace_event.name == old(self).fastrace_event.name,
            final(self).fastrace_event.properties.deep_view() == old(
                self,
            ).fastrace_event.properties.deep_view() + spec_event_field_props(f.name@, f.value),
    {
        match &f.value {
            FieldValue::Bool(b) => self.record_bool(&f.name, *b),
            FieldValue::F64Text(t) => self.record_f64(&f.name, t),
            FieldValue::I64(i) => self.record_i64(&f.name, *i),
            FieldValue::Str(s) => self.record_str(&f.name, s),
            FieldValue::DebugText(t) => self.record_debug(&f.name, t),
            FieldValue::Error { message, chain } => self.record_error(&f.name, message, chain),
        }
    }

    /// Records a whole field sequence, in presentation order.
    pub fn record_fields(&mut self, fields: &Vec<Field>)
        ensures
            final(self).fastrace_event.name == old(self).fastrace_event.name,
            final(self).fastrace_event.properties.deep_view() == old(
                self,
            ).fastrace_event.properties.deep_view() + spec_event_fields_props(fields@),
    {
        let ghost before = self.fastrace_event.properties.deep_view();
        let mut i: usize = 0;
        while i < fields.len()
            invariant
                i <= fields@.len(),
                self.fastrace_event.name == old(self).fastrace_event.name,
                self.fastrace_event.properties.deep_view() == before + spec_event_fields_props(
                    fields@.take(i as int),
                ),
            decreases fields@.len() - i,
        {
            self.record_field(&fields[i]);
            proof {
                assert(fields@.take(i + 1).drop_last() =~= fields@.take(i as int));
                assert(fields@.take(i + 1).last() == fields@[i as int]);
                assert(before + spec_event_fields_props(fields@.take(i as int))
                    + spec_event_field_props(fields@[i as int].name@, fields@[i as int].value)
                    =~= before + spec_event_fields_props(fields@.take(i + 1)));
            }
            i = i + 1;
        }
        proof {
            assert(fields@.take(fields@.len() as int) =~= fields@);
        }
    }
}

} // verus!
