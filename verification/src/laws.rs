//! The laws of the bridge: properties that relate several operations, each
//! stated over the same spec functions that the operations' contracts use.

use vstd::prelude::*;

use crate::FastraceCompatLayer;
use crate::bridge::CallSite;
use crate::bridge::EventArgs;
use crate::bridge::ParentDecl;
use crate::bridge::SpanOrigin;
use crate::bridge::ThreadInfo;
use crate::bridge::spec_enrich_props;
use crate::bridge::spec_event_props;
use crate::bridge::spec_location_props;
use crate::bridge::spec_resolve_parent;
use crate::bridge::spec_thread_props;
use crate::fields::Field;
use crate::fields::FieldValue;
use crate::fields::debug_list_of;
use crate::fields::spec_event_field_props;
use crate::fields::spec_event_fields_props;
use crate::fields::spec_field_props;
use crate::fields::spec_resolved_name;
use crate::fields::spec_span_fields_props;
use crate::fields::spec_value_text;
use crate::text::spec_u64_text;

verus! {

/// A span-creation record with one field contributes exactly that field's
/// properties.
pub proof fn lemma_single_field_span_props(f: Field)
    ensures
        spec_span_fields_props(seq![f]) == spec_field_props(f.name@, f.value),
{
    assert(seq![f].drop_last() =~= Seq::<Field>::empty());
    assert(seq![f].last() == f);
    assert(spec_span_fields_props(Seq::<Field>::empty()) == Seq::<(Seq<char>, Seq<char>)>::empty());
    assert(Seq::<(Seq<char>, Seq<char>)>::empty() + spec_field_props(f.name@, f.value)
        =~= spec_field_props(f.name@, f.value));
}

/// Law: under a configuration with every enrichment toggle off, a new
/// span's property list is exactly what its creation fields contribute.
pub proof fn lemma_bare_config_span_props(cfg: FastraceCompatLayer, args: crate::bridge::SpanArgs)
    requires
        !cfg.location,
        !cfg.with_threads,
        !cfg.with_level,
    ensures
        crate::bridge::spec_new_span_props(cfg, args) == spec_span_fields_props(args.fields@),
{
    assert(spec_enrich_props(cfg, args.callsite, args.thread, args.level@) =~= Seq::<
        (Seq<char>, Seq<char>),
    >::empty());
    assert(Seq::<(Seq<char>, Seq<char>)>::empty() + spec_span_fields_props(args.fields@)
        =~= spec_span_fields_props(args.fields@));
}

/// Law: one recorded field yields exactly one property under the field's
/// own name, carrying the kind-appropriate textual serialization; the three
/// extra properties of an error field stand under other keys. The two fixed
/// exception keys are excluded as the field's own name: an error field so
/// named would duplicate its own key.
pub proof fn lemma_field_own_name_property(f: Field)
    requires
        f.value is Error ==> f.name@ != "exception.message"@ && f.name@
            != "exception.stacktrace"@,
    ensures
        spec_field_props(f.name@, f.value).len() >= 1,
        spec_field_props(f.name@, f.value)[0] == (f.name@, spec_value_text(f.value)),
        forall|i: int|
            1 <= i < spec_field_props(f.name@, f.value).len() ==> (#[trigger] spec_field_props(
                f.name@,
                f.value,
            )[i]).0 != f.name@,
{
    reveal_strlit(".chain");
    match f.value {
        FieldValue::Error { .. } => {
            let ps = spec_field_props(f.name@, f.value);
            assert(ps[2].0 == f.name@ + ".chain"@);
            assert((f.name@ + ".chain"@).len() == f.name@.len() + 6);
            assert(ps[2].0 != f.name@);
        },
        _ => {},
    }
}

/// Law: an error field expands into exactly four properties: its display
/// text under the field's own name and under `exception.message`, and the
/// rendered causal chain under `<field name>.chain` and under
/// `exception.stacktrace`.
pub proof fn lemma_error_field_expansion(name: Seq<char>, message: String, chain: Vec<String>)
    ensures
        ({
            let ps = spec_field_props(name, FieldValue::Error { message, chain });
            let list = debug_list_of(chain.deep_view());
            &&& ps.len() == 4
            &&& ps[0] == (name, message@)
            &&& ps[1] == ("exception.message"@, message@)
            &&& ps[2] == (name + ".chain"@, list)
            &&& ps[3] == ("exception.stacktrace"@, list)
        }),
{
}

/// No property list an event derives from its fields contains a property
/// named `message`: a field so named is reserved for the event's name.
pub proof fn lemma_event_fields_no_message(fields: Seq<Field>)
    ensures
        forall|i: int|
            0 <= i < spec_event_fields_props(fields).len() ==> (#[trigger] spec_event_fields_props(
                fields,
            )[i]).0 != "message"@,
    decreases fields.len(),
{
    reveal_strlit("message");
    reveal_strlit(".chain");
    reveal_strlit("exception.message");
    reveal_strlit("exception.stacktrace");
    if fields.len() > 0 {
        lemma_event_fields_no_message(fields.drop_last());
        let prev = spec_event_fields_props(fields.drop_last());
        let name = fields.last().name@;
        let p = spec_event_field_props(name, fields.last().value);
        if name != "message"@ {
            match fields.last().value {
                FieldValue::Error { .. } => {
                    assert(p[0].0 == name);
                    assert(p[1].0.len() == 17);
                    assert(p[3].0.len() == 20);
                    assert(p[2].0 == name + ".chain"@);
                    if p[2].0 == "message"@ {
                        assert(name.len() == 1);
                        assert((name + ".chain"@)[1] == ".chain"@[0]);
                        assert("message"@[1] == 'e');
                        assert(false);
                    }
                },
                _ => {
                    assert(p[0].0 == name);
                },
            }
        }
        assert(spec_event_fields_props(fields) == prev + p);
        assert forall|i: int| 0 <= i < (prev + p).len() implies (#[trigger] (prev + p)[i]).0
            != "message"@ by {
            if i < prev.len() {
                assert((prev + p)[i] == prev[i]);
            } else {
                assert((prev + p)[i] == p[i - prev.len()]);
            }
        }
    }
}

/// The key of every location property is one of the three `code.*` keys.
proof fn lemma_location_keys(c: CallSite)
    ensures
        forall|j: int|
            0 <= j < spec_location_props(c).len() ==> (#[trigger] spec_location_props(c)[j]).0
                == "code.filepath"@ || spec_location_props(c)[j].0 == "code.namespace"@
                || spec_location_props(c)[j].0 == "code.lineno"@,
{
}

/// The key of every thread property is `thread.id` or `thread.name`.
proof fn lemma_thread_keys(t: ThreadInfo)
    ensures
        forall|j: int|
            0 <= j < spec_thread_props(t).len() ==> (#[trigger] spec_thread_props(t)[j]).0
                == "thread.id"@ || spec_thread_props(t)[j].0 == "thread.name"@,
{
}

/// Law: no property of a bridged event is named `message`, whatever its
/// fields hold.
pub proof fn lemma_event_no_message_property(cfg: FastraceCompatLayer, args: EventArgs)
    ensures
        forall|i: int|
            0 <= i < spec_event_props(cfg, args).len() ==> (#[trigger] spec_event_props(
                cfg,
                args,
            )[i]).0 != "message"@,
{
    reveal_strlit("message");
    reveal_strlit("level");
    reveal_strlit("target");
    reveal_strlit("code.filepath");
    reveal_strlit("code.namespace");
    reveal_strlit("code.lineno");
    lemma_event_fields_no_message(args.fields@);
    lemma_location_keys(args.callsite);
    let base = seq![("level"@, args.level@), ("target"@, args.target@)];
    let loc: Seq<(Seq<char>, Seq<char>)> = if cfg.location {
        spec_location_props(args.callsite)
    } else {
        Seq::empty()
    };
    let fps = spec_event_fields_props(args.fields@);
    assert(spec_event_props(cfg, args) == base + loc + fps);
    assert("level"@.len() == 5 && "target"@.len() == 6 && "message"@.len() == 7);
    assert forall|i: int| 0 <= i < (base + loc + fps).len() implies (#[trigger] (base + loc
        + fps)[i]).0 != "message"@ by {
        if i < base.len() {
            assert((base + loc + fps)[i] == (base + loc)[i]);
            assert((base + loc)[i] == base[i]);
            assert(base[i].0 != "message"@);
        } else if i < base.len() + loc.len() {
            assert((base + loc + fps)[i] == (base + loc)[i]);
            assert((base + loc)[i] == loc[i - base.len()]);
            assert("code.filepath"@.len() == 13 && "code.namespace"@.len() == 14
                && "code.lineno"@.len() == 11);
            assert(loc[i - base.len()].0 != "message"@);
        } else {
            assert((base + loc + fps)[i] == fps[i - base.len() - loc.len()]);
            assert(fps[i - base.len() - loc.len()].0 != "message"@);
        }
    }
}

/// Law: an event whose fields include none named `message` takes its
/// declared name.
pub proof fn lemma_event_declared_name(fields: Seq<Field>, declared: Seq<char>)
    requires
        forall|i: int| 0 <= i < fields.len() ==> (#[trigger] fields[i]).name@ != "message"@,
    ensures
        spec_resolved_name(fields, declared) == declared,
    decreases fields.len(),
{
    if fields.len() > 0 {
        assert(fields.last() == fields[fields.len() - 1]);
        assert(forall|i: int|
            0 <= i < fields.drop_last().len() ==> (#[trigger] fields.drop_last()[i]).name@
                != "message"@) by {
            assert(forall|i: int|
                0 <= i < fields.drop_last().len() ==> fields.drop_last()[i] == #[trigger] fields[i]);
        }
        lemma_event_declared_name(fields.drop_last(), declared);
    }
}

/// Law: the value of the last field named `message` becomes the event's
/// name.
pub proof fn lemma_event_message_name(fields: Seq<Field>, declared: Seq<char>, j: int)
    requires
        0 <= j < fields.len(),
        fields[j].name@ == "message"@,
        forall|i: int| j < i < fields.len() ==> (#[trigger] fields[i]).name@ != "message"@,
    ensures
        spec_resolved_name(fields, declared) == spec_value_text(fields[j].value),
    decreases fields.len(),
{
    if j == fields.len() - 1 {
        assert(fields.last() == fields[j]);
    } else {
        assert(fields.last() == fields[fields.len() - 1]);
        assert(forall|i: int|
            0 <= i < fields.drop_last().len() ==> fields.drop_last()[i] == #[trigger] fields[i]);
        lemma_event_message_name(fields.drop_last(), declared, j);
    }
}

/// Law: an event's property list always begins with the `level` and
/// `target` baseline, whatever the configuration — in particular the
/// per-event `level` property is unconditional, unlike the per-span one.
pub proof fn lemma_event_baseline(cfg: FastraceCompatLayer, args: EventArgs)
    ensures
        spec_event_props(cfg, args).len() >= 2,
        spec_event_props(cfg, args)[0] == ("level"@, args.level@),
        spec_event_props(cfg, args)[1] == ("target"@, args.target@),
{
}

/// Law: the six parent-resolution cases. An explicit parent with a bridged
/// record yields a child of it; a declared-but-unresolvable explicit parent
/// is not an error and resolves exactly as a span with no explicit parent:
/// it demotes to contextual resolution; a contextual span follows the
/// current span's record, then the ambient backend parent, then a fresh
/// root; an explicitly declared root always yields a fresh root, whatever
/// is active.
pub proof fn lemma_parent_resolution(
    known: Set<u64>,
    current: Option<u64>,
    ambient: bool,
    pid: u64,
)
    ensures
        known.contains(pid) ==> spec_resolve_parent(
            known,
            ParentDecl::Explicit { id: pid, live: true },
            current,
            ambient,
        ) == SpanOrigin::ChildOf(pid),
        spec_resolve_parent(known, ParentDecl::Explicit { id: pid, live: false }, current, ambient)
            == spec_resolve_parent(known, ParentDecl::Contextual, current, ambient),
        (current is Some && known.contains(current->0)) ==> spec_resolve_parent(
            known,
            ParentDecl::Contextual,
            current,
            ambient,
        ) == SpanOrigin::ChildOf(current->0),
        (!(current is Some && known.contains(current->0)) && ambient) ==> spec_resolve_parent(
            known,
            ParentDecl::Contextual,
            current,
            ambient,
        ) == SpanOrigin::AmbientChild,
        (!(current is Some && known.contains(current->0)) && !ambient) ==> spec_resolve_parent(
            known,
            ParentDecl::Contextual,
            current,
            ambient,
        ) == SpanOrigin::NewRoot,
        spec_resolve_parent(known, ParentDecl::Root, current, ambient) == SpanOrigin::NewRoot,
{
}

/// How many properties of a list carry a given key.
pub open spec fn spec_count_key(ps: Seq<(Seq<char>, Seq<char>)>, k: Seq<char>) -> nat
    decreases ps.len(),
{
    if ps.len() == 0 {
        0
    } else {
        spec_count_key(ps.drop_last(), k) + (if ps.last().0 == k {
            1nat
        } else {
            0nat
        })
    }
}

/// Counting a key distributes over concatenation of property lists.
pub proof fn lemma_count_key_concat(a: Seq<(Seq<char>, Seq<char>)>, b: Seq<(Seq<char>, Seq<char>)>, k: Seq<char>)
    ensures
        spec_count_key(a + b, k) == spec_count_key(a, k) + spec_count_key(b, k),
    decreases b.len(),
{
    if b.len() == 0 {
        assert(a + b =~= a);
    } else {
        assert((a + b).drop_last() =~= a + b.drop_last());
        assert((a + b).last() == b.last());
        lemma_count_key_concat(a, b.drop_last(), k);
    }
}

/// Law: a repeated field update appends a repeated property, never
/// overwrites: recording a non-error field once more grows the number of
/// properties under its name by exactly one, and the whole list by one.
/// (An error field grows the list by four instead.)
pub proof fn lemma_repeated_update_appends(ps: Seq<(Seq<char>, Seq<char>)>, f: Field)
    requires
        !(f.value is Error),
    ensures
        spec_count_key(ps + spec_field_props(f.name@, f.value), f.name@) == spec_count_key(
            ps,
            f.name@,
        ) + 1,
        (ps + spec_field_props(f.name@, f.value)).len() == ps.len() + 1,
{
    let p = spec_field_props(f.name@, f.value);
    lemma_count_key_concat(ps, p, f.name@);
    assert(p == seq![(f.name@, spec_value_text(f.value))]);
    assert(p.len() == 1 && p.last() == (f.name@, spec_value_text(f.value)));
    assert(p.drop_last() =~= Seq::<(Seq<char>, Seq<char>)>::empty());
    assert(spec_count_key(p.drop_last(), f.name@) == 0);
    assert(spec_count_key(p, f.name@) == 1);
}

/// Law: under the default configuration a new span is enriched with the
/// location and thread properties and with no `level` property.
pub proof fn lemma_default_config_enrichment(
    cfg: FastraceCompatLayer,
    callsite: CallSite,
    thread: ThreadInfo,
    level: Seq<char>,
)
    requires
        cfg.location,
        cfg.with_threads,
        !cfg.with_level,
    ensures
        spec_enrich_props(cfg, callsite, thread, level) == spec_location_props(callsite)
            + spec_thread_props(thread),
        forall|i: int|
            0 <= i < spec_enrich_props(cfg, callsite, thread, level).len() ==> (
            #[trigger] spec_enrich_props(cfg, callsite, thread, level)[i]).0 != "level"@,
{
    reveal_strlit("level");
    reveal_strlit("code.filepath");
    reveal_strlit("code.namespace");
    reveal_strlit("code.lineno");
    reveal_strlit("thread.id");
    reveal_strlit("thread.name");
    lemma_location_keys(callsite);
    lemma_thread_keys(thread);
    let loc = spec_location_props(callsite);
    let thr = spec_thread_props(thread);
    assert(spec_enrich_props(cfg, callsite, thread, level) =~= loc + thr);
    assert("level"@.len() == 5 && "code.filepath"@.len() == 13 && "code.namespace"@.len() == 14
        && "code.lineno"@.len() == 11 && "thread.id"@.len() == 9 && "thread.name"@.len() == 11);
    assert forall|i: int| 0 <= i < (loc + thr).len() implies (#[trigger] (loc + thr)[i]).0
        != "level"@ by {
        if i < loc.len() {
            assert((loc + thr)[i] == loc[i]);
            assert(loc[i].0 != "level"@);
        } else {
            assert((loc + thr)[i] == thr[i - loc.len()]);
            assert(thr[i - loc.len()].0 != "level"@);
        }
    }
}

/// Law: the `thread.id` property is determined by the thread's numeric
/// identifier alone: two notifications carrying the same identifier yield
/// identical `thread.id` values.
pub proof fn lemma_thread_id_deterministic(t1: ThreadInfo, t2: ThreadInfo)
    requires
        t1.id == t2.id,
    ensures
        spec_thread_props(t1)[0] == spec_thread_props(t2)[0],
        spec_thread_props(t1)[0] == ("thread.id"@, spec_u64_text(t1.id as nat)),
{
}

} // verus!
