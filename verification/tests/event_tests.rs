use fastrace_tracing::FastraceCompatLayer;
use fastrace_tracing::bridge::CallSite;
use fastrace_tracing::bridge::EventArgs;
use fastrace_tracing::bridge::ParentDecl;
use fastrace_tracing::bridge::SpanArgs;
use fastrace_tracing::bridge::SpanTable;
use fastrace_tracing::bridge::ThreadInfo;
use fastrace_tracing::fields::Field;
use fastrace_tracing::fields::FieldValue;

fn no_callsite() -> CallSite {
    CallSite { file: None, module: None, line: None }
}

fn bare_layer() -> FastraceCompatLayer {
    FastraceCompatLayer::new().with_location(false).with_threads(false)
}

fn event_args(declared: &str, fields: Vec<Field>) -> EventArgs {
    EventArgs {
        declared_name: declared.to_string(),
        level: "INFO".to_string(),
        target: "my_target".to_string(),
        callsite: no_callsite(),
        parent: None,
        contextual: false,
        current: None,
        fields,
    }
}

fn field(name: &str, value: FieldValue) -> Field {
    Field { name: name.to_string(), value }
}

fn root_span_args(name: &str) -> SpanArgs {
    SpanArgs {
        name: name.to_string(),
        parent: ParentDecl::Root,
        current: None,
        ambient: false,
        callsite: no_callsite(),
        level: "INFO".to_string(),
        thread: ThreadInfo { id: 1, name: None },
        fields: vec![],
    }
}

#[test]
fn message_field_becomes_event_name() {
    let layer = bare_layer();
    let args = event_args(
        "declared",
        vec![field("message", FieldValue::Str("hello".to_string()))],
    );
    let ev = layer.build_event(&args);
    assert_eq!(ev.name, "hello");
    assert!(ev.properties.iter().all(|(k, _)| k != "message"));
}

#[test]
fn last_message_field_wins() {
    let layer = bare_layer();
    let args = event_args(
        "declared",
        vec![
            field("message", FieldValue::Str("first".to_string())),
            field("message", FieldValue::I64(7)),
        ],
    );
    let ev = layer.build_event(&args);
    assert_eq!(ev.name, "7");
}

#[test]
fn declared_name_when_no_message_field() {
    let layer = bare_layer();
    let args = event_args("declared", vec![field("k", FieldValue::Bool(false))]);
    let ev = layer.build_event(&args);
    assert_eq!(ev.name, "declared");
    assert_eq!(ev.properties[0], ("level".to_string(), "INFO".to_string()));
    assert_eq!(ev.properties[1], ("target".to_string(), "my_target".to_string()));
    assert_eq!(ev.properties[2], ("k".to_string(), "false".to_string()));
    assert_eq!(ev.properties.len(), 3);
}

#[test]
fn baseline_level_is_unconditional_for_events() {
    // The per-event level property does not depend on the with_level toggle.
    let layer = FastraceCompatLayer::new().with_location(false).with_threads(false);
    assert!(!layer.with_level);
    let ev = layer.build_event(&event_args("e", vec![]));
    assert_eq!(
        ev.properties,
        vec![
            ("level".to_string(), "INFO".to_string()),
            ("target".to_string(), "my_target".to_string()),
        ]
    );
}

#[test]
fn error_event_field_expands_to_four_properties() {
    let layer = bare_layer();
    let value = FieldValue::Error {
        message: "outer".to_string(),
        chain: vec!["A".to_string(), "B".to_string()],
    };
    let ev = layer.build_event(&event_args("e", vec![field("cause", value)]));
    let list = "[\"A\", \"B\"]".to_string();
    assert_eq!(
        ev.properties,
        vec![
            ("level".to_string(), "INFO".to_string()),
            ("target".to_string(), "my_target".to_string()),
            ("cause".to_string(), "outer".to_string()),
            ("exception.message".to_string(), "outer".to_string()),
            ("cause.chain".to_string(), list.clone()),
            ("exception.stacktrace".to_string(), list),
        ]
    );
}

#[test]
fn message_field_skipped_for_all_kinds() {
    let layer = bare_layer();
    let kinds = vec![
        FieldValue::Bool(true),
        FieldValue::F64Text("1.5".to_string()),
        FieldValue::I64(3),
        FieldValue::Str("s".to_string()),
        FieldValue::DebugText("d".to_string()),
        FieldValue::Error { message: "m".to_string(), chain: vec![] },
    ];
    for value in kinds {
        let ev = layer.build_event(&event_args("e", vec![field("message", value)]));
        // Only the two baseline properties remain.
        assert_eq!(ev.properties.len(), 2);
    }
}

#[test]
fn event_location_enrichment_follows_the_location_toggle() {
    let layer = FastraceCompatLayer::new().with_threads(false);
    let mut args = event_args("e", vec![]);
    args.callsite = CallSite {
        file: Some("src/a.rs".to_string()),
        module: Some("a".to_string()),
        line: Some(4),
    };
    let ev = layer.build_event(&args);
    assert_eq!(
        ev.properties,
        vec![
            ("level".to_string(), "INFO".to_string()),
            ("target".to_string(), "my_target".to_string()),
            ("code.filepath".to_string(), "src/a.rs".to_string()),
            ("code.namespace".to_string(), "a".to_string()),
            ("code.lineno".to_string(), "4".to_string()),
        ]
    );
    let muted = layer.with_location(false);
    let ev2 = muted.build_event(&args);
    assert_eq!(ev2.properties.len(), 2);
}

#[test]
fn event_attaches_to_explicit_parent_record() {
    let layer = bare_layer();
    let mut table = SpanTable::new();
    layer.on_new_span(&mut table, 1, &root_span_args("owner"));
    let mut args = event_args("e", vec![]);
    args.parent = Some(1);
    layer.on_event(&mut table, &args);
    let rec = table.get(1).unwrap();
    assert_eq!(rec.events.len(), 1);
    assert_eq!(rec.events[0].name, "e");
}

#[test]
fn contextual_event_attaches_to_current_record() {
    let layer = bare_layer();
    let mut table = SpanTable::new();
    layer.on_new_span(&mut table, 1, &root_span_args("owner"));
    let mut args = event_args("e", vec![]);
    args.contextual = true;
    args.current = Some(1);
    layer.on_event(&mut table, &args);
    assert_eq!(table.get(1).unwrap().events.len(), 1);
}

#[test]
fn event_without_owner_is_dropped() {
    let layer = bare_layer();
    let mut table = SpanTable::new();
    layer.on_new_span(&mut table, 1, &root_span_args("owner"));
    // Not contextual and no explicit parent: dropped even though a span is
    // current.
    let mut args = event_args("e", vec![]);
    args.current = Some(1);
    layer.on_event(&mut table, &args);
    assert_eq!(table.get(1).unwrap().events.len(), 0);
}

#[test]
fn event_for_record_less_owner_is_dropped() {
    let layer = bare_layer();
    let mut table = SpanTable::new();
    let mut args = event_args("e", vec![]);
    args.parent = Some(9);
    layer.on_event(&mut table, &args);
    assert_eq!(table.len(), 0);
}

#[test]
fn events_accumulate_in_order() {
    let layer = bare_layer();
    let mut table = SpanTable::new();
    layer.on_new_span(&mut table, 1, &root_span_args("owner"));
    for name in ["a", "b", "c"] {
        let mut args = event_args(name, vec![]);
        args.parent = Some(1);
        layer.on_event(&mut table, &args);
    }
    let rec = table.get(1).unwrap();
    let names: Vec<&str> = rec.events.iter().map(|e| e.name.as_str()).collect();
    assert_eq!(names, vec!["a", "b", "c"]);
}
