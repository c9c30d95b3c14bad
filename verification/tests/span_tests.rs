use fastrace_tracing::FastraceCompatLayer;
use fastrace_tracing::bridge::CallSite;
use fastrace_tracing::bridge::ParentDecl;
use fastrace_tracing::bridge::SpanArgs;
use fastrace_tracing::bridge::SpanOrigin;
use fastrace_tracing::bridge::SpanTable;
use fastrace_tracing::bridge::ThreadInfo;
use fastrace_tracing::fields::Field;
use fastrace_tracing::fields::FieldValue;

fn no_callsite() -> CallSite {
    CallSite { file: None, module: None, line: None }
}

fn bare_layer() -> FastraceCompatLayer {
    FastraceCompatLayer::new().with_location(false).with_threads(false)
}

fn span_args(name: &str, parent: ParentDecl, fields: Vec<Field>) -> SpanArgs {
    SpanArgs {
        name: name.to_string(),
        parent,
        current: None,
        ambient: false,
        callsite: no_callsite(),
        level: "INFO".to_string(),
        thread: ThreadInfo { id: 1, name: None },
        fields,
    }
}

fn props_of(table: &SpanTable, id: u64) -> Vec<(String, String)> {
    table.get(id).expect("record should exist").properties.clone()
}

fn one_field(name: &str, value: FieldValue) -> Vec<Field> {
    vec![Field { name: name.to_string(), value }]
}

#[test]
fn bool_field_single_property() {
    let layer = bare_layer();
    let mut table = SpanTable::new();
    let args = span_args("s", ParentDecl::Root, one_field("flag", FieldValue::Bool(true)));
    layer.on_new_span(&mut table, 1, &args);
    assert_eq!(props_of(&table, 1), vec![("flag".to_string(), "true".to_string())]);
}

#[test]
fn f64_field_single_property() {
    let layer = bare_layer();
    let mut table = SpanTable::new();
    let rendered = format!("{}", 3.5f64);
    let args = span_args("s", ParentDecl::Root, one_field("ratio", FieldValue::F64Text(rendered)));
    layer.on_new_span(&mut table, 1, &args);
    assert_eq!(props_of(&table, 1), vec![("ratio".to_string(), "3.5".to_string())]);
}

#[test]
fn i64_field_single_property() {
    let layer = bare_layer();
    let mut table = SpanTable::new();
    let args = span_args("s", ParentDecl::Root, one_field("count", FieldValue::I64(-42)));
    layer.on_new_span(&mut table, 1, &args);
    assert_eq!(props_of(&table, 1), vec![("count".to_string(), "-42".to_string())]);
}

#[test]
fn str_field_single_property() {
    let layer = bare_layer();
    let mut table = SpanTable::new();
    let args = span_args("s", ParentDecl::Root, one_field("who", FieldValue::Str("ada".to_string())));
    layer.on_new_span(&mut table, 1, &args);
    assert_eq!(props_of(&table, 1), vec![("who".to_string(), "ada".to_string())]);
}

#[test]
fn debug_field_single_property() {
    let layer = bare_layer();
    let mut table = SpanTable::new();
    let rendered = format!("{:?}", Some(1));
    let args = span_args("s", ParentDecl::Root, one_field("opt", FieldValue::DebugText(rendered)));
    layer.on_new_span(&mut table, 1, &args);
    assert_eq!(props_of(&table, 1), vec![("opt".to_string(), "Some(1)".to_string())]);
}

#[test]
fn error_field_four_properties() {
    let layer = bare_layer();
    let mut table = SpanTable::new();
    let value = FieldValue::Error {
        message: "boom".to_string(),
        chain: vec!["A".to_string(), "B".to_string()],
    };
    let args = span_args("s", ParentDecl::Root, one_field("cause", value));
    layer.on_new_span(&mut table, 1, &args);
    let list = format!("{:?}", vec!["A".to_string(), "B".to_string()]);
    assert_eq!(list, "[\"A\", \"B\"]");
    assert_eq!(
        props_of(&table, 1),
        vec![
            ("cause".to_string(), "boom".to_string()),
            ("exception.message".to_string(), "boom".to_string()),
            ("cause.chain".to_string(), list.clone()),
            ("exception.stacktrace".to_string(), list),
        ]
    );
}

#[test]
fn message_field_not_special_for_spans() {
    // Unlike the event variant, a span-creation record keeps a field named
    // `message` like any other field.
    let layer = bare_layer();
    let mut table = SpanTable::new();
    let args = span_args(
        "s",
        ParentDecl::Root,
        one_field("message", FieldValue::Str("hello".to_string())),
    );
    layer.on_new_span(&mut table, 1, &args);
    assert_eq!(props_of(&table, 1), vec![("message".to_string(), "hello".to_string())]);
}

#[test]
fn explicit_parent_with_record_yields_child() {
    let layer = bare_layer();
    let mut table = SpanTable::new();
    layer.on_new_span(&mut table, 1, &span_args("parent", ParentDecl::Root, vec![]));
    let child = span_args("child", ParentDecl::Explicit { id: 1, live: true }, vec![]);
    layer.on_new_span(&mut table, 2, &child);
    assert_eq!(table.get(2).unwrap().origin, SpanOrigin::ChildOf(1));
}

#[test]
fn unresolvable_explicit_parent_demotes_to_contextual() {
    // A declared-but-invisible parent is not an error: the span resolves as
    // if it had declared no explicit parent, so a recorded current span
    // makes it a child of that span.
    let layer = bare_layer();
    let mut table = SpanTable::new();
    layer.on_new_span(&mut table, 1, &span_args("current", ParentDecl::Root, vec![]));
    let mut child = span_args("child", ParentDecl::Explicit { id: 9, live: false }, vec![]);
    child.current = Some(1);
    layer.on_new_span(&mut table, 2, &child);
    assert_eq!(table.get(2).unwrap().origin, SpanOrigin::ChildOf(1));
}

#[test]
fn unresolvable_explicit_parent_without_context_yields_root() {
    // The same demotion with nothing current and no ambient parent ends in
    // a fresh root.
    let layer = bare_layer();
    let mut table = SpanTable::new();
    let child = span_args("child", ParentDecl::Explicit { id: 9, live: false }, vec![]);
    layer.on_new_span(&mut table, 2, &child);
    assert_eq!(table.get(2).unwrap().origin, SpanOrigin::NewRoot);
}

#[test]
fn live_explicit_parent_without_record_yields_detached() {
    let layer = bare_layer();
    let mut table = SpanTable::new();
    let child = span_args("child", ParentDecl::Explicit { id: 9, live: true }, vec![]);
    layer.on_new_span(&mut table, 2, &child);
    assert_eq!(table.get(2).unwrap().origin, SpanOrigin::Detached);
}

#[test]
fn contextual_span_with_recorded_current_yields_child() {
    let layer = bare_layer();
    let mut table = SpanTable::new();
    layer.on_new_span(&mut table, 1, &span_args("parent", ParentDecl::Root, vec![]));
    let mut child = span_args("child", ParentDecl::Contextual, vec![]);
    child.current = Some(1);
    layer.on_new_span(&mut table, 2, &child);
    assert_eq!(table.get(2).unwrap().origin, SpanOrigin::ChildOf(1));
}

#[test]
fn contextual_span_with_ambient_parent_yields_ambient_child() {
    let layer = bare_layer();
    let mut table = SpanTable::new();
    let ambient = fastrace::Span::root("ambient", fastrace::prelude::SpanContext::random());
    let _guard = ambient.set_local_parent();
    let mut child = span_args("child", ParentDecl::Contextual, vec![]);
    // The embedder reads the ambient flag from the backend at notification
    // time; here the guard above has made a local parent active.
    child.ambient = fastrace::prelude::SpanContext::current_local_parent().is_some();
    assert!(child.ambient);
    layer.on_new_span(&mut table, 2, &child);
    assert_eq!(table.get(2).unwrap().origin, SpanOrigin::AmbientChild);
}

#[test]
fn contextual_span_with_nothing_yields_root() {
    let layer = bare_layer();
    let mut table = SpanTable::new();
    let child = span_args("child", ParentDecl::Contextual, vec![]);
    layer.on_new_span(&mut table, 2, &child);
    assert_eq!(table.get(2).unwrap().origin, SpanOrigin::NewRoot);
}

#[test]
fn explicit_root_ignores_ambient_state() {
    let layer = bare_layer();
    let mut table = SpanTable::new();
    layer.on_new_span(&mut table, 1, &span_args("parent", ParentDecl::Root, vec![]));
    let ambient = fastrace::Span::root("ambient", fastrace::prelude::SpanContext::random());
    let _guard = ambient.set_local_parent();
    let mut child = span_args("child", ParentDecl::Root, vec![]);
    child.current = Some(1);
    child.ambient = true;
    layer.on_new_span(&mut table, 2, &child);
    assert_eq!(table.get(2).unwrap().origin, SpanOrigin::NewRoot);
}

#[test]
fn repeated_update_appends_not_overwrites() {
    let layer = bare_layer();
    let mut table = SpanTable::new();
    layer.on_new_span(&mut table, 1, &span_args("s", ParentDecl::Root, vec![]));
    layer.on_record(&mut table, 1, &one_field("k", FieldValue::I64(1)));
    let after_one = props_of(&table, 1).len();
    layer.on_record(&mut table, 1, &one_field("k", FieldValue::I64(2)));
    let props = props_of(&table, 1);
    assert_eq!(props.len(), after_one + 1);
    assert_eq!(
        props,
        vec![
            ("k".to_string(), "1".to_string()),
            ("k".to_string(), "2".to_string()),
        ]
    );
}

#[test]
fn update_for_unknown_identifier_is_absorbed() {
    let layer = bare_layer();
    let mut table = SpanTable::new();
    layer.on_record(&mut table, 5, &one_field("k", FieldValue::I64(1)));
    assert_eq!(table.len(), 0);
    assert!(table.get(5).is_none());
}

#[test]
fn default_configuration_enrichment() {
    // Location and thread properties are on by default; the per-span level
    // property is off by default.
    let layer = FastraceCompatLayer::new();
    let mut table = SpanTable::new();
    let mut args = span_args("s", ParentDecl::Root, vec![]);
    args.callsite = CallSite {
        file: Some("src/a.rs".to_string()),
        module: Some("a::b".to_string()),
        line: Some(12),
    };
    args.thread = ThreadInfo { id: 3, name: Some("worker".to_string()) };
    layer.on_new_span(&mut table, 1, &args);
    let props = props_of(&table, 1);
    assert_eq!(
        props,
        vec![
            ("code.filepath".to_string(), "src/a.rs".to_string()),
            ("code.namespace".to_string(), "a::b".to_string()),
            ("code.lineno".to_string(), "12".to_string()),
            ("thread.id".to_string(), "3".to_string()),
            ("thread.name".to_string(), "worker".to_string()),
        ]
    );
    assert!(props.iter().all(|(k, _)| k != "level"));
}

#[test]
fn absent_callsite_parts_are_omitted() {
    let layer = FastraceCompatLayer::new().with_threads(false);
    let mut table = SpanTable::new();
    let mut args = span_args("s", ParentDecl::Root, vec![]);
    args.callsite = CallSite { file: None, module: Some("a::b".to_string()), line: None };
    layer.on_new_span(&mut table, 1, &args);
    assert_eq!(props_of(&table, 1), vec![("code.namespace".to_string(), "a::b".to_string())]);
}

#[test]
fn with_level_adds_span_level_property() {
    let layer = bare_layer().with_level(true);
    let mut table = SpanTable::new();
    let args = span_args("s", ParentDecl::Root, vec![]);
    layer.on_new_span(&mut table, 1, &args);
    assert_eq!(props_of(&table, 1), vec![("level".to_string(), "INFO".to_string())]);
}

#[test]
fn same_thread_identifier_gives_identical_thread_id_values() {
    let layer = FastraceCompatLayer::new().with_location(false);
    let mut table = SpanTable::new();
    let mut a = span_args("a", ParentDecl::Root, vec![]);
    a.thread = ThreadInfo { id: 11, name: None };
    let mut b = span_args("b", ParentDecl::Root, vec![]);
    b.thread = ThreadInfo { id: 11, name: None };
    layer.on_new_span(&mut table, 1, &a);
    layer.on_new_span(&mut table, 2, &b);
    let ta = props_of(&table, 1);
    let tb = props_of(&table, 2);
    assert_eq!(ta[0], ("thread.id".to_string(), "11".to_string()));
    assert_eq!(ta[0], tb[0]);
}

#[test]
fn builder_toggles_are_independent() {
    let layer = FastraceCompatLayer::new()
        .with_location(false)
        .with_threads(false)
        .with_level(true);
    assert!(!layer.location);
    assert!(!layer.with_threads);
    assert!(layer.with_level);
    let d = FastraceCompatLayer::default();
    assert!(d.location);
    assert!(d.with_threads);
    assert!(!d.with_level);
}
